use wbmrs::config::{Config, ConfigError, Email, Overrides, Ping};

fn no_overrides() -> Overrides {
    Overrides {
        verbose: false,
        timeout: None,
        urls: Vec::new(),
        emails: Vec::new(),
        pings: Vec::new(),
        sender: None,
    }
}

#[test]
fn config_valid() {
    let config = Config::from_defaults();
    println!("Config: {:#?}", config);
    assert_eq!(config.verbose, Some(false));
    assert_eq!(config.timeout, 60);

    let urls: Vec<String> = Vec::new();
    assert_eq!(config.urls, urls);

    if let None = config.emails {
    } else {
        panic!("Emails should be empty")
    }

    if let None = config.pings {
    } else {
        panic!("Pings should be empty")
    }

    if let None = config.sender {
    } else {
        panic!("Sender should be empty")
    }
}

#[test]
fn apply_nothing_keeps_config() {
    let mut config = Config::from_defaults();
    assert_eq!(config.apply(no_overrides()), Ok(()));
    assert_eq!(config.verbose, Some(false));
    assert_eq!(config.timeout, 60);
    assert!(config.urls.is_empty());
    assert!(config.emails.is_none());
    assert!(config.pings.is_none());
    assert!(config.sender.is_none());
}

#[test]
fn apply_overrides_and_appends() {
    let mut config = Config::from_defaults();
    config.urls.push("https://a.test/".to_string());
    config.emails = Some(vec![Email {
        address: "first@example.com".to_string(),
        content: Some("hi".to_string()),
    }]);
    let o = Overrides {
        verbose: true,
        timeout: Some("15".to_string()),
        urls: vec!["https://b.test/".to_string()],
        emails: vec!["second@example.com".to_string()],
        pings: vec!["https://hook.test/".to_string()],
        sender: Some("me@example.com".to_string()),
    };
    assert_eq!(config.apply(o), Ok(()));
    assert_eq!(config.verbose, Some(true));
    assert_eq!(config.timeout, 15);
    assert_eq!(config.urls, vec!["https://a.test/".to_string(), "https://b.test/".to_string()]);
    let emails = config.emails.unwrap();
    assert_eq!(emails.len(), 2);
    assert_eq!(emails[0].address, "first@example.com");
    assert_eq!(emails[0].content, Some("hi".to_string()));
    assert_eq!(emails[1].address, "second@example.com");
    assert_eq!(emails[1].content, None);
    let pings: Vec<Ping> = config.pings.unwrap();
    assert_eq!(pings.len(), 1);
    assert_eq!(pings[0].url, "https://hook.test/");
    assert_eq!(pings[0].content, None);
    assert_eq!(config.sender, Some("me@example.com".to_string()));
}

#[test]
fn apply_timeout_forms() {
    let mut config = Config::from_defaults();
    let mut o = no_overrides();
    o.timeout = Some("+7".to_string());
    assert_eq!(config.apply(o), Ok(()));
    assert_eq!(config.timeout, 7);

    let mut o = no_overrides();
    o.timeout = Some("4294967295".to_string());
    assert_eq!(config.apply(o), Ok(()));
    assert_eq!(config.timeout, 4294967295);
}

#[test]
fn apply_invalid_timeout_changes_nothing() {
    for bad in ["", "abc", "-1", "4294967296", " 5", "+"] {
        let mut config = Config::from_defaults();
        let mut o = no_overrides();
        o.verbose = true;
        o.timeout = Some(bad.to_string());
        o.urls = vec!["https://a.test/".to_string()];
        assert_eq!(config.apply(o), Err(ConfigError::InvalidTimeout));
        assert_eq!(config.verbose, Some(false));
        assert_eq!(config.timeout, 60);
        assert!(config.urls.is_empty());
    }
}
