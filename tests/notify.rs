use wbmrs::config::{Config, Email, Ping};
use wbmrs::notify::{plan_deliveries, Delivery, Dispatch};

fn config_with_recipients() -> Config {
    let mut config = Config::from_defaults();
    config.pings = Some(vec![Ping { url: "https://hook.test/".to_string(), content: Some("Ping!".to_string()) }]);
    config.emails = Some(vec![
        Email { address: "a@example.com".to_string(), content: None },
        Email { address: "b@example.com".to_string(), content: Some("see".to_string()) },
    ]);
    config
}

#[test]
fn plan_lists_pings_then_emails() {
    let config = config_with_recipients();
    let plan = plan_deliveries(&config, &"https://example.test/a".to_string());
    assert_eq!(plan.len(), 3);
    match &plan[0] {
        Delivery::Webhook { endpoint, url, message } => {
            assert_eq!(endpoint, "https://hook.test/");
            assert_eq!(url, "https://example.test/a");
            assert_eq!(message, "Ping!");
        }
        other => panic!("expected a webhook, got {:?}", other),
    }
    match &plan[1] {
        Delivery::Email { from, to, url, message } => {
            assert_eq!(from, "wbmrs@localhost");
            assert_eq!(to, "a@example.com");
            assert_eq!(url, "https://example.test/a");
            assert_eq!(message, "");
        }
        other => panic!("expected an email, got {:?}", other),
    }
    match &plan[2] {
        Delivery::Email { to, message, .. } => {
            assert_eq!(to, "b@example.com");
            assert_eq!(message, "see");
        }
        other => panic!("expected an email, got {:?}", other),
    }
}

#[test]
fn plan_uses_configured_sender() {
    let mut config = config_with_recipients();
    config.sender = Some("me@example.com".to_string());
    let plan = plan_deliveries(&config, &"u".to_string());
    match &plan[1] {
        Delivery::Email { from, .. } => assert_eq!(from, "me@example.com"),
        other => panic!("expected an email, got {:?}", other),
    }
}

#[test]
fn plan_without_recipients_is_empty() {
    let plan = plan_deliveries(&Config::from_defaults(), &"u".to_string());
    assert!(plan.is_empty());
}

#[test]
fn failed_second_recipient_does_not_stop_the_third() {
    let mut config = Config::from_defaults();
    config.emails = Some(vec![
        Email { address: "one@example.com".to_string(), content: None },
        Email { address: "two@example.com".to_string(), content: None },
        Email { address: "three@example.com".to_string(), content: None },
    ]);
    let mut dispatch = Dispatch::new(plan_deliveries(&config, &"https://a.test/".to_string()));
    let mut reached = Vec::new();
    let mut k = 0;
    while let Some(d) = dispatch.next_delivery() {
        reached.push(d.recipient().clone());
        let result = if k == 1 { Err("mailbox unavailable".to_string()) } else { Ok(()) };
        dispatch.record(result);
        k += 1;
    }
    assert_eq!(reached, vec!["one@example.com", "two@example.com", "three@example.com"]);
    let errors = dispatch.errors();
    assert_eq!(errors.len(), 1);
    assert_eq!(errors[0].recipient, "two@example.com");
    assert_eq!(errors[0].cause, "mailbox unavailable");
}

#[test]
fn record_returns_the_error() {
    let mut dispatch = Dispatch::new(plan_deliveries(&config_with_recipients(), &"u".to_string()));
    assert!(dispatch.record(Ok(())).is_none());
    let e = dispatch.record(Err("refused".to_string())).unwrap();
    assert_eq!(e.recipient, "a@example.com");
    assert_eq!(e.cause, "refused");
    assert!(dispatch.next_delivery().is_some());
    assert!(dispatch.record(Err("timeout".to_string())).is_some());
    assert!(dispatch.next_delivery().is_none());
    assert_eq!(dispatch.errors().len(), 2);
}
