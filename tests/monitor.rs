use wbmrs::config::{Config, Email, Ping};
use wbmrs::digest::digest;
use wbmrs::monitor::{Action, Monitor};
use wbmrs::notify::Delivery;
use wbmrs::urls::{FetchError, Outcome};

const PAGE: &str = "https://example.test/a";

fn watched(config: &mut Config) {
    config.urls = vec![PAGE.to_string()];
}

fn expect_fetch(m: &Monitor) {
    match m.next_action() {
        Action::Fetch(u) => assert_eq!(u, PAGE),
        other => panic!("expected a fetch, got {:?}", other),
    }
}

#[test]
fn three_passes_over_one_page() {
    let mut config = Config::from_defaults();
    watched(&mut config);
    config.pings = Some(vec![Ping { url: "https://hook.test/".to_string(), content: None }]);
    config.emails = Some(vec![Email { address: "a@example.com".to_string(), content: None }]);
    let mut m = Monitor::new(config);

    // First pass: the fingerprint is recorded and nothing is sent.
    expect_fetch(&m);
    assert!(matches!(m.on_fetched(Ok("v1".to_string())), Outcome::Changed(_)));
    assert_eq!(m.state().fingerprint(0), &digest("v1"));

    // Second pass, at once: same content.
    expect_fetch(&m);
    assert!(matches!(m.on_fetched(Ok("v1".to_string())), Outcome::Unchanged));
    match m.next_action() {
        Action::Sleep(s) => assert_eq!(s, 3600),
        other => panic!("expected a sleep, got {:?}", other),
    }
    m.on_woke();

    // Third pass: new content.
    expect_fetch(&m);
    match m.on_fetched(Ok("v2".to_string())) {
        Outcome::Changed(h) => assert_eq!(h, digest("v2")),
        other => panic!("expected a change, got {:?}", other),
    }
    assert_eq!(m.state().fingerprint(0), &digest("v2"));
    match m.next_action() {
        Action::Deliver(Delivery::Webhook { endpoint, url, .. }) => {
            assert_eq!(endpoint, "https://hook.test/");
            assert_eq!(url, PAGE);
        }
        other => panic!("expected a webhook, got {:?}", other),
    }
    assert!(m.on_delivered(Ok(())).is_none());
    match m.next_action() {
        Action::Deliver(Delivery::Email { to, url, .. }) => {
            assert_eq!(to, "a@example.com");
            assert_eq!(url, PAGE);
        }
        other => panic!("expected an email, got {:?}", other),
    }
    assert!(m.on_delivered(Ok(())).is_none());
    assert!(m.dispatch_errors().is_empty());
    assert!(matches!(m.next_action(), Action::Sleep(3600)));
}

#[test]
fn unreachable_mail_transport_and_working_webhook() {
    let mut config = Config::from_defaults();
    watched(&mut config);
    config.emails = Some(vec![Email { address: "a@example.com".to_string(), content: None }]);
    config.pings = Some(vec![Ping { url: "https://hook.test/".to_string(), content: None }]);
    let mut m = Monitor::new(config);
    m.on_fetched(Ok("v1".to_string()));
    assert!(matches!(m.on_fetched(Ok("v2".to_string())), Outcome::Changed(_)));

    let mut webhook_calls = 0;
    loop {
        match m.next_action() {
            Action::Deliver(Delivery::Webhook { .. }) => {
                webhook_calls += 1;
                assert!(m.on_delivered(Ok(())).is_none());
            }
            Action::Deliver(Delivery::Email { .. }) => {
                let e = m.on_delivered(Err("mail transport unreachable".to_string())).unwrap();
                assert_eq!(e.recipient, "a@example.com");
            }
            _ => break,
        }
    }
    assert_eq!(webhook_calls, 1);
    let errors = m.dispatch_errors();
    assert_eq!(errors.len(), 1);
    assert_eq!(errors[0].recipient, "a@example.com");
    assert_eq!(errors[0].cause, "mail transport unreachable");
}

#[test]
fn fetch_failure_sends_nothing_and_keeps_fingerprint() {
    let mut config = Config::from_defaults();
    watched(&mut config);
    config.pings = Some(vec![Ping { url: "https://hook.test/".to_string(), content: None }]);
    let mut m = Monitor::new(config);
    m.on_fetched(Ok("v1".to_string()));
    let failure = FetchError { url: PAGE.to_string(), cause: "dns".to_string() };
    assert!(matches!(m.on_fetched(Err(failure)), Outcome::FetchFailed(_)));
    assert_eq!(m.state().fingerprint(0), &digest("v1"));
    assert!(matches!(m.next_action(), Action::Sleep(3600)));
}

#[test]
fn no_pages_sleeps_at_once() {
    let mut config = Config::from_defaults();
    config.timeout = 2;
    let m = Monitor::new(config);
    assert!(matches!(m.next_action(), Action::Sleep(120)));
}
