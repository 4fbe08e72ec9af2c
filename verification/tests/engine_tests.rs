use autoconfig::config::Config;
use autoconfig::config::EmailProvider;
use autoconfig::engine::Resolution;
use autoconfig::engine::Step;
use autoconfig::error::Error;
use autoconfig::error::ErrorKind;

fn provider(id: &str, domains: &[&str]) -> EmailProvider {
    EmailProvider {
        id: id.to_string(),
        domains: domains.iter().map(|d| d.to_string()).collect(),
        display_name: None,
        display_short_name: None,
        incoming_servers: Vec::new(),
        outgoing_servers: Vec::new(),
    }
}

fn config(id: &str) -> Config {
    Config { email_provider: provider(id, &[]) }
}

#[test]
fn candidates_are_well_known_then_discovered() {
    let records = vec![b"mailconf=https://conf.example.com/mail.xml".to_vec()];
    let r = Resolution::new("example.com", Ok(records));
    let c = r.candidates();
    assert_eq!(c.len(), 4);
    assert_eq!(c[0], "http://autoconfig.example.com/mail/config-v1.1.xml");
    assert_eq!(c[1], "http://example.com/.well-known/autoconfig/mail/config-v1.1.xml");
    assert_eq!(c[2], "https://autoconfig.thunderbird.net/v1.1/example.com");
    assert_eq!(c[3], "https://conf.example.com/mail.xml");
}

#[test]
fn discovered_url_equal_to_well_known_is_kept_once_at_front_position() {
    let records = vec![
        b"mailconf=https://autoconfig.thunderbird.net/v1.1/example.com".to_vec(),
        b"mailconf=https://conf.example.com/mail.xml".to_vec(),
    ];
    let r = Resolution::new("example.com", Ok(records));
    let c = r.candidates();
    assert_eq!(c.len(), 4);
    assert_eq!(c[2], "https://autoconfig.thunderbird.net/v1.1/example.com");
    assert_eq!(c[3], "https://conf.example.com/mail.xml");
}

#[test]
fn failed_discovery_leaves_the_three_well_known_candidates() {
    let e = Error::new(ErrorKind::Resolve("no answer".to_string()), "Error resolving dns".to_string());
    let r = Resolution::new("example.com", Err(e));
    assert_eq!(r.candidates().len(), 3);
    assert!(r.discovery_error.is_some());
}

#[test]
fn first_success_wins_over_an_earlier_failure() {
    let mut r = Resolution::new("example.com", Ok(Vec::new()));
    let fail = Error::new(ErrorKind::InvalidResponse, "wrong content type".to_string());
    let step = r.on_outcome(0, Err(fail));
    assert!(matches!(step, Step::Pending));
    let step = r.on_outcome(1, Ok(config("example.com")));
    match step {
        Step::Resolved(c) => assert_eq!(c.email_provider().id(), "example.com"),
        _ => panic!("a success must resolve at once"),
    }
}

#[test]
fn exhaustion_aggregates_one_error_per_candidate_in_attempt_order() {
    let mut r = Resolution::new("example.com", Ok(Vec::new()));
    assert_eq!(r.candidates().len(), 3);
    // report completions out of order: slots still fill by candidate index
    let e2 = Error::new(ErrorKind::InvalidResponse, "second".to_string());
    let e0 = Error::new(ErrorKind::Transport("refused".to_string()), "first".to_string());
    let e1 = Error::new(ErrorKind::ParseXml("bad schema".to_string()), "third".to_string());
    assert!(matches!(r.on_outcome(2, Err(e2)), Step::Pending));
    assert!(matches!(r.on_outcome(0, Err(e0)), Step::Pending));
    let step = r.on_outcome(1, Err(e1));
    assert!(matches!(step, Step::Exhausted));
    let err = r.into_error();
    assert_eq!(err.message(), "Could not find a valid config");
    match err.kind() {
        ErrorKind::NotFound(list) => {
            assert_eq!(list.len(), 3);
            assert_eq!(list[0].message(), "first");
            assert_eq!(list[1].message(), "third");
            assert_eq!(list[2].message(), "second");
        }
        _ => panic!("exhaustion must aggregate into NotFound"),
    }
}

#[test]
fn discovery_error_stands_before_the_candidate_errors() {
    let disc = Error::new(ErrorKind::Resolve("lookup failed".to_string()), "dns".to_string());
    let mut r = Resolution::new("example.com", Err(disc));
    for i in 0..3 {
        let e = Error::new(ErrorKind::InvalidResponse, format!("candidate {}", i));
        r.on_outcome(i, Err(e));
    }
    let err = r.into_error();
    match err.kind() {
        ErrorKind::NotFound(list) => {
            assert_eq!(list.len(), 4);
            assert_eq!(list[0].message(), "dns");
            assert_eq!(list[1].message(), "candidate 0");
            assert_eq!(list[2].message(), "candidate 1");
            assert_eq!(list[3].message(), "candidate 2");
        }
        _ => panic!("exhaustion must aggregate into NotFound"),
    }
}

#[test]
fn provider_getters_expose_id_and_domains() {
    let p = provider("googlemail.com", &["gmail.com", "googlemail.com"]);
    assert_eq!(p.id(), "googlemail.com");
    assert!(p.serves_domain("gmail.com"));
    assert!(!p.serves_domain("example.com"));
}

#[test]
fn error_new_keeps_kind_and_message() {
    let e = Error::new(ErrorKind::BadInput, "bad address".to_string());
    assert!(matches!(e.kind(), ErrorKind::BadInput));
    assert_eq!(e.message(), "bad address");
}

#[test]
fn select_provider_prefers_the_one_serving_the_domain() {
    let providers = vec![
        provider("first.example", &["first.example"]),
        provider("second.example", &["second.example", "alias.example"]),
    ];
    let chosen = autoconfig::config::select_provider(providers, "alias.example").unwrap();
    assert_eq!(chosen.id(), "second.example");
}

#[test]
fn select_provider_falls_back_to_the_first() {
    let providers = vec![
        provider("first.example", &["first.example"]),
        provider("second.example", &["second.example"]),
    ];
    let chosen = autoconfig::config::select_provider(providers, "elsewhere.example").unwrap();
    assert_eq!(chosen.id(), "first.example");
}

#[test]
fn select_provider_of_nothing_is_none() {
    assert!(autoconfig::config::select_provider(Vec::new(), "example.com").is_none());
}
