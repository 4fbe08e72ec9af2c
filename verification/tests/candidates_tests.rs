use autoconfig::candidates::build_well_known_urls;
use autoconfig::candidates::dedup_urls;

#[test]
fn well_known_urls_are_exactly_three_in_fixed_order() {
    let urls = build_well_known_urls("example.com");
    assert_eq!(urls.len(), 3);
    assert_eq!(urls[0], "http://autoconfig.example.com/mail/config-v1.1.xml");
    assert_eq!(
        urls[1],
        "http://example.com/.well-known/autoconfig/mail/config-v1.1.xml"
    );
    assert_eq!(urls[2], "https://autoconfig.thunderbird.net/v1.1/example.com");
}

#[test]
fn well_known_urls_substitute_another_domain() {
    let urls = build_well_known_urls("mail.test");
    assert_eq!(urls[0], "http://autoconfig.mail.test/mail/config-v1.1.xml");
    assert_eq!(urls[2], "https://autoconfig.thunderbird.net/v1.1/mail.test");
}

#[test]
fn dedup_keeps_first_occurrence_order() {
    let urls = vec![
        "a".to_string(),
        "b".to_string(),
        "a".to_string(),
        "c".to_string(),
        "b".to_string(),
    ];
    let deduped = dedup_urls(urls);
    assert_eq!(deduped, vec!["a".to_string(), "b".to_string(), "c".to_string()]);
}

#[test]
fn dedup_of_distinct_list_changes_nothing() {
    let urls = vec!["a".to_string(), "b".to_string()];
    let deduped = dedup_urls(urls);
    assert_eq!(deduped, vec!["a".to_string(), "b".to_string()]);
}
