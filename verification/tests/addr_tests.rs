use autoconfig::addr::parse_domain;
use autoconfig::addr::validate_email;
use autoconfig::ErrorKind;

#[test]
fn parse_domain_of_valid_address() {
    let d = parse_domain("local@example.com").unwrap();
    assert_eq!(d, "example.com");
}

#[test]
fn parse_domain_without_at_is_bad_input() {
    let e = parse_domain("localexample.com").unwrap_err();
    assert!(matches!(e.kind(), ErrorKind::BadInput));
}

#[test]
fn parse_domain_with_empty_domain_is_bad_input() {
    let e = parse_domain("local@").unwrap_err();
    assert!(matches!(e.kind(), ErrorKind::BadInput));
}

#[test]
fn parse_domain_with_empty_local_part_is_bad_input() {
    let e = parse_domain("@example.com").unwrap_err();
    assert!(matches!(e.kind(), ErrorKind::BadInput));
}

#[test]
fn parse_domain_with_two_ats_is_bad_input() {
    let e = parse_domain("a@b@c").unwrap_err();
    assert!(matches!(e.kind(), ErrorKind::BadInput));
}

#[test]
fn validate_email_accepts_plain_address() {
    assert!(validate_email("someone@mail.example.org"));
}

#[test]
fn validate_email_rejects_empty_string() {
    assert!(!validate_email(""));
}

#[test]
fn validate_email_rejects_lone_at() {
    assert!(!validate_email("@"));
}

#[test]
fn parse_domain_error_carries_the_fixed_message() {
    let e = parse_domain("no-at-sign").unwrap_err();
    assert_eq!(e.message(), "Given email address is invalid");
}
