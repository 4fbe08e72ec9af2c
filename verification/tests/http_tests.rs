use autoconfig::http::validate_response;
use autoconfig::http::FetchResponse;
use autoconfig::ErrorKind;

#[test]
fn xml_success_response_passes_validation() {
    let resp = FetchResponse {
        status: 200,
        content_type: Some("text/xml; charset=utf-8".to_string()),
        body: b"<clientConfig/>".to_vec(),
    };
    let body = validate_response(resp).unwrap();
    assert_eq!(body, b"<clientConfig/>".to_vec());
}

#[test]
fn application_xml_success_response_passes_validation() {
    let resp = FetchResponse {
        status: 204,
        content_type: Some("application/xml".to_string()),
        body: Vec::new(),
    };
    assert!(validate_response(resp).is_ok());
}

#[test]
fn html_content_type_is_an_invalid_response() {
    let resp = FetchResponse {
        status: 200,
        content_type: Some("text/html".to_string()),
        body: b"<html></html>".to_vec(),
    };
    let e = validate_response(resp).unwrap_err();
    assert!(matches!(e.kind(), ErrorKind::InvalidResponse));
}

#[test]
fn missing_content_type_is_an_invalid_response() {
    let resp = FetchResponse {
        status: 200,
        content_type: None,
        body: Vec::new(),
    };
    let e = validate_response(resp).unwrap_err();
    assert!(matches!(e.kind(), ErrorKind::InvalidResponse));
}

#[test]
fn error_status_is_invalid_whatever_the_content_type() {
    let resp = FetchResponse {
        status: 404,
        content_type: Some("text/xml".to_string()),
        body: b"not here".to_vec(),
    };
    let e = validate_response(resp).unwrap_err();
    assert!(matches!(e.kind(), ErrorKind::InvalidResponse));
    assert_eq!(e.message(), "not here");
}

#[test]
fn redirect_status_is_an_invalid_response() {
    let resp = FetchResponse {
        status: 301,
        content_type: Some("application/xml".to_string()),
        body: Vec::new(),
    };
    assert!(validate_response(resp).is_err());
}
