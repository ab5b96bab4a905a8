use cg_req::response::{retry_after_seconds, validate_response, ValidateResponseError};

fn decode(body: &str) -> Result<Vec<u32>, String> {
    serde_json::from_str::<Vec<u32>>(body).map_err(|e| e.to_string())
}

#[test]
fn ok_status_decodes() {
    assert_eq!(validate_response(200, decode("[1,2,3]"), None).unwrap(), vec![1, 2, 3]);
}

#[test]
fn ok_status_malformed_body() {
    assert!(matches!(
        validate_response(200, decode("{oops"), None),
        Err(ValidateResponseError::FailToParse(_))
    ));
}

#[test]
fn too_many_requests_with_wait() {
    assert!(matches!(
        validate_response(429, decode(""), Some("5")),
        Err(ValidateResponseError::Banned(Some(5)))
    ));
}

#[test]
fn too_many_requests_without_wait() {
    assert!(matches!(validate_response(429, decode("[]"), None), Err(ValidateResponseError::Banned(None))));
    assert!(matches!(
        validate_response(429, decode("[]"), Some("soon")),
        Err(ValidateResponseError::Banned(None))
    ));
}

#[test]
fn other_status_unexpected() {
    assert!(matches!(
        validate_response(500, decode("[1]"), None),
        Err(ValidateResponseError::UnexpectedResponseCode(500))
    ));
    assert!(matches!(
        validate_response(404, decode("[1]"), Some("3")),
        Err(ValidateResponseError::UnexpectedResponseCode(404))
    ));
}

#[test]
fn retry_after_parsing() {
    assert_eq!(retry_after_seconds(Some("0")), Some(0));
    assert_eq!(retry_after_seconds(Some("120")), Some(120));
    assert_eq!(retry_after_seconds(Some("4294967295")), Some(u32::MAX));
    assert_eq!(retry_after_seconds(Some("4294967296")), None);
    assert_eq!(retry_after_seconds(Some("")), None);
    assert_eq!(retry_after_seconds(Some("-1")), None);
    assert_eq!(retry_after_seconds(Some("+5")), Some(5));
    assert_eq!(retry_after_seconds(Some("1.5")), None);
    assert_eq!(retry_after_seconds(None), None);
}
