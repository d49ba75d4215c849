//! Tests for the outbound error classifier

use wacloudapi::error::{classify_response, ApiErrorResponse, Error};

fn error_body(code: i32) -> String {
    format!(
        r#"{{"error": {{"message": "something went wrong", "type": "OAuthException", "code": {}, "fbtrace_id": "Atrace"}}}}"#,
        code
    )
}

#[test]
fn test_code_190_is_invalid_token_regardless_of_status() {
    assert!(matches!(
        classify_response(401, &error_body(190)),
        Error::InvalidToken
    ));
    assert!(matches!(
        classify_response(500, &error_body(190)),
        Error::InvalidToken
    ));
    assert!(matches!(
        classify_response(200, &error_body(190)),
        Error::InvalidToken
    ));
}

#[test]
fn test_rate_limit_codes_classify_as_rate_limited() {
    for code in [4, 17, 32, 613] {
        match classify_response(429, &error_body(code)) {
            Error::RateLimited { retry_after } => assert_eq!(retry_after, None),
            other => panic!("code {} classified as {:?}", code, other),
        }
    }
}

#[test]
fn test_other_codes_classify_as_generic_api_error() {
    match classify_response(400, &error_body(100)) {
        Error::Api {
            code,
            message,
            error_subcode,
            error_data,
        } => {
            assert_eq!(code, 100);
            assert_eq!(message, "something went wrong");
            assert_eq!(error_subcode, None);
            assert!(error_data.is_none());
        }
        other => panic!("classified as {:?}", other),
    }
}

#[test]
fn test_subcode_and_detail_carried_through() {
    let body = r#"{"error": {"message": "param", "code": 100, "error_subcode": 2018001,
        "error_data": {"messaging_product": "whatsapp", "details": "bad parameter"}}}"#;
    match classify_response(400, body) {
        Error::Api {
            code,
            message,
            error_subcode,
            error_data,
        } => {
            assert_eq!(code, 100);
            assert_eq!(message, "param");
            assert_eq!(error_subcode, Some(2018001));
            let data = error_data.unwrap();
            assert_eq!(data.messaging_product.as_deref(), Some("whatsapp"));
            assert_eq!(data.details.as_deref(), Some("bad parameter"));
        }
        other => panic!("classified as {:?}", other),
    }
}

#[test]
fn test_unrecognized_body_falls_back_to_status_and_verbatim_text() {
    let body = "<html>502 Bad Gateway</html>";
    match classify_response(502, body) {
        Error::Api {
            code,
            message,
            error_subcode,
            error_data,
        } => {
            assert_eq!(code, 502);
            assert_eq!(message, body);
            assert_eq!(error_subcode, None);
            assert!(error_data.is_none());
        }
        other => panic!("classified as {:?}", other),
    }
}

#[test]
fn test_valid_json_of_wrong_shape_falls_back_too() {
    let body = r#"{"message": "no error object here"}"#;
    match classify_response(500, body) {
        Error::Api { code, message, .. } => {
            assert_eq!(code, 500);
            assert_eq!(message, body);
        }
        other => panic!("classified as {:?}", other),
    }
}

#[test]
fn test_from_parsed_envelope_matches_classification() {
    let parsed = ApiErrorResponse::from_json(&error_body(190)).unwrap();
    assert!(matches!(Error::from(parsed), Error::InvalidToken));

    let parsed = ApiErrorResponse::from_json(&error_body(613)).unwrap();
    assert!(matches!(
        Error::from(parsed),
        Error::RateLimited { retry_after: None }
    ));

    let parsed = ApiErrorResponse::from_json(&error_body(33)).unwrap();
    assert!(matches!(Error::from(parsed), Error::Api { code: 33, .. }));
}

#[test]
fn test_envelope_fields_parsed_verbatim() {
    let body = r#"{"error": {"message": "m", "type": "T", "code": 7,
        "error_user_title": "t", "error_user_msg": "u", "fbtrace_id": "f"}}"#;
    let parsed = ApiErrorResponse::from_json(body).unwrap();
    assert_eq!(parsed.error.message, "m");
    assert_eq!(parsed.error.error_type.as_deref(), Some("T"));
    assert_eq!(parsed.error.code, 7);
    assert_eq!(parsed.error.error_subcode, None);
    assert_eq!(parsed.error.error_user_title.as_deref(), Some("t"));
    assert_eq!(parsed.error.error_user_msg.as_deref(), Some("u"));
    assert_eq!(parsed.error.fbtrace_id.as_deref(), Some("f"));
}
