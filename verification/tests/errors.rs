//! Tests of error normalization and response interpretation.

use osapi::http::interpret_status;
use osapi::Error;

#[test]
fn test_error_from_response_with_json() {
    let body = r#"{"error": "Not found"}"#.to_string();
    let error = Error::from_response(404, body);

    match error {
        Error::Api {
            status_code,
            message,
        } => {
            assert_eq!(status_code, 404);
            assert_eq!(message, "Not found");
        }
        _ => panic!("Expected Api error"),
    }
}

#[test]
fn test_error_from_response_with_plain_text() {
    let body = "Internal Server Error".to_string();
    let error = Error::from_response(500, body);

    match error {
        Error::Api {
            status_code,
            message,
        } => {
            assert_eq!(status_code, 500);
            assert_eq!(message, "Internal Server Error");
        }
        _ => panic!("Expected Api error"),
    }
}

#[test]
fn from_response_falls_back_when_json_lacks_the_error_field() {
    let body = r#"{"message": "nope"}"#.to_string();
    match Error::from_response(400, body.clone()) {
        Error::Api { status_code, message } => {
            assert_eq!(status_code, 400);
            assert_eq!(message, body);
        }
        _ => panic!("Expected Api error"),
    }
}

#[test]
fn from_response_falls_back_when_the_error_field_is_not_a_string() {
    let body = r#"{"error": 42}"#.to_string();
    match Error::from_response(400, body.clone()) {
        Error::Api { message, .. } => assert_eq!(message, body),
        _ => panic!("Expected Api error"),
    }
}

#[test]
fn interpret_status_passes_success_bodies_through() {
    assert_eq!(interpret_status(200, "[]".to_string()).unwrap(), "[]");
    assert_eq!(interpret_status(204, String::new()).unwrap(), "");
    assert_eq!(interpret_status(299, "x".to_string()).unwrap(), "x");
}

#[test]
fn interpret_status_normalizes_failures() {
    match interpret_status(404, r#"{"error": "Not found"}"#.to_string()) {
        Err(Error::Api { status_code, message }) => {
            assert_eq!(status_code, 404);
            assert_eq!(message, "Not found");
        }
        other => panic!("expected an Api error, got {:?}", other),
    }
    assert!(interpret_status(199, String::new()).is_err());
    assert!(interpret_status(300, String::new()).is_err());
}
