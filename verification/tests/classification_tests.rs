use xtb_client::api::api_errors::XtbErrorCode;
use xtb_client::json::JsonValue;
use xtb_client::message_processing::process_message;
use xtb_client::message_processing::MessageProcessingError;
use xtb_client::message_processing::ProcessedMessage;

#[test]
fn process_invalid_message_not_json() {
    let err = process_message(r#"{foo bar}"#).unwrap_err();
    match err {
        MessageProcessingError::DeserializationError(_) => (),
        _ => panic!("Expected XtbConnectionError::DeserializationError"),
    };
}

#[test]
fn process_valid_response_with_data() {
    let payload = r#"{"returnData": {"field": 12}, "status": true, "customTag": "myTag"}"#;
    let response = process_message(payload).unwrap().unwrap();
    assert!(response.status);
    assert_eq!(response.custom_tag.as_deref(), Some("myTag"));
    match response.return_data {
        Some(JsonValue::Obj(entries)) => {
            assert_eq!(entries.len(), 1);
            assert_eq!(entries[0].0, "field");
            match &entries[0].1 {
                JsonValue::Num(n) => assert_eq!(n, "12"),
                other => panic!("unexpected field payload: {:?}", other),
            }
        },
        other => panic!("unexpected payload: {:?}", other),
    }
}

#[test]
fn process_valid_response_without_data() {
    let payload = r#"{"status": true, "customTag": "myTag"}"#;
    let response = process_message(payload).unwrap().unwrap();
    assert!(response.status);
    assert!(response.return_data.is_none());
    assert_eq!(response.custom_tag.as_deref(), Some("myTag"));
    assert!(response.stream_session_id.is_none());
}

#[test]
fn process_valid_error_response() {
    let payload = r#"{"status": false, "errorCode": "BE001", "errorDescr": "BE001", "customTag": "myTag"}"#;
    let error_response = process_message(payload).unwrap().unwrap_err();
    assert_eq!(error_response.custom_tag.as_deref(), Some("myTag"));
    assert_eq!(error_response.error_code, XtbErrorCode::BE001);
    assert!(!error_response.error_descr.unwrap().is_empty());
}

#[test]
fn process_error_response_with_open_range_code() {
    let payload = r#"{"status": false, "errorCode": "SE123"}"#;
    let error_response = process_message(payload).unwrap().unwrap_err();
    assert_eq!(error_response.error_code, XtbErrorCode::InternalServerError(123));
    assert!(error_response.error_descr.is_none());
    assert!(error_response.custom_tag.is_none());
}

#[test]
fn process_message_without_status_is_malformed() {
    let payload = r#"{"errorCode": "BE001", "errorDescr": "BE001", "customTag": "myTag"}"#;
    let err = process_message(payload).unwrap_err();
    match err {
        MessageProcessingError::MalformedResponse(_) => (),
        other => panic!("Expected XtbConnectionError::MalformedResponse, but {:?}", other),
    };
}

#[test]
fn process_message_on_non_object_is_malformed() {
    for payload in [r#"3"#, r#""text""#, r#"[1,2]"#, r#"null"#] {
        let err = process_message(payload).unwrap_err();
        match err {
            MessageProcessingError::MalformedResponse(_) => (),
            other => panic!("Expected MalformedResponse for {:?}, but {:?}", payload, other),
        };
    }
}

#[test]
fn process_message_with_boolean_status_of_wrong_type() {
    let err = process_message(r#"{"status": "true"}"#).unwrap_err();
    match err {
        MessageProcessingError::MalformedResponse(_) => (),
        other => panic!("Expected MalformedResponse, but {:?}", other),
    };
}

#[test]
fn process_message_with_mistyped_tag_is_rejected() {
    let err = process_message(r#"{"status": true, "customTag": 7}"#).unwrap_err();
    match err {
        MessageProcessingError::DeserializationError(_) => (),
        other => panic!("Expected DeserializationError, but {:?}", other),
    };
}

#[test]
fn unwrap_picks_the_success_envelope() {
    let message = process_message(r#"{"status": true, "customTag": "t"}"#).unwrap();
    match &message {
        ProcessedMessage::Response(_) => (),
        other => panic!("expected a success envelope, got {:?}", other),
    }
    let response = message.unwrap();
    assert!(response.status);
}
