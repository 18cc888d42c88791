use xtb_client::client::symbol_scoped_key;
use xtb_client::client::StreamManager;
use xtb_client::json::JsonValue;
use xtb_client::schema::messages::SubscribeRequest;
use xtb_client::schema::messages::UnsubscribeRequest;
use xtb_client::stream_connection::assemble_subscribe;
use xtb_client::stream_connection::subscribe_frame_text;
use xtb_client::stream_connection::unsubscribe_frame_text;
use xtb_client::stream_connection::XtbStreamConnectionError;

#[test]
fn one_subscribe_frame_for_two_consumers_one_unsubscribe_after_both_leave() {
    let mut manager = StreamManager::new();
    let key = symbol_scoped_key("candle", "EURUSD");
    assert_eq!(key, "candle.EURUSD");

    // Only the first consumer causes a subscribe frame.
    assert!(manager.subscribe(&key));
    assert!(!manager.subscribe(&key));

    // Only the second departure causes an unsubscribe frame.
    assert!(!manager.unsubscribe(&key));
    assert!(manager.unsubscribe(&key));

    // The entry was collected: a new consumer subscribes afresh.
    assert!(manager.subscribe(&key));
}

#[test]
fn distinct_keys_are_independent_subscriptions() {
    let mut manager = StreamManager::new();
    assert!(manager.subscribe("candle.EURUSD"));
    assert!(manager.subscribe("candle.GBPUSD"));
    assert!(manager.subscribe("balance"));
    assert!(manager.unsubscribe("candle.GBPUSD"));
    assert!(!manager.subscribe("candle.EURUSD"));
}

#[test]
fn unsubscribe_of_an_unknown_key_still_sends_the_frame() {
    let mut manager = StreamManager::new();
    assert!(manager.unsubscribe("news"));
}

#[test]
fn subscribe_frame_merges_the_arguments() {
    let request = SubscribeRequest::default()
        .with_command("getCandles")
        .with_stream_session_id("8469308861804289383");
    let arguments = JsonValue::Obj(vec![(
        "symbol".to_owned(),
        JsonValue::Str("EURUSD".to_owned()),
    )]);
    let text = subscribe_frame_text(&request, Some(arguments)).unwrap();
    assert_eq!(
        text,
        r#"{"command":"getCandles","streamSessionId":"8469308861804289383","symbol":"EURUSD"}"#
    );
}

#[test]
fn subscribe_frame_without_arguments_is_the_bare_request() {
    let request = SubscribeRequest::default().with_command("getKeepAlive").with_stream_session_id(
        "sess",
    );
    let text = subscribe_frame_text(&request, None).unwrap();
    assert_eq!(text, r#"{"command":"getKeepAlive","streamSessionId":"sess"}"#);
    let text = subscribe_frame_text(&request, Some(JsonValue::Null)).unwrap();
    assert_eq!(text, r#"{"command":"getKeepAlive","streamSessionId":"sess"}"#);
}

#[test]
fn subscribe_rejects_non_object_arguments() {
    let request = SubscribeRequest::default().with_command("getCandles").with_stream_session_id(
        "sess",
    );
    match assemble_subscribe(&request, Some(JsonValue::Str("EURUSD".to_owned()))) {
        Err(XtbStreamConnectionError::InvalidArgumentsType) => (),
        other => panic!("expected an invalid-arguments error, got {:?}", other),
    }
}

#[test]
fn merged_arguments_replace_colliding_fields() {
    let request = SubscribeRequest::default().with_command("getCandles").with_stream_session_id(
        "sess",
    );
    let arguments = JsonValue::Obj(vec![(
        "command".to_owned(),
        JsonValue::Str("other".to_owned()),
    )]);
    let text = subscribe_frame_text(&request, Some(arguments)).unwrap();
    assert_eq!(text, r#"{"command":"other","streamSessionId":"sess"}"#);
}

#[test]
fn unsubscribe_frame_carries_the_stop_command() {
    let request = UnsubscribeRequest::default().with_command("stopCandles");
    let arguments = JsonValue::Obj(vec![(
        "symbol".to_owned(),
        JsonValue::Str("EURUSD".to_owned()),
    )]);
    let text = unsubscribe_frame_text(&request, Some(arguments)).unwrap();
    assert_eq!(text, r#"{"command":"stopCandles","symbol":"EURUSD"}"#);
}
