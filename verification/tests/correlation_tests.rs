use xtb_client::connection::CommandChannelCore;
use xtb_client::connection::FrameOutcome;
use xtb_client::connection::ResponsePromiseState;
use xtb_client::json::JsonValue;
use xtb_client::message_processing::ProcessedMessage;

fn returned_text(message: ProcessedMessage) -> String {
    match message.unwrap().return_data {
        Some(JsonValue::Str(s)) => s,
        other => panic!("unexpected payload: {:?}", other),
    }
}

#[test]
fn ping_round_trip_resolves_with_empty_success() {
    let mut core = CommandChannelCore::new();
    let (request, tag) = core.build_request("ping", None);
    assert_eq!(tag, "message_1");
    assert_eq!(request.to_frame_text(), r#"{"command":"ping","customTag":"message_1"}"#);

    core.register(tag.clone());
    let outcome = core.handle_frame(r#"{"status":true,"customTag":"message_1"}"#);
    assert_eq!(outcome, FrameOutcome::Delivered);

    let response = core.take(&tag).unwrap().unwrap();
    assert!(response.status);
    assert!(response.return_data.is_none());
    assert_eq!(response.custom_tag.as_deref(), Some("message_1"));
}

#[test]
fn responses_out_of_order_are_never_swapped() {
    let mut core = CommandChannelCore::new();
    let (_request_a, tag_a) = core.build_request("getVersion", None);
    core.register(tag_a.clone());
    let (_request_b, tag_b) = core.build_request("getServerTime", None);
    core.register(tag_b.clone());
    assert_eq!(tag_a, "message_1");
    assert_eq!(tag_b, "message_2");

    // The server answers the second request first.
    let outcome = core.handle_frame(r#"{"status":true,"customTag":"message_2","returnData":"b"}"#);
    assert_eq!(outcome, FrameOutcome::Delivered);
    let outcome = core.handle_frame(r#"{"status":true,"customTag":"message_1","returnData":"a"}"#);
    assert_eq!(outcome, FrameOutcome::Delivered);

    assert_eq!(returned_text(core.take(&tag_a).unwrap()), "a");
    assert_eq!(returned_text(core.take(&tag_b).unwrap()), "b");
}

#[test]
fn a_bad_frame_keeps_later_correlations_intact() {
    let mut core = CommandChannelCore::new();
    let (_request, tag) = core.build_request("ping", None);
    core.register(tag.clone());

    assert_eq!(core.handle_frame(r#"{foo bar}"#), FrameOutcome::Rejected);
    assert!(core.take(&tag).is_none());

    let outcome = core.handle_frame(r#"{"status":true,"customTag":"message_1"}"#);
    assert_eq!(outcome, FrameOutcome::Delivered);
    assert!(core.take(&tag).is_some());
}

#[test]
fn untagged_and_unknown_frames_are_discarded() {
    let mut core = CommandChannelCore::new();
    let (_request, tag) = core.build_request("ping", None);
    core.register(tag.clone());

    assert_eq!(core.handle_frame(r#"{"status":true}"#), FrameOutcome::NoTag);
    assert_eq!(
        core.handle_frame(r#"{"status":true,"customTag":"message_9"}"#),
        FrameOutcome::NoPendingCall
    );
    assert!(core.take(&tag).is_none());

    assert_eq!(
        core.handle_frame(r#"{"status":true,"customTag":"message_1"}"#),
        FrameOutcome::Delivered
    );
    assert!(core.take(&tag).is_some());
}

#[test]
fn a_fulfilled_correlation_is_consumed_once() {
    let mut core = CommandChannelCore::new();
    let (_request, tag) = core.build_request("ping", None);
    core.register(tag.clone());
    core.handle_frame(r#"{"status":true,"customTag":"message_1"}"#);

    assert!(core.take(&tag).is_some());
    assert!(core.take(&tag).is_none());

    // The tag is gone: a late duplicate response is discarded.
    assert_eq!(
        core.handle_frame(r#"{"status":true,"customTag":"message_1"}"#),
        FrameOutcome::NoPendingCall
    );
}

#[test]
fn a_failure_envelope_reaches_its_caller() {
    let mut core = CommandChannelCore::new();
    let (_request, tag) = core.build_request("tradeTransaction", None);
    core.register(tag.clone());

    let outcome =
        core.handle_frame(r#"{"status":false,"errorCode":"BE004","customTag":"message_1"}"#);
    assert_eq!(outcome, FrameOutcome::Delivered);
    let err = core.take(&tag).unwrap().unwrap_err();
    assert_eq!(err.error_code.to_code_string(), "BE004");
}

#[test]
fn an_abandoned_correlation_can_be_collected() {
    let mut core = CommandChannelCore::new();
    let (_request, tag) = core.build_request("ping", None);
    core.register(tag.clone());

    core.forget(&tag);
    // The cell is gone: the late response is discarded, and nothing
    // can be taken.
    assert_eq!(
        core.handle_frame(r#"{"status":true,"customTag":"message_1"}"#),
        FrameOutcome::NoPendingCall
    );
    assert!(core.take(&tag).is_none());
}

#[test]
fn promise_state_delivers_once() {
    let mut state = ResponsePromiseState::new();
    assert!(state.result.is_none());
    let message =
        xtb_client::message_processing::process_message(r#"{"status":true,"customTag":"t"}"#)
            .unwrap();
    state.set_result(Ok(message));
    let taken = state.take_result();
    assert!(taken.is_some());
    assert!(state.take_result().is_none());
}

#[test]
fn null_payload_is_dropped_from_the_request() {
    let mut core = CommandChannelCore::new();
    let (request, _tag) = core.build_request("ping", Some(JsonValue::Null));
    assert_eq!(request.to_frame_text(), r#"{"command":"ping","customTag":"message_1"}"#);
}

#[test]
fn object_payload_is_kept_in_the_request() {
    let mut core = CommandChannelCore::new();
    let payload = JsonValue::Obj(vec![(
        "userId".to_owned(),
        JsonValue::Str("someone".to_owned()),
    )]);
    let (request, _tag) = core.build_request("login", Some(payload));
    assert_eq!(
        request.to_frame_text(),
        r#"{"arguments":{"userId":"someone"},"command":"login","customTag":"message_1"}"#
    );
}
