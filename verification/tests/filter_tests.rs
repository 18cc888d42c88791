use xtb_client::json::JsonValue;
use xtb_client::schema::messages::StreamDataMessage;
use xtb_client::stream_connection::parse_stream_message;
use xtb_client::stream_connection::DataMessageFilter;

fn message(command: &str, data: JsonValue) -> StreamDataMessage {
    StreamDataMessage { command: command.to_owned(), data }
}

fn symbol_message(symbol: &str) -> StreamDataMessage {
    message(
        "candle",
        JsonValue::Obj(vec![
            ("symbol".to_owned(), JsonValue::Str(symbol.to_owned())),
            ("open".to_owned(), JsonValue::Num("1.25".to_owned())),
        ]),
    )
}

#[test]
fn always() {
    let msg = StreamDataMessage::default();
    assert!(DataMessageFilter::Always.test_message(&msg));
}

#[test]
fn never() {
    let msg = StreamDataMessage::default();
    assert!(!DataMessageFilter::Never.test_message(&msg));
}

#[test]
fn command_filter_compares_the_name() {
    let msg = message("command", JsonValue::Null);
    assert!(DataMessageFilter::Command("command".to_owned()).test_message(&msg));
    assert!(!DataMessageFilter::Command("other_command".to_owned()).test_message(&msg));
}

#[test]
fn field_value_matches_the_payload_field() {
    let filter = DataMessageFilter::FieldValue {
        name: "symbol".to_owned(),
        value: JsonValue::Str("EURUSD".to_owned()),
    };
    assert!(filter.test_message(&symbol_message("EURUSD")));
    assert!(!filter.test_message(&symbol_message("GBPUSD")));
    assert!(!filter.test_message(&message("candle", JsonValue::Null)));
    assert!(!filter.test_message(&message("candle", JsonValue::Str("EURUSD".to_owned()))));
    assert!(!filter.test_message(&message("candle", JsonValue::Obj(vec![]))));
}

#[test]
fn field_value_compares_numbers_by_their_text() {
    let filter = DataMessageFilter::FieldValue {
        name: "field".to_owned(),
        value: JsonValue::Str("value".to_owned()),
    };
    let with_number = message(
        "",
        JsonValue::Obj(vec![("field".to_owned(), JsonValue::Num("10".to_owned()))]),
    );
    let with_text = message(
        "",
        JsonValue::Obj(vec![("field".to_owned(), JsonValue::Str("value".to_owned()))]),
    );
    assert!(!filter.test_message(&with_number));
    assert!(filter.test_message(&with_text));
}

#[test]
fn all_of_an_empty_list_matches_everything() {
    let msg = message("command", JsonValue::Null);
    assert!(DataMessageFilter::All(vec![]).test_message(&msg));
}

#[test]
fn any_of_an_empty_list_matches_nothing() {
    let msg = message("command", JsonValue::Null);
    assert!(!DataMessageFilter::Any(vec![]).test_message(&msg));
}

#[test]
fn all_requires_every_member() {
    let msg = message("command", JsonValue::Null);
    let cases: [(Vec<DataMessageFilter>, bool); 6] = [
        (vec![DataMessageFilter::Always], true),
        (vec![DataMessageFilter::Never], false),
        (
            vec![DataMessageFilter::Command("command".to_owned()), DataMessageFilter::Always],
            true,
        ),
        (
            vec![DataMessageFilter::Command("command".to_owned()), DataMessageFilter::Never],
            false,
        ),
        (
            vec![DataMessageFilter::Command("other_command".to_owned()), DataMessageFilter::Never],
            false,
        ),
        (
            vec![
                DataMessageFilter::Command("other_command".to_owned()),
                DataMessageFilter::Always,
            ],
            false,
        ),
    ];
    for (filters, expected) in cases {
        assert_eq!(DataMessageFilter::All(filters).test_message(&msg), expected);
    }
}

#[test]
fn any_requires_some_member() {
    let msg = message("command", JsonValue::Null);
    let cases: [(Vec<DataMessageFilter>, bool); 6] = [
        (vec![DataMessageFilter::Always], true),
        (vec![DataMessageFilter::Never], false),
        (
            vec![DataMessageFilter::Command("command".to_owned()), DataMessageFilter::Always],
            true,
        ),
        (
            vec![DataMessageFilter::Command("command".to_owned()), DataMessageFilter::Never],
            true,
        ),
        (
            vec![DataMessageFilter::Command("other_command".to_owned()), DataMessageFilter::Never],
            false,
        ),
        (
            vec![
                DataMessageFilter::Command("other_command".to_owned()),
                DataMessageFilter::Always,
            ],
            true,
        ),
    ];
    for (filters, expected) in cases {
        assert_eq!(DataMessageFilter::Any(filters).test_message(&msg), expected);
    }
}

#[test]
fn stream_frames_parse_into_push_messages() {
    let msg = parse_stream_message(r#"{"command":"candle","data":{"symbol":"EURUSD"}}"#).unwrap();
    assert_eq!(msg.command, "candle");
    match msg.data {
        JsonValue::Obj(entries) => {
            assert_eq!(entries.len(), 1);
            assert_eq!(entries[0].0, "symbol");
        },
        other => panic!("unexpected payload: {:?}", other),
    }
}

#[test]
fn bad_stream_frames_are_dropped() {
    assert!(parse_stream_message(r#"not json"#).is_none());
    assert!(parse_stream_message(r#"{"command":7,"data":{}}"#).is_none());
    assert!(parse_stream_message(r#"{"command":"candle"}"#).is_none());
    assert!(parse_stream_message(r#"[1,2,3]"#).is_none());
}
