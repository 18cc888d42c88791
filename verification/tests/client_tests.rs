use xtb_client::api::enums::DayOfWeek;
use xtb_client::api::enums::ImpactLevel;
use xtb_client::api::enums::MarginMode;
use xtb_client::api::enums::ProfitMode;
use xtb_client::api::enums::QuoteId;
use xtb_client::api::enums::TimePeriod;
use xtb_client::api::enums::TradeStatus;
use xtb_client::api::enums::TradingAction;
use xtb_client::api::enums::TradingCommand;
use xtb_client::api::enums::TransactionStatus;
use xtb_client::api::enums::TransactionType;
use xtb_client::client::interpret_response;
use xtb_client::client::symbol_scoped_filter;
use xtb_client::client::XtbClientBuilder;
use xtb_client::client::XtbClientError;
use xtb_client::json::JsonValue;
use xtb_client::message_processing::process_message;
use xtb_client::schema::enums as wire_enums;
use xtb_client::schema::messages::StreamDataMessage;

#[test]
fn builder_presets_point_at_the_known_servers() {
    let real = XtbClientBuilder::new_real();
    assert_eq!(real.api_url.as_deref(), Some("wss://ws.xtb.com/real"));
    assert_eq!(real.stream_api_url.as_deref(), Some("wss://ws.xtb.com/realStream"));

    let demo = XtbClientBuilder::new_demo();
    assert_eq!(demo.api_url.as_deref(), Some("wss://ws.xtb.com/demo"));
    assert_eq!(demo.stream_api_url.as_deref(), Some("wss://ws.xtb.com/demoStream"));

    let bare = XtbClientBuilder::new_bare();
    assert!(bare.api_url.is_none());
    assert!(bare.stream_api_url.is_none());
}

#[test]
fn builder_setters_fill_the_fields() {
    let builder = XtbClientBuilder::new_bare()
        .with_api_url("wss://example.invalid/api")
        .with_stream_api_url("wss://example.invalid/stream")
        .with_app_id("id")
        .with_app_name("name")
        .with_ping_period(15);
    assert_eq!(builder.api_url.as_deref(), Some("wss://example.invalid/api"));
    assert_eq!(builder.stream_api_url.as_deref(), Some("wss://example.invalid/stream"));
    assert_eq!(builder.app_id.as_deref(), Some("id"));
    assert_eq!(builder.app_name.as_deref(), Some("name"));
    assert_eq!(builder.ping_period, Some(15));
}

#[test]
fn success_payload_reaches_the_caller() {
    let message = process_message(r#"{"status":true,"customTag":"t","returnData":"v"}"#).unwrap();
    match interpret_response(message) {
        Ok(Some(JsonValue::Str(s))) => assert_eq!(s, "v"),
        other => panic!("unexpected outcome: {:?}", other),
    }
}

#[test]
fn missing_payload_reaches_the_caller_as_nothing() {
    let message = process_message(r#"{"status":true,"customTag":"t"}"#).unwrap();
    match interpret_response(message) {
        Ok(None) => (),
        other => panic!("unexpected outcome: {:?}", other),
    }
}

#[test]
fn domain_errors_reach_the_caller_untranslated() {
    let message =
        process_message(r#"{"status":false,"errorCode":"BE103","customTag":"t"}"#).unwrap();
    match interpret_response(message) {
        Err(XtbClientError::CommandFailed(e)) => {
            assert_eq!(e.error_code.to_code_string(), "BE103")
        },
        other => panic!("unexpected outcome: {:?}", other),
    }
}

#[test]
fn symbol_scoped_filter_separates_instruments() {
    let filter = symbol_scoped_filter("candle", "EURUSD");
    let eurusd = StreamDataMessage {
        command: "candle".to_owned(),
        data: JsonValue::Obj(vec![("symbol".to_owned(), JsonValue::Str("EURUSD".to_owned()))]),
    };
    let gbpusd = StreamDataMessage {
        command: "candle".to_owned(),
        data: JsonValue::Obj(vec![("symbol".to_owned(), JsonValue::Str("GBPUSD".to_owned()))]),
    };
    let other_feed = StreamDataMessage {
        command: "tickPrices".to_owned(),
        data: JsonValue::Obj(vec![("symbol".to_owned(), JsonValue::Str("EURUSD".to_owned()))]),
    };
    assert!(filter.test_message(&eurusd));
    assert!(!filter.test_message(&gbpusd));
    assert!(!filter.test_message(&other_feed));
}

#[test]
fn enums_round_trip_through_their_wire_numbers() {
    for v in [QuoteId::Fixed, QuoteId::Float, QuoteId::Depth, QuoteId::Cross] {
        assert_eq!(QuoteId::from_wire_value(v.wire_value()), Some(v));
    }
    for v in [MarginMode::Forex, MarginMode::CFDLeveraged, MarginMode::CFD] {
        assert_eq!(MarginMode::from_wire_value(v.wire_value()), Some(v));
    }
    for v in [ProfitMode::Forex, ProfitMode::Cfd] {
        assert_eq!(ProfitMode::from_wire_value(v.wire_value()), Some(v));
    }
    for v in [ImpactLevel::Low, ImpactLevel::Medium, ImpactLevel::High] {
        assert_eq!(ImpactLevel::from_wire_value(v.wire_value()), Some(v));
    }
    assert_eq!(TimePeriod::PeriodM1.wire_value(), 1);
    assert_eq!(TimePeriod::PeriodM5.wire_value(), 5);
    assert_eq!(TimePeriod::PeriodH1.wire_value(), 60);
    assert_eq!(TimePeriod::PeriodMN1.wire_value(), 43200);
    assert_eq!(TimePeriod::from_wire_value(10080), Some(TimePeriod::PeriodW1));
    assert_eq!(TimePeriod::from_wire_value(2), None);
    for v in [TradingAction::Buy, TradingAction::Sell] {
        assert_eq!(TradingAction::from_wire_value(v.wire_value()), Some(v));
    }
    assert_eq!(TradingCommand::Balance.wire_value(), 6);
    assert_eq!(DayOfWeek::Sunday.wire_value(), 7);
    assert_eq!(TransactionStatus::Accepted.wire_value(), 3);
    assert_eq!(TransactionStatus::from_wire_value(2), None);
    assert_eq!(TransactionType::Delete.wire_value(), 4);
}

#[test]
fn trade_status_reads_in_any_case() {
    assert_eq!(TradeStatus::from_text("modified"), Some(TradeStatus::Modified));
    assert_eq!(TradeStatus::from_text("MODIFIED"), Some(TradeStatus::Modified));
    assert_eq!(TradeStatus::from_text("deleted"), Some(TradeStatus::Deleted));
    assert_eq!(TradeStatus::from_text("DeLeTeD"), Some(TradeStatus::Deleted));
    assert_eq!(TradeStatus::from_text("cancelled"), None);
    assert_eq!(TradeStatus::Modified.wire_text(), "modified");
    assert_eq!(TradeStatus::Deleted.wire_text(), "deleted");
}

#[test]
fn login_payload_carries_the_credentials_and_optional_identity() {
    let login = xtb_client::api::data::LoginRequest {
        user_id: "someone".to_owned(),
        password: "SECRET-REDACTED".to_owned(),
        app_id: None,
        app_name: Some("probe".to_owned()),
    };
    let mut core = xtb_client::CommandChannelCore::new();
    let (request, _tag) = core.build_request("login", Some(login.to_json()));
    assert_eq!(
        request.to_frame_text(),
        r#"{"arguments":{"appName":"probe","password":"SECRET-REDACTED","userId":"someone"},"command":"login","customTag":"message_1"}"#
    );
}

#[test]
fn schema_enums_admit_the_undocumented_values() {
    assert_eq!(wire_enums::QuoteId::from_wire_value(5), Some(wire_enums::QuoteId::Unknown1));
    assert_eq!(wire_enums::QuoteId::from_wire_value(6), Some(wire_enums::QuoteId::Unknown2));
    assert_eq!(
        wire_enums::MarginMode::from_wire_value(104),
        Some(wire_enums::MarginMode::Unknown1)
    );
    assert_eq!(wire_enums::QuoteId::from_wire_value(7), None);
}
