use xtb_client::api::api_errors::parse_other_error;
use xtb_client::api::api_errors::parse_se_error;
use xtb_client::api::api_errors::XtbErrorCode;
use xtb_client::api::api_errors::XtbErrorCodeError;

const FIXED_CODES: [&str; 48] = [
    "BE001", "BE002", "BE003", "BE004", "BE005", "BE006", "BE007", "BE008", "BE009", "BE010",
    "BE011", "BE012", "BE013", "BE014", "BE016", "BE017", "BE018", "BE019", "BE094", "BE095",
    "BE096", "BE097", "BE098", "BE101", "BE102", "BE103", "BE104", "BE105", "BE106", "BE110",
    "BE115", "BE116", "BE117", "BE118", "BE200", "BE000", "EX000", "EX001", "EX002", "EX003",
    "EX004", "EX005", "EX006", "EX007", "EX008", "EX009", "EX010", "EX011",
];

#[test]
fn fixed_codes_round_trip() {
    for code in FIXED_CODES {
        let parsed = XtbErrorCode::from_str(code).unwrap();
        assert_eq!(parsed.to_code_string(), code);
    }
}

#[test]
fn open_business_range_round_trips() {
    for n in 20u8..=37 {
        let text = format!("BE{:03}", n);
        let parsed = XtbErrorCode::from_str(&text).unwrap();
        assert_eq!(parsed, XtbErrorCode::OtherError(n));
        assert_eq!(parsed.to_code_string(), text);
    }
    let parsed = XtbErrorCode::from_str("BE099").unwrap();
    assert_eq!(parsed, XtbErrorCode::OtherError(99));
    assert_eq!(parsed.to_code_string(), "BE099");
}

#[test]
fn internal_server_range_round_trips() {
    for n in [0u16, 7, 99, 100, 123, 555, 999] {
        let text = format!("SE{:03}", n);
        let parsed = XtbErrorCode::from_str(&text).unwrap();
        assert_eq!(parsed, XtbErrorCode::InternalServerError(n));
        assert_eq!(parsed.to_code_string(), text);
    }
}

#[test]
fn unsupported_codes_fail() {
    for text in ["BE100", "BE120", "BEA20", "BE030A", "BE0300", "BE15", "XX123", "", "ping"] {
        match XtbErrorCode::from_str(text) {
            Err(XtbErrorCodeError::UnsupportedErrorCode(m)) => assert_eq!(m, text),
            Ok(c) => panic!("{:?} accepted for {:?}", c, text),
        }
    }
}

#[test]
fn other_error_parser_accepts_two_digit_suffixes() {
    for (text, n) in [
        ("BE020", 20u8),
        ("BE021", 21),
        ("BE029", 29),
        ("BE030", 30),
        ("BE037", 37),
        ("BE099", 99),
    ] {
        assert_eq!(parse_other_error(text), Ok(XtbErrorCode::OtherError(n)));
    }
}

#[test]
fn other_error_parser_rejects_bad_text() {
    for text in ["BE100", "BE120", "BEA20", "BE030A", "BE0300"] {
        assert_eq!(
            parse_other_error(text),
            Err(XtbErrorCodeError::UnsupportedErrorCode(text.to_owned()))
        );
    }
}

#[test]
fn se_error_parser_accepts_three_digit_suffixes() {
    for (text, n) in [("SE000", 0u16), ("SE099", 99), ("SE100", 100), ("SE555", 555), ("SE999", 999)]
    {
        assert_eq!(parse_se_error(text), Ok(XtbErrorCode::InternalServerError(n)));
    }
}

#[test]
fn se_error_parser_rejects_bad_text() {
    for text in ["SEE000", "SEABC", "SE0000"] {
        assert_eq!(
            parse_se_error(text),
            Err(XtbErrorCodeError::UnsupportedErrorCode(text.to_owned()))
        );
    }
}
