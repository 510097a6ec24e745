//! Unit-level checks: the magic preamble, type codes, text comparison and
//! decimal parsing.

use aedat4::{
    classify_read_failure, magic_number, parse_u16, parse_u32, str_eq, ParseError,
    RecordReadStage, StreamContent,
};

#[test]
fn magic_number_is_the_preamble() {
    assert_eq!(magic_number(), b"#!AER-DAT4.0\r\n".to_vec());
    assert_eq!(magic_number().len(), 14);
}

#[test]
fn stream_content_from_supported_codes() {
    assert!(matches!(StreamContent::from("EVTS"), Ok(StreamContent::Events)));
    assert!(matches!(StreamContent::from("FRME"), Ok(StreamContent::Frame)));
    assert!(matches!(StreamContent::from("IMUS"), Ok(StreamContent::Imus)));
    assert!(matches!(StreamContent::from("TRIG"), Ok(StreamContent::Triggers)));
}

#[test]
fn stream_content_from_unsupported_code() {
    let error = StreamContent::from("ABCD").unwrap_err();
    match error {
        ParseError::UnsupportedStreamType(message) => {
            assert_eq!(message, "unsupported stream type");
        }
        other => panic!("unexpected error: {:?}", other),
    }
    assert!(StreamContent::from("evts").is_err());
    assert!(StreamContent::from("").is_err());
    assert!(StreamContent::from("EVTS ").is_err());
}

#[test]
fn stream_content_identifiers() {
    assert_eq!(StreamContent::Events.identifier(), "EVTS");
    assert_eq!(StreamContent::Frame.identifier(), "FRME");
    assert_eq!(StreamContent::Imus.identifier(), "IMUS");
    assert_eq!(StreamContent::Triggers.identifier(), "TRIG");
}

#[test]
fn str_eq_cases() {
    assert!(str_eq("", ""));
    assert!(str_eq("abc", "abc"));
    assert!(!str_eq("abc", "abd"));
    assert!(!str_eq("abc", "abcd"));
    assert!(str_eq("日本語", "日本語"));
    assert!(!str_eq("日本語", "日本誤"));
}

#[test]
fn parse_u32_matches_std() {
    let cases = [
        "", "0", "1", "12", "012", "+12", "+", "-1", " 1", "1 ", "1a", "a1", "4294967295",
        "4294967296", "99999999999999999999", "00000000000000000042", "+4294967295", "++1",
    ];
    for case in cases {
        assert_eq!(parse_u32(case), case.parse::<u32>().ok(), "case {:?}", case);
    }
}

#[test]
fn parse_u16_matches_std() {
    let cases = [
        "", "0", "640", "65535", "65536", "70000", "4294967296", "+480", "12x", "０",
    ];
    for case in cases {
        assert_eq!(parse_u16(case), case.parse::<u16>().ok(), "case {:?}", case);
    }
}

#[test]
fn read_failures_classify_by_stage() {
    assert!(classify_read_failure(RecordReadStage::StreamId, "gone".to_string()).is_none());
    match classify_read_failure(RecordReadStage::Length, "cut short".to_string()) {
        Some(ParseError::Io(message)) => assert_eq!(message, "cut short"),
        other => panic!("unexpected outcome: {:?}", other),
    }
    match classify_read_failure(RecordReadStage::Payload, "reset".to_string()) {
        Some(ParseError::Io(message)) => assert_eq!(message, "reset"),
        other => panic!("unexpected outcome: {:?}", other),
    }
}
