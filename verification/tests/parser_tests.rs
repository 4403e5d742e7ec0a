use redeye::errors::RedeyeError;
use redeye::event::LogFieldValue;
use redeye::parser::{CombinedLogLineParser, CommonLogLineParser, LogLineParser};
use redeye::timestamp::Timestamp;

const COMMON_LINE: &str =
    "125.125.125.125 - dsmith [10/Oct/1999:21:15:05 +0500] \"GET /index.html HTTP/1.0\" 200 1043";

#[test]
fn test_common_log_line_parser() {
    let parser = CommonLogLineParser::new();
    println!("Res: {:?}", parser.parse("125.125.125.125 - dsmith [10/Oct/1999:21:15:05 +0500] \"GET /index.html HTTP/1.0\" 200 1043"));
}

#[test]
fn common_parses_every_field() {
    let parser = CommonLogLineParser::new();
    let ev = parser.parse(COMMON_LINE).unwrap();
    assert_eq!(ev.remote_host, "125.125.125.125");
    assert_eq!(ev.rfc931, "-");
    assert_eq!(ev.username, "dsmith");
    assert_eq!(
        ev.timestamp,
        Timestamp {
            year: 1999,
            month: 10,
            day: 10,
            hour: 21,
            minute: 15,
            second: 5,
            offset_minutes: 300,
        }
    );
    assert_eq!(ev.request_url, "GET /index.html HTTP/1.0");
    assert_eq!(ev.method, "GET");
    assert_eq!(ev.request_uri, "/index.html");
    assert_eq!(ev.protocol, "HTTP/1.0");
    assert_eq!(ev.status_code, 200);
    assert_eq!(ev.bytes, 1043);
    assert!(ev.referrer.is_none());
    assert!(ev.user_agent.is_none());
}

#[test]
fn common_trims_surrounding_whitespace() {
    let parser = CommonLogLineParser::new();
    let padded = format!("   {}  \t", COMMON_LINE);
    let ev = parser.parse(&padded).unwrap();
    assert_eq!(ev.remote_host, "125.125.125.125");
    assert_eq!(ev.bytes, 1043);
}

#[test]
fn mismatch_carries_the_original_line() {
    let parser = CommonLogLineParser::new();
    let res = parser.parse("not a log line");
    match res {
        Err(RedeyeError::ParseError(l)) => assert_eq!(l, "not a log line"),
        other => panic!("expected a format mismatch, got {:?}", other),
    }
}

#[test]
fn reparsing_a_bad_line_fails_the_same_way() {
    let parser = CommonLogLineParser::new();
    let first = parser.parse("garbage in");
    let second = parser.parse("garbage in");
    assert_eq!(first.unwrap_err(), second.unwrap_err());
}

#[test]
fn reparsing_a_good_line_yields_an_identical_event() {
    let parser = CommonLogLineParser::new();
    let first = parser.parse(COMMON_LINE).unwrap();
    let second = parser.parse(COMMON_LINE).unwrap();
    assert_eq!(first, second);
}

#[test]
fn non_numeric_status_is_a_format_mismatch_not_a_timestamp_error() {
    let parser = CommonLogLineParser::new();
    let line =
        "125.125.125.125 - dsmith [10/Oct/1999:21:15:05 +0500] \"GET /index.html HTTP/1.0\" abc 1043";
    match parser.parse(line) {
        Err(RedeyeError::ParseError(l)) => assert_eq!(l, line),
        other => panic!("expected a format mismatch, got {:?}", other),
    }
}

#[test]
fn non_numeric_bytes_is_a_format_mismatch() {
    let parser = CommonLogLineParser::new();
    let line =
        "125.125.125.125 - dsmith [10/Oct/1999:21:15:05 +0500] \"GET /index.html HTTP/1.0\" 200 -";
    assert!(matches!(parser.parse(line), Err(RedeyeError::ParseError(_))));
}

#[test]
fn bad_timestamp_is_a_timestamp_error_with_the_capture() {
    let parser = CommonLogLineParser::new();
    let line =
        "125.125.125.125 - dsmith [10/Oct/1999 21:15:05] \"GET /index.html HTTP/1.0\" 200 1043";
    match parser.parse(line) {
        Err(RedeyeError::TimestampParseError(t)) => assert_eq!(t, "10/Oct/1999 21:15:05"),
        other => panic!("expected a timestamp error, got {:?}", other),
    }
}

#[test]
fn bad_timestamp_wins_over_bad_status() {
    // The timestamp is extracted before the status field.
    let parser = CommonLogLineParser::new();
    let line = "host - user [nonsense] \"GET / HTTP/1.0\" abc 1";
    assert!(matches!(
        parser.parse(line),
        Err(RedeyeError::TimestampParseError(_))
    ));
}

#[test]
fn status_at_u64_max_is_accepted() {
    let parser = CommonLogLineParser::new();
    let line =
        "h - u [10/Oct/1999:21:15:05 +0500] \"GET / HTTP/1.0\" 200 18446744073709551615";
    let ev = parser.parse(line).unwrap();
    assert_eq!(ev.bytes, u64::MAX);
}

#[test]
fn bytes_above_u64_max_is_a_format_mismatch() {
    let parser = CommonLogLineParser::new();
    let line =
        "h - u [10/Oct/1999:21:15:05 +0500] \"GET / HTTP/1.0\" 200 18446744073709551616";
    assert!(matches!(parser.parse(line), Err(RedeyeError::ParseError(_))));
}

#[test]
fn combined_parses_referrer_and_user_agent() {
    let parser = CombinedLogLineParser::new();
    let line = "125.125.125.125 - dsmith [10/Oct/1999:21:15:05 +0500] \"GET /index.html HTTP/1.0\" 200 1043 \"http://www.example.com/start.html\" \"Mozilla/4.08 [en] (Win98; I ;Nav)\"";
    let ev = parser.parse(line).unwrap();
    assert_eq!(ev.remote_host, "125.125.125.125");
    assert_eq!(ev.status_code, 200);
    assert_eq!(
        ev.referrer.as_deref(),
        Some("http://www.example.com/start.html")
    );
    assert_eq!(
        ev.user_agent.as_deref(),
        Some("Mozilla/4.08 [en] (Win98; I ;Nav)")
    );
}

#[test]
fn combined_accepts_placeholder_referrer() {
    let parser = CombinedLogLineParser::new();
    let line =
        "h - u [10/Oct/1999:21:15:05 +0500] \"GET / HTTP/1.0\" 200 0 \"-\" \"-\"";
    let ev = parser.parse(line).unwrap();
    assert_eq!(ev.referrer.as_deref(), Some("-"));
    assert_eq!(ev.user_agent.as_deref(), Some("-"));
}

#[test]
fn combined_rejects_a_common_only_line() {
    let parser = CombinedLogLineParser::new();
    match parser.parse(COMMON_LINE) {
        Err(RedeyeError::ParseError(l)) => assert_eq!(l, COMMON_LINE),
        other => panic!("expected a format mismatch, got {:?}", other),
    }
}

#[test]
fn common_rejects_a_combined_line() {
    let parser = CommonLogLineParser::new();
    let line = "h - u [10/Oct/1999:21:15:05 +0500] \"GET / HTTP/1.0\" 200 0 \"-\" \"-\"";
    assert!(matches!(parser.parse(line), Err(RedeyeError::ParseError(_))));
}

#[test]
fn leap_day_is_accepted() {
    let parser = CommonLogLineParser::new();
    let line = "h - u [29/Feb/2000:00:00:00 +0000] \"GET / HTTP/1.0\" 200 0";
    let ev = parser.parse(line).unwrap();
    assert_eq!(ev.timestamp.day, 29);
    assert_eq!(ev.timestamp.month, 2);
}

#[test]
fn leap_day_in_a_non_leap_year_is_rejected() {
    let parser = CommonLogLineParser::new();
    let line = "h - u [29/Feb/1900:00:00:00 +0000] \"GET / HTTP/1.0\" 200 0";
    assert!(matches!(
        parser.parse(line),
        Err(RedeyeError::TimestampParseError(_))
    ));
}

#[test]
fn thirty_first_of_april_is_rejected() {
    let parser = CommonLogLineParser::new();
    let line = "h - u [31/Apr/1999:00:00:00 +0000] \"GET / HTTP/1.0\" 200 0";
    assert!(matches!(
        parser.parse(line),
        Err(RedeyeError::TimestampParseError(_))
    ));
}

#[test]
fn hour_twenty_four_is_rejected() {
    let parser = CommonLogLineParser::new();
    let line = "h - u [10/Oct/1999:24:00:00 +0000] \"GET / HTTP/1.0\" 200 0";
    assert!(matches!(
        parser.parse(line),
        Err(RedeyeError::TimestampParseError(_))
    ));
}

#[test]
fn unknown_month_name_is_rejected() {
    let parser = CommonLogLineParser::new();
    let line = "h - u [10/Foo/1999:21:15:05 +0000] \"GET / HTTP/1.0\" 200 0";
    assert!(matches!(
        parser.parse(line),
        Err(RedeyeError::TimestampParseError(_))
    ));
}

#[test]
fn offset_hours_out_of_range_are_rejected() {
    let parser = CommonLogLineParser::new();
    let line = "h - u [10/Oct/1999:21:15:05 +2500] \"GET / HTTP/1.0\" 200 0";
    assert!(matches!(
        parser.parse(line),
        Err(RedeyeError::TimestampParseError(_))
    ));
}

#[test]
fn negative_offset_is_parsed() {
    let parser = CommonLogLineParser::new();
    let line = "h - u [10/Oct/1999:21:15:05 -0330] \"GET / HTTP/1.0\" 200 0";
    let ev = parser.parse(line).unwrap();
    assert_eq!(ev.timestamp.offset_minutes, -210);
}

#[test]
fn separators_may_be_runs_of_whitespace() {
    let parser = CommonLogLineParser::new();
    let line = "h\t\t-   u  [10/Oct/1999:21:15:05 +0500]  \"GET / HTTP/1.0\"   200\t7";
    let ev = parser.parse(line).unwrap();
    assert_eq!(ev.remote_host, "h");
    assert_eq!(ev.username, "u");
    assert_eq!(ev.status_code, 200);
    assert_eq!(ev.bytes, 7);
}

#[test]
fn request_line_separators_are_single_whitespace() {
    // Inside the quoted request, method, path and protocol are separated
    // by exactly one whitespace character each.
    let parser = CommonLogLineParser::new();
    let line = "h - u [10/Oct/1999:21:15:05 +0500] \"GET  / HTTP/1.0\" 200 7";
    assert!(matches!(parser.parse(line), Err(RedeyeError::ParseError(_))));
}

#[test]
fn events_read_as_a_mapping_by_field_name() {
    let parser = CommonLogLineParser::new();
    let ev = parser.parse(COMMON_LINE).unwrap();
    assert_eq!(
        ev.get("remote_host"),
        Some(LogFieldValue::Text("125.125.125.125".to_string()))
    );
    assert_eq!(
        ev.get("some_nonsense"),
        Some(LogFieldValue::Text("-".to_string()))
    );
    assert_eq!(ev.get("status_code"), Some(LogFieldValue::Int(200)));
    assert_eq!(ev.get("bytes"), Some(LogFieldValue::Int(1043)));
    assert_eq!(
        ev.get("@timestamp"),
        Some(LogFieldValue::Timestamp(ev.timestamp))
    );
    // Common events do not populate the Combined-only fields.
    assert_eq!(ev.get("referrer"), None);
    assert_eq!(ev.get("user_agent"), None);
    assert_eq!(ev.get("no_such_field"), None);
}

#[test]
fn error_messages_match_their_kind() {
    assert_eq!(
        RedeyeError::ParseError("x y".to_string()).message(),
        "Invalid log line: x y"
    );
    assert_eq!(
        RedeyeError::TimestampParseError("t".to_string()).message(),
        "Invalid timestamp: t"
    );
    assert_eq!(
        RedeyeError::IoError("broken pipe".to_string()).message(),
        "I/O error: broken pipe"
    );
    assert_eq!(
        RedeyeError::SerializationError("oops".to_string()).message(),
        "Serialization error: oops"
    );
    assert_eq!(
        RedeyeError::ParseError("x".to_string()).warning_line(),
        "redeye: WARNING: Invalid log line: x"
    );
}
