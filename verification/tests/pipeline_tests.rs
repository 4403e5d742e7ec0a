use redeye::json::to_json_line;
use redeye::parser::{CommonLogLineParser, LogFormat, LogLineParser};
use redeye::pipeline::{process_line, run_lines, select_format, LineOutcome};

const COMMON_LINE: &str =
    "125.125.125.125 - dsmith [10/Oct/1999:21:15:05 +0500] \"GET /index.html HTTP/1.0\" 200 1043";

#[test]
fn json_line_for_the_canonical_event() {
    let parser = CommonLogLineParser::new();
    let ev = parser.parse(COMMON_LINE).unwrap();
    let expected = "{\"remote_host\":\"125.125.125.125\",\"some_nonsense\":\"-\",\"username\":\"dsmith\",\"@timestamp\":\"1999-10-10T21:15:05+05:00\",\"request_url\":\"GET /index.html HTTP/1.0\",\"method\":\"GET\",\"request_uri\":\"/index.html\",\"protocol\":\"HTTP/1.0\",\"status_code\":200,\"bytes\":1043}";
    assert_eq!(to_json_line(&ev), expected);
}

#[test]
fn json_line_renders_a_negative_offset() {
    let parser = CommonLogLineParser::new();
    let line = "h - u [01/Jan/2024:09:08:07 -0330] \"GET / HTTP/1.0\" 404 0";
    let ev = parser.parse(line).unwrap();
    let json = to_json_line(&ev);
    assert!(json.contains("\"@timestamp\":\"2024-01-01T09:08:07-03:30\""));
    assert!(json.contains("\"status_code\":404"));
    assert!(json.contains("\"bytes\":0"));
}

#[test]
fn json_escapes_quotes_backslashes_and_controls() {
    let line = "h - u [10/Oct/1999:21:15:05 +0500] \"GET / HTTP/1.0\" 200 7 \"back\\slash\" \"tab\there\"";
    match process_line(LogFormat::Combined, line) {
        LineOutcome::Output(json) => {
            assert!(json.contains("\"referrer\":\"back\\\\slash\""));
            assert!(json.contains("\"user_agent\":\"tab\\there\""));
        },
        LineOutcome::Skip(w) => panic!("line was skipped: {}", w),
    }
}

#[test]
fn combined_json_includes_both_extra_fields() {
    let line = "h - u [10/Oct/1999:21:15:05 +0500] \"GET / HTTP/1.0\" 200 7 \"-\" \"Mozilla/5.0\"";
    match process_line(LogFormat::Combined, line) {
        LineOutcome::Output(json) => {
            assert!(json.ends_with("\"referrer\":\"-\",\"user_agent\":\"Mozilla/5.0\"}"));
        },
        LineOutcome::Skip(w) => panic!("line was skipped: {}", w),
    }
}

#[test]
fn process_line_emits_a_diagnostic_for_a_bad_line() {
    match process_line(LogFormat::Common, "bad line") {
        LineOutcome::Skip(w) => {
            assert_eq!(w, "redeye: WARNING: Invalid log line: bad line");
        },
        LineOutcome::Output(json) => panic!("bad line was accepted: {}", json),
    }
}

#[test]
fn process_line_reports_timestamp_failures_distinctly() {
    let line = "h - u [yesterday] \"GET / HTTP/1.0\" 200 7";
    match process_line(LogFormat::Common, line) {
        LineOutcome::Skip(w) => {
            assert_eq!(w, "redeye: WARNING: Invalid timestamp: yesterday");
        },
        LineOutcome::Output(json) => panic!("bad line was accepted: {}", json),
    }
}

#[test]
fn run_lines_isolates_failures_and_keeps_order() {
    let lines: Vec<String> = vec![
        "a.example - u1 [10/Oct/1999:21:15:05 +0500] \"GET /1 HTTP/1.0\" 200 1".to_string(),
        "this one is broken".to_string(),
        "b.example - u2 [10/Oct/1999:21:15:06 +0500] \"GET /2 HTTP/1.0\" 200 2".to_string(),
        "h - u [bad stamp] \"GET /3 HTTP/1.0\" 200 3".to_string(),
        "c.example - u3 [10/Oct/1999:21:15:07 +0500] \"GET /3 HTTP/1.0\" 200 3".to_string(),
    ];
    let (outs, warns) = run_lines(LogFormat::Common, &lines);
    assert_eq!(outs.len(), 3);
    assert_eq!(warns.len(), 2);
    assert!(outs[0].contains("\"remote_host\":\"a.example\""));
    assert!(outs[1].contains("\"remote_host\":\"b.example\""));
    assert!(outs[2].contains("\"remote_host\":\"c.example\""));
    assert_eq!(warns[0], "redeye: WARNING: Invalid log line: this one is broken");
    assert_eq!(warns[1], "redeye: WARNING: Invalid timestamp: bad stamp");
}

#[test]
fn run_lines_on_empty_input_produces_nothing() {
    let lines: Vec<String> = Vec::new();
    let (outs, warns) = run_lines(LogFormat::Common, &lines);
    assert!(outs.is_empty());
    assert!(warns.is_empty());
}

#[test]
fn select_format_requires_exactly_one_selector() {
    assert_eq!(select_format(true, false), Some(LogFormat::Common));
    assert_eq!(select_format(false, true), Some(LogFormat::Combined));
    assert_eq!(select_format(false, false), None);
    assert_eq!(select_format(true, true), None);
}
