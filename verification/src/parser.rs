//! Format parser variants: compose a format matcher with the typed field
//! extractors and the fixed capture-to-name mapping, turning one line
//! into one event or one per-line failure.
//!
//! Extraction order matches the fixed field order: the timestamp is
//! extracted before the status and byte-count integers, so a line with
//! both a bad timestamp and a bad integer reports the timestamp error,
//! and a line with a valid timestamp and a non-numeric integer reports a
//! format mismatch.

use vstd::prelude::*;
use crate::errors::{RedeyeError, RedeyeResult};
use crate::event::{EventV, LogEvent, event_wf};
use crate::matcher::{CommonCaps, CombinedCaps, common_captures, combined_captures};
use crate::numbers::numeral_u64;
use crate::scan::trimmed;
use crate::timestamp::{Timestamp, stamp_of};

verus! {

/// What one parse attempt denotes: an event, or one failure kind with
/// its diagnostic payload.
#[verifier::ext_equal]
pub ghost enum ParseOutcome {
    Event(EventV),
    Mismatch(Seq<char>),
    BadStamp(Seq<char>),
    Transport(Seq<char>),
    Serialization(Seq<char>),
}

/// The outcome an executable parse result denotes.
pub open spec fn outcome_of(r: RedeyeResult<LogEvent>) -> ParseOutcome {
    match r {
        Ok(ev) => ParseOutcome::Event(ev@),
        Err(RedeyeError::ParseError(l)) => ParseOutcome::Mismatch(l@),
        Err(RedeyeError::TimestampParseError(t)) => ParseOutcome::BadStamp(t@),
        Err(RedeyeError::IoError(m)) => ParseOutcome::Transport(m@),
        Err(RedeyeError::SerializationError(m)) => ParseOutcome::Serialization(m@),
    }
}

/// The event a set of Common captures denotes, given its typed fields.
pub open spec fn event_of_common(c: CommonCaps, t: Timestamp, status: u64, nbytes: u64) -> EventV {
    EventV {
        remote_host: c.host,
        rfc931: c.rfc931,
        username: c.username,
        timestamp: t,
        request_url: c.request,
        method: c.method,
        request_uri: c.path,
        protocol: c.protocol,
        status_code: status,
        bytes: nbytes,
        referrer: None,
        user_agent: None,
    }
}

/// The event a set of Combined captures denotes, given its typed fields.
pub open spec fn event_of_combined(c: CombinedCaps, t: Timestamp, status: u64, nbytes: u64) -> EventV {
    EventV {
        referrer: Some(c.referrer),
        user_agent: Some(c.user_agent),
        ..event_of_common(c.base, t, status, nbytes)
    }
}

/// Parsing one line under the Common format: trim, match the grammar,
/// then type the timestamp, status and byte-count captures in field
/// order.
pub open spec fn common_parse(line: Seq<char>) -> ParseOutcome {
    match common_captures(trimmed(line)) {
        None => ParseOutcome::Mismatch(line),
        Some(c) => match stamp_of(c.stamp) {
            None => ParseOutcome::BadStamp(c.stamp),
            Some(t) => match numeral_u64(c.status) {
                None => ParseOutcome::Mismatch(line),
                Some(status) => match numeral_u64(c.bytes) {
                    None => ParseOutcome::Mismatch(line),
                    Some(nbytes) => ParseOutcome::Event(event_of_common(c, t, status, nbytes)),
                },
            },
        },
    }
}

/// Parsing one line under the Combined format.
pub open spec fn combined_parse(line: Seq<char>) -> ParseOutcome {
    match combined_captures(trimmed(line)) {
        None => ParseOutcome::Mismatch(line),
        Some(c) => match stamp_of(c.base.stamp) {
            None => ParseOutcome::BadStamp(c.base.stamp),
            Some(t) => match numeral_u64(c.base.status) {
                None => ParseOutcome::Mismatch(line),
                Some(status) => match numeral_u64(c.base.bytes) {
                    None => ParseOutcome::Mismatch(line),
                    Some(nbytes) => ParseOutcome::Event(event_of_combined(c, t, status, nbytes)),
                },
            },
        },
    }
}

/// A line parser for one fixed log format: one complete line in, one
/// event or one per-line failure out. Every implementation returns a
/// well-formed event on success.
pub trait LogLineParser {
    fn parse(&self, line: &str) -> (r: RedeyeResult<LogEvent>)
        ensures
            r matches Ok(ev) ==> event_wf(ev@),
    ;
}

/// Parser for the Common log format. Stateless: the pattern is fixed by
/// the grammar, so construction is free and one instance may serve the
/// whole run.
pub struct CommonLogLineParser {}

impl CommonLogLineParser {
    pub fn new() -> Self {
        CommonLogLineParser {}
    }
}

impl LogLineParser for CommonLogLineParser {
    /// Parse one line. The result is exactly what `common_parse`
    /// denotes.
    fn parse(&self, line: &str) -> (r: RedeyeResult<LogEvent>)
        ensures
            outcome_of(r) == common_parse(line@),
    {
        let t = crate::scan::trim(line);
        match crate::matcher::match_common(t) {
            None => Err(RedeyeError::ParseError(line.to_owned())),
            Some(f) => match crate::timestamp::parse_timestamp(f.stamp.as_str()) {
                None => Err(RedeyeError::TimestampParseError(f.stamp)),
                Some(ts) => match crate::numbers::parse_u64_str(f.status.as_str()) {
                    None => Err(RedeyeError::ParseError(line.to_owned())),
                    Some(status) => match crate::numbers::parse_u64_str(f.bytes.as_str()) {
                        None => Err(RedeyeError::ParseError(line.to_owned())),
                        Some(nbytes) => {
                            let ev = LogEvent {
                                remote_host: f.host,
                                rfc931: f.rfc931,
                                username: f.username,
                                timestamp: ts,
                                request_url: f.request,
                                method: f.method,
                                request_uri: f.path,
                                protocol: f.protocol,
                                status_code: status,
                                bytes: nbytes,
                                referrer: None,
                                user_agent: None,
                            };
                            proof {
                                assert(common_parse(line@) matches ParseOutcome::Event(e)
                                    && e =~= ev@);
                            }
                            Ok(ev)
                        },
                    },
                },
            },
        }
    }
}

/// Parser for the Combined log format: the Common fields plus a quoted
/// referrer and a quoted user agent.
pub struct CombinedLogLineParser {}

impl CombinedLogLineParser {
    pub fn new() -> Self {
        CombinedLogLineParser {}
    }
}

impl LogLineParser for CombinedLogLineParser {
    /// Parse one line. The result is exactly what `combined_parse`
    /// denotes.
    fn parse(&self, line: &str) -> (r: RedeyeResult<LogEvent>)
        ensures
            outcome_of(r) == combined_parse(line@),
    {
        let t = crate::scan::trim(line);
        match crate::matcher::match_combined(t) {
            None => Err(RedeyeError::ParseError(line.to_owned())),
            Some(f) => match crate::timestamp::parse_timestamp(f.base.stamp.as_str()) {
                None => Err(RedeyeError::TimestampParseError(f.base.stamp)),
                Some(ts) => match crate::numbers::parse_u64_str(f.base.status.as_str()) {
                    None => Err(RedeyeError::ParseError(line.to_owned())),
                    Some(status) => match crate::numbers::parse_u64_str(f.base.bytes.as_str()) {
                        None => Err(RedeyeError::ParseError(line.to_owned())),
                        Some(nbytes) => {
                            let ev = LogEvent {
                                remote_host: f.base.host,
                                rfc931: f.base.rfc931,
                                username: f.base.username,
                                timestamp: ts,
                                request_url: f.base.request,
                                method: f.base.method,
                                request_uri: f.base.path,
                                protocol: f.base.protocol,
                                status_code: status,
                                bytes: nbytes,
                                referrer: Some(f.referrer),
                                user_agent: Some(f.user_agent),
                            };
                            proof {
                                assert(combined_parse(line@) matches ParseOutcome::Event(e)
                                    && e =~= ev@);
                            }
                            Ok(ev)
                        },
                    },
                },
            },
        }
    }
}

/// A matched line whose timestamp capture is valid but whose status or
/// byte-count capture is not a `u64` numeral parses to a format
/// mismatch — never to a timestamp error.
pub proof fn lemma_bad_integer_is_mismatch(line: Seq<char>, c: CommonCaps)
    requires
        common_captures(trimmed(line)) == Some(c),
        stamp_of(c.stamp) is Some,
        numeral_u64(c.status) is None || numeral_u64(c.bytes) is None,
    ensures
        common_parse(line) == ParseOutcome::Mismatch(line),
{
}

/// A matched line whose timestamp capture does not denote a valid
/// timestamp parses to the timestamp-specific error carrying that
/// capture — distinct from a format mismatch — whatever the other
/// fields hold.
pub proof fn lemma_bad_stamp_is_stamp_error(line: Seq<char>, c: CommonCaps)
    requires
        common_captures(trimmed(line)) == Some(c),
        stamp_of(c.stamp) is None,
    ensures
        common_parse(line) == ParseOutcome::BadStamp(c.stamp),
{
}

/// Parsing is a pure function of the line: two parse results for the
/// same line under the same format denote the same outcome — the same
/// event for a good line, the same failure for a bad one. No state of
/// the parser can make a later parse of equal input differ.
pub proof fn lemma_parse_deterministic(
    fmt: LogFormat,
    line: Seq<char>,
    r1: RedeyeResult<LogEvent>,
    r2: RedeyeResult<LogEvent>,
)
    requires
        outcome_of(r1) == parse_line_spec(fmt, line),
        outcome_of(r2) == parse_line_spec(fmt, line),
    ensures
        outcome_of(r1) == outcome_of(r2),
{
}

/// Completeness of the Common parser: every line assembled from
/// well-formed fields and separators, whose timestamp capture denotes a
/// real point in time and whose status and byte-count captures denote
/// `u64` numerals, parses to the event holding exactly those decoded
/// values.
pub proof fn lemma_common_parse_accepts(
    host: Seq<char>, sp1: Seq<char>, rfc931: Seq<char>, sp2: Seq<char>,
    username: Seq<char>, sp3: Seq<char>, stamp: Seq<char>, sp4: Seq<char>,
    method: Seq<char>, c1: char, path: Seq<char>, c2: char, protocol: Seq<char>,
    sp5: Seq<char>, status: Seq<char>, sp6: Seq<char>, bytes: Seq<char>,
    t: Timestamp, status_v: u64, bytes_v: u64,
)
    requires
        crate::matcher::token_ok(host),
        crate::matcher::token_ok(rfc931),
        crate::matcher::token_ok(username),
        crate::matcher::token_ok(method),
        crate::matcher::token_ok(path),
        crate::matcher::token_ok(status),
        crate::matcher::token_ok(bytes),
        crate::matcher::protocol_ok(protocol),
        crate::matcher::stamp_capture_ok(stamp),
        crate::matcher::space_run(sp1),
        crate::matcher::space_run(sp2),
        crate::matcher::space_run(sp3),
        crate::matcher::space_run(sp4),
        crate::matcher::space_run(sp5),
        crate::matcher::space_run(sp6),
        crate::scan::is_space_c(c1),
        crate::scan::is_space_c(c2),
        stamp_of(stamp) == Some(t),
        numeral_u64(status) == Some(status_v),
        numeral_u64(bytes) == Some(bytes_v),
    ensures
        ({
            let line = crate::matcher::assembled_common(host, sp1, rfc931, sp2, username, sp3,
                stamp, sp4, method, c1, path, c2, protocol, sp5, status, sp6, bytes);
            common_parse(line) == ParseOutcome::Event(event_of_common(
                crate::matcher::assembled_caps(host, rfc931, username, stamp, method, c1,
                    path, c2, protocol, status, bytes),
                t, status_v, bytes_v,
            ))
        }),
{
    let line = crate::matcher::assembled_common(host, sp1, rfc931, sp2, username, sp3,
        stamp, sp4, method, c1, path, c2, protocol, sp5, status, sp6, bytes);
    assert(line[0] == host[0]);
    assert(line[line.len() - 1] == bytes[bytes.len() - 1]);
    crate::scan::lemma_trimmed_id(line);
    crate::matcher::lemma_common_accepts_assembled(host, sp1, rfc931, sp2, username, sp3,
        stamp, sp4, method, c1, path, c2, protocol, sp5, status, sp6, bytes);
}

/// Completeness of the Combined parser: every well-formed Common-shaped
/// body followed by a quoted referrer and a quoted user agent parses,
/// under the Combined format, to the event holding exactly those decoded
/// values, referrer and user agent included.
pub proof fn lemma_combined_parse_accepts(
    host: Seq<char>, sp1: Seq<char>, rfc931: Seq<char>, sp2: Seq<char>,
    username: Seq<char>, sp3: Seq<char>, stamp: Seq<char>, sp4: Seq<char>,
    method: Seq<char>, c1: char, path: Seq<char>, c2: char, protocol: Seq<char>,
    sp5: Seq<char>, status: Seq<char>, sp6: Seq<char>, bytes: Seq<char>,
    sp7: Seq<char>, referrer: Seq<char>, sp8: Seq<char>, user_agent: Seq<char>,
    t: Timestamp, status_v: u64, bytes_v: u64,
)
    requires
        crate::matcher::token_ok(host),
        crate::matcher::token_ok(rfc931),
        crate::matcher::token_ok(username),
        crate::matcher::token_ok(method),
        crate::matcher::token_ok(path),
        crate::matcher::token_ok(status),
        crate::matcher::token_ok(bytes),
        crate::matcher::protocol_ok(protocol),
        crate::matcher::stamp_capture_ok(stamp),
        crate::matcher::space_run(sp1),
        crate::matcher::space_run(sp2),
        crate::matcher::space_run(sp3),
        crate::matcher::space_run(sp4),
        crate::matcher::space_run(sp5),
        crate::matcher::space_run(sp6),
        crate::matcher::space_run(sp7),
        crate::matcher::space_run(sp8),
        crate::scan::is_space_c(c1),
        crate::scan::is_space_c(c2),
        crate::matcher::quoted_ok(referrer),
        crate::matcher::quoted_ok(user_agent),
        stamp_of(stamp) == Some(t),
        numeral_u64(status) == Some(status_v),
        numeral_u64(bytes) == Some(bytes_v),
    ensures
        ({
            let body = crate::matcher::assembled_common(host, sp1, rfc931, sp2, username, sp3,
                stamp, sp4, method, c1, path, c2, protocol, sp5, status, sp6, bytes);
            let line = body + sp7 + seq!['"'] + referrer + seq!['"'] + sp8 + seq!['"']
                + user_agent + seq!['"'];
            combined_parse(line) == ParseOutcome::Event(event_of_combined(
                CombinedCaps {
                    base: crate::matcher::assembled_caps(host, rfc931, username, stamp, method,
                        c1, path, c2, protocol, status, bytes),
                    referrer,
                    user_agent,
                },
                t, status_v, bytes_v,
            ))
        }),
{
    let body = crate::matcher::assembled_common(host, sp1, rfc931, sp2, username, sp3,
        stamp, sp4, method, c1, path, c2, protocol, sp5, status, sp6, bytes);
    let line = body + sp7 + seq!['"'] + referrer + seq!['"'] + sp8 + seq!['"']
        + user_agent + seq!['"'];
    assert(line[0] == host[0]);
    assert(line[line.len() - 1] == '"');
    crate::scan::lemma_trimmed_id(line);
    crate::matcher::lemma_combined_accepts_assembled(host, sp1, rfc931, sp2, username, sp3,
        stamp, sp4, method, c1, path, c2, protocol, sp5, status, sp6, bytes,
        sp7, referrer, sp8, user_agent);
}

/// A line the Common grammar accepts in full is rejected by the
/// Combined parser with a format mismatch: the Combined grammar demands
/// a quoted referrer and user agent after the byte count, and the
/// Common-shaped line has nothing after its byte count.
pub proof fn lemma_combined_rejects_common(line: Seq<char>)
    requires
        common_captures(trimmed(line)) is Some,
    ensures
        combined_parse(line) == ParseOutcome::Mismatch(line),
{
    let s = trimmed(line);
    let pe = crate::matcher::common_prefix(s);
    assert(pe matches Some(p) && p.1 == s.len());
}

/// The run's fixed format, selected once at startup.
#[derive(Clone, Copy, Debug, PartialEq, Eq, Structural)]
pub enum LogFormat {
    Common,
    Combined,
}

/// Parsing one line under the selected format.
pub open spec fn parse_line_spec(fmt: LogFormat, line: Seq<char>) -> ParseOutcome {
    match fmt {
        LogFormat::Common => common_parse(line),
        LogFormat::Combined => combined_parse(line),
    }
}

/// Parse one line under the selected format.
pub fn parse_line(fmt: LogFormat, line: &str) -> (r: RedeyeResult<LogEvent>)
    ensures
        outcome_of(r) == parse_line_spec(fmt, line@),
        r matches Ok(ev) ==> event_wf(ev@),
{
    match fmt {
        LogFormat::Common => CommonLogLineParser::new().parse(line),
        LogFormat::Combined => CombinedLogLineParser::new().parse(line),
    }
}

} // verus!
