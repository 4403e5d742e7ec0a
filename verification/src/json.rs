//! Rendering one event as one JSON object.
//!
//! Text fields are escaped as JSON strings (quote, backslash, and the
//! short or `\u00..` forms for control characters), the timestamp is a
//! quoted RFC 3339 string, and the two counts are bare numerals. Keys
//! appear in the fixed field order of the active format.

use vstd::prelude::*;
use crate::event::{EventV, LogEvent, event_wf};
use crate::numbers::{digit_char, dec_str, push_u64};
use crate::timestamp::{rfc3339_of, push_rfc3339};

verus! {

/// One hexadecimal digit as a lowercase character.
pub open spec fn hex_char(d: int) -> char {
    if d < 10 {
        digit_char(d)
    } else if d == 10 { 'a' }
    else if d == 11 { 'b' }
    else if d == 12 { 'c' }
    else if d == 13 { 'd' }
    else if d == 14 { 'e' }
    else { 'f' }
}

/// The JSON string-escape of one character.
pub open spec fn escape_char(c: char) -> Seq<char> {
    if c == '"' { seq!['\\', '"'] }
    else if c == '\\' { seq!['\\', '\\'] }
    else if c == '\u{8}' { seq!['\\', 'b'] }
    else if c == '\t' { seq!['\\', 't'] }
    else if c == '\n' { seq!['\\', 'n'] }
    else if c == '\u{c}' { seq!['\\', 'f'] }
    else if c == '\r' { seq!['\\', 'r'] }
    else if (c as u32) < 32 {
        seq!['\\', 'u', '0', '0', hex_char(c as u32 as int / 16), hex_char(c as u32 as int % 16)]
    } else {
        seq![c]
    }
}

/// The JSON string-escape of a text, character by character.
pub open spec fn escaped(s: Seq<char>) -> Seq<char>
    decreases s.len(),
{
    if s.len() == 0 {
        Seq::empty()
    } else {
        escaped(s.drop_last()) + escape_char(s.last())
    }
}

/// Append one hexadecimal digit character to `out`.
fn push_hex_digit(out: &mut String, d: u32)
    requires
        d <= 15,
    ensures
        final(out)@ == old(out)@ + seq![hex_char(d as int)],
{
    if d < 10 {
        crate::numbers::push_digit(out, d as u64);
    } else {
        proof {
            reveal_strlit("a");
            reveal_strlit("b");
            reveal_strlit("c");
            reveal_strlit("d");
            reveal_strlit("e");
            reveal_strlit("f");
        }
        if d == 10 { out.append("a"); }
        else if d == 11 { out.append("b"); }
        else if d == 12 { out.append("c"); }
        else if d == 13 { out.append("d"); }
        else if d == 14 { out.append("e"); }
        else { out.append("f"); }
    }
    proof {
        assert(out@ =~= old(out)@ + seq![hex_char(d as int)]);
    }
}

/// Append the JSON string-escape of `s` to `out`.
pub fn push_escaped(out: &mut String, s: &str)
    ensures
        final(out)@ == old(out)@ + escaped(s@),
{
    let n = s.unicode_len();
    let mut i: usize = 0;
    proof {
        assert(out@ =~= old(out)@ + escaped(s@.take(0)));
    }
    while i < n
        invariant
            0 <= i <= n,
            n == s@.len(),
            out@ == old(out)@ + escaped(s@.take(i as int)),
        decreases n - i,
    {
        let c = s.get_char(i);
        proof {
            reveal_strlit("\\\"");
            reveal_strlit("\\\\");
            reveal_strlit("\\b");
            reveal_strlit("\\t");
            reveal_strlit("\\n");
            reveal_strlit("\\f");
            reveal_strlit("\\r");
            reveal_strlit("\\u00");
            assert(s@.take(i + 1).drop_last() =~= s@.take(i as int));
            assert(s@.take(i + 1).last() == s@[i as int]);
        }
        if c == '"' {
            out.append("\\\"");
        } else if c == '\\' {
            out.append("\\\\");
        } else if c == '\u{8}' {
            out.append("\\b");
        } else if c == '\t' {
            out.append("\\t");
        } else if c == '\n' {
            out.append("\\n");
        } else if c == '\u{c}' {
            out.append("\\f");
        } else if c == '\r' {
            out.append("\\r");
        } else if (c as u32) < 32 {
            out.append("\\u00");
            let v = c as u32;
            push_hex_digit(out, v / 16);
            push_hex_digit(out, v % 16);
        } else {
            let piece = s.substring_char(i, i + 1);
            proof {
                assert(piece@ =~= seq![s@[i as int]]);
            }
            out.append(piece);
        }
        i = i + 1;
        proof {
            assert(out@ =~= old(out)@ + escaped(s@.take(i as int)));
        }
    }
    proof {
        assert(s@.take(n as int) =~= s@);
    }
}

/// The part of the JSON object shared by both formats: every Common
/// field, keys in the fixed field order.
pub open spec fn json_head(ev: EventV) -> Seq<char> {
    "{\"remote_host\":\""@ + escaped(ev.remote_host)
        + "\",\"some_nonsense\":\""@ + escaped(ev.rfc931)
        + "\",\"username\":\""@ + escaped(ev.username)
        + "\",\"@timestamp\":\""@ + rfc3339_of(ev.timestamp)
        + "\",\"request_url\":\""@ + escaped(ev.request_url)
        + "\",\"method\":\""@ + escaped(ev.method)
        + "\",\"request_uri\":\""@ + escaped(ev.request_uri)
        + "\",\"protocol\":\""@ + escaped(ev.protocol)
        + "\",\"status_code\":"@ + dec_str(ev.status_code as int)
        + ",\"bytes\":"@ + dec_str(ev.bytes as int)
}

/// The JSON object for an event: the Common fields, then the referrer
/// and user agent when present.
pub open spec fn json_of(ev: EventV) -> Seq<char> {
    json_head(ev) + (match (ev.referrer, ev.user_agent) {
        (Some(r), Some(a)) => ",\"referrer\":\""@ + escaped(r)
            + "\",\"user_agent\":\""@ + escaped(a) + "\"}"@,
        _ => "}"@,
    })
}

/// Render one event as one JSON object, exactly as `json_of` denotes.
#[verifier::rlimit(100)]
pub fn to_json_line(ev: &LogEvent) -> (r: String)
    requires
        event_wf(ev@),
    ensures
        r@ == json_of(ev@),
{
    let mut out = String::new();
    out.append("{\"remote_host\":\"");
    push_escaped(&mut out, ev.remote_host.as_str());
    out.append("\",\"some_nonsense\":\"");
    push_escaped(&mut out, ev.rfc931.as_str());
    out.append("\",\"username\":\"");
    push_escaped(&mut out, ev.username.as_str());
    out.append("\",\"@timestamp\":\"");
    push_rfc3339(&mut out, &ev.timestamp);
    out.append("\",\"request_url\":\"");
    push_escaped(&mut out, ev.request_url.as_str());
    out.append("\",\"method\":\"");
    push_escaped(&mut out, ev.method.as_str());
    out.append("\",\"request_uri\":\"");
    push_escaped(&mut out, ev.request_uri.as_str());
    out.append("\",\"protocol\":\"");
    push_escaped(&mut out, ev.protocol.as_str());
    out.append("\",\"status_code\":");
    push_u64(&mut out, ev.status_code);
    out.append(",\"bytes\":");
    push_u64(&mut out, ev.bytes);
    proof {
        assert(out@ =~= json_head(ev@));
    }
    match (&ev.referrer, &ev.user_agent) {
        (Some(r), Some(a)) => {
            out.append(",\"referrer\":\"");
            push_escaped(&mut out, r.as_str());
            out.append("\",\"user_agent\":\"");
            push_escaped(&mut out, a.as_str());
            out.append("\"}");
        },
        _ => {
            out.append("}");
        },
    }
    proof {
        assert(out@ =~= json_of(ev@));
    }
    out
}

} // verus!
