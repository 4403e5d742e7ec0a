//! Format matchers: recognize whether a line conforms to the Common or
//! Combined access-log grammar and expose the field captures.
//!
//! A Common line is, after trimming:
//! host, rfc931 identity and username (nonempty runs without whitespace,
//! separated by whitespace), a bracketed timestamp, a quoted request made
//! of method, path and protocol separated by single whitespace characters,
//! then numeric-position status and byte-count fields; the grammar is
//! anchored at both ends of the line. A Combined line is a Common line
//! followed by a quoted referrer and a quoted user agent.
//!
//! `common_prefix` is the mathematical model: it either denotes the
//! captures of the Common-shaped prefix together with the position where
//! that prefix ends, or nothing. The executable matchers return exactly
//! what the model denotes.

use vstd::prelude::*;
use crate::scan::{
    is_space_c, token_end, space_end, upto_char, bare_end,
    scan_token, scan_spaces, scan_upto, scan_bare,
    lemma_token_end_is, lemma_space_end_is, lemma_upto_char_is, lemma_bare_end_is,
};

verus! {

/// Captures of one Common-format line.
#[verifier::ext_equal]
pub ghost struct CommonCaps {
    pub host: Seq<char>,
    pub rfc931: Seq<char>,
    pub username: Seq<char>,
    pub stamp: Seq<char>,
    pub request: Seq<char>,
    pub method: Seq<char>,
    pub path: Seq<char>,
    pub protocol: Seq<char>,
    pub status: Seq<char>,
    pub bytes: Seq<char>,
}

/// Captures of one Combined-format line.
#[verifier::ext_equal]
pub ghost struct CombinedCaps {
    pub base: CommonCaps,
    pub referrer: Seq<char>,
    pub user_agent: Seq<char>,
}

/// Scan a Common-shaped prefix of `s`. On success, yields the captures
/// and the index just past the byte-count field.
pub open spec fn common_prefix(s: Seq<char>) -> Option<(CommonCaps, int)> {
    let n = s.len() as int;
    let e1 = token_end(s, 0);
    if e1 == 0 || e1 >= n {
        None
    } else {
        let i2 = space_end(s, e1);
        let e2 = token_end(s, i2);
        if e2 == i2 || e2 >= n {
            None
        } else {
            let i3 = space_end(s, e2);
            let e3 = token_end(s, i3);
            if e3 == i3 || e3 >= n {
                None
            } else {
                let i4 = space_end(s, e3);
                if i4 >= n || s[i4] != '[' {
                    None
                } else {
                    let ts_end = upto_char(s, i4 + 1, ']');
                    if ts_end == i4 + 1 || ts_end >= n || ts_end + 1 >= n
                        || !is_space_c(s[ts_end + 1]) {
                        None
                    } else {
                        let iq = space_end(s, ts_end + 1);
                        if iq >= n || s[iq] != '"' {
                            None
                        } else {
                            let m_end = token_end(s, iq + 1);
                            if m_end == iq + 1 || m_end >= n {
                                None
                            } else {
                                let p_end = token_end(s, m_end + 1);
                                if p_end == m_end + 1 || p_end >= n {
                                    None
                                } else {
                                    let pr_end = bare_end(s, p_end + 1);
                                    if pr_end == p_end + 1 || pr_end >= n || s[pr_end] != '"'
                                        || pr_end + 1 >= n || !is_space_c(s[pr_end + 1]) {
                                        None
                                    } else {
                                        let i5 = space_end(s, pr_end + 1);
                                        let st_end = token_end(s, i5);
                                        if st_end == i5 || st_end >= n {
                                            None
                                        } else {
                                            let i6 = space_end(s, st_end);
                                            let by_end = token_end(s, i6);
                                            if by_end == i6 {
                                                None
                                            } else {
                                                Some((CommonCaps {
                                                    host: s.subrange(0, e1),
                                                    rfc931: s.subrange(i2, e2),
                                                    username: s.subrange(i3, e3),
                                                    stamp: s.subrange(i4 + 1, ts_end),
                                                    request: s.subrange(iq + 1, pr_end),
                                                    method: s.subrange(iq + 1, m_end),
                                                    path: s.subrange(m_end + 1, p_end),
                                                    protocol: s.subrange(p_end + 1, pr_end),
                                                    status: s.subrange(i5, st_end),
                                                    bytes: s.subrange(i6, by_end),
                                                }, by_end))
                                            }
                                        }
                                    }
                                }
                            }
                        }
                    }
                }
            }
        }
    }
}

/// Captures of `s` under the Common grammar, anchored at both ends.
pub open spec fn common_captures(s: Seq<char>) -> Option<CommonCaps> {
    match common_prefix(s) {
        None => None,
        Some((c, e)) => if e == s.len() {
            Some(c)
        } else {
            None
        },
    }
}

/// Captures of `s` under the Combined grammar: a Common-shaped prefix,
/// then a quoted referrer and a quoted user agent, anchored at the end.
pub open spec fn combined_captures(s: Seq<char>) -> Option<CombinedCaps> {
    match common_prefix(s) {
        None => None,
        Some((c, e)) => {
            let n = s.len() as int;
            if e >= n || !is_space_c(s[e]) {
                None
            } else {
                let i7 = space_end(s, e);
                if i7 >= n || s[i7] != '"' {
                    None
                } else {
                    let r_end = upto_char(s, i7 + 1, '"');
                    if r_end >= n || r_end + 1 >= n || !is_space_c(s[r_end + 1]) {
                        None
                    } else {
                        let i8 = space_end(s, r_end + 1);
                        if i8 >= n || s[i8] != '"' {
                            None
                        } else {
                            let a_end = upto_char(s, i8 + 1, '"');
                            if a_end >= n || a_end + 1 != n {
                                None
                            } else {
                                Some(CombinedCaps {
                                    base: c,
                                    referrer: s.subrange(i7 + 1, r_end),
                                    user_agent: s.subrange(i8 + 1, a_end),
                                })
                            }
                        }
                    }
                }
            }
        },
    }
}

/// A field the grammar scans as a bare token: nonempty, no whitespace.
pub open spec fn token_ok(s: Seq<char>) -> bool {
    s.len() > 0 && forall|i: int| 0 <= i < s.len() ==> !is_space_c(s[i])
}

/// A nonempty run of whitespace, as the grammar's separators are.
pub open spec fn space_run(s: Seq<char>) -> bool {
    s.len() > 0 && forall|i: int| 0 <= i < s.len() ==> is_space_c(s[i])
}

/// A protocol field: nonempty, no whitespace, no quote.
pub open spec fn protocol_ok(s: Seq<char>) -> bool {
    s.len() > 0 && forall|i: int| 0 <= i < s.len() ==> !is_space_c(s[i]) && s[i] != '"'
}

/// A timestamp capture as delimited by the brackets: nonempty, no
/// closing bracket.
pub open spec fn stamp_capture_ok(s: Seq<char>) -> bool {
    s.len() > 0 && forall|i: int| 0 <= i < s.len() ==> s[i] != ']'
}

/// A quoted capture (referrer or user agent): no quote inside.
pub open spec fn quoted_ok(s: Seq<char>) -> bool {
    forall|i: int| 0 <= i < s.len() ==> s[i] != '"'
}

/// A Common-format line assembled from its fields and separators.
pub open spec fn assembled_common(
    host: Seq<char>, sp1: Seq<char>, rfc931: Seq<char>, sp2: Seq<char>,
    username: Seq<char>, sp3: Seq<char>, stamp: Seq<char>, sp4: Seq<char>,
    method: Seq<char>, c1: char, path: Seq<char>, c2: char, protocol: Seq<char>,
    sp5: Seq<char>, status: Seq<char>, sp6: Seq<char>, bytes: Seq<char>,
) -> Seq<char> {
    host + sp1 + rfc931 + sp2 + username + sp3 + seq!['['] + stamp + seq![']'] + sp4
        + seq!['"'] + method + seq![c1] + path + seq![c2] + protocol + seq!['"'] + sp5
        + status + sp6 + bytes
}

/// The captures such a line carries.
pub open spec fn assembled_caps(
    host: Seq<char>, rfc931: Seq<char>, username: Seq<char>, stamp: Seq<char>,
    method: Seq<char>, c1: char, path: Seq<char>, c2: char, protocol: Seq<char>,
    status: Seq<char>, bytes: Seq<char>,
) -> CommonCaps {
    CommonCaps {
        host,
        rfc931,
        username,
        stamp,
        request: method + seq![c1] + path + seq![c2] + protocol,
        method,
        path,
        protocol,
        status,
        bytes,
    }
}

/// Completeness of the Common-prefix scan: a line assembled from
/// well-formed fields and separators, followed by any tail that begins
/// with whitespace (or by nothing), scans to exactly those fields, with
/// the prefix ending where the tail begins.
#[verifier::rlimit(100)]
pub proof fn lemma_common_prefix_scan(
    host: Seq<char>, sp1: Seq<char>, rfc931: Seq<char>, sp2: Seq<char>,
    username: Seq<char>, sp3: Seq<char>, stamp: Seq<char>, sp4: Seq<char>,
    method: Seq<char>, c1: char, path: Seq<char>, c2: char, protocol: Seq<char>,
    sp5: Seq<char>, status: Seq<char>, sp6: Seq<char>, bytes: Seq<char>, tail: Seq<char>,
)
    requires
        token_ok(host),
        token_ok(rfc931),
        token_ok(username),
        token_ok(method),
        token_ok(path),
        token_ok(status),
        token_ok(bytes),
        protocol_ok(protocol),
        stamp_capture_ok(stamp),
        space_run(sp1),
        space_run(sp2),
        space_run(sp3),
        space_run(sp4),
        space_run(sp5),
        space_run(sp6),
        is_space_c(c1),
        is_space_c(c2),
        tail.len() > 0 ==> is_space_c(tail[0]),
    ensures
        ({
            let body = assembled_common(host, sp1, rfc931, sp2, username, sp3, stamp, sp4,
                method, c1, path, c2, protocol, sp5, status, sp6, bytes);
            common_prefix(body + tail) == Some((
                assembled_caps(host, rfc931, username, stamp, method, c1, path, c2, protocol,
                    status, bytes),
                body.len() as int,
            ))
        }),
{
    let body = assembled_common(host, sp1, rfc931, sp2, username, sp3, stamp, sp4,
        method, c1, path, c2, protocol, sp5, status, sp6, bytes);
    let s = body + tail;
    let n = s.len() as int;

    let a1 = host.len() as int;
    let b1 = a1 + sp1.len();
    let a2 = b1 + rfc931.len();
    let b2 = a2 + sp2.len();
    let a3 = b2 + username.len();
    let b3 = a3 + sp3.len();
    let ts_end = b3 + 1 + stamp.len();
    let b4 = ts_end + 1 + sp4.len();
    let m_end = b4 + 1 + method.len();
    let p_end = m_end + 1 + path.len();
    let pr_end = p_end + 1 + protocol.len();
    let b5 = pr_end + 1 + sp5.len();
    let st_end = b5 + status.len();
    let b6 = st_end + sp6.len();
    let by_end = b6 + bytes.len();

    assert(by_end == body.len());

    assert forall|k: int| 0 <= k < a1 implies !is_space_c(s[k]) by {
        assert(s[k] == host[k]);
    }
    assert(s[a1] == sp1[0]);
    lemma_token_end_is(s, 0, a1);
    assert forall|k: int| a1 <= k < b1 implies is_space_c(s[k]) by {
        assert(s[k] == sp1[k - a1]);
    }
    assert(s[b1] == rfc931[0]);
    lemma_space_end_is(s, a1, b1);
    assert forall|k: int| b1 <= k < a2 implies !is_space_c(s[k]) by {
        assert(s[k] == rfc931[k - b1]);
    }
    assert(s[a2] == sp2[0]);
    lemma_token_end_is(s, b1, a2);
    assert forall|k: int| a2 <= k < b2 implies is_space_c(s[k]) by {
        assert(s[k] == sp2[k - a2]);
    }
    assert(s[b2] == username[0]);
    lemma_space_end_is(s, a2, b2);
    assert forall|k: int| b2 <= k < a3 implies !is_space_c(s[k]) by {
        assert(s[k] == username[k - b2]);
    }
    assert(s[a3] == sp3[0]);
    lemma_token_end_is(s, b2, a3);
    assert forall|k: int| a3 <= k < b3 implies is_space_c(s[k]) by {
        assert(s[k] == sp3[k - a3]);
    }
    assert(s[b3] == '[');
    lemma_space_end_is(s, a3, b3);
    assert forall|k: int| b3 + 1 <= k < ts_end implies s[k] != ']' by {
        assert(s[k] == stamp[k - (b3 + 1)]);
    }
    assert(s[ts_end] == ']');
    lemma_upto_char_is(s, b3 + 1, ']', ts_end);
    assert forall|k: int| ts_end + 1 <= k < b4 implies is_space_c(s[k]) by {
        assert(s[k] == sp4[k - (ts_end + 1)]);
    }
    assert(s[b4] == '"');
    lemma_space_end_is(s, ts_end + 1, b4);
    assert forall|k: int| b4 + 1 <= k < m_end implies !is_space_c(s[k]) by {
        assert(s[k] == method[k - (b4 + 1)]);
    }
    assert(s[m_end] == c1);
    lemma_token_end_is(s, b4 + 1, m_end);
    assert forall|k: int| m_end + 1 <= k < p_end implies !is_space_c(s[k]) by {
        assert(s[k] == path[k - (m_end + 1)]);
    }
    assert(s[p_end] == c2);
    lemma_token_end_is(s, m_end + 1, p_end);
    assert forall|k: int| p_end + 1 <= k < pr_end implies !is_space_c(s[k]) && s[k] != '"' by {
        assert(s[k] == protocol[k - (p_end + 1)]);
    }
    assert(s[pr_end] == '"');
    lemma_bare_end_is(s, p_end + 1, pr_end);
    assert forall|k: int| pr_end + 1 <= k < b5 implies is_space_c(s[k]) by {
        assert(s[k] == sp5[k - (pr_end + 1)]);
    }
    assert(s[b5] == status[0]);
    lemma_space_end_is(s, pr_end + 1, b5);
    assert forall|k: int| b5 <= k < st_end implies !is_space_c(s[k]) by {
        assert(s[k] == status[k - b5]);
    }
    assert(s[st_end] == sp6[0]);
    lemma_token_end_is(s, b5, st_end);
    assert forall|k: int| st_end <= k < b6 implies is_space_c(s[k]) by {
        assert(s[k] == sp6[k - st_end]);
    }
    assert(s[b6] == bytes[0]);
    lemma_space_end_is(s, st_end, b6);
    assert forall|k: int| b6 <= k < by_end implies !is_space_c(s[k]) by {
        assert(s[k] == bytes[k - b6]);
    }
    if tail.len() > 0 {
        assert(s[by_end] == tail[0]);
    }
    lemma_token_end_is(s, b6, by_end);

    let caps = assembled_caps(host, rfc931, username, stamp, method, c1, path, c2, protocol,
        status, bytes);
    assert(common_prefix(s) matches Some(ce) && ce.0 =~= caps && ce.1 == by_end) by {
        assert(s.subrange(0, a1) =~= host);
        assert(s.subrange(b1, a2) =~= rfc931);
        assert(s.subrange(b2, a3) =~= username);
        assert(s.subrange(b3 + 1, ts_end) =~= stamp);
        assert(s.subrange(b4 + 1, pr_end) =~= method + seq![c1] + path + seq![c2] + protocol);
        assert(s.subrange(b4 + 1, m_end) =~= method);
        assert(s.subrange(m_end + 1, p_end) =~= path);
        assert(s.subrange(p_end + 1, pr_end) =~= protocol);
        assert(s.subrange(b5, st_end) =~= status);
        assert(s.subrange(b6, by_end) =~= bytes);
    }
}

/// Completeness of the Common grammar: a line assembled from well-formed
/// fields and separators — and nothing after its byte count — is
/// accepted, and the captures are exactly those fields.
pub proof fn lemma_common_accepts_assembled(
    host: Seq<char>, sp1: Seq<char>, rfc931: Seq<char>, sp2: Seq<char>,
    username: Seq<char>, sp3: Seq<char>, stamp: Seq<char>, sp4: Seq<char>,
    method: Seq<char>, c1: char, path: Seq<char>, c2: char, protocol: Seq<char>,
    sp5: Seq<char>, status: Seq<char>, sp6: Seq<char>, bytes: Seq<char>,
)
    requires
        token_ok(host),
        token_ok(rfc931),
        token_ok(username),
        token_ok(method),
        token_ok(path),
        token_ok(status),
        token_ok(bytes),
        protocol_ok(protocol),
        stamp_capture_ok(stamp),
        space_run(sp1),
        space_run(sp2),
        space_run(sp3),
        space_run(sp4),
        space_run(sp5),
        space_run(sp6),
        is_space_c(c1),
        is_space_c(c2),
    ensures
        ({
            let body = assembled_common(host, sp1, rfc931, sp2, username, sp3, stamp, sp4,
                method, c1, path, c2, protocol, sp5, status, sp6, bytes);
            common_captures(body) == Some(assembled_caps(host, rfc931, username, stamp,
                method, c1, path, c2, protocol, status, bytes))
        }),
{
    let body = assembled_common(host, sp1, rfc931, sp2, username, sp3, stamp, sp4,
        method, c1, path, c2, protocol, sp5, status, sp6, bytes);
    lemma_common_prefix_scan(host, sp1, rfc931, sp2, username, sp3, stamp, sp4,
        method, c1, path, c2, protocol, sp5, status, sp6, bytes, Seq::empty());
    assert(body + Seq::<char>::empty() =~= body);
}

/// Completeness of the Combined grammar: any well-formed Common-shaped
/// body, followed by a quoted referrer and a quoted user agent, is
/// accepted by the Combined grammar with exactly those captures.
#[verifier::rlimit(100)]
pub proof fn lemma_combined_accepts_assembled(
    host: Seq<char>, sp1: Seq<char>, rfc931: Seq<char>, sp2: Seq<char>,
    username: Seq<char>, sp3: Seq<char>, stamp: Seq<char>, sp4: Seq<char>,
    method: Seq<char>, c1: char, path: Seq<char>, c2: char, protocol: Seq<char>,
    sp5: Seq<char>, status: Seq<char>, sp6: Seq<char>, bytes: Seq<char>,
    sp7: Seq<char>, referrer: Seq<char>, sp8: Seq<char>, user_agent: Seq<char>,
)
    requires
        token_ok(host),
        token_ok(rfc931),
        token_ok(username),
        token_ok(method),
        token_ok(path),
        token_ok(status),
        token_ok(bytes),
        protocol_ok(protocol),
        stamp_capture_ok(stamp),
        space_run(sp1),
        space_run(sp2),
        space_run(sp3),
        space_run(sp4),
        space_run(sp5),
        space_run(sp6),
        space_run(sp7),
        space_run(sp8),
        is_space_c(c1),
        is_space_c(c2),
        quoted_ok(referrer),
        quoted_ok(user_agent),
    ensures
        ({
            let body = assembled_common(host, sp1, rfc931, sp2, username, sp3, stamp, sp4,
                method, c1, path, c2, protocol, sp5, status, sp6, bytes);
            let line = body + sp7 + seq!['"'] + referrer + seq!['"'] + sp8 + seq!['"']
                + user_agent + seq!['"'];
            combined_captures(line) == Some(CombinedCaps {
                base: assembled_caps(host, rfc931, username, stamp, method, c1, path, c2,
                    protocol, status, bytes),
                referrer,
                user_agent,
            })
        }),
{
    let body = assembled_common(host, sp1, rfc931, sp2, username, sp3, stamp, sp4,
        method, c1, path, c2, protocol, sp5, status, sp6, bytes);
    let tail = sp7 + seq!['"'] + referrer + seq!['"'] + sp8 + seq!['"'] + user_agent + seq!['"'];
    let line = body + sp7 + seq!['"'] + referrer + seq!['"'] + sp8 + seq!['"']
        + user_agent + seq!['"'];
    assert(line =~= body + tail);
    assert(tail[0] == sp7[0]);
    lemma_common_prefix_scan(host, sp1, rfc931, sp2, username, sp3, stamp, sp4,
        method, c1, path, c2, protocol, sp5, status, sp6, bytes, tail);

    let s = body + tail;
    let n = s.len() as int;
    let e = body.len() as int;
    let i7 = e + sp7.len();
    let r_end = i7 + 1 + referrer.len();
    let i8 = r_end + 1 + sp8.len();
    let a_end = i8 + 1 + user_agent.len();
    assert(a_end + 1 == n);

    assert(s[e] == sp7[0]);
    assert forall|k: int| e <= k < i7 implies is_space_c(s[k]) by {
        assert(s[k] == sp7[k - e]);
    }
    assert(s[i7] == '"');
    lemma_space_end_is(s, e, i7);
    assert forall|k: int| i7 + 1 <= k < r_end implies s[k] != '"' by {
        assert(s[k] == referrer[k - (i7 + 1)]);
    }
    assert(s[r_end] == '"');
    lemma_upto_char_is(s, i7 + 1, '"', r_end);
    assert(s[r_end + 1] == sp8[0]);
    assert forall|k: int| r_end + 1 <= k < i8 implies is_space_c(s[k]) by {
        assert(s[k] == sp8[k - (r_end + 1)]);
    }
    assert(s[i8] == '"');
    lemma_space_end_is(s, r_end + 1, i8);
    assert forall|k: int| i8 + 1 <= k < a_end implies s[k] != '"' by {
        assert(s[k] == user_agent[k - (i8 + 1)]);
    }
    assert(s[a_end] == '"');
    lemma_upto_char_is(s, i8 + 1, '"', a_end);

    assert(combined_captures(s) matches Some(c) && c =~= CombinedCaps {
        base: assembled_caps(host, rfc931, username, stamp, method, c1, path, c2,
            protocol, status, bytes),
        referrer,
        user_agent,
    }) by {
        assert(s.subrange(i7 + 1, r_end) =~= referrer);
        assert(s.subrange(i8 + 1, a_end) =~= user_agent);
    }
}

/// Captures of one Common-format line, as owned strings.
pub struct CommonFields {
    pub host: String,
    pub rfc931: String,
    pub username: String,
    pub stamp: String,
    pub request: String,
    pub method: String,
    pub path: String,
    pub protocol: String,
    pub status: String,
    pub bytes: String,
}

impl View for CommonFields {
    type V = CommonCaps;

    open spec fn view(&self) -> CommonCaps {
        CommonCaps {
            host: self.host@,
            rfc931: self.rfc931@,
            username: self.username@,
            stamp: self.stamp@,
            request: self.request@,
            method: self.method@,
            path: self.path@,
            protocol: self.protocol@,
            status: self.status@,
            bytes: self.bytes@,
        }
    }
}

/// Captures of one Combined-format line, as owned strings.
pub struct CombinedFields {
    pub base: CommonFields,
    pub referrer: String,
    pub user_agent: String,
}

impl View for CombinedFields {
    type V = CombinedCaps;

    open spec fn view(&self) -> CombinedCaps {
        CombinedCaps {
            base: self.base@,
            referrer: self.referrer@,
            user_agent: self.user_agent@,
        }
    }
}

/// Scan a Common-shaped prefix of `s`, returning the captures and the
/// index just past the byte-count field — exactly when `common_prefix`
/// denotes them.
#[verifier::rlimit(100)]
fn match_common_prefix(s: &str) -> (r: Option<(CommonFields, usize)>)
    ensures
        match r {
            Some(fe) => common_prefix(s@) == Some((fe.0@, fe.1 as int)),
            None => common_prefix(s@) is None,
        },
{
    let n = s.unicode_len();
    let e1 = scan_token(s, 0);
    if e1 == 0 || e1 >= n {
        return None;
    }
    let i2 = scan_spaces(s, e1);
    let e2 = scan_token(s, i2);
    if e2 == i2 || e2 >= n {
        return None;
    }
    let i3 = scan_spaces(s, e2);
    let e3 = scan_token(s, i3);
    if e3 == i3 || e3 >= n {
        return None;
    }
    let i4 = scan_spaces(s, e3);
    if i4 >= n || s.get_char(i4) != '[' {
        return None;
    }
    let ts_end = scan_upto(s, i4 + 1, ']');
    if ts_end == i4 + 1 || ts_end >= n || ts_end + 1 >= n
        || !crate::scan::is_space(s.get_char(ts_end + 1)) {
        return None;
    }
    let iq = scan_spaces(s, ts_end + 1);
    if iq >= n || s.get_char(iq) != '"' {
        return None;
    }
    let m_end = scan_token(s, iq + 1);
    if m_end == iq + 1 || m_end >= n {
        return None;
    }
    let p_end = scan_token(s, m_end + 1);
    if p_end == m_end + 1 || p_end >= n {
        return None;
    }
    let pr_end = scan_bare(s, p_end + 1);
    if pr_end == p_end + 1 || pr_end >= n || s.get_char(pr_end) != '"'
        || pr_end + 1 >= n || !crate::scan::is_space(s.get_char(pr_end + 1)) {
        return None;
    }
    let i5 = scan_spaces(s, pr_end + 1);
    let st_end = scan_token(s, i5);
    if st_end == i5 || st_end >= n {
        return None;
    }
    let i6 = scan_spaces(s, st_end);
    let by_end = scan_token(s, i6);
    if by_end == i6 {
        return None;
    }
    let f = CommonFields {
        host: s.substring_char(0, e1).to_owned(),
        rfc931: s.substring_char(i2, e2).to_owned(),
        username: s.substring_char(i3, e3).to_owned(),
        stamp: s.substring_char(i4 + 1, ts_end).to_owned(),
        request: s.substring_char(iq + 1, pr_end).to_owned(),
        method: s.substring_char(iq + 1, m_end).to_owned(),
        path: s.substring_char(m_end + 1, p_end).to_owned(),
        protocol: s.substring_char(p_end + 1, pr_end).to_owned(),
        status: s.substring_char(i5, st_end).to_owned(),
        bytes: s.substring_char(i6, by_end).to_owned(),
    };
    proof {
        assert(common_prefix(s@) matches Some(ce) && ce.0 =~= f@ && ce.1 == by_end as int);
    }
    Some((f, by_end))
}

/// Match `s` against the Common grammar.
pub fn match_common(s: &str) -> (r: Option<CommonFields>)
    ensures
        match r {
            Some(f) => common_captures(s@) == Some(f@),
            None => common_captures(s@) is None,
        },
{
    let n = s.unicode_len();
    match match_common_prefix(s) {
        None => None,
        Some((f, e)) => {
            if e == n {
                proof {
                    assert(common_captures(s@) matches Some(c) && c =~= f@);
                }
                Some(f)
            } else {
                None
            }
        },
    }
}

/// Match `s` against the Combined grammar.
#[verifier::rlimit(100)]
pub fn match_combined(s: &str) -> (r: Option<CombinedFields>)
    ensures
        match r {
            Some(f) => combined_captures(s@) == Some(f@),
            None => combined_captures(s@) is None,
        },
{
    let n = s.unicode_len();
    let (base, e) = match match_common_prefix(s) {
        None => {
            return None;
        },
        Some(fe) => fe,
    };
    if e >= n || !crate::scan::is_space(s.get_char(e)) {
        return None;
    }
    let i7 = scan_spaces(s, e);
    if i7 >= n || s.get_char(i7) != '"' {
        return None;
    }
    let r_end = scan_upto(s, i7 + 1, '"');
    if r_end >= n || r_end + 1 >= n || !crate::scan::is_space(s.get_char(r_end + 1)) {
        return None;
    }
    let i8 = scan_spaces(s, r_end + 1);
    if i8 >= n || s.get_char(i8) != '"' {
        return None;
    }
    let a_end = scan_upto(s, i8 + 1, '"');
    if a_end >= n || a_end + 1 != n {
        return None;
    }
    let f = CombinedFields {
        base,
        referrer: s.substring_char(i7 + 1, r_end).to_owned(),
        user_agent: s.substring_char(i8 + 1, a_end).to_owned(),
    };
    proof {
        assert(combined_captures(s@) matches Some(c) && c =~= f@);
    }
    Some(f)
}

} // verus!
