//! The timestamp field of an access-log line: a timezone-aware point in
//! time, read from the fixed bracket format
//! `day/abbreviated-month/4-digit-year:HH:MM:SS zone-offset`
//! (for example `10/Oct/1999:21:15:05 +0500`) and rendered back in
//! RFC 3339 form for serialization.

use vstd::prelude::*;
use crate::numbers::{is_digit_c, digit_val, digit_char};

verus! {

/// A timezone-aware point in time, held as plain calendar fields plus an
/// offset from UTC in minutes.
#[derive(Clone, Copy, Debug, PartialEq, Eq, Structural)]
pub struct Timestamp {
    pub year: u64,
    pub month: u64,
    pub day: u64,
    pub hour: u64,
    pub minute: u64,
    pub second: u64,
    pub offset_minutes: i64,
}

pub open spec fn is_leap_year(y: int) -> bool {
    y % 4 == 0 && (y % 100 != 0 || y % 400 == 0)
}

pub open spec fn days_in_month(y: int, m: int) -> int {
    if m == 1 { 31 }
    else if m == 2 { if is_leap_year(y) { 29 } else { 28 } }
    else if m == 3 { 31 }
    else if m == 4 { 30 }
    else if m == 5 { 31 }
    else if m == 6 { 30 }
    else if m == 7 { 31 }
    else if m == 8 { 31 }
    else if m == 9 { 30 }
    else if m == 10 { 31 }
    else if m == 11 { 30 }
    else { 31 }
}

/// The fields denote a real calendar date and time of day, and the offset
/// is one a two-digit-hour, two-digit-minute zone can express.
pub open spec fn ts_valid(t: Timestamp) -> bool {
    &&& t.year <= 9999
    &&& 1 <= t.month <= 12
    &&& 1 <= t.day <= days_in_month(t.year as int, t.month as int)
    &&& t.hour <= 23
    &&& t.minute <= 59
    &&& t.second <= 59
    &&& -1439 <= t.offset_minutes <= 1439
}

/// Month number (1-12) for an abbreviated month name, 0 otherwise.
pub open spec fn month_num(c0: char, c1: char, c2: char) -> int {
    if c0 == 'J' && c1 == 'a' && c2 == 'n' { 1 }
    else if c0 == 'F' && c1 == 'e' && c2 == 'b' { 2 }
    else if c0 == 'M' && c1 == 'a' && c2 == 'r' { 3 }
    else if c0 == 'A' && c1 == 'p' && c2 == 'r' { 4 }
    else if c0 == 'M' && c1 == 'a' && c2 == 'y' { 5 }
    else if c0 == 'J' && c1 == 'u' && c2 == 'n' { 6 }
    else if c0 == 'J' && c1 == 'u' && c2 == 'l' { 7 }
    else if c0 == 'A' && c1 == 'u' && c2 == 'g' { 8 }
    else if c0 == 'S' && c1 == 'e' && c2 == 'p' { 9 }
    else if c0 == 'O' && c1 == 'c' && c2 == 't' { 10 }
    else if c0 == 'N' && c1 == 'o' && c2 == 'v' { 11 }
    else if c0 == 'D' && c1 == 'e' && c2 == 'c' { 12 }
    else { 0 }
}

pub open spec fn two_digits(s: Seq<char>, i: int) -> int {
    digit_val(s[i]) * 10 + digit_val(s[i + 1])
}

pub open spec fn four_digits(s: Seq<char>, i: int) -> int {
    two_digits(s, i) * 100 + two_digits(s, i + 2)
}

/// Syntactic shape of a timestamp capture:
/// `DD/Mon/YYYY:HH:MM:SS +ZZZZ`, 26 characters.
pub open spec fn stamp_shape(s: Seq<char>) -> bool {
    &&& s.len() == 26
    &&& is_digit_c(s[0]) && is_digit_c(s[1])
    &&& s[2] == '/'
    &&& month_num(s[3], s[4], s[5]) != 0
    &&& s[6] == '/'
    &&& is_digit_c(s[7]) && is_digit_c(s[8]) && is_digit_c(s[9]) && is_digit_c(s[10])
    &&& s[11] == ':'
    &&& is_digit_c(s[12]) && is_digit_c(s[13])
    &&& s[14] == ':'
    &&& is_digit_c(s[15]) && is_digit_c(s[16])
    &&& s[17] == ':'
    &&& is_digit_c(s[18]) && is_digit_c(s[19])
    &&& s[20] == ' '
    &&& (s[21] == '+' || s[21] == '-')
    &&& is_digit_c(s[22]) && is_digit_c(s[23]) && is_digit_c(s[24]) && is_digit_c(s[25])
}

/// The timestamp a well-shaped capture denotes.
pub open spec fn stamp_value(s: Seq<char>) -> Timestamp {
    Timestamp {
        year: four_digits(s, 7) as u64,
        month: month_num(s[3], s[4], s[5]) as u64,
        day: two_digits(s, 0) as u64,
        hour: two_digits(s, 12) as u64,
        minute: two_digits(s, 15) as u64,
        second: two_digits(s, 18) as u64,
        offset_minutes: (if s[21] == '-' {
            -(two_digits(s, 22) * 60 + two_digits(s, 24))
        } else {
            two_digits(s, 22) * 60 + two_digits(s, 24)
        }) as i64,
    }
}

/// The zone offset's own digit groups are in range (hours below 24,
/// minutes below 60).
pub open spec fn stamp_offset_ok(s: Seq<char>) -> bool {
    two_digits(s, 22) <= 23 && two_digits(s, 24) <= 59
}

/// The timestamp denoted by a capture, when the capture conforms to the
/// fixed format and denotes a real point in time.
pub open spec fn stamp_of(s: Seq<char>) -> Option<Timestamp> {
    if stamp_shape(s) && stamp_offset_ok(s) && ts_valid(stamp_value(s)) {
        Some(stamp_value(s))
    } else {
        None
    }
}

/// Month number (1-12) for an abbreviated month name, 0 otherwise.
pub fn month_number(c0: char, c1: char, c2: char) -> (m: u64)
    ensures
        m == month_num(c0, c1, c2),
{
    if c0 == 'J' && c1 == 'a' && c2 == 'n' { 1 }
    else if c0 == 'F' && c1 == 'e' && c2 == 'b' { 2 }
    else if c0 == 'M' && c1 == 'a' && c2 == 'r' { 3 }
    else if c0 == 'A' && c1 == 'p' && c2 == 'r' { 4 }
    else if c0 == 'M' && c1 == 'a' && c2 == 'y' { 5 }
    else if c0 == 'J' && c1 == 'u' && c2 == 'n' { 6 }
    else if c0 == 'J' && c1 == 'u' && c2 == 'l' { 7 }
    else if c0 == 'A' && c1 == 'u' && c2 == 'g' { 8 }
    else if c0 == 'S' && c1 == 'e' && c2 == 'p' { 9 }
    else if c0 == 'O' && c1 == 'c' && c2 == 't' { 10 }
    else if c0 == 'N' && c1 == 'o' && c2 == 'v' { 11 }
    else if c0 == 'D' && c1 == 'e' && c2 == 'c' { 12 }
    else { 0 }
}

fn digit(c: char) -> (v: u64)
    requires
        is_digit_c(c),
    ensures
        v == digit_val(c),
        v <= 9,
{
    (c as u32 as u64) - ('0' as u32 as u64)
}

fn read2(s: &str, i: usize) -> (v: u64)
    requires
        i < usize::MAX,
        i + 1 < s@.len(),
        is_digit_c(s@[i as int]),
        is_digit_c(s@[i as int + 1]),
    ensures
        v == two_digits(s@, i as int),
        v <= 99,
{
    let a = digit(s.get_char(i));
    let b = digit(s.get_char(i + 1));
    a * 10 + b
}

pub fn days_of_month(y: u64, m: u64) -> (d: u64)
    requires
        1 <= m <= 12,
    ensures
        d == days_in_month(y as int, m as int),
{
    if m == 1 { 31 }
    else if m == 2 { if y % 4 == 0 && (y % 100 != 0 || y % 400 == 0) { 29 } else { 28 } }
    else if m == 3 { 31 }
    else if m == 4 { 30 }
    else if m == 5 { 31 }
    else if m == 6 { 30 }
    else if m == 7 { 31 }
    else if m == 8 { 31 }
    else if m == 9 { 30 }
    else if m == 10 { 31 }
    else if m == 11 { 30 }
    else { 31 }
}

/// Parse a timestamp capture against the fixed format. Returns the
/// denoted timestamp exactly when `stamp_of` does.
pub fn parse_timestamp(s: &str) -> (r: Option<Timestamp>)
    ensures
        r == stamp_of(s@),
{
    let n = s.unicode_len();
    if n != 26 {
        return None;
    }
    // Delimiters.
    if !(s.get_char(2) == '/' && s.get_char(6) == '/' && s.get_char(11) == ':'
        && s.get_char(14) == ':' && s.get_char(17) == ':' && s.get_char(20) == ' ')
    {
        return None;
    }
    let sign = s.get_char(21);
    if !(sign == '+' || sign == '-') {
        return None;
    }
    // Digit positions.
    if !(is_digit(s.get_char(0)) && is_digit(s.get_char(1))
        && is_digit(s.get_char(7)) && is_digit(s.get_char(8))
        && is_digit(s.get_char(9)) && is_digit(s.get_char(10))
        && is_digit(s.get_char(12)) && is_digit(s.get_char(13))
        && is_digit(s.get_char(15)) && is_digit(s.get_char(16))
        && is_digit(s.get_char(18)) && is_digit(s.get_char(19))
        && is_digit(s.get_char(22)) && is_digit(s.get_char(23))
        && is_digit(s.get_char(24)) && is_digit(s.get_char(25)))
    {
        return None;
    }
    let month = month_number(s.get_char(3), s.get_char(4), s.get_char(5));
    if month == 0 {
        return None;
    }
    let day = read2(s, 0);
    let year = read2(s, 7) * 100 + read2(s, 9);
    let hour = read2(s, 12);
    let minute = read2(s, 15);
    let second = read2(s, 18);
    let off_h = read2(s, 22);
    let off_m = read2(s, 24);
    if off_h > 23 || off_m > 59 {
        return None;
    }
    if day < 1 || day > days_of_month(year, month) || hour > 23 || minute > 59 || second > 59 {
        return None;
    }
    let magnitude: i64 = (off_h * 60 + off_m) as i64;
    let t = Timestamp {
        year,
        month,
        day,
        hour,
        minute,
        second,
        offset_minutes: if sign == '-' { -magnitude } else { magnitude },
    };
    Some(t)
}

fn is_digit(c: char) -> (r: bool)
    ensures
        r == is_digit_c(c),
{
    '0' <= c && c <= '9'
}

pub open spec fn pad2(n: int) -> Seq<char> {
    seq![digit_char(n / 10), digit_char(n % 10)]
}

pub open spec fn pad4(n: int) -> Seq<char> {
    seq![
        digit_char(n / 1000),
        digit_char((n / 100) % 10),
        digit_char((n / 10) % 10),
        digit_char(n % 10),
    ]
}

/// RFC 3339 rendering of a timestamp, e.g. `1999-10-10T21:15:05+05:00`.
pub open spec fn rfc3339_of(t: Timestamp) -> Seq<char> {
    let off = if t.offset_minutes < 0 { -t.offset_minutes as int } else { t.offset_minutes as int };
    pad4(t.year as int) + seq!['-'] + pad2(t.month as int) + seq!['-'] + pad2(t.day as int)
        + seq!['T'] + pad2(t.hour as int) + seq![':'] + pad2(t.minute as int) + seq![':']
        + pad2(t.second as int)
        + (if t.offset_minutes < 0 { seq!['-'] } else { seq!['+'] })
        + pad2(off / 60) + seq![':'] + pad2(off % 60)
}

/// Append the two-digit zero-padded numeral of `n` to `out`.
pub fn push_pad2(out: &mut String, n: u64)
    requires
        n <= 99,
    ensures
        final(out)@ == old(out)@ + pad2(n as int),
{
    crate::numbers::push_digit(out, n / 10);
    crate::numbers::push_digit(out, n % 10);
    proof {
        assert(out@ =~= old(out)@ + pad2(n as int));
    }
}

/// Append the four-digit zero-padded numeral of `n` to `out`.
pub fn push_pad4(out: &mut String, n: u64)
    requires
        n <= 9999,
    ensures
        final(out)@ == old(out)@ + pad4(n as int),
{
    crate::numbers::push_digit(out, n / 1000);
    crate::numbers::push_digit(out, (n / 100) % 10);
    crate::numbers::push_digit(out, (n / 10) % 10);
    crate::numbers::push_digit(out, n % 10);
    proof {
        assert(out@ =~= old(out)@ + pad4(n as int));
    }
}

/// Append the RFC 3339 rendering of `t` to `out`.
#[verifier::rlimit(100)]
pub fn push_rfc3339(out: &mut String, t: &Timestamp)
    requires
        ts_valid(*t),
    ensures
        final(out)@ == old(out)@ + rfc3339_of(*t),
{
    proof {
        reveal_strlit("-");
        reveal_strlit("+");
        reveal_strlit(":");
        reveal_strlit("T");
    }
    push_pad4(out, t.year);
    out.append("-");
    push_pad2(out, t.month);
    out.append("-");
    push_pad2(out, t.day);
    out.append("T");
    push_pad2(out, t.hour);
    out.append(":");
    push_pad2(out, t.minute);
    out.append(":");
    push_pad2(out, t.second);
    let off: u64 = if t.offset_minutes < 0 {
        out.append("-");
        (-t.offset_minutes) as u64
    } else {
        out.append("+");
        t.offset_minutes as u64
    };
    push_pad2(out, off / 60);
    out.append(":");
    push_pad2(out, off % 60);
    proof {
        assert(out@ =~= old(out)@ + rfc3339_of(*t));
    }
}

} // verus!
