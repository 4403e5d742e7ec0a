//! Decimal numerals: reading an unsigned 64-bit count from a captured
//! field, and rendering one back for serialization.

use vstd::prelude::*;

verus! {

pub open spec fn is_digit_c(c: char) -> bool {
    '0' <= c && c <= '9'
}

pub open spec fn digit_val(c: char) -> int {
    c as int - '0' as int
}

pub open spec fn all_digits(s: Seq<char>) -> bool {
    forall|i: int| 0 <= i < s.len() ==> is_digit_c(s[i])
}

/// The number denoted by a sequence of decimal digit characters.
pub open spec fn dec_val(s: Seq<char>) -> int
    decreases s.len(),
{
    if s.len() == 0 {
        0
    } else {
        dec_val(s.drop_last()) * 10 + digit_val(s.last())
    }
}

pub proof fn lemma_dec_val_nonneg(s: Seq<char>)
    requires
        all_digits(s),
    ensures
        dec_val(s) >= 0,
    decreases s.len(),
{
    if s.len() > 0 {
        assert(all_digits(s.drop_last()));
        lemma_dec_val_nonneg(s.drop_last());
    }
}

/// Appending digits never decreases the denoted value.
pub proof fn lemma_dec_val_prefix(s: Seq<char>, i: int)
    requires
        all_digits(s),
        0 <= i <= s.len(),
    ensures
        dec_val(s) >= dec_val(s.take(i)),
    decreases s.len() - i,
{
    if i < s.len() {
        lemma_dec_val_prefix(s, i + 1);
        assert(s.take(i + 1).drop_last() =~= s.take(i));
        assert(s.take(i + 1).last() == s[i]);
        assert(all_digits(s.take(i)));
        lemma_dec_val_nonneg(s.take(i));
        assert(dec_val(s.take(i + 1)) == dec_val(s.take(i)) * 10 + digit_val(s[i]));
        assert(dec_val(s.take(i)) * 10 >= dec_val(s.take(i))) by (nonlinear_arith)
            requires dec_val(s.take(i)) >= 0;
    } else {
        assert(s.take(i) =~= s);
    }
}

/// The `u64` a capture denotes: defined exactly when the capture is a
/// nonempty, all-digit string whose value fits.
pub open spec fn numeral_u64(s: Seq<char>) -> Option<u64> {
    if s.len() > 0 && all_digits(s) && dec_val(s) <= u64::MAX {
        Some(dec_val(s) as u64)
    } else {
        None
    }
}

/// Read a decimal numeral. Returns exactly what `numeral_u64` denotes.
pub fn parse_u64_str(s: &str) -> (r: Option<u64>)
    ensures
        r == numeral_u64(s@),
        r matches Some(v) ==> v as int == dec_val(s@),
{
    let n = s.unicode_len();
    if n == 0 {
        return None;
    }
    let mut v: u64 = 0;
    let mut i: usize = 0;
    while i < n
        invariant
            0 <= i <= n,
            n == s@.len(),
            forall|k: int| 0 <= k < i ==> is_digit_c(s@[k]),
            v as int == dec_val(s@.take(i as int)),
        decreases n - i,
    {
        let c = s.get_char(i);
        if !('0' <= c && c <= '9') {
            assert(!is_digit_c(s@[i as int]));
            return None;
        }
        let d: u64 = (c as u32 as u64) - ('0' as u32 as u64);
        proof {
            assert(s@.take(i + 1).drop_last() =~= s@.take(i as int));
            assert(s@.take(i + 1).last() == s@[i as int]);
        }
        if v > (u64::MAX - d) / 10 {
            proof {
                assert(dec_val(s@.take(i + 1)) == v as int * 10 + d);
                assert(v as int * 10 + d > u64::MAX) by (nonlinear_arith)
                    requires
                        v as int > (u64::MAX - d as int) / 10,
                        0 <= d <= 9;
                assert(forall|k: int| 0 <= k < i + 1 ==> is_digit_c(s@[k]));
                if all_digits(s@) {
                    lemma_dec_val_prefix(s@, i + 1);
                }
            }
            return None;
        }
        proof {
            assert(v as int * 10 + d <= u64::MAX) by (nonlinear_arith)
                requires
                    v as int <= (u64::MAX - d as int) / 10,
                    0 <= d <= 9;
        }
        v = v * 10 + d;
        i = i + 1;
    }
    proof {
        assert(s@.take(n as int) =~= s@);
        assert(all_digits(s@));
    }
    Some(v)
}

/// One decimal digit as a character.
pub open spec fn digit_char(d: int) -> char {
    if d == 0 { '0' }
    else if d == 1 { '1' }
    else if d == 2 { '2' }
    else if d == 3 { '3' }
    else if d == 4 { '4' }
    else if d == 5 { '5' }
    else if d == 6 { '6' }
    else if d == 7 { '7' }
    else if d == 8 { '8' }
    else { '9' }
}

/// The shortest decimal numeral for `n` (no leading zeros, except "0").
pub open spec fn dec_str(n: int) -> Seq<char>
    decreases n,
{
    if n < 10 {
        seq![digit_char(n)]
    } else {
        dec_str(n / 10) + seq![digit_char(n % 10)]
    }
}

/// Append one decimal digit character to `out`.
pub fn push_digit(out: &mut String, d: u64)
    requires
        d <= 9,
    ensures
        final(out)@ == old(out)@ + seq![digit_char(d as int)],
{
    proof {
        reveal_strlit("0");
        reveal_strlit("1");
        reveal_strlit("2");
        reveal_strlit("3");
        reveal_strlit("4");
        reveal_strlit("5");
        reveal_strlit("6");
        reveal_strlit("7");
        reveal_strlit("8");
        reveal_strlit("9");
    }
    if d == 0 { out.append("0"); }
    else if d == 1 { out.append("1"); }
    else if d == 2 { out.append("2"); }
    else if d == 3 { out.append("3"); }
    else if d == 4 { out.append("4"); }
    else if d == 5 { out.append("5"); }
    else if d == 6 { out.append("6"); }
    else if d == 7 { out.append("7"); }
    else if d == 8 { out.append("8"); }
    else { out.append("9"); }
    proof {
        assert(out@ =~= old(out)@ + seq![digit_char(d as int)]);
    }
}

/// Append the decimal numeral of `n` to `out`.
pub fn push_u64(out: &mut String, n: u64)
    ensures
        final(out)@ == old(out)@ + dec_str(n as int),
    decreases n,
{
    if n < 10 {
        push_digit(out, n);
    } else {
        push_u64(out, n / 10);
        push_digit(out, n % 10);
        proof {
            assert(out@ =~= old(out)@ + dec_str(n as int));
        }
    }
}

} // verus!
