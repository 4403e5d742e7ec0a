//! Character classes and scanning primitives over `Seq<char>`, with
//! executable counterparts on `&str`.
//!
//! Log-line grammars are described here as positions: the end of a run of
//! non-whitespace characters, the end of a run of whitespace, the first
//! occurrence of a delimiter. Every executable scanner returns exactly the
//! position its spec function denotes.

use vstd::prelude::*;

verus! {

/// ASCII whitespace, the separator class of the access-log grammars.
pub open spec fn is_space_c(c: char) -> bool {
    c == ' ' || c == '\t' || c == '\n' || c == '\r' || c == '\u{b}' || c == '\u{c}'
}

/// First index `j >= i` such that `s[j]` is whitespace, or `s.len()`.
pub open spec fn token_end(s: Seq<char>, i: int) -> int
    decreases s.len() - i when 0 <= i <= s.len()
{
    if i >= s.len() || is_space_c(s[i]) {
        i
    } else {
        token_end(s, i + 1)
    }
}

/// First index `j >= i` such that `s[j]` is not whitespace, or `s.len()`.
pub open spec fn space_end(s: Seq<char>, i: int) -> int
    decreases s.len() - i when 0 <= i <= s.len()
{
    if i >= s.len() || !is_space_c(s[i]) {
        i
    } else {
        space_end(s, i + 1)
    }
}

/// First index `j >= i` such that `s[j] == stop`, or `s.len()`.
pub open spec fn upto_char(s: Seq<char>, i: int, stop: char) -> int
    decreases s.len() - i when 0 <= i <= s.len()
{
    if i >= s.len() || s[i] == stop {
        i
    } else {
        upto_char(s, i + 1, stop)
    }
}

/// First index `j >= i` such that `s[j]` is whitespace or `'"'`, or `s.len()`.
pub open spec fn bare_end(s: Seq<char>, i: int) -> int
    decreases s.len() - i when 0 <= i <= s.len()
{
    if i >= s.len() || is_space_c(s[i]) || s[i] == '"' {
        i
    } else {
        bare_end(s, i + 1)
    }
}

pub proof fn lemma_token_end_is(s: Seq<char>, i: int, j: int)
    requires
        0 <= i <= j <= s.len(),
        forall|k: int| i <= k < j ==> !is_space_c(s[k]),
        j < s.len() ==> is_space_c(s[j]),
    ensures
        token_end(s, i) == j,
    decreases j - i,
{
    if i < j {
        lemma_token_end_is(s, i + 1, j);
    }
}

pub proof fn lemma_space_end(s: Seq<char>, i: int)
    requires
        0 <= i <= s.len(),
    ensures
        i <= space_end(s, i) <= s.len(),
        forall|k: int| i <= k < space_end(s, i) ==> is_space_c(s[k]),
        space_end(s, i) < s.len() ==> !is_space_c(s[space_end(s, i)]),
    decreases s.len() - i,
{
    if i < s.len() && is_space_c(s[i]) {
        lemma_space_end(s, i + 1);
    }
}

pub proof fn lemma_space_end_is(s: Seq<char>, i: int, j: int)
    requires
        0 <= i <= j <= s.len(),
        forall|k: int| i <= k < j ==> is_space_c(s[k]),
        j < s.len() ==> !is_space_c(s[j]),
    ensures
        space_end(s, i) == j,
    decreases j - i,
{
    if i < j {
        lemma_space_end_is(s, i + 1, j);
    }
}

pub proof fn lemma_upto_char_is(s: Seq<char>, i: int, stop: char, j: int)
    requires
        0 <= i <= j <= s.len(),
        forall|k: int| i <= k < j ==> s[k] != stop,
        j < s.len() ==> s[j] == stop,
    ensures
        upto_char(s, i, stop) == j,
    decreases j - i,
{
    if i < j {
        lemma_upto_char_is(s, i + 1, stop, j);
    }
}

pub proof fn lemma_bare_end_is(s: Seq<char>, i: int, j: int)
    requires
        0 <= i <= j <= s.len(),
        forall|k: int| i <= k < j ==> !is_space_c(s[k]) && s[k] != '"',
        j < s.len() ==> is_space_c(s[j]) || s[j] == '"',
    ensures
        bare_end(s, i) == j,
    decreases j - i,
{
    if i < j {
        lemma_bare_end_is(s, i + 1, j);
    }
}

/// Executable test for the whitespace class.
pub fn is_space(c: char) -> (r: bool)
    ensures
        r == is_space_c(c),
{
    c == ' ' || c == '\t' || c == '\n' || c == '\r' || c == '\u{b}' || c == '\u{c}'
}

pub fn scan_token(s: &str, from: usize) -> (j: usize)
    requires
        from <= s@.len(),
    ensures
        j == token_end(s@, from as int),
        from <= j <= s@.len(),
{
    let n = s.unicode_len();
    let mut j = from;
    while j < n && !is_space(s.get_char(j))
        invariant
            from <= j <= n,
            n == s@.len(),
            forall|k: int| from <= k < j ==> !is_space_c(s@[k]),
        decreases n - j,
    {
        j = j + 1;
    }
    proof {
        lemma_token_end_is(s@, from as int, j as int);
    }
    j
}

pub fn scan_spaces(s: &str, from: usize) -> (j: usize)
    requires
        from <= s@.len(),
    ensures
        j == space_end(s@, from as int),
        from <= j <= s@.len(),
{
    let n = s.unicode_len();
    let mut j = from;
    while j < n && is_space(s.get_char(j))
        invariant
            from <= j <= n,
            n == s@.len(),
            forall|k: int| from <= k < j ==> is_space_c(s@[k]),
        decreases n - j,
    {
        j = j + 1;
    }
    proof {
        lemma_space_end_is(s@, from as int, j as int);
    }
    j
}

pub fn scan_upto(s: &str, from: usize, stop: char) -> (j: usize)
    requires
        from <= s@.len(),
    ensures
        j == upto_char(s@, from as int, stop),
        from <= j <= s@.len(),
{
    let n = s.unicode_len();
    let mut j = from;
    while j < n && s.get_char(j) != stop
        invariant
            from <= j <= n,
            n == s@.len(),
            forall|k: int| from <= k < j ==> s@[k] != stop,
        decreases n - j,
    {
        j = j + 1;
    }
    proof {
        lemma_upto_char_is(s@, from as int, stop, j as int);
    }
    j
}

pub fn scan_bare(s: &str, from: usize) -> (j: usize)
    requires
        from <= s@.len(),
    ensures
        j == bare_end(s@, from as int),
        from <= j <= s@.len(),
{
    let n = s.unicode_len();
    let mut j = from;
    while j < n && !is_space(s.get_char(j)) && s.get_char(j) != '"'
        invariant
            from <= j <= n,
            n == s@.len(),
            forall|k: int| from <= k < j ==> !is_space_c(s@[k]) && s@[k] != '"',
        decreases n - j,
    {
        j = j + 1;
    }
    proof {
        lemma_bare_end_is(s@, from as int, j as int);
    }
    j
}

/// `s` with leading and trailing whitespace removed.
pub open spec fn trimmed(s: Seq<char>) -> Seq<char> {
    let b = space_end(s, 0);
    if b == s.len() {
        Seq::empty()
    } else {
        s.subrange(b, rtrim_end(s, s.len() as int))
    }
}

/// Largest `j' <= j` such that `s[j' - 1]` is not whitespace, or 0.
pub open spec fn rtrim_end(s: Seq<char>, j: int) -> int
    decreases j when 0 <= j <= s.len()
{
    if j <= 0 || !is_space_c(s[j - 1]) {
        j
    } else {
        rtrim_end(s, j - 1)
    }
}

pub proof fn lemma_rtrim_end_is(s: Seq<char>, j: int, e: int)
    requires
        0 <= e <= j <= s.len(),
        forall|k: int| e <= k < j ==> is_space_c(s[k]),
        e > 0 ==> !is_space_c(s[e - 1]),
    ensures
        rtrim_end(s, j) == e,
    decreases j - e,
{
    if e < j {
        lemma_rtrim_end_is(s, j - 1, e);
    }
}

/// Character-wise string equality.
pub fn str_eq(a: &str, b: &str) -> (r: bool)
    ensures
        r == (a@ == b@),
{
    let n = a.unicode_len();
    let m = b.unicode_len();
    if n != m {
        return false;
    }
    let mut i: usize = 0;
    while i < n
        invariant
            0 <= i <= n,
            n == a@.len(),
            n == b@.len(),
            forall|k: int| 0 <= k < i ==> a@[k] == b@[k],
        decreases n - i,
    {
        if a.get_char(i) != b.get_char(i) {
            return false;
        }
        i = i + 1;
    }
    proof {
        assert(a@ =~= b@);
    }
    true
}

/// Trimming does nothing to a string that starts and ends with
/// non-whitespace characters.
pub proof fn lemma_trimmed_id(s: Seq<char>)
    requires
        s.len() > 0,
        !is_space_c(s[0]),
        !is_space_c(s[s.len() - 1]),
    ensures
        trimmed(s) == s,
{
    lemma_space_end_is(s, 0, 0);
    lemma_rtrim_end_is(s, s.len() as int, s.len() as int);
    assert(s.subrange(0, s.len() as int) =~= s);
}

/// Trim whitespace from both ends of `s`.
pub fn trim(s: &str) -> (r: &str)
    ensures
        r@ == trimmed(s@),
{
    let n = s.unicode_len();
    let b = scan_spaces(s, 0);
    if b == n {
        let r = s.substring_char(n, n);
        proof {
            assert(r@ =~= trimmed(s@));
        }
        r
    } else {
        proof {
            lemma_space_end(s@, 0);
        }
        let mut e = n;
        while e > b && is_space(s.get_char(e - 1))
            invariant
                b < n,
                n == s@.len(),
                b < e <= n,
                !is_space_c(s@[b as int]),
                forall|k: int| e <= k < n ==> is_space_c(s@[k]),
            decreases e,
        {
            e = e - 1;
        }
        proof {
            lemma_rtrim_end_is(s@, n as int, e as int);
        }
        s.substring_char(b, e)
    }
}

} // verus!
