//! Scanning primitives over a range `lo..hi` of a character sequence:
//! finding a delimiter, and runs of characters of one class.
use vstd::prelude::*;

use crate::charclass::{
    Class, Policy, class_has, in_class, is_hexdig, is_digit, is_alpha, is_unreserved, is_sub_delim,
    hexdig, digit, alpha, unreserved, sub_delim,
};

verus! {

/// Index of the first `c` in `s[lo..hi]`, or `hi` where there is none.
pub open spec fn find(s: Seq<char>, c: char, lo: int, hi: int) -> int
    decreases hi - lo,
{
    if lo >= hi {
        hi
    } else if s[lo] == c {
        lo
    } else {
        find(s, c, lo + 1, hi)
    }
}

pub proof fn lemma_find_bounds(s: Seq<char>, c: char, lo: int, hi: int)
    requires
        lo <= hi,
    ensures
        lo <= find(s, c, lo, hi) <= hi,
        find(s, c, lo, hi) < hi ==> s[find(s, c, lo, hi)] == c,
        forall|i: int| lo <= i < find(s, c, lo, hi) ==> s[i] != c,
    decreases hi - lo,
{
    if lo < hi && s[lo] != c {
        lemma_find_bounds(s, c, lo + 1, hi);
    }
}

/// Executable form of [`find`].
pub fn find_char(s: &[char], c: char, lo: usize, hi: usize) -> (r: usize)
    requires
        lo <= hi <= s@.len(),
    ensures
        r as int == find(s@, c, lo as int, hi as int),
        lo <= r <= hi,
{
    let mut i: usize = lo;
    while i < hi
        invariant
            lo <= i <= hi,
            hi <= s@.len(),
            find(s@, c, i as int, hi as int) == find(s@, c, lo as int, hi as int),
        decreases hi - i,
    {
        if s[i] == c {
            return i;
        }
        i = i + 1;
    }
    i
}

/// `s[i..i+3]` is a `pct-encoded` octet: `"%" HEXDIG HEXDIG`.
pub open spec fn is_pct_at(s: Seq<char>, i: int, hi: int) -> bool {
    i + 3 <= hi && s[i] == '%' && is_hexdig(s[i + 1]) && is_hexdig(s[i + 2])
}

/// `s[lo..hi]` is a sequence of characters of class `k` and `pct-encoded` octets.
pub open spec fn run(p: Policy, k: Class, s: Seq<char>, lo: int, hi: int) -> bool
    decreases hi - lo,
{
    if lo >= hi {
        true
    } else if class_has(p, k, s[lo]) {
        run(p, k, s, lo + 1, hi)
    } else if is_pct_at(s, lo, hi) {
        run(p, k, s, lo + 3, hi)
    } else {
        false
    }
}

/// Executable form of [`run`].
pub fn check_run(p: Policy, k: Class, s: &[char], lo: usize, hi: usize) -> (r: bool)
    requires
        lo <= hi <= s@.len(),
    ensures
        r == run(p, k, s@, lo as int, hi as int),
{
    let mut i: usize = lo;
    while i < hi
        invariant
            lo <= i <= hi,
            hi <= s@.len(),
            run(p, k, s@, i as int, hi as int) == run(p, k, s@, lo as int, hi as int),
        decreases hi - i,
    {
        if in_class(p, k, s[i]) {
            i = i + 1;
        } else if hi - i >= 3 && s[i] == '%' && hexdig(s[i + 1]) && hexdig(s[i + 2]) {
            i = i + 3;
        } else {
            return false;
        }
    }
    true
}

/// Classes of plain ASCII characters that fixed parts of the grammar are made of.
#[derive(Clone, Copy, PartialEq, Eq, Structural, Debug, Hash)]
pub enum Plain {
    /// `DIGIT`
    Digit,
    /// `HEXDIG`
    Hex,
    /// what follows the first character of `scheme`: ALPHA / DIGIT / "+" / "-" / "."
    SchemeTail,
    /// what follows the `"."` of `IPvFuture`: unreserved / sub-delims / ":"
    FutureTail,
}

pub open spec fn plain_has(k: Plain, c: char) -> bool {
    match k {
        Plain::Digit => is_digit(c),
        Plain::Hex => is_hexdig(c),
        Plain::SchemeTail => is_alpha(c) || is_digit(c) || c == '+' || c == '-' || c == '.',
        Plain::FutureTail => is_unreserved(c) || is_sub_delim(c) || c == ':',
    }
}

/// Every character of `s[lo..hi]` is of class `k`.
pub open spec fn all_plain(k: Plain, s: Seq<char>, lo: int, hi: int) -> bool {
    forall|i: int| lo <= i < hi ==> plain_has(k, #[trigger] s[i])
}

/// Executable form of [`all_plain`].
pub fn check_plain(k: Plain, s: &[char], lo: usize, hi: usize) -> (r: bool)
    requires
        lo <= hi <= s@.len(),
    ensures
        r == all_plain(k, s@, lo as int, hi as int),
{
    let mut i: usize = lo;
    while i < hi
        invariant
            lo <= i <= hi,
            hi <= s@.len(),
            all_plain(k, s@, lo as int, i as int),
        decreases hi - i,
    {
        let c = s[i];
        let ok = match k {
            Plain::Digit => digit(c),
            Plain::Hex => hexdig(c),
            Plain::SchemeTail => alpha(c) || digit(c) || c == '+' || c == '-' || c == '.',
            Plain::FutureTail => unreserved(c) || sub_delim(c) || c == ':',
        };
        if !ok {
            return false;
        }
        i = i + 1;
    }
    true
}

/// No character of `s[lo..hi]` is a `"#"`.
pub open spec fn no_hash(s: Seq<char>, lo: int, hi: int) -> bool {
    forall|i: int| lo <= i < hi ==> s[i] != '#'
}

pub proof fn lemma_no_hash_find(s: Seq<char>, lo: int, hi: int)
    requires
        lo <= hi,
        no_hash(s, lo, hi),
    ensures
        find(s, '#', lo, hi) == hi,
    decreases hi - lo,
{
    if lo < hi {
        lemma_no_hash_find(s, lo + 1, hi);
    }
}

/// No class admits `"#"`, and it is no part of a percent-encoded octet.
pub proof fn lemma_run_no_hash(p: Policy, k: Class, s: Seq<char>, lo: int, hi: int)
    requires
        run(p, k, s, lo, hi),
    ensures
        no_hash(s, lo, hi),
    decreases hi - lo,
{
    if lo < hi {
        if class_has(p, k, s[lo]) {
            lemma_run_no_hash(p, k, s, lo + 1, hi);
        } else {
            lemma_run_no_hash(p, k, s, lo + 3, hi);
        }
    }
}

pub proof fn lemma_plain_no_hash(k: Plain, s: Seq<char>, lo: int, hi: int)
    requires
        all_plain(k, s, lo, hi),
    ensures
        no_hash(s, lo, hi),
{
    assert forall|i: int| lo <= i < hi implies s[i] != '#' by {
        assert(plain_has(k, s[i]));
    }
}

/// A run under the ASCII-only policy is a run under the IRI policy.
pub proof fn lemma_run_widen(k: Class, s: Seq<char>, lo: int, hi: int)
    requires
        run(Policy::Uri, k, s, lo, hi),
    ensures
        run(Policy::Iri, k, s, lo, hi),
    decreases hi - lo,
{
    if lo < hi {
        if class_has(Policy::Uri, k, s[lo]) {
            lemma_run_widen(k, s, lo + 1, hi);
        } else {
            lemma_run_widen(k, s, lo + 3, hi);
        }
    }
}

} // verus!
