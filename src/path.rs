//! The path component: `ipath-abempty`, `ipath-absolute`, `ipath-noscheme`,
//! `ipath-rootless` and `ipath-empty`.
use vstd::prelude::*;

use crate::charclass::{Class, Policy};
use crate::scan::{find, lemma_find_bounds, find_char, run, check_run, no_hash, lemma_run_no_hash,
    lemma_run_widen,
};

verus! {

/// `ipath-abempty = *( "/" isegment )`, with `isegment = *ipchar`.
pub open spec fn path_abempty(p: Policy, s: Seq<char>, lo: int, hi: int) -> bool
    decreases hi - lo,
    when lo <= hi
    via path_abempty_decreases
{
    if lo >= hi {
        true
    } else if s[lo] != '/' {
        false
    } else {
        let next = find(s, '/', lo + 1, hi);
        run(p, Class::Segment, s, lo + 1, next) && path_abempty(p, s, next, hi)
    }
}

#[via_fn]
proof fn path_abempty_decreases(p: Policy, s: Seq<char>, lo: int, hi: int) {
    if lo < hi {
        lemma_find_bounds(s, '/', lo + 1, hi);
    }
}

pub fn check_path_abempty(p: Policy, s: &[char], lo: usize, hi: usize) -> (r: bool)
    requires
        lo <= hi <= s@.len(),
    ensures
        r == path_abempty(p, s@, lo as int, hi as int),
{
    let mut i: usize = lo;
    while i < hi
        invariant
            lo <= i <= hi,
            hi <= s@.len(),
            path_abempty(p, s@, i as int, hi as int) == path_abempty(p, s@, lo as int, hi as int),
        decreases hi - i,
    {
        if s[i] != '/' {
            return false;
        }
        let next = find_char(s, '/', i + 1, hi);
        if !check_run(p, Class::Segment, s, i + 1, next) {
            return false;
        }
        i = next;
    }
    true
}

/// `ipath-rootless = isegment-nz *( "/" isegment )`
pub open spec fn path_rootless(p: Policy, s: Seq<char>, lo: int, hi: int) -> bool {
    let first = find(s, '/', lo, hi);
    lo < first && run(p, Class::Segment, s, lo, first) && path_abempty(p, s, first, hi)
}

pub fn check_path_rootless(p: Policy, s: &[char], lo: usize, hi: usize) -> (r: bool)
    requires
        lo <= hi <= s@.len(),
    ensures
        r == path_rootless(p, s@, lo as int, hi as int),
{
    let first = find_char(s, '/', lo, hi);
    lo < first && check_run(p, Class::Segment, s, lo, first) && check_path_abempty(p, s, first, hi)
}

/// `ipath-noscheme = isegment-nz-nc *( "/" isegment )`
pub open spec fn path_noscheme(p: Policy, s: Seq<char>, lo: int, hi: int) -> bool {
    let first = find(s, '/', lo, hi);
    lo < first && run(p, Class::SegmentNc, s, lo, first) && path_abempty(p, s, first, hi)
}

pub fn check_path_noscheme(p: Policy, s: &[char], lo: usize, hi: usize) -> (r: bool)
    requires
        lo <= hi <= s@.len(),
    ensures
        r == path_noscheme(p, s@, lo as int, hi as int),
{
    let first = find_char(s, '/', lo, hi);
    lo < first && check_run(p, Class::SegmentNc, s, lo, first) && check_path_abempty(
        p,
        s,
        first,
        hi,
    )
}

/// `ipath-absolute = "/" [ isegment-nz *( "/" isegment ) ]`
pub open spec fn path_absolute(p: Policy, s: Seq<char>, lo: int, hi: int) -> bool {
    lo < hi && s[lo] == '/' && (lo + 1 == hi || path_rootless(p, s, lo + 1, hi))
}

pub fn check_path_absolute(p: Policy, s: &[char], lo: usize, hi: usize) -> (r: bool)
    requires
        lo <= hi <= s@.len(),
    ensures
        r == path_absolute(p, s@, lo as int, hi as int),
{
    lo < hi && s[lo] == '/' && (lo + 1 == hi || check_path_rootless(p, s, lo + 1, hi))
}

/// `ipath = ipath-abempty / ipath-absolute / ipath-noscheme / ipath-rootless / ipath-empty`
pub open spec fn any_path(p: Policy, s: Seq<char>, lo: int, hi: int) -> bool {
    path_abempty(p, s, lo, hi) || path_absolute(p, s, lo, hi) || path_noscheme(p, s, lo, hi)
        || path_rootless(p, s, lo, hi) || lo == hi
}

pub fn check_any_path(p: Policy, s: &[char], lo: usize, hi: usize) -> (r: bool)
    requires
        lo <= hi <= s@.len(),
    ensures
        r == any_path(p, s@, lo as int, hi as int),
{
    check_path_abempty(p, s, lo, hi) || check_path_absolute(p, s, lo, hi) || check_path_noscheme(
        p,
        s,
        lo,
        hi,
    ) || check_path_rootless(p, s, lo, hi) || lo == hi
}

pub proof fn lemma_abempty_no_hash(p: Policy, s: Seq<char>, lo: int, hi: int)
    requires
        lo <= hi,
        path_abempty(p, s, lo, hi),
    ensures
        no_hash(s, lo, hi),
    decreases hi - lo,
{
    if lo < hi {
        let next = find(s, '/', lo + 1, hi);
        lemma_find_bounds(s, '/', lo + 1, hi);
        lemma_run_no_hash(p, Class::Segment, s, lo + 1, next);
        lemma_abempty_no_hash(p, s, next, hi);
    }
}

pub proof fn lemma_rootless_no_hash(p: Policy, s: Seq<char>, lo: int, hi: int)
    requires
        lo <= hi,
        path_rootless(p, s, lo, hi),
    ensures
        no_hash(s, lo, hi),
{
    let first = find(s, '/', lo, hi);
    lemma_find_bounds(s, '/', lo, hi);
    lemma_run_no_hash(p, Class::Segment, s, lo, first);
    lemma_abempty_no_hash(p, s, first, hi);
}

pub proof fn lemma_absolute_no_hash(p: Policy, s: Seq<char>, lo: int, hi: int)
    requires
        lo <= hi,
        path_absolute(p, s, lo, hi),
    ensures
        no_hash(s, lo, hi),
{
    if lo + 1 < hi {
        lemma_rootless_no_hash(p, s, lo + 1, hi);
    }
}

/// An `ipath-abempty` under the ASCII-only policy is one under the IRI policy.
pub proof fn lemma_abempty_widen(s: Seq<char>, lo: int, hi: int)
    requires
        lo <= hi,
        path_abempty(Policy::Uri, s, lo, hi),
    ensures
        path_abempty(Policy::Iri, s, lo, hi),
    decreases hi - lo,
{
    if lo < hi {
        let next = find(s, '/', lo + 1, hi);
        lemma_find_bounds(s, '/', lo + 1, hi);
        lemma_run_widen(Class::Segment, s, lo + 1, next);
        lemma_abempty_widen(s, next, hi);
    }
}

pub proof fn lemma_rootless_widen(s: Seq<char>, lo: int, hi: int)
    requires
        lo <= hi,
        path_rootless(Policy::Uri, s, lo, hi),
    ensures
        path_rootless(Policy::Iri, s, lo, hi),
{
    let first = find(s, '/', lo, hi);
    lemma_find_bounds(s, '/', lo, hi);
    lemma_run_widen(Class::Segment, s, lo, first);
    lemma_abempty_widen(s, first, hi);
}

pub proof fn lemma_noscheme_widen(s: Seq<char>, lo: int, hi: int)
    requires
        lo <= hi,
        path_noscheme(Policy::Uri, s, lo, hi),
    ensures
        path_noscheme(Policy::Iri, s, lo, hi),
{
    let first = find(s, '/', lo, hi);
    lemma_find_bounds(s, '/', lo, hi);
    lemma_run_widen(Class::SegmentNc, s, lo, first);
    lemma_abempty_widen(s, first, hi);
}

pub proof fn lemma_absolute_widen(s: Seq<char>, lo: int, hi: int)
    requires
        lo <= hi,
        path_absolute(Policy::Uri, s, lo, hi),
    ensures
        path_absolute(Policy::Iri, s, lo, hi),
{
    if lo + 1 < hi {
        lemma_rootless_widen(s, lo + 1, hi);
    }
}

pub proof fn lemma_any_path_widen(s: Seq<char>, lo: int, hi: int)
    requires
        lo <= hi,
        any_path(Policy::Uri, s, lo, hi),
    ensures
        any_path(Policy::Iri, s, lo, hi),
{
    if path_abempty(Policy::Uri, s, lo, hi) {
        lemma_abempty_widen(s, lo, hi);
    } else if path_absolute(Policy::Uri, s, lo, hi) {
        lemma_absolute_widen(s, lo, hi);
    } else if path_noscheme(Policy::Uri, s, lo, hi) {
        lemma_noscheme_widen(s, lo, hi);
    } else if path_rootless(Policy::Uri, s, lo, hi) {
        lemma_rootless_widen(s, lo, hi);
    }
}

} // verus!
