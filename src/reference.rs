//! Whole references: `IRI`, `IRI-reference`, `absolute-IRI`, `irelative-ref`,
//! and the standalone path and fragment productions.
use vstd::prelude::*;

use crate::charclass::{Class, Policy, is_alpha, alpha};
use crate::host::{authority, check_authority, lemma_authority_no_hash, lemma_authority_widen};
use crate::path::{
    path_abempty, path_absolute, path_noscheme, path_rootless, any_path, check_path_abempty,
    check_path_absolute, check_path_noscheme, check_path_rootless, check_any_path,
    lemma_abempty_no_hash, lemma_rootless_no_hash, lemma_absolute_no_hash, lemma_abempty_widen,
    lemma_rootless_widen, lemma_noscheme_widen, lemma_absolute_widen,
};
use crate::scan::{
    Plain, find, lemma_find_bounds, find_char, run, check_run, all_plain, check_plain, no_hash,
    lemma_no_hash_find, lemma_run_no_hash, lemma_plain_no_hash, lemma_run_widen,
};

verus! {

/// `scheme = ALPHA *( ALPHA / DIGIT / "+" / "-" / "." )`
pub open spec fn scheme(s: Seq<char>, lo: int, hi: int) -> bool {
    lo < hi && is_alpha(s[lo]) && all_plain(Plain::SchemeTail, s, lo + 1, hi)
}

fn check_scheme(s: &[char], lo: usize, hi: usize) -> (r: bool)
    requires
        lo <= hi <= s@.len(),
    ensures
        r == scheme(s@, lo as int, hi as int),
{
    lo < hi && alpha(s[lo]) && check_plain(Plain::SchemeTail, s, lo + 1, hi)
}

/// `s[lo..hi]` starts with `"//"`.
pub open spec fn starts_with_two_slashes(s: Seq<char>, lo: int, hi: int) -> bool {
    hi - lo >= 2 && s[lo] == '/' && s[lo + 1] == '/'
}

/// `"//" iauthority ipath-abempty`; the authority holds no `"/"`, so it ends
/// at the first one after the leading two.
pub open spec fn authority_path(p: Policy, s: Seq<char>, lo: int, hi: int) -> bool {
    let slash = find(s, '/', lo + 2, hi);
    authority(p, s, lo + 2, slash) && path_abempty(p, s, slash, hi)
}

fn check_authority_path(p: Policy, s: &[char], lo: usize, hi: usize) -> (r: bool)
    requires
        lo <= hi <= s@.len(),
        hi - lo >= 2,
    ensures
        r == authority_path(p, s@, lo as int, hi as int),
{
    let slash = find_char(s, '/', lo + 2, hi);
    check_authority(p, s, lo + 2, slash) && check_path_abempty(p, s, slash, hi)
}

/// `ihier-part = "//" iauthority ipath-abempty / ipath-absolute / ipath-rootless / ipath-empty`
pub open spec fn hier_part(p: Policy, s: Seq<char>, lo: int, hi: int) -> bool {
    if starts_with_two_slashes(s, lo, hi) {
        authority_path(p, s, lo, hi)
    } else {
        path_absolute(p, s, lo, hi) || path_rootless(p, s, lo, hi) || lo == hi
    }
}

fn check_hier_part(p: Policy, s: &[char], lo: usize, hi: usize) -> (r: bool)
    requires
        lo <= hi <= s@.len(),
    ensures
        r == hier_part(p, s@, lo as int, hi as int),
{
    if hi - lo >= 2 && s[lo] == '/' && s[lo + 1] == '/' {
        check_authority_path(p, s, lo, hi)
    } else {
        check_path_absolute(p, s, lo, hi) || check_path_rootless(p, s, lo, hi) || lo == hi
    }
}

/// `irelative-part = "//" iauthority ipath-abempty / ipath-absolute / ipath-noscheme / ipath-empty`
pub open spec fn relative_part(p: Policy, s: Seq<char>, lo: int, hi: int) -> bool {
    if starts_with_two_slashes(s, lo, hi) {
        authority_path(p, s, lo, hi)
    } else {
        path_absolute(p, s, lo, hi) || path_noscheme(p, s, lo, hi) || lo == hi
    }
}

fn check_relative_part(p: Policy, s: &[char], lo: usize, hi: usize) -> (r: bool)
    requires
        lo <= hi <= s@.len(),
    ensures
        r == relative_part(p, s@, lo as int, hi as int),
{
    if hi - lo >= 2 && s[lo] == '/' && s[lo + 1] == '/' {
        check_authority_path(p, s, lo, hi)
    } else {
        check_path_absolute(p, s, lo, hi) || check_path_noscheme(p, s, lo, hi) || lo == hi
    }
}

/// `scheme ":" ihier-part [ "?" iquery ]`. The scheme holds no `":"` and the
/// hierarchical part no `"?"`, so each ends at the first such delimiter.
pub open spec fn scheme_hier_query(p: Policy, s: Seq<char>, lo: int, hi: int) -> bool {
    let colon = find(s, ':', lo, hi);
    let q = find(s, '?', colon + 1, hi);
    colon < hi && scheme(s, lo, colon) && hier_part(p, s, colon + 1, q) && (q < hi ==> run(
        p,
        Class::Query,
        s,
        q + 1,
        hi,
    ))
}

fn check_scheme_hier_query(p: Policy, s: &[char], lo: usize, hi: usize) -> (r: bool)
    requires
        lo <= hi <= s@.len(),
    ensures
        r == scheme_hier_query(p, s@, lo as int, hi as int),
{
    let colon = find_char(s, ':', lo, hi);
    if colon == hi {
        return false;
    }
    let q = find_char(s, '?', colon + 1, hi);
    check_scheme(s, lo, colon) && check_hier_part(p, s, colon + 1, q) && (q == hi || check_run(
        p,
        Class::Query,
        s,
        q + 1,
        hi,
    ))
}

/// `s[h..]` is `[ "#" ifragment ]` where `h` is the first `"#"` (or the end).
pub open spec fn fragment_tail(p: Policy, s: Seq<char>, h: int) -> bool {
    h < s.len() ==> run(p, Class::Fragment, s, h + 1, s.len() as int)
}

/// `IRI = scheme ":" ihier-part [ "?" iquery ] [ "#" ifragment ]`; only the
/// fragment's own `"#"` separates it, as no other part holds one.
pub open spec fn is_iri(p: Policy, s: Seq<char>) -> bool {
    let h = find(s, '#', 0, s.len() as int);
    scheme_hier_query(p, s, 0, h) && fragment_tail(p, s, h)
}

/// `absolute-IRI = scheme ":" ihier-part [ "?" iquery ]`
pub open spec fn is_absolute_iri(p: Policy, s: Seq<char>) -> bool {
    scheme_hier_query(p, s, 0, s.len() as int)
}

/// `irelative-ref = irelative-part [ "?" iquery ] [ "#" ifragment ]`
pub open spec fn is_relative_ref(p: Policy, s: Seq<char>) -> bool {
    let h = find(s, '#', 0, s.len() as int);
    let q = find(s, '?', 0, h);
    relative_part(p, s, 0, q) && (q < h ==> run(p, Class::Query, s, q + 1, h)) && fragment_tail(
        p,
        s,
        h,
    )
}

/// `IRI-reference = IRI / irelative-ref`
pub open spec fn is_iri_reference(p: Policy, s: Seq<char>) -> bool {
    is_iri(p, s) || is_relative_ref(p, s)
}

/// `ipath`, standing alone.
pub open spec fn is_path(p: Policy, s: Seq<char>) -> bool {
    any_path(p, s, 0, s.len() as int)
}

/// `ifragment = *( ipchar / "/" / "?" )`, standing alone (without its `"#"`).
pub open spec fn is_fragment(p: Policy, s: Seq<char>) -> bool {
    run(p, Class::Fragment, s, 0, s.len() as int)
}

fn check_fragment_tail(p: Policy, s: &[char], h: usize) -> (r: bool)
    requires
        h <= s@.len(),
    ensures
        r == fragment_tail(p, s@, h as int),
{
    h == s.len() || check_run(p, Class::Fragment, s, h + 1, s.len())
}

pub fn check_iri(p: Policy, s: &[char]) -> (r: bool)
    ensures
        r == is_iri(p, s@),
{
    let h = find_char(s, '#', 0, s.len());
    check_scheme_hier_query(p, s, 0, h) && check_fragment_tail(p, s, h)
}

pub fn check_absolute_iri(p: Policy, s: &[char]) -> (r: bool)
    ensures
        r == is_absolute_iri(p, s@),
{
    check_scheme_hier_query(p, s, 0, s.len())
}

pub fn check_relative_ref(p: Policy, s: &[char]) -> (r: bool)
    ensures
        r == is_relative_ref(p, s@),
{
    let h = find_char(s, '#', 0, s.len());
    let q = find_char(s, '?', 0, h);
    check_relative_part(p, s, 0, q) && (q == h || check_run(p, Class::Query, s, q + 1, h))
        && check_fragment_tail(p, s, h)
}

pub fn check_iri_reference(p: Policy, s: &[char]) -> (r: bool)
    ensures
        r == is_iri_reference(p, s@),
{
    check_iri(p, s) || check_relative_ref(p, s)
}

pub fn check_path(p: Policy, s: &[char]) -> (r: bool)
    ensures
        r == is_path(p, s@),
{
    check_any_path(p, s, 0, s.len())
}

pub fn check_fragment(p: Policy, s: &[char]) -> (r: bool)
    ensures
        r == is_fragment(p, s@),
{
    check_run(p, Class::Fragment, s, 0, s.len())
}

proof fn lemma_hier_part_no_hash(p: Policy, s: Seq<char>, lo: int, hi: int)
    requires
        lo <= hi,
        hier_part(p, s, lo, hi),
    ensures
        no_hash(s, lo, hi),
{
    if starts_with_two_slashes(s, lo, hi) {
        let slash = find(s, '/', lo + 2, hi);
        lemma_find_bounds(s, '/', lo + 2, hi);
        lemma_authority_no_hash(p, s, lo + 2, slash);
        lemma_abempty_no_hash(p, s, slash, hi);
    } else if path_absolute(p, s, lo, hi) {
        lemma_absolute_no_hash(p, s, lo, hi);
    } else if path_rootless(p, s, lo, hi) {
        lemma_rootless_no_hash(p, s, lo, hi);
    }
}

/// No part of `scheme ":" ihier-part [ "?" iquery ]` holds a `"#"`.
pub proof fn lemma_scheme_hier_query_no_hash(p: Policy, s: Seq<char>, lo: int, hi: int)
    requires
        lo <= hi,
        scheme_hier_query(p, s, lo, hi),
    ensures
        no_hash(s, lo, hi),
{
    let colon = find(s, ':', lo, hi);
    lemma_find_bounds(s, ':', lo, hi);
    let q = find(s, '?', colon + 1, hi);
    lemma_find_bounds(s, '?', colon + 1, hi);
    lemma_plain_no_hash(Plain::SchemeTail, s, lo + 1, colon);
    lemma_hier_part_no_hash(p, s, colon + 1, q);
    if q < hi {
        lemma_run_no_hash(p, Class::Query, s, q + 1, hi);
    }
}

/// An absolute IRI holds no `"#"`.
pub proof fn lemma_absolute_iri_no_hash(p: Policy, s: Seq<char>)
    requires
        is_absolute_iri(p, s),
    ensures
        find(s, '#', 0, s.len() as int) == s.len(),
{
    lemma_scheme_hier_query_no_hash(p, s, 0, s.len() as int);
    lemma_no_hash_find(s, 0, s.len() as int);
}

proof fn lemma_authority_path_widen(s: Seq<char>, lo: int, hi: int)
    requires
        lo <= hi,
        starts_with_two_slashes(s, lo, hi),
        authority_path(Policy::Uri, s, lo, hi),
    ensures
        authority_path(Policy::Iri, s, lo, hi),
{
    let slash = find(s, '/', lo + 2, hi);
    lemma_find_bounds(s, '/', lo + 2, hi);
    lemma_authority_widen(s, lo + 2, slash);
    lemma_abempty_widen(s, slash, hi);
}

proof fn lemma_hier_part_widen(s: Seq<char>, lo: int, hi: int)
    requires
        lo <= hi,
        hier_part(Policy::Uri, s, lo, hi),
    ensures
        hier_part(Policy::Iri, s, lo, hi),
{
    if starts_with_two_slashes(s, lo, hi) {
        lemma_authority_path_widen(s, lo, hi);
    } else if path_absolute(Policy::Uri, s, lo, hi) {
        lemma_absolute_widen(s, lo, hi);
    } else if path_rootless(Policy::Uri, s, lo, hi) {
        lemma_rootless_widen(s, lo, hi);
    }
}

proof fn lemma_relative_part_widen(s: Seq<char>, lo: int, hi: int)
    requires
        lo <= hi,
        relative_part(Policy::Uri, s, lo, hi),
    ensures
        relative_part(Policy::Iri, s, lo, hi),
{
    if starts_with_two_slashes(s, lo, hi) {
        lemma_authority_path_widen(s, lo, hi);
    } else if path_absolute(Policy::Uri, s, lo, hi) {
        lemma_absolute_widen(s, lo, hi);
    } else if path_noscheme(Policy::Uri, s, lo, hi) {
        lemma_noscheme_widen(s, lo, hi);
    }
}

proof fn lemma_scheme_hier_query_widen(s: Seq<char>, lo: int, hi: int)
    requires
        lo <= hi,
        scheme_hier_query(Policy::Uri, s, lo, hi),
    ensures
        scheme_hier_query(Policy::Iri, s, lo, hi),
{
    let colon = find(s, ':', lo, hi);
    lemma_find_bounds(s, ':', lo, hi);
    let q = find(s, '?', colon + 1, hi);
    lemma_find_bounds(s, '?', colon + 1, hi);
    lemma_hier_part_widen(s, colon + 1, q);
    if q < hi {
        lemma_run_widen(Class::Query, s, q + 1, hi);
    }
}

proof fn lemma_fragment_tail_widen(s: Seq<char>, h: int)
    requires
        fragment_tail(Policy::Uri, s, h),
    ensures
        fragment_tail(Policy::Iri, s, h),
{
    if h < s.len() {
        lemma_run_widen(Class::Fragment, s, h + 1, s.len() as int);
    }
}

pub proof fn lemma_iri_widen(s: Seq<char>)
    requires
        is_iri(Policy::Uri, s),
    ensures
        is_iri(Policy::Iri, s),
{
    let h = find(s, '#', 0, s.len() as int);
    lemma_find_bounds(s, '#', 0, s.len() as int);
    lemma_scheme_hier_query_widen(s, 0, h);
    lemma_fragment_tail_widen(s, h);
}

pub proof fn lemma_relative_ref_widen(s: Seq<char>)
    requires
        is_relative_ref(Policy::Uri, s),
    ensures
        is_relative_ref(Policy::Iri, s),
{
    let h = find(s, '#', 0, s.len() as int);
    lemma_find_bounds(s, '#', 0, s.len() as int);
    let q = find(s, '?', 0, h);
    lemma_find_bounds(s, '?', 0, h);
    lemma_relative_part_widen(s, 0, q);
    if q < h {
        lemma_run_widen(Class::Query, s, q + 1, h);
    }
    lemma_fragment_tail_widen(s, h);
}

pub proof fn lemma_absolute_iri_widen(s: Seq<char>)
    requires
        is_absolute_iri(Policy::Uri, s),
    ensures
        is_absolute_iri(Policy::Iri, s),
{
    lemma_scheme_hier_query_widen(s, 0, s.len() as int);
}

} // verus!
