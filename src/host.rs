//! The authority component: `iauthority = [ iuserinfo "@" ] ihost [ ":" port ]`,
//! with IPv4 addresses, IP literals and registered names as hosts.
use vstd::prelude::*;

use crate::charclass::{Class, Policy, is_digit, digit};
use crate::scan::{
    Plain, find, lemma_find_bounds, find_char, run, check_run, all_plain, check_plain, no_hash,
    lemma_run_no_hash, lemma_plain_no_hash, lemma_run_widen,
};

verus! {

/// `dec-octet`: a decimal number from 0 to 255 without leading zeros.
pub open spec fn dec_octet(s: Seq<char>, lo: int, hi: int) -> bool {
    if hi - lo == 1 {
        is_digit(s[lo])
    } else if hi - lo == 2 {
        '1' <= s[lo] && s[lo] <= '9' && is_digit(s[lo + 1])
    } else if hi - lo == 3 {
        (s[lo] == '1' && is_digit(s[lo + 1]) && is_digit(s[lo + 2])) || (s[lo] == '2' && '0'
            <= s[lo + 1] && s[lo + 1] <= '4' && is_digit(s[lo + 2])) || (s[lo] == '2' && s[lo + 1]
            == '5' && '0' <= s[lo + 2] && s[lo + 2] <= '5')
    } else {
        false
    }
}

fn check_dec_octet(s: &[char], lo: usize, hi: usize) -> (r: bool)
    requires
        lo <= hi <= s@.len(),
    ensures
        r == dec_octet(s@, lo as int, hi as int),
{
    if hi - lo == 1 {
        digit(s[lo])
    } else if hi - lo == 2 {
        '1' <= s[lo] && s[lo] <= '9' && digit(s[lo + 1])
    } else if hi - lo == 3 {
        (s[lo] == '1' && digit(s[lo + 1]) && digit(s[lo + 2])) || (s[lo] == '2' && '0' <= s[lo
            + 1] && s[lo + 1] <= '4' && digit(s[lo + 2])) || (s[lo] == '2' && s[lo + 1] == '5'
            && '0' <= s[lo + 2] && s[lo + 2] <= '5')
    } else {
        false
    }
}

/// `IPv4address = dec-octet "." dec-octet "." dec-octet "." dec-octet`
/// (no `dec-octet` holds a dot, so each ends at the next dot).
pub open spec fn ipv4(s: Seq<char>, lo: int, hi: int) -> bool {
    let d1 = find(s, '.', lo, hi);
    let d2 = find(s, '.', d1 + 1, hi);
    let d3 = find(s, '.', d2 + 1, hi);
    d1 < hi && d2 < hi && d3 < hi && dec_octet(s, lo, d1) && dec_octet(s, d1 + 1, d2)
        && dec_octet(s, d2 + 1, d3) && dec_octet(s, d3 + 1, hi)
}

fn check_ipv4(s: &[char], lo: usize, hi: usize) -> (r: bool)
    requires
        lo <= hi <= s@.len(),
    ensures
        r == ipv4(s@, lo as int, hi as int),
{
    let d1 = find_char(s, '.', lo, hi);
    if d1 == hi {
        return false;
    }
    let d2 = find_char(s, '.', d1 + 1, hi);
    if d2 == hi {
        return false;
    }
    let d3 = find_char(s, '.', d2 + 1, hi);
    if d3 == hi {
        return false;
    }
    check_dec_octet(s, lo, d1) && check_dec_octet(s, d1 + 1, d2) && check_dec_octet(s, d2 + 1, d3)
        && check_dec_octet(s, d3 + 1, hi)
}

/// `h16 = 1*4HEXDIG`
pub open spec fn h16(s: Seq<char>, lo: int, hi: int) -> bool {
    1 <= hi - lo <= 4 && all_plain(Plain::Hex, s, lo, hi)
}

fn check_h16(s: &[char], lo: usize, hi: usize) -> (r: bool)
    requires
        lo <= hi <= s@.len(),
    ensures
        r == h16(s@, lo as int, hi as int),
{
    1 <= hi - lo && hi - lo <= 4 && check_plain(Plain::Hex, s, lo, hi)
}

/// The number of 16-bit pieces that `s[lo..hi]` spells as `h16` items separated
/// by `":"`, where the last item may instead be an `IPv4address` (two pieces)
/// if `v4` holds; `None` where `s[lo..hi]` is no such list.
pub open spec fn pieces(s: Seq<char>, lo: int, hi: int, v4: bool) -> Option<nat>
    decreases hi - lo,
    when lo <= hi
    via pieces_decreases
{
    let c = find(s, ':', lo, hi);
    if c >= hi {
        if h16(s, lo, hi) {
            Some(1)
        } else if v4 && ipv4(s, lo, hi) {
            Some(2)
        } else {
            None
        }
    } else if h16(s, lo, c) {
        match pieces(s, c + 1, hi, v4) {
            Some(n) => Some(n + 1),
            None => None,
        }
    } else {
        None
    }
}

#[via_fn]
proof fn pieces_decreases(s: Seq<char>, lo: int, hi: int, v4: bool) {
    lemma_find_bounds(s, ':', lo, hi);
}

pub open spec fn plus(o: Option<nat>, n: nat) -> Option<nat> {
    match o {
        Some(m) => Some(m + n),
        None => None,
    }
}

fn count_pieces(s: &[char], lo: usize, hi: usize, v4: bool) -> (r: Option<usize>)
    requires
        lo <= hi <= s@.len(),
    ensures
        match r {
            Some(n) => pieces(s@, lo as int, hi as int, v4) == Some(n as nat),
            None => pieces(s@, lo as int, hi as int, v4) is None,
        },
{
    let mut i: usize = lo;
    let mut n: usize = 0;
    loop
        invariant
            lo <= i <= hi,
            hi <= s@.len(),
            n <= i,
            pieces(s@, lo as int, hi as int, v4) == plus(
                pieces(s@, i as int, hi as int, v4),
                n as nat,
            ),
        decreases hi - i,
    {
        let c = find_char(s, ':', i, hi);
        if c == hi {
            if check_h16(s, i, hi) {
                return Some(n + 1);
            } else if v4 && check_ipv4(s, i, hi) {
                return Some(n + 2);
            } else {
                return None;
            }
        } else if check_h16(s, i, c) {
            n = n + 1;
            i = c + 1;
        } else {
            return None;
        }
    }
}

/// Index of the first `"::"` in `s[lo..hi]`, or `hi` where there is none.
pub open spec fn find_double(s: Seq<char>, lo: int, hi: int) -> int
    decreases hi - lo,
{
    if lo + 1 >= hi {
        hi
    } else if s[lo] == ':' && s[lo + 1] == ':' {
        lo
    } else {
        find_double(s, lo + 1, hi)
    }
}

proof fn lemma_find_double_bounds(s: Seq<char>, lo: int, hi: int)
    requires
        lo <= hi,
    ensures
        lo <= find_double(s, lo, hi) <= hi,
        find_double(s, lo, hi) < hi ==> find_double(s, lo, hi) + 2 <= hi && s[find_double(
            s,
            lo,
            hi,
        )] == ':' && s[find_double(s, lo, hi) + 1] == ':',
    decreases hi - lo,
{
    if lo + 1 < hi && !(s[lo] == ':' && s[lo + 1] == ':') {
        lemma_find_double_bounds(s, lo + 1, hi);
    }
}

fn find_double_colon(s: &[char], lo: usize, hi: usize) -> (r: usize)
    requires
        lo <= hi <= s@.len(),
    ensures
        r as int == find_double(s@, lo as int, hi as int),
{
    let mut i: usize = lo;
    while hi - i > 1
        invariant
            lo <= i <= hi,
            hi <= s@.len(),
            find_double(s@, i as int, hi as int) == find_double(s@, lo as int, hi as int),
        decreases hi - i,
    {
        if s[i] == ':' && s[i + 1] == ':' {
            return i;
        }
        i = i + 1;
    }
    hi
}

/// `IPv6address`: eight pieces, or fewer around one `"::"` that stands for at
/// least one zero piece; only the last piece may be written as an IPv4 address.
pub open spec fn ipv6(s: Seq<char>, lo: int, hi: int) -> bool {
    let d = find_double(s, lo, hi);
    if d >= hi {
        pieces(s, lo, hi, true) == Some(8nat)
    } else {
        let left = if d == lo {
            Some(0nat)
        } else {
            pieces(s, lo, d, false)
        };
        let right = if d + 2 == hi {
            Some(0nat)
        } else {
            pieces(s, d + 2, hi, true)
        };
        left is Some && right is Some && left->0 + right->0 <= 7
    }
}

fn check_ipv6(s: &[char], lo: usize, hi: usize) -> (r: bool)
    requires
        lo <= hi <= s@.len(),
    ensures
        r == ipv6(s@, lo as int, hi as int),
{
    let d = find_double_colon(s, lo, hi);
    proof {
        lemma_find_double_bounds(s@, lo as int, hi as int);
    }
    if d == hi {
        match count_pieces(s, lo, hi, true) {
            Some(n) => n == 8,
            None => false,
        }
    } else {
        let left = if d == lo {
            Some(0)
        } else {
            count_pieces(s, lo, d, false)
        };
        let right = if d + 2 == hi {
            Some(0)
        } else {
            count_pieces(s, d + 2, hi, true)
        };
        match (left, right) {
            (Some(a), Some(b)) => a <= 7 && b <= 7 - a,
            _ => false,
        }
    }
}

/// `IPvFuture = "v" 1*HEXDIG "." 1*( unreserved / sub-delims / ":" )`
/// (the `"v"` in either case, as ABNF strings are case-insensitive).
pub open spec fn ipvfuture(s: Seq<char>, lo: int, hi: int) -> bool {
    let dot = find(s, '.', lo + 1, hi);
    lo < hi && (s[lo] == 'v' || s[lo] == 'V') && lo + 1 < dot && all_plain(
        Plain::Hex,
        s,
        lo + 1,
        dot,
    ) && dot + 1 < hi && all_plain(Plain::FutureTail, s, dot + 1, hi)
}

fn check_ipvfuture(s: &[char], lo: usize, hi: usize) -> (r: bool)
    requires
        lo <= hi <= s@.len(),
    ensures
        r == ipvfuture(s@, lo as int, hi as int),
{
    if lo >= hi || !(s[lo] == 'v' || s[lo] == 'V') {
        return false;
    }
    let dot = find_char(s, '.', lo + 1, hi);
    lo + 1 < dot && check_plain(Plain::Hex, s, lo + 1, dot) && hi - dot > 1 && check_plain(
        Plain::FutureTail,
        s,
        dot + 1,
        hi,
    )
}

/// `IP-literal = "[" ( IPv6address / IPvFuture ) "]"`
pub open spec fn ip_literal(s: Seq<char>, lo: int, hi: int) -> bool {
    hi - lo >= 2 && s[lo] == '[' && s[hi - 1] == ']' && (ipv6(s, lo + 1, hi - 1) || ipvfuture(
        s,
        lo + 1,
        hi - 1,
    ))
}

fn check_ip_literal(s: &[char], lo: usize, hi: usize) -> (r: bool)
    requires
        lo <= hi <= s@.len(),
    ensures
        r == ip_literal(s@, lo as int, hi as int),
{
    hi - lo >= 2 && s[lo] == '[' && s[hi - 1] == ']' && (check_ipv6(s, lo + 1, hi - 1)
        || check_ipvfuture(s, lo + 1, hi - 1))
}

/// `ihost = IP-literal / IPv4address / ireg-name`
pub open spec fn host(p: Policy, s: Seq<char>, lo: int, hi: int) -> bool {
    ip_literal(s, lo, hi) || ipv4(s, lo, hi) || run(p, Class::RegName, s, lo, hi)
}

pub fn check_host(p: Policy, s: &[char], lo: usize, hi: usize) -> (r: bool)
    requires
        lo <= hi <= s@.len(),
    ensures
        r == host(p, s@, lo as int, hi as int),
{
    check_ip_literal(s, lo, hi) || check_ipv4(s, lo, hi) || check_run(p, Class::RegName, s, lo, hi)
}

/// Where the host of an authority whose host starts at `lo` ends: after the
/// first `"]"` for an IP literal, else at the first `":"` (no other host
/// holds one).
pub open spec fn host_end(s: Seq<char>, lo: int, hi: int) -> int {
    if lo < hi && s[lo] == '[' {
        let rb = find(s, ']', lo, hi);
        if rb < hi {
            rb + 1
        } else {
            hi
        }
    } else {
        find(s, ':', lo, hi)
    }
}

/// `ihost [ ":" port ]` with `port = *DIGIT`.
pub open spec fn host_port(p: Policy, s: Seq<char>, lo: int, hi: int) -> bool {
    let e = host_end(s, lo, hi);
    host(p, s, lo, e) && (e == hi || (s[e] == ':' && all_plain(Plain::Digit, s, e + 1, hi)))
}

/// `iauthority = [ iuserinfo "@" ] ihost [ ":" port ]`; no part but the `"@"`
/// holds an `"@"`, so the user information ends at the first one.
pub open spec fn authority(p: Policy, s: Seq<char>, lo: int, hi: int) -> bool {
    let at = find(s, '@', lo, hi);
    if at < hi {
        run(p, Class::Userinfo, s, lo, at) && host_port(p, s, at + 1, hi)
    } else {
        host_port(p, s, lo, hi)
    }
}

fn check_host_port(p: Policy, s: &[char], lo: usize, hi: usize) -> (r: bool)
    requires
        lo <= hi <= s@.len(),
    ensures
        r == host_port(p, s@, lo as int, hi as int),
{
    let e = if lo < hi && s[lo] == '[' {
        let rb = find_char(s, ']', lo, hi);
        if rb < hi {
            rb + 1
        } else {
            hi
        }
    } else {
        find_char(s, ':', lo, hi)
    };
    check_host(p, s, lo, e) && (e == hi || (s[e] == ':' && check_plain(Plain::Digit, s, e + 1, hi)))
}

pub fn check_authority(p: Policy, s: &[char], lo: usize, hi: usize) -> (r: bool)
    requires
        lo <= hi <= s@.len(),
    ensures
        r == authority(p, s@, lo as int, hi as int),
{
    let at = find_char(s, '@', lo, hi);
    if at < hi {
        check_run(p, Class::Userinfo, s, lo, at) && check_host_port(p, s, at + 1, hi)
    } else {
        check_host_port(p, s, lo, hi)
    }
}

proof fn lemma_dec_octet_no_hash(s: Seq<char>, lo: int, hi: int)
    requires
        dec_octet(s, lo, hi),
    ensures
        no_hash(s, lo, hi),
{
}

proof fn lemma_ipv4_no_hash(s: Seq<char>, lo: int, hi: int)
    requires
        lo <= hi,
        ipv4(s, lo, hi),
    ensures
        no_hash(s, lo, hi),
{
    let d1 = find(s, '.', lo, hi);
    lemma_find_bounds(s, '.', lo, hi);
    let d2 = find(s, '.', d1 + 1, hi);
    lemma_find_bounds(s, '.', d1 + 1, hi);
    let d3 = find(s, '.', d2 + 1, hi);
    lemma_find_bounds(s, '.', d2 + 1, hi);
    lemma_dec_octet_no_hash(s, lo, d1);
    lemma_dec_octet_no_hash(s, d1 + 1, d2);
    lemma_dec_octet_no_hash(s, d2 + 1, d3);
    lemma_dec_octet_no_hash(s, d3 + 1, hi);
}

proof fn lemma_pieces_no_hash(s: Seq<char>, lo: int, hi: int, v4: bool)
    requires
        lo <= hi,
        pieces(s, lo, hi, v4) is Some,
    ensures
        no_hash(s, lo, hi),
    decreases hi - lo,
{
    let c = find(s, ':', lo, hi);
    lemma_find_bounds(s, ':', lo, hi);
    if c >= hi {
        if h16(s, lo, hi) {
            lemma_plain_no_hash(Plain::Hex, s, lo, hi);
        } else {
            lemma_ipv4_no_hash(s, lo, hi);
        }
    } else {
        lemma_plain_no_hash(Plain::Hex, s, lo, c);
        lemma_pieces_no_hash(s, c + 1, hi, v4);
    }
}

proof fn lemma_ipv6_no_hash(s: Seq<char>, lo: int, hi: int)
    requires
        lo <= hi,
        ipv6(s, lo, hi),
    ensures
        no_hash(s, lo, hi),
{
    let d = find_double(s, lo, hi);
    lemma_find_double_bounds(s, lo, hi);
    if d >= hi {
        lemma_pieces_no_hash(s, lo, hi, true);
    } else {
        if d != lo {
            lemma_pieces_no_hash(s, lo, d, false);
        }
        if d + 2 != hi {
            lemma_pieces_no_hash(s, d + 2, hi, true);
        }
    }
}

proof fn lemma_ip_literal_no_hash(s: Seq<char>, lo: int, hi: int)
    requires
        ip_literal(s, lo, hi),
    ensures
        no_hash(s, lo, hi),
{
    if ipv6(s, lo + 1, hi - 1) {
        lemma_ipv6_no_hash(s, lo + 1, hi - 1);
    } else {
        let dot = find(s, '.', lo + 2, hi - 1);
        lemma_find_bounds(s, '.', lo + 2, hi - 1);
        lemma_plain_no_hash(Plain::Hex, s, lo + 2, dot);
        lemma_plain_no_hash(Plain::FutureTail, s, dot + 1, hi - 1);
    }
}

proof fn lemma_host_no_hash(p: Policy, s: Seq<char>, lo: int, hi: int)
    requires
        lo <= hi,
        host(p, s, lo, hi),
    ensures
        no_hash(s, lo, hi),
{
    if ip_literal(s, lo, hi) {
        lemma_ip_literal_no_hash(s, lo, hi);
    } else if ipv4(s, lo, hi) {
        lemma_ipv4_no_hash(s, lo, hi);
    } else {
        lemma_run_no_hash(p, Class::RegName, s, lo, hi);
    }
}

proof fn lemma_host_end_bounds(s: Seq<char>, lo: int, hi: int)
    requires
        lo <= hi,
    ensures
        lo <= host_end(s, lo, hi) <= hi,
{
    lemma_find_bounds(s, ']', lo, hi);
    lemma_find_bounds(s, ':', lo, hi);
}

/// No part of an authority holds a `"#"`.
pub proof fn lemma_authority_no_hash(p: Policy, s: Seq<char>, lo: int, hi: int)
    requires
        lo <= hi,
        authority(p, s, lo, hi),
    ensures
        no_hash(s, lo, hi),
{
    let at = find(s, '@', lo, hi);
    lemma_find_bounds(s, '@', lo, hi);
    let h = if at < hi {
        at + 1
    } else {
        lo
    };
    if at < hi {
        lemma_run_no_hash(p, Class::Userinfo, s, lo, at);
    }
    let e = host_end(s, h, hi);
    lemma_host_end_bounds(s, h, hi);
    lemma_host_no_hash(p, s, h, e);
    if e < hi {
        lemma_plain_no_hash(Plain::Digit, s, e + 1, hi);
    }
}

/// An authority under the ASCII-only policy is one under the IRI policy.
pub proof fn lemma_authority_widen(s: Seq<char>, lo: int, hi: int)
    requires
        authority(Policy::Uri, s, lo, hi),
    ensures
        authority(Policy::Iri, s, lo, hi),
{
    let at = find(s, '@', lo, hi);
    let h = if at < hi {
        at + 1
    } else {
        lo
    };
    if at < hi {
        lemma_run_widen(Class::Userinfo, s, lo, at);
    }
    let e = host_end(s, h, hi);
    if run(Policy::Uri, Class::RegName, s, h, e) {
        lemma_run_widen(Class::RegName, s, h, e);
    }
}

} // verus!
