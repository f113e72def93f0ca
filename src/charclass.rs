//! Character classes of RFC 3986 and RFC 3987, and the policy that selects
//! whether the Unicode ranges of RFC 3987 are admitted.
use vstd::prelude::*;

verus! {

/// Which character-class policy a check runs under.
#[derive(Clone, Copy, PartialEq, Eq, Structural, Debug, Hash)]
pub enum Policy {
    /// RFC 3987: `ucschar` and `iprivate` are admitted where the IRI grammar allows.
    Iri,
    /// RFC 3986: ASCII only.
    Uri,
}

/// The sets of single characters that a run of a component may hold
/// (besides percent-encoded octets).
#[derive(Clone, Copy, PartialEq, Eq, Structural, Debug, Hash)]
pub enum Class {
    /// `iuserinfo`: iunreserved / sub-delims / ":"
    Userinfo,
    /// `ireg-name`: iunreserved / sub-delims
    RegName,
    /// `ipchar`: iunreserved / sub-delims / ":" / "@"
    Segment,
    /// `isegment-nz-nc`: iunreserved / sub-delims / "@"
    SegmentNc,
    /// `iquery`: ipchar / iprivate / "/" / "?"
    Query,
    /// `ifragment`: ipchar / "/" / "?"
    Fragment,
}

pub open spec fn is_alpha(c: char) -> bool {
    ('a' <= c && c <= 'z') || ('A' <= c && c <= 'Z')
}

pub open spec fn is_digit(c: char) -> bool {
    '0' <= c && c <= '9'
}

pub open spec fn is_hexdig(c: char) -> bool {
    is_digit(c) || ('a' <= c && c <= 'f') || ('A' <= c && c <= 'F')
}

/// `unreserved = ALPHA / DIGIT / "-" / "." / "_" / "~"`
pub open spec fn is_unreserved(c: char) -> bool {
    is_alpha(c) || is_digit(c) || c == '-' || c == '.' || c == '_' || c == '~'
}

/// `sub-delims = "!" / "$" / "&" / "'" / "(" / ")" / "*" / "+" / "," / ";" / "="`
pub open spec fn is_sub_delim(c: char) -> bool {
    c == '!' || c == '$' || c == '&' || c == '\'' || c == '(' || c == ')' || c == '*' || c == '+'
        || c == ',' || c == ';' || c == '='
}

pub open spec fn in_range(c: char, lo: u32, hi: u32) -> bool {
    lo <= c as u32 && c as u32 <= hi
}

/// `ucschar` of RFC 3987.
pub open spec fn is_ucschar(c: char) -> bool {
    in_range(c, 0xA0, 0xD7FF) || in_range(c, 0xF900, 0xFDCF) || in_range(c, 0xFDF0, 0xFFEF)
        || in_range(c, 0x10000, 0x1FFFD) || in_range(c, 0x20000, 0x2FFFD)
        || in_range(c, 0x30000, 0x3FFFD) || in_range(c, 0x40000, 0x4FFFD)
        || in_range(c, 0x50000, 0x5FFFD) || in_range(c, 0x60000, 0x6FFFD)
        || in_range(c, 0x70000, 0x7FFFD) || in_range(c, 0x80000, 0x8FFFD)
        || in_range(c, 0x90000, 0x9FFFD) || in_range(c, 0xA0000, 0xAFFFD)
        || in_range(c, 0xB0000, 0xBFFFD) || in_range(c, 0xC0000, 0xCFFFD)
        || in_range(c, 0xD0000, 0xDFFFD) || in_range(c, 0xE1000, 0xEFFFD)
}

/// `iprivate` of RFC 3987.
pub open spec fn is_private(c: char) -> bool {
    in_range(c, 0xE000, 0xF8FF) || in_range(c, 0xF0000, 0xFFFFD) || in_range(c, 0x100000, 0x10FFFD)
}

/// `iunreserved` under the policy (`unreserved` alone under [`Policy::Uri`]).
pub open spec fn is_iunreserved(p: Policy, c: char) -> bool {
    is_unreserved(c) || (p == Policy::Iri && is_ucschar(c))
}

/// `ipchar` without `pct-encoded`.
pub open spec fn is_pchar(p: Policy, c: char) -> bool {
    is_iunreserved(p, c) || is_sub_delim(c) || c == ':' || c == '@'
}

/// Whether a single character `c` is admitted by class `k` under policy `p`.
pub open spec fn class_has(p: Policy, k: Class, c: char) -> bool {
    match k {
        Class::Userinfo => is_iunreserved(p, c) || is_sub_delim(c) || c == ':',
        Class::RegName => is_iunreserved(p, c) || is_sub_delim(c),
        Class::Segment => is_pchar(p, c),
        Class::SegmentNc => is_iunreserved(p, c) || is_sub_delim(c) || c == '@',
        Class::Query => is_pchar(p, c) || (p == Policy::Iri && is_private(c)) || c == '/' || c
            == '?',
        Class::Fragment => is_pchar(p, c) || c == '/' || c == '?',
    }
}

pub fn hexdig(c: char) -> (r: bool)
    ensures
        r == is_hexdig(c),
{
    ('0' <= c && c <= '9') || ('a' <= c && c <= 'f') || ('A' <= c && c <= 'F')
}

pub fn digit(c: char) -> (r: bool)
    ensures
        r == is_digit(c),
{
    '0' <= c && c <= '9'
}

pub fn alpha(c: char) -> (r: bool)
    ensures
        r == is_alpha(c),
{
    ('a' <= c && c <= 'z') || ('A' <= c && c <= 'Z')
}

pub fn unreserved(c: char) -> (r: bool)
    ensures
        r == is_unreserved(c),
{
    alpha(c) || digit(c) || c == '-' || c == '.' || c == '_' || c == '~'
}

pub fn sub_delim(c: char) -> (r: bool)
    ensures
        r == is_sub_delim(c),
{
    c == '!' || c == '$' || c == '&' || c == '\'' || c == '(' || c == ')' || c == '*' || c == '+'
        || c == ',' || c == ';' || c == '='
}

fn within(c: char, lo: u32, hi: u32) -> (r: bool)
    ensures
        r == in_range(c, lo, hi),
{
    lo <= c as u32 && c as u32 <= hi
}

pub fn ucschar(c: char) -> (r: bool)
    ensures
        r == is_ucschar(c),
{
    within(c, 0xA0, 0xD7FF) || within(c, 0xF900, 0xFDCF) || within(c, 0xFDF0, 0xFFEF) || within(
        c,
        0x10000,
        0x1FFFD,
    ) || within(c, 0x20000, 0x2FFFD) || within(c, 0x30000, 0x3FFFD) || within(c, 0x40000, 0x4FFFD)
        || within(c, 0x50000, 0x5FFFD) || within(c, 0x60000, 0x6FFFD) || within(
        c,
        0x70000,
        0x7FFFD,
    ) || within(c, 0x80000, 0x8FFFD) || within(c, 0x90000, 0x9FFFD) || within(c, 0xA0000, 0xAFFFD)
        || within(c, 0xB0000, 0xBFFFD) || within(c, 0xC0000, 0xCFFFD) || within(
        c,
        0xD0000,
        0xDFFFD,
    ) || within(c, 0xE1000, 0xEFFFD)
}

pub fn private(c: char) -> (r: bool)
    ensures
        r == is_private(c),
{
    within(c, 0xE000, 0xF8FF) || within(c, 0xF0000, 0xFFFFD) || within(c, 0x100000, 0x10FFFD)
}

pub fn iunreserved(p: Policy, c: char) -> (r: bool)
    ensures
        r == is_iunreserved(p, c),
{
    unreserved(c) || (p == Policy::Iri && ucschar(c))
}

pub fn pchar(p: Policy, c: char) -> (r: bool)
    ensures
        r == is_pchar(p, c),
{
    iunreserved(p, c) || sub_delim(c) || c == ':' || c == '@'
}

/// Executable form of [`class_has`].
pub fn in_class(p: Policy, k: Class, c: char) -> (r: bool)
    ensures
        r == class_has(p, k, c),
{
    match k {
        Class::Userinfo => iunreserved(p, c) || sub_delim(c) || c == ':',
        Class::RegName => iunreserved(p, c) || sub_delim(c),
        Class::Segment => pchar(p, c),
        Class::SegmentNc => iunreserved(p, c) || sub_delim(c) || c == '@',
        Class::Query => pchar(p, c) || (p == Policy::Iri && private(c)) || c == '/' || c == '?',
        Class::Fragment => pchar(p, c) || c == '/' || c == '?',
    }
}

} // verus!
