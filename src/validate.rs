//! Validation: whether a whole string is an instance of one grammar
//! production, with every failure collapsed into one [`Error`].
use vstd::prelude::*;

use crate::charclass::{Class, Policy};
use crate::path::lemma_any_path_widen;
use crate::scan::lemma_run_widen;
use crate::reference::{
    is_iri, is_iri_reference, is_absolute_iri, is_relative_ref, is_path, is_fragment, check_iri,
    check_iri_reference, check_absolute_iri, check_relative_ref, check_path, check_fragment,
    lemma_absolute_iri_no_hash, lemma_iri_widen, lemma_relative_ref_widen, lemma_absolute_iri_widen,
};

verus! {

/// The productions that can be checked.
#[derive(Clone, Copy, PartialEq, Eq, Structural, Debug, Hash)]
pub enum Production {
    /// `IRI`
    Iri,
    /// `IRI-reference`
    IriReference,
    /// `absolute-IRI`
    AbsoluteIri,
    /// `irelative-ref`
    RelativeRef,
    /// `ipath`
    Path,
    /// `ifragment`
    Fragment,
}

/// `s` as a whole is an instance of production `g` under policy `p`.
pub open spec fn matches(p: Policy, g: Production, s: Seq<char>) -> bool {
    match g {
        Production::Iri => is_iri(p, s),
        Production::IriReference => is_iri_reference(p, s),
        Production::AbsoluteIri => is_absolute_iri(p, s),
        Production::RelativeRef => is_relative_ref(p, s),
        Production::Path => is_path(p, s),
        Production::Fragment => is_fragment(p, s),
    }
}

/// The characters of `s`, in order.
pub fn chars_of(s: &str) -> (v: Vec<char>)
    ensures
        v@ == s@,
{
    let mut v: Vec<char> = Vec::new();
    for c in it: s.chars()
        invariant
            v@ == it.seq().take(it.index() as int),
            it.seq() == s@,
    {
        v.push(c);
    }
    v
}

/// Checks that the whole of `s` is an instance of `g` under policy `p`: a
/// match of a proper prefix is a failure. Failures carry no detail.
pub fn parse_whole(p: Policy, g: Production, s: &str) -> (r: Result<(), ()>)
    ensures
        r is Ok <==> matches(p, g, s@),
{
    let v = chars_of(s);
    let ok = match g {
        Production::Iri => check_iri(p, v.as_slice()),
        Production::IriReference => check_iri_reference(p, v.as_slice()),
        Production::AbsoluteIri => check_absolute_iri(p, v.as_slice()),
        Production::RelativeRef => check_relative_ref(p, v.as_slice()),
        Production::Path => check_path(p, v.as_slice()),
        Production::Fragment => check_fragment(p, v.as_slice()),
    };
    if ok {
        Ok(())
    } else {
        Err(())
    }
}

/// IRI validation error: the input is not an instance of the production that
/// was asked for. It carries nothing else.
#[derive(Debug, Clone, Copy, PartialEq, Eq, Hash)]
pub struct Error(());

impl Error {
    /// The one value of the type.
    pub closed spec fn invalid() -> Error {
        Error(())
    }

    /// Every `Error` is the one value [`Error::invalid`].
    pub proof fn lemma_unique(e: Error)
        ensures
            e == Error::invalid(),
    {
    }

    /// Creates a new `Error`.
    pub fn new() -> (r: Self)
        ensures
            r == Error::invalid(),
    {
        Error(())
    }

    /// The human-readable message of the error.
    pub fn message(&self) -> (r: String)
        ensures
            r@ == "Invalid IRI"@,
    {
        String::from_str("Invalid IRI")
    }
}

/// The result of a validation whose input conforms exactly when `ok` holds.
pub open spec fn outcome(ok: bool) -> Result<(), Error> {
    if ok {
        Ok(())
    } else {
        Err(Error::invalid())
    }
}

/// Converts the given result into a validation result, discarding whatever
/// the result held.
pub fn conv_err<T, E>(res: Result<T, E>) -> (r: Result<(), Error>)
    ensures
        r == outcome(res is Ok),
{
    match res {
        Ok(_) => Ok(()),
        Err(_) => Err(Error::new()),
    }
}

/// Validates an IRI (`IRI` of RFC 3987).
pub fn iri(s: &str) -> (r: Result<(), Error>)
    ensures
        r == outcome(is_iri(Policy::Iri, s@)),
{
    conv_err(parse_whole(Policy::Iri, Production::Iri, s))
}

/// Validates an IRI reference (`IRI-reference` of RFC 3987).
pub fn iri_reference(s: &str) -> (r: Result<(), Error>)
    ensures
        r == outcome(is_iri_reference(Policy::Iri, s@)),
{
    conv_err(parse_whole(Policy::Iri, Production::IriReference, s))
}

/// Validates an absolute IRI (`absolute-IRI` of RFC 3987).
pub fn absolute_iri(s: &str) -> (r: Result<(), Error>)
    ensures
        r == outcome(is_absolute_iri(Policy::Iri, s@)),
{
    conv_err(parse_whole(Policy::Iri, Production::AbsoluteIri, s))
}

/// Validates a relative reference (`irelative-ref` of RFC 3987).
pub fn relative_ref(s: &str) -> (r: Result<(), Error>)
    ensures
        r == outcome(is_relative_ref(Policy::Iri, s@)),
{
    conv_err(parse_whole(Policy::Iri, Production::RelativeRef, s))
}

/// Validates an IRI path (`ipath` of RFC 3987).
pub fn path(s: &str) -> (r: Result<(), Error>)
    ensures
        r == outcome(is_path(Policy::Iri, s@)),
{
    conv_err(parse_whole(Policy::Iri, Production::Path, s))
}

/// Validates an IRI fragment (`ifragment` of RFC 3987), without its leading `"#"`.
pub fn fragment(s: &str) -> (r: Result<(), Error>)
    ensures
        r == outcome(is_fragment(Policy::Iri, s@)),
{
    conv_err(parse_whole(Policy::Iri, Production::Fragment, s))
}

/// Every absolute IRI is an IRI.
pub proof fn absolute_iri_is_iri(p: Policy, s: Seq<char>)
    requires
        is_absolute_iri(p, s),
    ensures
        is_iri(p, s),
{
    lemma_absolute_iri_no_hash(p, s);
}

/// Every IRI is an IRI reference.
pub proof fn iri_is_iri_reference(p: Policy, s: Seq<char>)
    requires
        is_iri(p, s),
    ensures
        is_iri_reference(p, s),
{
}

/// Whatever conforms to a production under the ASCII-only policy conforms
/// to it under the IRI policy as well.
pub proof fn uri_policy_within_iri_policy(g: Production, s: Seq<char>)
    requires
        matches(Policy::Uri, g, s),
    ensures
        matches(Policy::Iri, g, s),
{
    match g {
        Production::Iri => lemma_iri_widen(s),
        Production::IriReference => {
            if is_iri(Policy::Uri, s) {
                lemma_iri_widen(s);
            } else {
                lemma_relative_ref_widen(s);
            }
        },
        Production::AbsoluteIri => lemma_absolute_iri_widen(s),
        Production::RelativeRef => lemma_relative_ref_widen(s),
        Production::Path => lemma_any_path_widen(s, 0, s.len() as int),
        Production::Fragment => lemma_run_widen(Class::Fragment, s, 0, s.len() as int),
    }
}

} // verus!
