//! Conformance checks of strings against the IRI grammar of RFC 3987
//! (the URI grammar of RFC 3986 with Unicode admitted in defined places).
use vstd::prelude::*;

pub mod charclass;
pub mod scan;
pub mod host;
pub mod path;
pub mod reference;
pub mod validate;

pub use validate::{Error, iri, iri_reference, absolute_iri, relative_ref, path, fragment};

verus! {

} // verus!
