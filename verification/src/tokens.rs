//! The one fact about attribute values that planning needs from the host
//! language: whether a string lexes as a sequence of Rust tokens.

use std::str::FromStr;
use vstd::prelude::*;

verus! {

/// Whether a string lexes as a sequence of Rust tokens.
pub uninterp spec fn lexes(s: Seq<char>) -> bool;

/// Relies on `proc_macro2::TokenStream`'s `FromStr`: whether a string lexes
/// as a sequence of Rust tokens depends on its characters alone.
#[verifier::external_body]
pub(crate) fn lexes_as_tokens(s: &str) -> (r: bool)
    ensures
        r == lexes(s@),
{
    proc_macro2::TokenStream::from_str(s).is_ok()
}

} // verus!
