//! Errors reported while planning a `FromRow` implementation.

use vstd::prelude::*;

verus! {

/// An invalid field declaration, found while planning a `FromRow`
/// implementation.
#[derive(Clone, Copy, Debug, PartialEq, Eq, Structural)]
pub enum DeriveError {
    /// More than one of the `from`, `from_fn`, `try_from` and `try_from_fn`
    /// attributes was given on one field.
    CombinedFromAttrs,
    /// `flatten` was combined with one of the `from`, `from_fn`, `try_from`
    /// and `try_from_fn` attributes.
    FlattenWithFrom,
    /// `flatten` was combined with `rename`.
    FlattenWithRename,
    /// An attribute value does not lex as Rust tokens.
    InvalidTokens,
}

impl DeriveError {
    /// The diagnostic text for this error.
    pub fn message(&self) -> (r: String)
        ensures
            self is CombinedFromAttrs ==> r@ == "can't use the `#[from_row(*from*)]` attributes together"@,
            self is FlattenWithFrom ==> r@ == "can't combine `#[from_row(flatten)]` with one of the `#[from_row(*from*)]` attributes`"@,
            self is FlattenWithRename ==> r@ == "can't combine `#[from_row(flatten)]` with `#[from_row(rename = \"..\")]`"@,
            self is InvalidTokens ==> r@ == "attribute value does not lex as Rust tokens"@,
    {
        match self {
            DeriveError::CombinedFromAttrs => "can't use the `#[from_row(*from*)]` attributes together".to_owned(),
            DeriveError::FlattenWithFrom => "can't combine `#[from_row(flatten)]` with one of the `#[from_row(*from*)]` attributes`".to_owned(),
            DeriveError::FlattenWithRename => "can't combine `#[from_row(flatten)]` with `#[from_row(rename = \"..\")]`".to_owned(),
            DeriveError::InvalidTokens => "attribute value does not lex as Rust tokens".to_owned(),
        }
    }
}

} // verus!
