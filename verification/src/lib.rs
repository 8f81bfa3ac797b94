//! Plan and emit `FromRow` implementations for structs whose fields are read
//! from database rows.
//!
//! The library models a struct declaration as a list of field descriptors
//! (`FromRowField`), validates the mapping attributes on each field, decides
//! for each field how its value is obtained (directly from a named column, or
//! by flattening into a nested `FromRow` implementation, optionally
//! post-processed by a conversion), and renders the resulting implementation
//! as source text.

use vstd::prelude::*;

pub mod error;
pub mod field;
pub mod generate;
pub mod pg;
pub mod text;
pub mod tokens;

verus! {

/// A trait that allows mapping rows from the database client to other types.
///
/// Implementations are usually emitted from the plan that
/// [`generate::DeriveFromRow::generate`] renders.
pub trait FromRow: Sized {
    /// Performs the conversion.
    ///
    /// The emitted implementations panic if the row does not contain the
    /// expected column names.
    fn from_row(row: &tokio_postgres::Row) -> Self;

    /// Tries to perform the conversion.
    ///
    /// The emitted implementations return an error if the row does not
    /// contain the expected column names.
    fn try_from_row(row: &tokio_postgres::Row) -> Result<Self, tokio_postgres::Error>;
}

} // verus!
