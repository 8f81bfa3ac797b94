//! Declarations of the database client's row and error types, which the
//! `FromRow` trait's signatures carry.

use vstd::prelude::*;

verus! {

/// Relies on `tokio_postgres::Row`: one row of a query result, read by
/// generated `FromRow` implementations.
#[verifier::external_type_specification]
#[verifier::external_body]
pub struct ExRow(tokio_postgres::Row);

/// Relies on `tokio_postgres::Error`: the database client's error type,
/// returned by fallible conversions.
#[verifier::external_type_specification]
#[verifier::external_body]
pub struct ExError(tokio_postgres::Error);

} // verus!
