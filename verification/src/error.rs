//! Error codes that the library hands to the query host.

use vstd::prelude::*;

verus! {

/// The SQL error classes that an operation of this library can end in.
#[allow(non_camel_case_types)]
#[derive(Clone, Copy, Debug, PartialEq, Eq, Structural)]
pub enum PgSqlErrorCode {
    /// Storage or transport failed while a dataset was opened, scanned or counted.
    ERRCODE_INTERNAL_ERROR,
    /// A filter predicate could not be parsed.
    ERRCODE_SYNTAX_ERROR,
    /// A column index beyond the columns of a batch.
    ERRCODE_INVALID_COLUMN_REFERENCE,
    /// A value that the host cannot take was absent.
    ERRCODE_NULL_VALUE_NOT_ALLOWED,
}

} // verus!
