//! SQL data type names.
use vstd::prelude::*;

use crate::ast::ObjectName;

verus! {

/// A SQL data type as it appears in `CAST` expressions and column
/// definitions.
#[derive(Debug, PartialEq, Eq)]
pub enum DataType {
    Boolean,
    SmallInt,
    Int,
    BigInt,
    Real,
    /// `DOUBLE PRECISION`.
    Double,
    /// `CHAR` with an optional length.
    Char(Option<u64>),
    /// `CHARACTER VARYING` with an optional length.
    Varchar(Option<u64>),
    /// `NUMERIC`/`DECIMAL` with optional precision and scale.
    Decimal(Option<u64>, Option<u64>),
    Text,
    Date,
    Time,
    Timestamp,
    Uuid,
    /// PostgreSQL's object-identifier type for relation names.
    Regclass,
    /// A type this library has no special knowledge of, kept as written.
    Custom(ObjectName),
    /// An array of the element type, written `element[]`.
    Array(Box<DataType>),
}

} // verus!
