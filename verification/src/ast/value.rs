//! Literal values and datetime fields.
use vstd::prelude::*;

verus! {

/// A literal value appearing in an expression. The raw text of numeric
/// literals is preserved so that rendering reproduces the source exactly.
#[derive(Debug, Clone, PartialEq, Eq)]
pub enum Value {
    /// A numeric literal, kept as written; the parser does not evaluate it.
    Number(String),
    /// A single-quoted string literal, with escapes already resolved.
    SingleQuotedString(String),
    /// `TRUE` or `FALSE`.
    Boolean(bool),
    /// `NULL`.
    Null,
}

/// A datetime unit usable in `INTERVAL` expressions.
#[derive(Debug, Clone, Copy, PartialEq, Eq, Structural)]
pub enum DateTimeField {
    Year,
    Month,
    Day,
    Hour,
    Minute,
    Second,
}

} // verus!
