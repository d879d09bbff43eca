//! The nodes of a `SELECT` query: body, projection, table references,
//! ordering and row limits.
use vstd::prelude::*;

use crate::ast::{Expr, Ident, ObjectName};

verus! {

/// A complete query: an optional `WITH` clause, a body, and the trailing
/// ordering and row-limit clauses.
#[derive(Debug, PartialEq, Eq)]
pub struct Query {
    pub with: Option<With>,
    pub body: Box<SetExpr>,
    pub order_by: Vec<OrderByExpr>,
    pub limit: Option<Expr>,
    pub offset: Option<Offset>,
    pub fetch: Option<Fetch>,
}

/// A `WITH` clause: one or more named common table expressions.
#[derive(Debug, PartialEq, Eq)]
pub struct With {
    pub recursive: bool,
    pub cte_tables: Vec<Cte>,
}

/// One common table expression: `alias AS (query)`.
#[derive(Debug, PartialEq, Eq)]
pub struct Cte {
    pub alias: TableAlias,
    pub query: Box<Query>,
}

/// The body of a query, before ordering and limits are applied.
#[derive(Debug, PartialEq, Eq)]
pub enum SetExpr {
    Select(Box<Select>),
    /// A parenthesized query.
    Query(Box<Query>),
    Values(Values),
    SetOperation { op: SetOperator, all: bool, left: Box<SetExpr>, right: Box<SetExpr> },
}

#[derive(Debug, Clone, Copy, PartialEq, Eq, Structural)]
pub enum SetOperator {
    Union,
    Except,
    Intersect,
}

/// A `VALUES` list: one row of expressions per entry.
#[derive(Debug, PartialEq, Eq)]
pub struct Values(pub Vec<Vec<Expr>>);

/// A single `SELECT` block.
#[derive(Debug, PartialEq, Eq)]
pub struct Select {
    pub distinct: bool,
    pub projection: Vec<SelectItem>,
    pub from: Vec<TableWithJoins>,
    pub selection: Option<Expr>,
    pub group_by: Vec<Expr>,
    pub having: Option<Expr>,
}

/// One item of a projection list.
#[derive(Debug, PartialEq, Eq)]
pub enum SelectItem {
    UnnamedExpr(Expr),
    ExprWithAlias { expr: Expr, alias: Ident },
    QualifiedWildcard(ObjectName),
    Wildcard,
}

/// A table reference together with the joins hanging off it.
#[derive(Debug, PartialEq, Eq)]
pub struct TableWithJoins {
    pub relation: TableFactor,
    pub joins: Vec<Join>,
}

/// A primary table reference: a named table or a derived (subquery) table.
#[derive(Debug, PartialEq, Eq)]
pub enum TableFactor {
    Table { name: ObjectName, alias: Option<TableAlias> },
    Derived { subquery: Box<Query>, alias: Option<TableAlias> },
}

/// An alias for a table reference, with optional column aliases.
#[derive(Debug, PartialEq, Eq)]
pub struct TableAlias {
    pub name: Ident,
    pub columns: Vec<Ident>,
}

/// One join attached to a table reference.
#[derive(Debug, PartialEq, Eq)]
pub struct Join {
    pub relation: TableFactor,
    pub join_operator: JoinOperator,
}

#[derive(Debug, PartialEq, Eq)]
pub enum JoinOperator {
    Inner(JoinConstraint),
    LeftOuter(JoinConstraint),
    RightOuter(JoinConstraint),
    FullOuter(JoinConstraint),
    CrossJoin,
}

#[derive(Debug, PartialEq, Eq)]
pub enum JoinConstraint {
    On(Expr),
    Using(Vec<Ident>),
    Natural,
    /// A join written without any constraint.
    Unconstrained,
}

/// One expression of an `ORDER BY` list.
#[derive(Debug, PartialEq, Eq)]
pub struct OrderByExpr {
    pub expr: Expr,
    /// `Some(true)` for `ASC`, `Some(false)` for `DESC`.
    pub asc: Option<bool>,
    pub nulls_first: Option<bool>,
}

/// An `OFFSET` clause.
#[derive(Debug, PartialEq, Eq)]
pub struct Offset {
    pub value: Expr,
    pub rows: OffsetRows,
}

/// The optional `ROW`/`ROWS` noise word of an `OFFSET` clause.
#[derive(Debug, Clone, Copy, PartialEq, Eq, Structural)]
pub enum OffsetRows {
    /// No `ROW`/`ROWS` keyword was written.
    Omitted,
    Row,
    Rows,
}

/// A `FETCH FIRST ... ROWS ONLY`-style clause.
#[derive(Debug, PartialEq, Eq)]
pub struct Fetch {
    pub with_ties: bool,
    pub percent: bool,
    pub quantity: Option<Expr>,
}

} // verus!
