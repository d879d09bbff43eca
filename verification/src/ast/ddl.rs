//! The nodes of data-definition statements: column definitions, column
//! options and table constraints.
use vstd::prelude::*;

use crate::ast::data_type::DataType;
use crate::ast::{Expr, Ident, ObjectName};

verus! {

/// One column of a `CREATE TABLE` statement.
#[derive(Debug, PartialEq, Eq)]
pub struct ColumnDef {
    pub name: Ident,
    pub data_type: DataType,
    pub collation: Option<ObjectName>,
    pub options: Vec<ColumnOptionDef>,
}

/// A column option together with its optional constraint name.
#[derive(Debug, PartialEq, Eq)]
pub struct ColumnOptionDef {
    pub name: Option<Ident>,
    pub option: ColumnOption,
}

/// One option attached to a column definition.
#[derive(Debug, PartialEq, Eq)]
pub enum ColumnOption {
    Null,
    NotNull,
    Default(Expr),
    Unique { is_primary: bool },
    Check(Expr),
}

/// A table-level constraint of a `CREATE TABLE` statement.
#[derive(Debug, PartialEq, Eq)]
pub enum TableConstraint {
    Unique { name: Option<Ident>, columns: Vec<Ident>, is_primary: bool },
    Check { name: Option<Ident>, expr: Box<Expr> },
}

} // verus!
