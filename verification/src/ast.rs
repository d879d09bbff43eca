//! SQL abstract syntax tree (AST) types.
//!
//! The parser is the sole producer of these trees; every node is immutable
//! after construction and owns its children, boxed where recursive.
use vstd::prelude::*;

pub mod catalog;
pub mod catalog_render;
pub mod data_type;
pub mod ddl;
pub mod operator;
pub mod query;
pub mod render;
pub mod render_stmt;
pub mod value;

pub use self::data_type::DataType;
pub use self::ddl::{ColumnDef, ColumnOption, ColumnOptionDef, TableConstraint};
pub use self::operator::{BinaryOperator, UnaryOperator};
pub use self::query::{
    Cte, Fetch, Join, JoinConstraint, JoinOperator, Offset, OffsetRows, OrderByExpr, Query, Select,
    SelectItem, SetExpr, SetOperator, TableAlias, TableFactor, TableWithJoins, Values, With,
};
pub use self::value::{DateTimeField, Value};

verus! {

/// An identifier, decomposed into its character data and the quote style.
#[derive(Debug, Clone, PartialEq, Eq)]
pub struct Ident {
    /// The value of the identifier without quotes.
    pub value: String,
    /// The starting quote if any. Valid quote characters are the single
    /// quote, double quote, backtick, and opening square bracket.
    pub quote_style: Option<char>,
}

impl Ident {
    /// Creates a new identifier with the given value and no quotes.
    pub fn new(value: &str) -> (r: Ident)
        ensures
            r.value@ == value@,
            r.quote_style is None,
    {
        let mut v = String::new();
        v.append(value);
        Ident { value: v, quote_style: Option::None }
    }

    /// Creates a new quoted identifier with the given quote and value. The
    /// quote must be one of the valid quote characters.
    pub fn with_quote(quote: char, value: &str) -> (r: Ident)
        requires
            quote == '\'' || quote == '"' || quote == '`' || quote == '[',
        ensures
            r.value@ == value@,
            r.quote_style == Option::Some(quote),
    {
        let mut v = String::new();
        v.append(value);
        Ident { value: v, quote_style: Option::Some(quote) }
    }
}

/// A possibly multi-part name of a table, view or custom type, such as
/// `db.schema.obj`.
#[derive(Debug, Clone, PartialEq, Eq)]
pub struct ObjectName(pub Vec<Ident>);

/// An `INTERVAL` expression, roughly
/// `INTERVAL '<value>' [<leading_field> [(<leading_precision>)]]
/// [TO <last_field> [(<fractional_seconds_precision>)]]`.
///
/// The parser validates neither the value nor that the leading field has
/// larger units than the last field; rejecting `HOUR TO YEAR` is left to the
/// consumer.
#[derive(Debug, PartialEq, Eq)]
pub struct Interval {
    pub value: Box<Expr>,
    pub leading_field: Option<DateTimeField>,
    pub leading_precision: Option<u64>,
    pub last_field: Option<DateTimeField>,
    /// The seconds precision, either written `SECOND(_, x)` (in which case
    /// the leading field is `Second` and the last field is absent) or
    /// `... TO SECOND(x)`.
    pub fractional_seconds_precision: Option<u64>,
}

/// The syntax used for a cast.
#[derive(Debug, Clone, Copy, PartialEq, Eq, Structural)]
pub enum CastKind {
    /// `CAST(<expr> AS <type>)`; also how `<expr>::<type>` is recorded, so
    /// that rendering canonicalizes the postfix form.
    Cast,
    /// `TRY_CAST(<expr> AS <type>)`, returning `NULL` on failure.
    TryCast,
    /// `SAFE_CAST(<expr> AS <type>)`, returning `NULL` on failure.
    SafeCast,
    /// `<expr>::<type>`, kept only for consumers that build it directly.
    DoubleColon,
}

/// A scalar function call such as `now()` or `nextval(seq)`.
#[derive(Debug, PartialEq, Eq)]
pub struct Function {
    pub name: ObjectName,
    pub args: FunctionArguments,
}

/// The argument clause of a function call.
#[derive(Debug, PartialEq, Eq)]
pub enum FunctionArguments {
    /// An ordinary parenthesized argument list.
    List(FunctionArgumentList),
}

/// A parenthesized argument list, with an optional duplicate treatment.
#[derive(Debug, PartialEq, Eq)]
pub struct FunctionArgumentList {
    pub duplicate_treatment: Option<DuplicateTreatment>,
    pub args: Vec<FunctionArg>,
}

/// `DISTINCT` or `ALL` ahead of a function argument list.
#[derive(Debug, Clone, Copy, PartialEq, Eq, Structural)]
pub enum DuplicateTreatment {
    Distinct,
    All,
}

/// One argument of a function call, optionally named.
#[derive(Debug, PartialEq, Eq)]
pub enum FunctionArg {
    Named { name: Ident, arg: FunctionArgExpr, operator: FunctionArgOperator },
    Unnamed(FunctionArgExpr),
}

/// The operator between an argument name and its value.
#[derive(Debug, Clone, Copy, PartialEq, Eq, Structural)]
pub enum FunctionArgOperator {
    /// `=`
    Equals,
    /// `=>`
    RightArrow,
    /// `:=`
    Assignment,
}

/// The value of a function argument: an expression or a wildcard.
#[derive(Debug, PartialEq, Eq)]
pub enum FunctionArgExpr {
    Expr(Expr),
    /// `alias.*`.
    QualifiedWildcard(ObjectName),
    /// `*`.
    Wildcard,
}

/// An SQL expression of any type.
///
/// The parser does not distinguish between expressions of different types;
/// the caller must handle expressions of inappropriate type, like `WHERE 1`,
/// as necessary.
#[derive(Debug, PartialEq, Eq)]
pub enum Expr {
    /// An unqualified identifier, such as a column name.
    Identifier(Ident),
    /// A multi-part identifier such as `table_alias.column`.
    CompoundIdentifier(Vec<Ident>),
    /// `IS FALSE`.
    IsFalse(Box<Expr>),
    /// `IS NOT FALSE`.
    IsNotFalse(Box<Expr>),
    /// `IS TRUE`.
    IsTrue(Box<Expr>),
    /// `IS NOT TRUE`.
    IsNotTrue(Box<Expr>),
    /// `IS NULL`.
    IsNull(Box<Expr>),
    /// `IS NOT NULL`.
    IsNotNull(Box<Expr>),
    /// `[NOT] IN (val1, val2, ...)`.
    InList { expr: Box<Expr>, list: Vec<Expr>, negated: bool },
    /// `[NOT] IN (SELECT ...)`.
    InSubquery { expr: Box<Expr>, subquery: Box<Query>, negated: bool },
    /// `<expr> [NOT] BETWEEN <low> AND <high>`.
    Between { expr: Box<Expr>, negated: bool, low: Box<Expr>, high: Box<Expr> },
    /// A binary operation such as `1 + 1` or `foo > bar`.
    BinaryOp { left: Box<Expr>, op: BinaryOperator, right: Box<Expr> },
    /// `[NOT] LIKE <pattern>`.
    Like { negated: bool, expr: Box<Expr>, pattern: Box<Expr> },
    /// A unary operation such as `NOT foo`.
    UnaryOp { op: UnaryOperator, expr: Box<Expr> },
    /// A cast, in any of the syntaxes recorded by [`CastKind`].
    Cast { kind: CastKind, expr: Box<Expr>, data_type: DataType },
    /// A `CONVERT` call; under dialects with `convert_type_before_value` the
    /// target type is written first.
    Convert {
        expr: Box<Expr>,
        data_type: Option<DataType>,
        charset: Option<ObjectName>,
        target_before_value: bool,
    },
    /// A parenthesized expression.
    Nested(Box<Expr>),
    /// A literal value.
    Value(Value),
    /// A scalar function call.
    Function(Function),
    /// `CASE [<operand>] WHEN <condition> THEN <result> ... [ELSE <result>]
    /// END`.
    Case {
        operand: Option<Box<Expr>>,
        conditions: Vec<Expr>,
        results: Vec<Expr>,
        else_result: Option<Box<Expr>>,
    },
    /// `[NOT] EXISTS (SELECT ...)`.
    Exists { subquery: Box<Query>, negated: bool },
    /// A parenthesized scalar subquery.
    Subquery(Box<Query>),
    /// A `GROUPING SETS` expression.
    GroupingSets(Vec<Vec<Expr>>),
    /// A `CUBE` expression.
    Cube(Vec<Vec<Expr>>),
    /// A `ROLLUP` expression.
    Rollup(Vec<Vec<Expr>>),
    /// A row value, such as `(1, 2)`.
    Tuple(Vec<Expr>),
    /// An `INTERVAL` expression.
    Interval(Interval),
    /// `*`.
    Wildcard,
    /// A qualified wildcard such as `alias.*`.
    QualifiedWildcard(ObjectName),
}

/// One `name = value` option of a `WITH (...)` options list.
#[derive(Debug, PartialEq, Eq)]
pub struct SqlOption {
    pub name: Ident,
    pub value: Value,
}

/// The storage format of a `CREATE EXTERNAL TABLE ... STORED AS` clause.
#[derive(Debug, Clone, Copy, PartialEq, Eq, Structural)]
pub enum FileFormat {
    TEXTFILE,
    SEQUENCEFILE,
    ORC,
    PARQUET,
    AVRO,
    RCFILE,
    JSONFILE,
}

/// The kind of object a `DROP` statement removes.
#[derive(Debug, Clone, Copy, PartialEq, Eq, Structural)]
pub enum ObjectType {
    Table,
    View,
    Index,
    Schema,
}

/// The value given to a variable in a `SET` statement.
#[derive(Debug, Clone, PartialEq, Eq)]
pub enum SetVariableValue {
    Ident(Ident),
    Literal(Value),
}

/// A top-level SQL statement.
#[derive(Debug, PartialEq, Eq)]
pub enum Statement {
    /// A `SELECT` query (possibly with `WITH`, set operations, ordering and
    /// limits).
    Query(Box<Query>),
    /// `INSERT INTO <table> [(<columns>)] <source>`.
    Insert { table_name: ObjectName, columns: Vec<Ident>, source: Box<Query> },
    /// `DELETE FROM <table> [WHERE <expr>]`.
    Delete { table_name: ObjectName, selection: Option<Expr> },
    /// `CREATE [EXTERNAL] TABLE [IF NOT EXISTS] ...`.
    CreateTable {
        name: ObjectName,
        columns: Vec<ColumnDef>,
        constraints: Vec<TableConstraint>,
        with_options: Vec<SqlOption>,
        if_not_exists: bool,
        external: bool,
        file_format: Option<FileFormat>,
        location: Option<String>,
    },
    /// `DROP <object type> [IF EXISTS] <names> [CASCADE | RESTRICT]`.
    Drop { object_type: ObjectType, if_exists: bool, names: Vec<ObjectName>, cascade: bool },
    /// `SET [LOCAL] <variable> = <value>`.
    SetVariable { local: bool, hivevar: bool, variable: Ident, value: Vec<SetVariableValue> },
    /// `SHOW <variable>`.
    ShowVariable { variable: Ident },
}

} // verus!
