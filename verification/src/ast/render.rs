//! Rendering of AST nodes back to SQL text.
//!
//! Every rendering method has an exact contract: the string it returns is
//! the node's `sql()` specification, so parse/render round trips can be
//! stated precisely.
use vstd::prelude::*;

use crate::ast::data_type::DataType;
use crate::ast::operator::{BinaryOperator, UnaryOperator};
use crate::ast::value::{DateTimeField, Value};
use crate::ast::query::{
    Cte, Fetch, Join, JoinConstraint, JoinOperator, Offset, OffsetRows, OrderByExpr, Query, Select,
    SelectItem, SetExpr, SetOperator, TableAlias, TableFactor, TableWithJoins, With,
};
use crate::ast::{
    CastKind, DuplicateTreatment, Expr, Function, FunctionArg, FunctionArgExpr,
    FunctionArgOperator, FunctionArguments, Ident, Interval, ObjectName,
};
use crate::text::{
    dec_rep, display_comma_separated, display_separated, escaped, joined, lemma_joined_push,
    push_char, u64_to_string, views_of,
};

verus! {

/// Copies a string slice into an owned string.
fn owned(s: &str) -> (r: String)
    ensures
        r@ == s@,
{
    let mut out = String::new();
    out.append(s);
    out
}

impl Ident {
    /// The SQL text of this identifier: its value inside its quote style,
    /// with quote characters doubled inside single- and double-quoted and
    /// backtick-quoted identifiers.
    pub open spec fn sql(self) -> Seq<char> {
        match self.quote_style {
            Option::Some(q) => {
                if q == '"' || q == '\'' || q == '`' {
                    seq![q] + escaped(self.value@, q) + seq![q]
                } else if q == '[' {
                    seq!['['] + self.value@ + seq![']']
                } else {
                    self.value@
                }
            },
            Option::None => self.value@,
        }
    }

    /// Renders this identifier back to SQL text.
    pub fn to_sql_string(&self) -> (r: String)
        ensures
            r@ == self.sql(),
    {
        match &self.quote_style {
            Option::Some(q) => {
                if *q == '"' || *q == '\'' || *q == '`' {
                    let mut s = String::new();
                    push_char(&mut s, *q);
                    let esc = crate::text::escape_quoted_string(self.value.as_str(), *q);
                    s.append(esc.as_str());
                    push_char(&mut s, *q);
                    proof {
                        assert(s@ =~= seq![self.quote_style->0] + escaped(
                            self.value@,
                            self.quote_style->0,
                        ) + seq![self.quote_style->0]);
                    }
                    s
                } else if *q == '[' {
                    let mut s = String::new();
                    push_char(&mut s, '[');
                    s.append(self.value.as_str());
                    push_char(&mut s, ']');
                    proof {
                        assert(s@ =~= seq!['['] + self.value@ + seq![']']);
                    }
                    s
                } else {
                    let mut s = String::new();
                    s.append(self.value.as_str());
                    proof {
                        assert(s@ =~= self.value@);
                    }
                    s
                }
            },
            Option::None => {
                let mut s = String::new();
                s.append(self.value.as_str());
                proof {
                    assert(s@ =~= self.value@);
                }
                s
            },
        }
    }
}

/// The SQL texts of a sequence of identifiers, one per entry.
pub open spec fn idents_rendered(items: Seq<Ident>) -> Seq<Seq<char>>
    decreases items.len(),
{
    if items.len() == 0 {
        Seq::<Seq<char>>::empty()
    } else {
        seq![items[0].sql()] + idents_rendered(items.drop_first())
    }
}

pub proof fn lemma_idents_rendered_push(items: Seq<Ident>, x: Ident)
    ensures
        idents_rendered(items.push(x)) == idents_rendered(items).push(x.sql()),
    decreases items.len(),
{
    if items.len() == 0 {
        assert(items.push(x)[0] == x);
        assert(items.push(x).drop_first() =~= Seq::<Ident>::empty());
        assert(idents_rendered(items.push(x).drop_first()) == Seq::<Seq<char>>::empty());
        assert(idents_rendered(items.push(x)) == seq![x.sql()] + Seq::<Seq<char>>::empty());
        assert(seq![x.sql()] + Seq::<Seq<char>>::empty() =~= seq![x.sql()]);
        assert(idents_rendered(items).push(x.sql()) =~= seq![x.sql()]);
    } else {
        assert(items.push(x)[0] == items[0]);
        assert(items.push(x).drop_first() =~= items.drop_first().push(x));
        lemma_idents_rendered_push(items.drop_first(), x);
        assert(idents_rendered(items.push(x)) == seq![items[0].sql()] + idents_rendered(
            items.drop_first().push(x),
        ));
        assert(idents_rendered(items) == seq![items[0].sql()] + idents_rendered(
            items.drop_first(),
        ));
        assert(idents_rendered(items.push(x)) =~= idents_rendered(items).push(x.sql()));
    }
}

/// Renders each identifier of a list.
pub fn render_idents(items: &Vec<Ident>) -> (parts: Vec<String>)
    ensures
        views_of(parts@) == idents_rendered(items@),
{
    let mut parts: Vec<String> = Vec::new();
    let mut i: usize = 0;
    proof {
        assert(views_of(parts@) =~= idents_rendered(items@.subrange(0, 0)));
    }
    while i < items.len()
        invariant
            i <= items@.len(),
            views_of(parts@) == idents_rendered(items@.subrange(0, i as int)),
        decreases items@.len() - i,
    {
        let ghost pre = parts@;
        parts.push(items[i].to_sql_string());
        proof {
            assert(items@.subrange(0, i + 1int) =~= items@.subrange(0, i as int).push(
                items@[i as int],
            ));
            lemma_idents_rendered_push(items@.subrange(0, i as int), items@[i as int]);
            assert(views_of(parts@) =~= views_of(pre).push(items@[i as int].sql()));
        }
        i = i + 1;
    }
    proof {
        assert(items@.subrange(0, items@.len() as int) =~= items@);
    }
    parts
}

impl ObjectName {
    /// The SQL text of this possibly multi-part name: its parts joined with
    /// periods.
    pub open spec fn sql(self) -> Seq<char> {
        joined(idents_rendered(self.0@), "."@)
    }

    /// Renders this name back to SQL text.
    pub fn to_sql_string(&self) -> (r: String)
        ensures
            r@ == self.sql(),
    {
        let parts = render_idents(&self.0);
        display_separated(&parts, ".")
    }
}

impl Value {
    /// The SQL text of this literal value.
    pub open spec fn sql(self) -> Seq<char> {
        match self {
            Value::Number(n) => n@,
            Value::SingleQuotedString(s) => seq!['\''] + escaped(s@, '\'') + seq!['\''],
            Value::Boolean(b) => if b {
                "true"@
            } else {
                "false"@
            },
            Value::Null => "NULL"@,
        }
    }

    /// Renders this literal back to SQL text.
    pub fn to_sql_string(&self) -> (r: String)
        ensures
            r@ == self.sql(),
    {
        match self {
            Value::Number(n) => owned(n.as_str()),
            Value::SingleQuotedString(v) => {
                let mut s = String::new();
                push_char(&mut s, '\'');
                let esc = crate::text::escape_quoted_string(v.as_str(), '\'');
                s.append(esc.as_str());
                push_char(&mut s, '\'');
                proof {
                    assert(s@ =~= seq!['\''] + escaped(v@, '\'') + seq!['\'']);
                }
                s
            },
            Value::Boolean(b) => {
                if *b {
                    owned("true")
                } else {
                    owned("false")
                }
            },
            Value::Null => owned("NULL"),
        }
    }
}

/// The optional parenthesized length after a type name, such as `(45)`.
pub open spec fn opt_len_sql(n: Option<u64>) -> Seq<char> {
    match n {
        Option::Some(v) => seq!['('] + dec_rep(v as nat) + seq![')'],
        Option::None => Seq::<char>::empty(),
    }
}

fn render_opt_len(n: &Option<u64>) -> (r: String)
    ensures
        r@ == opt_len_sql(*n),
{
    match n {
        Option::Some(v) => {
            let mut s = String::new();
            push_char(&mut s, '(');
            let d = u64_to_string(*v);
            s.append(d.as_str());
            push_char(&mut s, ')');
            proof {
                assert(s@ =~= seq!['('] + dec_rep(*v as nat) + seq![')']);
            }
            s
        },
        Option::None => String::new(),
    }
}

impl DataType {
    /// The SQL text of this data type, in its canonical uppercase spelling.
    pub open spec fn sql(self) -> Seq<char>
        decreases self,
    {
        match self {
            DataType::Boolean => "BOOLEAN"@,
            DataType::SmallInt => "SMALLINT"@,
            DataType::Int => "INT"@,
            DataType::BigInt => "BIGINT"@,
            DataType::Real => "REAL"@,
            DataType::Double => "DOUBLE PRECISION"@,
            DataType::Char(n) => "CHAR"@ + opt_len_sql(n),
            DataType::Varchar(n) => "CHARACTER VARYING"@ + opt_len_sql(n),
            DataType::Decimal(p, s) => match (p, s) {
                (Option::Some(p), Option::Some(s)) => "NUMERIC("@ + dec_rep(p as nat) + ", "@
                    + dec_rep(s as nat) + seq![')'],
                (Option::Some(p), Option::None) => "NUMERIC"@ + seq!['('] + dec_rep(p as nat)
                    + seq![')'],
                _ => "NUMERIC"@,
            },
            DataType::Text => "TEXT"@,
            DataType::Date => "DATE"@,
            DataType::Time => "TIME"@,
            DataType::Timestamp => "TIMESTAMP"@,
            DataType::Uuid => "UUID"@,
            DataType::Regclass => "REGCLASS"@,
            DataType::Custom(name) => name.sql(),
            DataType::Array(inner) => inner.sql() + "[]"@,
        }
    }

    /// Renders this data type back to SQL text.
    pub fn to_sql_string(&self) -> (r: String)
        ensures
            r@ == self.sql(),
        decreases self,
    {
        match self {
            DataType::Boolean => owned("BOOLEAN"),
            DataType::SmallInt => owned("SMALLINT"),
            DataType::Int => owned("INT"),
            DataType::BigInt => owned("BIGINT"),
            DataType::Real => owned("REAL"),
            DataType::Double => owned("DOUBLE PRECISION"),
            DataType::Char(n) => {
                let mut s = owned("CHAR");
                let l = render_opt_len(n);
                s.append(l.as_str());
                s
            },
            DataType::Varchar(n) => {
                let mut s = owned("CHARACTER VARYING");
                let l = render_opt_len(n);
                s.append(l.as_str());
                s
            },
            DataType::Decimal(p, s) => {
                match (p, s) {
                    (Option::Some(p), Option::Some(sc)) => {
                        let mut out = owned("NUMERIC(");
                        let d = u64_to_string(*p);
                        out.append(d.as_str());
                        out.append(", ");
                        let d2 = u64_to_string(*sc);
                        out.append(d2.as_str());
                        push_char(&mut out, ')');
                        proof {
                            assert(out@ =~= "NUMERIC("@ + dec_rep(*p as nat) + ", "@ + dec_rep(
                                *sc as nat,
                            ) + seq![')']);
                        }
                        out
                    },
                    (Option::Some(p), Option::None) => {
                        let mut out = owned("NUMERIC");
                        push_char(&mut out, '(');
                        let d = u64_to_string(*p);
                        out.append(d.as_str());
                        push_char(&mut out, ')');
                        proof {
                            assert(out@ =~= "NUMERIC"@ + seq!['('] + dec_rep(*p as nat) + seq![
                                ')',
                            ]);
                        }
                        out
                    },
                    _ => owned("NUMERIC"),
                }
            },
            DataType::Text => owned("TEXT"),
            DataType::Date => owned("DATE"),
            DataType::Time => owned("TIME"),
            DataType::Timestamp => owned("TIMESTAMP"),
            DataType::Uuid => owned("UUID"),
            DataType::Regclass => owned("REGCLASS"),
            DataType::Custom(name) => name.to_sql_string(),
            DataType::Array(inner) => {
                let mut s = inner.to_sql_string();
                s.append("[]");
                s
            },
        }
    }
}

impl BinaryOperator {
    /// The SQL text of this operator.
    pub open spec fn sql(self) -> Seq<char> {
        match self {
            BinaryOperator::Plus => "+"@,
            BinaryOperator::Minus => "-"@,
            BinaryOperator::Multiply => "*"@,
            BinaryOperator::Divide => "/"@,
            BinaryOperator::Modulo => "%"@,
            BinaryOperator::StringConcat => "||"@,
            BinaryOperator::Gt => ">"@,
            BinaryOperator::Lt => "<"@,
            BinaryOperator::GtEq => ">="@,
            BinaryOperator::LtEq => "<="@,
            BinaryOperator::Eq => "="@,
            BinaryOperator::NotEq => "<>"@,
            BinaryOperator::And => "AND"@,
            BinaryOperator::Or => "OR"@,
            BinaryOperator::BitwiseOr => "|"@,
            BinaryOperator::BitwiseAnd => "&"@,
            BinaryOperator::BitwiseXor => "^"@,
        }
    }

    /// Renders this operator back to SQL text.
    pub fn to_sql_string(&self) -> (r: String)
        ensures
            r@ == self.sql(),
    {
        match self {
            BinaryOperator::Plus => owned("+"),
            BinaryOperator::Minus => owned("-"),
            BinaryOperator::Multiply => owned("*"),
            BinaryOperator::Divide => owned("/"),
            BinaryOperator::Modulo => owned("%"),
            BinaryOperator::StringConcat => owned("||"),
            BinaryOperator::Gt => owned(">"),
            BinaryOperator::Lt => owned("<"),
            BinaryOperator::GtEq => owned(">="),
            BinaryOperator::LtEq => owned("<="),
            BinaryOperator::Eq => owned("="),
            BinaryOperator::NotEq => owned("<>"),
            BinaryOperator::And => owned("AND"),
            BinaryOperator::Or => owned("OR"),
            BinaryOperator::BitwiseOr => owned("|"),
            BinaryOperator::BitwiseAnd => owned("&"),
            BinaryOperator::BitwiseXor => owned("^"),
        }
    }
}

impl UnaryOperator {
    /// The SQL text of this operator.
    pub open spec fn sql(self) -> Seq<char> {
        match self {
            UnaryOperator::Plus => "+"@,
            UnaryOperator::Minus => "-"@,
            UnaryOperator::Not => "NOT"@,
        }
    }

    /// Renders this operator back to SQL text.
    pub fn to_sql_string(&self) -> (r: String)
        ensures
            r@ == self.sql(),
    {
        match self {
            UnaryOperator::Plus => owned("+"),
            UnaryOperator::Minus => owned("-"),
            UnaryOperator::Not => owned("NOT"),
        }
    }
}

impl DateTimeField {
    /// The SQL text of this datetime unit.
    pub open spec fn sql(self) -> Seq<char> {
        match self {
            DateTimeField::Year => "YEAR"@,
            DateTimeField::Month => "MONTH"@,
            DateTimeField::Day => "DAY"@,
            DateTimeField::Hour => "HOUR"@,
            DateTimeField::Minute => "MINUTE"@,
            DateTimeField::Second => "SECOND"@,
        }
    }

    /// Renders this datetime unit back to SQL text.
    pub fn to_sql_string(&self) -> (r: String)
        ensures
            r@ == self.sql(),
    {
        match self {
            DateTimeField::Year => owned("YEAR"),
            DateTimeField::Month => owned("MONTH"),
            DateTimeField::Day => owned("DAY"),
            DateTimeField::Hour => owned("HOUR"),
            DateTimeField::Minute => owned("MINUTE"),
            DateTimeField::Second => owned("SECOND"),
        }
    }
}


/// The SQL texts of a sequence of expressions, one per entry.
pub open spec fn exprs_rendered(items: Seq<Expr>) -> Seq<Seq<char>>
    decreases items, 0int,
{
    if items.len() == 0 {
        Seq::<Seq<char>>::empty()
    } else {
        seq![items[0].sql()] + exprs_rendered(items.drop_first())
    }
}

pub proof fn lemma_exprs_rendered_push(items: Seq<Expr>, x: Expr)
    ensures
        exprs_rendered(items.push(x)) == exprs_rendered(items).push(x.sql()),
    decreases items.len(),
{
    if items.len() == 0 {
        assert(items.push(x)[0] == x);
        assert(items.push(x).drop_first() =~= Seq::<Expr>::empty());
        assert(exprs_rendered(items.push(x).drop_first()) == Seq::<Seq<char>>::empty());
        assert(exprs_rendered(items.push(x)) == seq![x.sql()] + Seq::<Seq<char>>::empty());
        assert(seq![x.sql()] + Seq::<Seq<char>>::empty() =~= seq![x.sql()]);
        assert(exprs_rendered(items).push(x.sql()) =~= seq![x.sql()]);
    } else {
        assert(items.push(x)[0] == items[0]);
        assert(items.push(x).drop_first() =~= items.drop_first().push(x));
        lemma_exprs_rendered_push(items.drop_first(), x);
        assert(exprs_rendered(items.push(x)) == seq![items[0].sql()] + exprs_rendered(
            items.drop_first().push(x),
        ));
        assert(exprs_rendered(items) == seq![items[0].sql()] + exprs_rendered(items.drop_first()));
        assert(exprs_rendered(items.push(x)) =~= exprs_rendered(items).push(x.sql()));
    }
}

/// Renders each node of the list.
pub fn render_exprs(items: &Vec<Expr>) -> (parts: Vec<String>)
    ensures
        views_of(parts@) == exprs_rendered(items@),
    decreases items, 0int,
{
    let mut parts: Vec<String> = Vec::new();
    let mut i: usize = 0;
    proof {
        assert(views_of(parts@) =~= exprs_rendered(items@.subrange(0, 0)));
    }
    while i < items.len()
        invariant
            i <= items@.len(),
            views_of(parts@) == exprs_rendered(items@.subrange(0, i as int)),
        decreases items@.len() - i,
    {
        let ghost pre = parts@;
        parts.push(items[i].to_sql_string());
        proof {
            assert(items@.subrange(0, i + 1int) =~= items@.subrange(0, i as int).push(
                items@[i as int],
            ));
            lemma_exprs_rendered_push(items@.subrange(0, i as int), items@[i as int]);
            assert(views_of(parts@) =~= views_of(pre).push(items@[i as int].sql()));
        }
        i = i + 1;
    }
    proof {
        assert(items@.subrange(0, items@.len() as int) =~= items@);
    }
    parts
}


/// The SQL texts of a sequence of projection items, one per entry.
pub open spec fn select_items_rendered(items: Seq<SelectItem>) -> Seq<Seq<char>>
    decreases items,
{
    if items.len() == 0 {
        Seq::<Seq<char>>::empty()
    } else {
        seq![items[0].sql()] + select_items_rendered(items.drop_first())
    }
}

pub proof fn lemma_select_items_rendered_push(items: Seq<SelectItem>, x: SelectItem)
    ensures
        select_items_rendered(items.push(x)) == select_items_rendered(items).push(x.sql()),
    decreases items.len(),
{
    if items.len() == 0 {
        assert(items.push(x)[0] == x);
        assert(items.push(x).drop_first() =~= Seq::<SelectItem>::empty());
        assert(select_items_rendered(items.push(x).drop_first()) == Seq::<Seq<char>>::empty());
        assert(select_items_rendered(items.push(x)) == seq![x.sql()] + Seq::<Seq<char>>::empty());
        assert(seq![x.sql()] + Seq::<Seq<char>>::empty() =~= seq![x.sql()]);
        assert(select_items_rendered(items).push(x.sql()) =~= seq![x.sql()]);
    } else {
        assert(items.push(x)[0] == items[0]);
        assert(items.push(x).drop_first() =~= items.drop_first().push(x));
        lemma_select_items_rendered_push(items.drop_first(), x);
        assert(select_items_rendered(items.push(x)) == seq![items[0].sql()] + select_items_rendered(
            items.drop_first().push(x),
        ));
        assert(select_items_rendered(items) == seq![items[0].sql()] + select_items_rendered(items.drop_first()));
        assert(select_items_rendered(items.push(x)) =~= select_items_rendered(items).push(x.sql()));
    }
}

/// Renders each node of the list.
pub fn render_select_items(items: &Vec<SelectItem>) -> (parts: Vec<String>)
    ensures
        views_of(parts@) == select_items_rendered(items@),
    decreases items,
{
    let mut parts: Vec<String> = Vec::new();
    let mut i: usize = 0;
    proof {
        assert(views_of(parts@) =~= select_items_rendered(items@.subrange(0, 0)));
    }
    while i < items.len()
        invariant
            i <= items@.len(),
            views_of(parts@) == select_items_rendered(items@.subrange(0, i as int)),
        decreases items@.len() - i,
    {
        let ghost pre = parts@;
        parts.push(items[i].to_sql_string());
        proof {
            assert(items@.subrange(0, i + 1int) =~= items@.subrange(0, i as int).push(
                items@[i as int],
            ));
            lemma_select_items_rendered_push(items@.subrange(0, i as int), items@[i as int]);
            assert(views_of(parts@) =~= views_of(pre).push(items@[i as int].sql()));
        }
        i = i + 1;
    }
    proof {
        assert(items@.subrange(0, items@.len() as int) =~= items@);
    }
    parts
}


/// The SQL texts of a sequence of table references with their joins, one per entry.
pub open spec fn twjs_rendered(items: Seq<TableWithJoins>) -> Seq<Seq<char>>
    decreases items,
{
    if items.len() == 0 {
        Seq::<Seq<char>>::empty()
    } else {
        seq![items[0].sql()] + twjs_rendered(items.drop_first())
    }
}

pub proof fn lemma_twjs_rendered_push(items: Seq<TableWithJoins>, x: TableWithJoins)
    ensures
        twjs_rendered(items.push(x)) == twjs_rendered(items).push(x.sql()),
    decreases items.len(),
{
    if items.len() == 0 {
        assert(items.push(x)[0] == x);
        assert(items.push(x).drop_first() =~= Seq::<TableWithJoins>::empty());
        assert(twjs_rendered(items.push(x).drop_first()) == Seq::<Seq<char>>::empty());
        assert(twjs_rendered(items.push(x)) == seq![x.sql()] + Seq::<Seq<char>>::empty());
        assert(seq![x.sql()] + Seq::<Seq<char>>::empty() =~= seq![x.sql()]);
        assert(twjs_rendered(items).push(x.sql()) =~= seq![x.sql()]);
    } else {
        assert(items.push(x)[0] == items[0]);
        assert(items.push(x).drop_first() =~= items.drop_first().push(x));
        lemma_twjs_rendered_push(items.drop_first(), x);
        assert(twjs_rendered(items.push(x)) == seq![items[0].sql()] + twjs_rendered(
            items.drop_first().push(x),
        ));
        assert(twjs_rendered(items) == seq![items[0].sql()] + twjs_rendered(items.drop_first()));
        assert(twjs_rendered(items.push(x)) =~= twjs_rendered(items).push(x.sql()));
    }
}

/// Renders each node of the list.
pub fn render_twjs(items: &Vec<TableWithJoins>) -> (parts: Vec<String>)
    ensures
        views_of(parts@) == twjs_rendered(items@),
    decreases items,
{
    let mut parts: Vec<String> = Vec::new();
    let mut i: usize = 0;
    proof {
        assert(views_of(parts@) =~= twjs_rendered(items@.subrange(0, 0)));
    }
    while i < items.len()
        invariant
            i <= items@.len(),
            views_of(parts@) == twjs_rendered(items@.subrange(0, i as int)),
        decreases items@.len() - i,
    {
        let ghost pre = parts@;
        parts.push(items[i].to_sql_string());
        proof {
            assert(items@.subrange(0, i + 1int) =~= items@.subrange(0, i as int).push(
                items@[i as int],
            ));
            lemma_twjs_rendered_push(items@.subrange(0, i as int), items@[i as int]);
            assert(views_of(parts@) =~= views_of(pre).push(items@[i as int].sql()));
        }
        i = i + 1;
    }
    proof {
        assert(items@.subrange(0, items@.len() as int) =~= items@);
    }
    parts
}


/// The SQL texts of a sequence of ORDER BY expressions, one per entry.
pub open spec fn order_bys_rendered(items: Seq<OrderByExpr>) -> Seq<Seq<char>>
    decreases items,
{
    if items.len() == 0 {
        Seq::<Seq<char>>::empty()
    } else {
        seq![items[0].sql()] + order_bys_rendered(items.drop_first())
    }
}

pub proof fn lemma_order_bys_rendered_push(items: Seq<OrderByExpr>, x: OrderByExpr)
    ensures
        order_bys_rendered(items.push(x)) == order_bys_rendered(items).push(x.sql()),
    decreases items.len(),
{
    if items.len() == 0 {
        assert(items.push(x)[0] == x);
        assert(items.push(x).drop_first() =~= Seq::<OrderByExpr>::empty());
        assert(order_bys_rendered(items.push(x).drop_first()) == Seq::<Seq<char>>::empty());
        assert(order_bys_rendered(items.push(x)) == seq![x.sql()] + Seq::<Seq<char>>::empty());
        assert(seq![x.sql()] + Seq::<Seq<char>>::empty() =~= seq![x.sql()]);
        assert(order_bys_rendered(items).push(x.sql()) =~= seq![x.sql()]);
    } else {
        assert(items.push(x)[0] == items[0]);
        assert(items.push(x).drop_first() =~= items.drop_first().push(x));
        lemma_order_bys_rendered_push(items.drop_first(), x);
        assert(order_bys_rendered(items.push(x)) == seq![items[0].sql()] + order_bys_rendered(
            items.drop_first().push(x),
        ));
        assert(order_bys_rendered(items) == seq![items[0].sql()] + order_bys_rendered(items.drop_first()));
        assert(order_bys_rendered(items.push(x)) =~= order_bys_rendered(items).push(x.sql()));
    }
}

/// Renders each node of the list.
pub fn render_order_bys(items: &Vec<OrderByExpr>) -> (parts: Vec<String>)
    ensures
        views_of(parts@) == order_bys_rendered(items@),
    decreases items,
{
    let mut parts: Vec<String> = Vec::new();
    let mut i: usize = 0;
    proof {
        assert(views_of(parts@) =~= order_bys_rendered(items@.subrange(0, 0)));
    }
    while i < items.len()
        invariant
            i <= items@.len(),
            views_of(parts@) == order_bys_rendered(items@.subrange(0, i as int)),
        decreases items@.len() - i,
    {
        let ghost pre = parts@;
        parts.push(items[i].to_sql_string());
        proof {
            assert(items@.subrange(0, i + 1int) =~= items@.subrange(0, i as int).push(
                items@[i as int],
            ));
            lemma_order_bys_rendered_push(items@.subrange(0, i as int), items@[i as int]);
            assert(views_of(parts@) =~= views_of(pre).push(items@[i as int].sql()));
        }
        i = i + 1;
    }
    proof {
        assert(items@.subrange(0, items@.len() as int) =~= items@);
    }
    parts
}


/// The SQL texts of a sequence of function arguments, one per entry.
pub open spec fn func_args_rendered(items: Seq<FunctionArg>) -> Seq<Seq<char>>
    decreases items,
{
    if items.len() == 0 {
        Seq::<Seq<char>>::empty()
    } else {
        seq![items[0].sql()] + func_args_rendered(items.drop_first())
    }
}

pub proof fn lemma_func_args_rendered_push(items: Seq<FunctionArg>, x: FunctionArg)
    ensures
        func_args_rendered(items.push(x)) == func_args_rendered(items).push(x.sql()),
    decreases items.len(),
{
    if items.len() == 0 {
        assert(items.push(x)[0] == x);
        assert(items.push(x).drop_first() =~= Seq::<FunctionArg>::empty());
        assert(func_args_rendered(items.push(x).drop_first()) == Seq::<Seq<char>>::empty());
        assert(func_args_rendered(items.push(x)) == seq![x.sql()] + Seq::<Seq<char>>::empty());
        assert(seq![x.sql()] + Seq::<Seq<char>>::empty() =~= seq![x.sql()]);
        assert(func_args_rendered(items).push(x.sql()) =~= seq![x.sql()]);
    } else {
        assert(items.push(x)[0] == items[0]);
        assert(items.push(x).drop_first() =~= items.drop_first().push(x));
        lemma_func_args_rendered_push(items.drop_first(), x);
        assert(func_args_rendered(items.push(x)) == seq![items[0].sql()] + func_args_rendered(
            items.drop_first().push(x),
        ));
        assert(func_args_rendered(items) == seq![items[0].sql()] + func_args_rendered(items.drop_first()));
        assert(func_args_rendered(items.push(x)) =~= func_args_rendered(items).push(x.sql()));
    }
}

/// Renders each node of the list.
pub fn render_func_args(items: &Vec<FunctionArg>) -> (parts: Vec<String>)
    ensures
        views_of(parts@) == func_args_rendered(items@),
    decreases items,
{
    let mut parts: Vec<String> = Vec::new();
    let mut i: usize = 0;
    proof {
        assert(views_of(parts@) =~= func_args_rendered(items@.subrange(0, 0)));
    }
    while i < items.len()
        invariant
            i <= items@.len(),
            views_of(parts@) == func_args_rendered(items@.subrange(0, i as int)),
        decreases items@.len() - i,
    {
        let ghost pre = parts@;
        parts.push(items[i].to_sql_string());
        proof {
            assert(items@.subrange(0, i + 1int) =~= items@.subrange(0, i as int).push(
                items@[i as int],
            ));
            lemma_func_args_rendered_push(items@.subrange(0, i as int), items@[i as int]);
            assert(views_of(parts@) =~= views_of(pre).push(items@[i as int].sql()));
        }
        i = i + 1;
    }
    proof {
        assert(items@.subrange(0, items@.len() as int) =~= items@);
    }
    parts
}


/// The SQL texts of a sequence of common table expressions, one per entry.
pub open spec fn ctes_rendered(items: Seq<Cte>) -> Seq<Seq<char>>
    decreases items,
{
    if items.len() == 0 {
        Seq::<Seq<char>>::empty()
    } else {
        seq![items[0].sql()] + ctes_rendered(items.drop_first())
    }
}

pub proof fn lemma_ctes_rendered_push(items: Seq<Cte>, x: Cte)
    ensures
        ctes_rendered(items.push(x)) == ctes_rendered(items).push(x.sql()),
    decreases items.len(),
{
    if items.len() == 0 {
        assert(items.push(x)[0] == x);
        assert(items.push(x).drop_first() =~= Seq::<Cte>::empty());
        assert(ctes_rendered(items.push(x).drop_first()) == Seq::<Seq<char>>::empty());
        assert(ctes_rendered(items.push(x)) == seq![x.sql()] + Seq::<Seq<char>>::empty());
        assert(seq![x.sql()] + Seq::<Seq<char>>::empty() =~= seq![x.sql()]);
        assert(ctes_rendered(items).push(x.sql()) =~= seq![x.sql()]);
    } else {
        assert(items.push(x)[0] == items[0]);
        assert(items.push(x).drop_first() =~= items.drop_first().push(x));
        lemma_ctes_rendered_push(items.drop_first(), x);
        assert(ctes_rendered(items.push(x)) == seq![items[0].sql()] + ctes_rendered(
            items.drop_first().push(x),
        ));
        assert(ctes_rendered(items) == seq![items[0].sql()] + ctes_rendered(items.drop_first()));
        assert(ctes_rendered(items.push(x)) =~= ctes_rendered(items).push(x.sql()));
    }
}

/// Renders each node of the list.
pub fn render_ctes(items: &Vec<Cte>) -> (parts: Vec<String>)
    ensures
        views_of(parts@) == ctes_rendered(items@),
    decreases items,
{
    let mut parts: Vec<String> = Vec::new();
    let mut i: usize = 0;
    proof {
        assert(views_of(parts@) =~= ctes_rendered(items@.subrange(0, 0)));
    }
    while i < items.len()
        invariant
            i <= items@.len(),
            views_of(parts@) == ctes_rendered(items@.subrange(0, i as int)),
        decreases items@.len() - i,
    {
        let ghost pre = parts@;
        parts.push(items[i].to_sql_string());
        proof {
            assert(items@.subrange(0, i + 1int) =~= items@.subrange(0, i as int).push(
                items@[i as int],
            ));
            lemma_ctes_rendered_push(items@.subrange(0, i as int), items@[i as int]);
            assert(views_of(parts@) =~= views_of(pre).push(items@[i as int].sql()));
        }
        i = i + 1;
    }
    proof {
        assert(items@.subrange(0, items@.len() as int) =~= items@);
    }
    parts
}



/// The parenthesized SQL texts of a sequence of expression groups, one per entry.
pub open spec fn expr_groups_rendered(items: Seq<Vec<Expr>>) -> Seq<Seq<char>>
    decreases items,
{
    if items.len() == 0 {
        Seq::<Seq<char>>::empty()
    } else {
        seq![group_parens_sql(items[0]@)] + expr_groups_rendered(items.drop_first())
    }
}

pub proof fn lemma_expr_groups_rendered_push(items: Seq<Vec<Expr>>, x: Vec<Expr>)
    ensures
        expr_groups_rendered(items.push(x)) == expr_groups_rendered(items).push(group_parens_sql(x@)),
    decreases items.len(),
{
    if items.len() == 0 {
        assert(items.push(x)[0] == x);
        assert(items.push(x).drop_first() =~= Seq::<Vec<Expr>>::empty());
        assert(expr_groups_rendered(items.push(x).drop_first()) == Seq::<Seq<char>>::empty());
        assert(expr_groups_rendered(items.push(x)) == seq![group_parens_sql(x@)] + Seq::<Seq<char>>::empty());
        assert(seq![group_parens_sql(x@)] + Seq::<Seq<char>>::empty() =~= seq![group_parens_sql(x@)]);
        assert(expr_groups_rendered(items).push(group_parens_sql(x@)) =~= seq![group_parens_sql(x@)]);
    } else {
        assert(items.push(x)[0] == items[0]);
        assert(items.push(x).drop_first() =~= items.drop_first().push(x));
        lemma_expr_groups_rendered_push(items.drop_first(), x);
        assert(expr_groups_rendered(items.push(x)) == seq![group_parens_sql(items[0]@)] + expr_groups_rendered(
            items.drop_first().push(x),
        ));
        assert(expr_groups_rendered(items) == seq![group_parens_sql(items[0]@)] + expr_groups_rendered(items.drop_first()));
        assert(expr_groups_rendered(items.push(x)) =~= expr_groups_rendered(items).push(group_parens_sql(x@)));
    }
}

/// Renders each node of the list.
pub fn render_expr_groups(items: &Vec<Vec<Expr>>) -> (parts: Vec<String>)
    ensures
        views_of(parts@) == expr_groups_rendered(items@),
    decreases items,
{
    let mut parts: Vec<String> = Vec::new();
    let mut i: usize = 0;
    proof {
        assert(views_of(parts@) =~= expr_groups_rendered(items@.subrange(0, 0)));
    }
    while i < items.len()
        invariant
            i <= items@.len(),
            views_of(parts@) == expr_groups_rendered(items@.subrange(0, i as int)),
        decreases items@.len() - i,
    {
        let ghost pre = parts@;
        parts.push(render_group_parens(&items[i]));
        proof {
            assert(items@.subrange(0, i + 1int) =~= items@.subrange(0, i as int).push(
                items@[i as int],
            ));
            lemma_expr_groups_rendered_push(items@.subrange(0, i as int), items@[i as int]);
            assert(views_of(parts@) =~= views_of(pre).push(group_parens_sql(items@[i as int]@)));
        }
        i = i + 1;
    }
    proof {
        assert(items@.subrange(0, items@.len() as int) =~= items@);
    }
    parts
}


/// The compact SQL texts of a sequence of expression groups, one per entry.
pub open spec fn expr_groups_compact_rendered(items: Seq<Vec<Expr>>) -> Seq<Seq<char>>
    decreases items,
{
    if items.len() == 0 {
        Seq::<Seq<char>>::empty()
    } else {
        seq![group_compact_sql(items[0]@)] + expr_groups_compact_rendered(items.drop_first())
    }
}

pub proof fn lemma_expr_groups_compact_rendered_push(items: Seq<Vec<Expr>>, x: Vec<Expr>)
    ensures
        expr_groups_compact_rendered(items.push(x)) == expr_groups_compact_rendered(items).push(group_compact_sql(x@)),
    decreases items.len(),
{
    if items.len() == 0 {
        assert(items.push(x)[0] == x);
        assert(items.push(x).drop_first() =~= Seq::<Vec<Expr>>::empty());
        assert(expr_groups_compact_rendered(items.push(x).drop_first()) == Seq::<Seq<char>>::empty());
        assert(expr_groups_compact_rendered(items.push(x)) == seq![group_compact_sql(x@)] + Seq::<Seq<char>>::empty());
        assert(seq![group_compact_sql(x@)] + Seq::<Seq<char>>::empty() =~= seq![group_compact_sql(x@)]);
        assert(expr_groups_compact_rendered(items).push(group_compact_sql(x@)) =~= seq![group_compact_sql(x@)]);
    } else {
        assert(items.push(x)[0] == items[0]);
        assert(items.push(x).drop_first() =~= items.drop_first().push(x));
        lemma_expr_groups_compact_rendered_push(items.drop_first(), x);
        assert(expr_groups_compact_rendered(items.push(x)) == seq![group_compact_sql(items[0]@)] + expr_groups_compact_rendered(
            items.drop_first().push(x),
        ));
        assert(expr_groups_compact_rendered(items) == seq![group_compact_sql(items[0]@)] + expr_groups_compact_rendered(items.drop_first()));
        assert(expr_groups_compact_rendered(items.push(x)) =~= expr_groups_compact_rendered(items).push(group_compact_sql(x@)));
    }
}

/// Renders each node of the list.
pub fn render_expr_groups_compact(items: &Vec<Vec<Expr>>) -> (parts: Vec<String>)
    ensures
        views_of(parts@) == expr_groups_compact_rendered(items@),
    decreases items,
{
    let mut parts: Vec<String> = Vec::new();
    let mut i: usize = 0;
    proof {
        assert(views_of(parts@) =~= expr_groups_compact_rendered(items@.subrange(0, 0)));
    }
    while i < items.len()
        invariant
            i <= items@.len(),
            views_of(parts@) == expr_groups_compact_rendered(items@.subrange(0, i as int)),
        decreases items@.len() - i,
    {
        let ghost pre = parts@;
        parts.push(render_group_compact(&items[i]));
        proof {
            assert(items@.subrange(0, i + 1int) =~= items@.subrange(0, i as int).push(
                items@[i as int],
            ));
            lemma_expr_groups_compact_rendered_push(items@.subrange(0, i as int), items@[i as int]);
            assert(views_of(parts@) =~= views_of(pre).push(group_compact_sql(items@[i as int]@)));
        }
        i = i + 1;
    }
    proof {
        assert(items@.subrange(0, items@.len() as int) =~= items@);
    }
    parts
}


/// The parenthesized rendering of one expression group, `(a, b)`.
pub open spec fn group_parens_sql(g: Seq<Expr>) -> Seq<char>
    decreases g, 1int,
{
    seq!['('] + joined(exprs_rendered(g), ", "@) + seq![')']
}

/// The rendering of one expression group inside `ROLLUP`/`CUBE`: bare when
/// the group has exactly one element, parenthesized otherwise.
pub open spec fn group_compact_sql(g: Seq<Expr>) -> Seq<char>
    decreases g, 2int,
{
    if g.len() == 1 {
        g[0].sql()
    } else {
        group_parens_sql(g)
    }
}

/// Renders one expression group with parentheses.
pub fn render_group_parens(g: &Vec<Expr>) -> (r: String)
    ensures
        r@ == group_parens_sql(g@),
    decreases g, 1int,
{
    let parts = render_exprs(g);
    let inner = display_comma_separated(&parts);
    let mut s = String::new();
    push_char(&mut s, '(');
    s.append(inner.as_str());
    push_char(&mut s, ')');
    proof {
        assert(s@ =~= group_parens_sql(g@));
    }
    s
}

/// Renders one expression group compactly, as `ROLLUP`/`CUBE` do.
pub fn render_group_compact(g: &Vec<Expr>) -> (r: String)
    ensures
        r@ == group_compact_sql(g@),
    decreases g, 2int,
{
    if g.len() == 1 {
        g[0].to_sql_string()
    } else {
        render_group_parens(g)
    }
}

/// The `NATURAL ` marker ahead of a join's keyword, when its constraint asks
/// for one.
pub open spec fn join_prefix_sql(c: JoinConstraint) -> Seq<char> {
    match c {
        JoinConstraint::Natural => "NATURAL "@,
        _ => Seq::<char>::empty(),
    }
}

/// The `ON`/`USING` clause after a joined relation.
pub open spec fn join_suffix_sql(c: JoinConstraint) -> Seq<char>
    decreases c,
{
    match c {
        JoinConstraint::On(e) => " ON "@ + e.sql(),
        JoinConstraint::Using(attrs) => " USING("@ + joined(idents_rendered(attrs@), ", "@)
            + seq![')'],
        _ => Seq::<char>::empty(),
    }
}

fn render_join_prefix(c: &JoinConstraint) -> (r: String)
    ensures
        r@ == join_prefix_sql(*c),
{
    match c {
        JoinConstraint::Natural => owned("NATURAL "),
        _ => String::new(),
    }
}

fn render_join_suffix(c: &JoinConstraint) -> (r: String)
    ensures
        r@ == join_suffix_sql(*c),
    decreases c,
{
    match c {
        JoinConstraint::On(e) => {
            let mut s = owned(" ON ");
            let t = e.to_sql_string();
            s.append(t.as_str());
            s
        },
        JoinConstraint::Using(attrs) => {
            let parts = render_idents(attrs);
            let inner = display_comma_separated(&parts);
            let mut s = owned(" USING(");
            s.append(inner.as_str());
            push_char(&mut s, ')');
            proof {
                assert(s@ =~= join_suffix_sql(*c));
            }
            s
        },
        _ => String::new(),
    }
}

impl Join {
    /// The SQL text of one join, including its leading space.
    pub open spec fn sql(self) -> Seq<char>
        decreases self,
    {
        match self.join_operator {
            JoinOperator::Inner(c) => " "@ + join_prefix_sql(c) + "JOIN "@ + self.relation.sql()
                + join_suffix_sql(c),
            JoinOperator::LeftOuter(c) => " "@ + join_prefix_sql(c) + "LEFT JOIN "@
                + self.relation.sql() + join_suffix_sql(c),
            JoinOperator::RightOuter(c) => " "@ + join_prefix_sql(c) + "RIGHT JOIN "@
                + self.relation.sql() + join_suffix_sql(c),
            JoinOperator::FullOuter(c) => " "@ + join_prefix_sql(c) + "FULL JOIN "@
                + self.relation.sql() + join_suffix_sql(c),
            JoinOperator::CrossJoin => " CROSS JOIN "@ + self.relation.sql(),
        }
    }

    /// Renders this join back to SQL text.
    #[verifier::rlimit(50)]
    pub fn to_sql_string(&self) -> (r: String)
        ensures
            r@ == self.sql(),
        decreases self,
    {
        match &self.join_operator {
            JoinOperator::CrossJoin => {
                let mut s = owned(" CROSS JOIN ");
                let t = self.relation.to_sql_string();
                s.append(t.as_str());
                s
            },
            JoinOperator::Inner(c) => {
                let mut s = owned(" ");
                let p = render_join_prefix(c);
                s.append(p.as_str());
                s.append("JOIN ");
                let t = self.relation.to_sql_string();
                s.append(t.as_str());
                let x = render_join_suffix(c);
                s.append(x.as_str());
                proof {
                    assert(s@ =~= self.sql());
                }
                s
            },
            JoinOperator::LeftOuter(c) => {
                let mut s = owned(" ");
                let p = render_join_prefix(c);
                s.append(p.as_str());
                s.append("LEFT JOIN ");
                let t = self.relation.to_sql_string();
                s.append(t.as_str());
                let x = render_join_suffix(c);
                s.append(x.as_str());
                proof {
                    assert(s@ =~= self.sql());
                }
                s
            },
            JoinOperator::RightOuter(c) => {
                let mut s = owned(" ");
                let p = render_join_prefix(c);
                s.append(p.as_str());
                s.append("RIGHT JOIN ");
                let t = self.relation.to_sql_string();
                s.append(t.as_str());
                let x = render_join_suffix(c);
                s.append(x.as_str());
                proof {
                    assert(s@ =~= self.sql());
                }
                s
            },
            JoinOperator::FullOuter(c) => {
                let mut s = owned(" ");
                let p = render_join_prefix(c);
                s.append(p.as_str());
                s.append("FULL JOIN ");
                let t = self.relation.to_sql_string();
                s.append(t.as_str());
                let x = render_join_suffix(c);
                s.append(x.as_str());
                proof {
                    assert(s@ =~= self.sql());
                }
                s
            },
        }
    }
}

/// The SQL text of a sequence of joins, laid end to end.
pub open spec fn joins_sql(items: Seq<Join>) -> Seq<char>
    decreases items,
{
    if items.len() == 0 {
        Seq::<char>::empty()
    } else {
        items[0].sql() + joins_sql(items.drop_first())
    }
}

pub proof fn lemma_joins_sql_push(items: Seq<Join>, x: Join)
    ensures
        joins_sql(items.push(x)) == joins_sql(items) + x.sql(),
    decreases items.len(),
{
    if items.len() == 0 {
        assert(items.push(x)[0] == x);
        assert(items.push(x).drop_first() =~= Seq::<Join>::empty());
        assert(joins_sql(items.push(x).drop_first()) == Seq::<char>::empty());
        assert(joins_sql(items.push(x)) == x.sql() + Seq::<char>::empty());
        assert(x.sql() + Seq::<char>::empty() =~= x.sql());
        assert(joins_sql(items) + x.sql() =~= x.sql());
    } else {
        assert(items.push(x)[0] == items[0]);
        assert(items.push(x).drop_first() =~= items.drop_first().push(x));
        lemma_joins_sql_push(items.drop_first(), x);
        assert(joins_sql(items.push(x)) == items[0].sql() + joins_sql(
            items.drop_first().push(x),
        ));
        assert(joins_sql(items) == items[0].sql() + joins_sql(items.drop_first()));
        assert(items[0].sql() + (joins_sql(items.drop_first()) + x.sql()) =~= (items[0].sql()
            + joins_sql(items.drop_first())) + x.sql());
        assert(joins_sql(items.push(x)) =~= joins_sql(items) + x.sql());
    }
}

/// Renders a sequence of joins, laid end to end.
pub fn render_joins(items: &Vec<Join>) -> (r: String)
    ensures
        r@ == joins_sql(items@),
    decreases items,
{
    let mut s = String::new();
    let mut i: usize = 0;
    proof {
        assert(s@ =~= joins_sql(items@.subrange(0, 0)));
    }
    while i < items.len()
        invariant
            i <= items@.len(),
            s@ == joins_sql(items@.subrange(0, i as int)),
        decreases items@.len() - i,
    {
        let t = items[i].to_sql_string();
        s.append(t.as_str());
        proof {
            assert(items@.subrange(0, i + 1int) =~= items@.subrange(0, i as int).push(
                items@[i as int],
            ));
            lemma_joins_sql_push(items@.subrange(0, i as int), items@[i as int]);
        }
        i = i + 1;
    }
    proof {
        assert(items@.subrange(0, items@.len() as int) =~= items@);
    }
    s
}

/// The `WHEN <cond>` pieces of a `CASE` expression, one per condition,
/// each with its leading space.
pub open spec fn when_pieces(items: Seq<Expr>) -> Seq<Seq<char>>
    decreases items, 0int,
{
    if items.len() == 0 {
        Seq::<Seq<char>>::empty()
    } else {
        seq![" WHEN "@ + items[0].sql()] + when_pieces(items.drop_first())
    }
}

pub proof fn lemma_when_pieces_push(items: Seq<Expr>, x: Expr)
    ensures
        when_pieces(items.push(x)) == when_pieces(items).push(" WHEN "@ + x.sql()),
    decreases items.len(),
{
    if items.len() == 0 {
        assert(items.push(x)[0] == x);
        assert(items.push(x).drop_first() =~= Seq::<Expr>::empty());
        assert(when_pieces(items.push(x).drop_first()) == Seq::<Seq<char>>::empty());
        assert(when_pieces(items.push(x)) == seq![" WHEN "@ + x.sql()]
            + Seq::<Seq<char>>::empty());
        assert(seq![" WHEN "@ + x.sql()] + Seq::<Seq<char>>::empty() =~= seq![
            " WHEN "@ + x.sql(),
        ]);
        assert(when_pieces(items).push(" WHEN "@ + x.sql()) =~= seq![" WHEN "@ + x.sql()]);
    } else {
        assert(items.push(x)[0] == items[0]);
        assert(items.push(x).drop_first() =~= items.drop_first().push(x));
        lemma_when_pieces_push(items.drop_first(), x);
        assert(when_pieces(items.push(x)) == seq![" WHEN "@ + items[0].sql()] + when_pieces(
            items.drop_first().push(x),
        ));
        assert(when_pieces(items) == seq![" WHEN "@ + items[0].sql()] + when_pieces(
            items.drop_first(),
        ));
        assert(when_pieces(items.push(x)) =~= when_pieces(items).push(" WHEN "@ + x.sql()));
    }
}

/// The ` THEN <result>` pieces of a `CASE` expression, one per result.
pub open spec fn then_pieces(items: Seq<Expr>) -> Seq<Seq<char>>
    decreases items, 0int,
{
    if items.len() == 0 {
        Seq::<Seq<char>>::empty()
    } else {
        seq![" THEN "@ + items[0].sql()] + then_pieces(items.drop_first())
    }
}

pub proof fn lemma_then_pieces_push(items: Seq<Expr>, x: Expr)
    ensures
        then_pieces(items.push(x)) == then_pieces(items).push(" THEN "@ + x.sql()),
    decreases items.len(),
{
    if items.len() == 0 {
        assert(items.push(x)[0] == x);
        assert(items.push(x).drop_first() =~= Seq::<Expr>::empty());
        assert(then_pieces(items.push(x).drop_first()) == Seq::<Seq<char>>::empty());
        assert(then_pieces(items.push(x)) == seq![" THEN "@ + x.sql()]
            + Seq::<Seq<char>>::empty());
        assert(seq![" THEN "@ + x.sql()] + Seq::<Seq<char>>::empty() =~= seq![
            " THEN "@ + x.sql(),
        ]);
        assert(then_pieces(items).push(" THEN "@ + x.sql()) =~= seq![" THEN "@ + x.sql()]);
    } else {
        assert(items.push(x)[0] == items[0]);
        assert(items.push(x).drop_first() =~= items.drop_first().push(x));
        lemma_then_pieces_push(items.drop_first(), x);
        assert(then_pieces(items.push(x)) == seq![" THEN "@ + items[0].sql()] + then_pieces(
            items.drop_first().push(x),
        ));
        assert(then_pieces(items) == seq![" THEN "@ + items[0].sql()] + then_pieces(
            items.drop_first(),
        ));
        assert(then_pieces(items.push(x)) =~= then_pieces(items).push(" THEN "@ + x.sql()));
    }
}

/// Pieces of two lists laid down alternately, stopping at the shorter list:
/// `a0 b0 a1 b1 ...`.
pub open spec fn interleaved(a: Seq<Seq<char>>, b: Seq<Seq<char>>) -> Seq<char>
    decreases a.len(),
{
    if a.len() == 0 || b.len() == 0 {
        Seq::<char>::empty()
    } else {
        a[0] + b[0] + interleaved(a.drop_first(), b.drop_first())
    }
}

pub proof fn lemma_interleaved_push(a: Seq<Seq<char>>, b: Seq<Seq<char>>, x: Seq<char>, y: Seq<
    char,
>)
    requires
        a.len() == b.len(),
    ensures
        interleaved(a.push(x), b.push(y)) == interleaved(a, b) + x + y,
    decreases a.len(),
{
    if a.len() == 0 {
        assert(a.push(x)[0] == x);
        assert(b.push(y)[0] == y);
        assert(a.push(x).drop_first() =~= Seq::<Seq<char>>::empty());
        assert(b.push(y).drop_first() =~= Seq::<Seq<char>>::empty());
        assert(interleaved(a.push(x).drop_first(), b.push(y).drop_first())
            == Seq::<char>::empty());
        assert(interleaved(a.push(x), b.push(y)) == x + y + Seq::<char>::empty());
        assert(x + y + Seq::<char>::empty() =~= x + y);
        assert(interleaved(a, b) + x + y =~= x + y);
    } else {
        assert(a.push(x)[0] == a[0]);
        assert(b.push(y)[0] == b[0]);
        assert(a.push(x).drop_first() =~= a.drop_first().push(x));
        assert(b.push(y).drop_first() =~= b.drop_first().push(y));
        lemma_interleaved_push(a.drop_first(), b.drop_first(), x, y);
        assert(interleaved(a.push(x), b.push(y)) == a[0] + b[0] + interleaved(
            a.drop_first().push(x),
            b.drop_first().push(y),
        ));
        assert(interleaved(a, b) == a[0] + b[0] + interleaved(a.drop_first(), b.drop_first()));
        assert(a[0] + b[0] + (interleaved(a.drop_first(), b.drop_first()) + x + y) =~= (a[0] + b[0]
            + interleaved(a.drop_first(), b.drop_first())) + x + y);
        assert(interleaved(a.push(x), b.push(y)) =~= interleaved(a, b) + x + y);
    }
}


pub proof fn lemma_interleaved_trunc(a: Seq<Seq<char>>, b: Seq<Seq<char>>, m: int)
    requires
        m == if a.len() <= b.len() {
            a.len() as int
        } else {
            b.len() as int
        },
    ensures
        interleaved(a, b) == interleaved(a.take(m), b.take(m)),
    decreases a.len(),
{
    if a.len() == 0 || b.len() == 0 {
        assert(m == 0);
        assert(a.take(0) =~= Seq::<Seq<char>>::empty());
        assert(b.take(0) =~= Seq::<Seq<char>>::empty());
    } else {
        lemma_interleaved_trunc(a.drop_first(), b.drop_first(), m - 1);
        assert(a.take(m)[0] == a[0]);
        assert(b.take(m)[0] == b[0]);
        assert(a.take(m).drop_first() =~= a.drop_first().take(m - 1));
        assert(b.take(m).drop_first() =~= b.drop_first().take(m - 1));
        assert(interleaved(a.take(m), b.take(m)) == a[0] + b[0] + interleaved(
            a.drop_first().take(m - 1),
            b.drop_first().take(m - 1),
        ));
        assert(interleaved(a, b) == a[0] + b[0] + interleaved(a.drop_first(), b.drop_first()));
    }
}

/// Renders the `WHEN <cond>` pieces, one string per condition.
pub fn render_when_parts(items: &Vec<Expr>) -> (parts: Vec<String>)
    ensures
        views_of(parts@) == when_pieces(items@),
    decreases items, 0int,
{
    let mut parts: Vec<String> = Vec::new();
    let mut i: usize = 0;
    proof {
        assert(views_of(parts@) =~= when_pieces(items@.subrange(0, 0)));
    }
    while i < items.len()
        invariant
            i <= items@.len(),
            views_of(parts@) == when_pieces(items@.subrange(0, i as int)),
        decreases items@.len() - i,
    {
        let ghost pre = parts@;
        let mut p = owned(" WHEN ");
        let t = items[i].to_sql_string();
        p.append(t.as_str());
        parts.push(p);
        proof {
            assert(items@.subrange(0, i + 1int) =~= items@.subrange(0, i as int).push(
                items@[i as int],
            ));
            lemma_when_pieces_push(items@.subrange(0, i as int), items@[i as int]);
            assert(views_of(parts@) =~= views_of(pre).push(" WHEN "@ + items@[i as int].sql()));
        }
        i = i + 1;
    }
    proof {
        assert(items@.subrange(0, items@.len() as int) =~= items@);
    }
    parts
}

/// Renders the ` THEN <result>` pieces, one string per result.
pub fn render_then_parts(items: &Vec<Expr>) -> (parts: Vec<String>)
    ensures
        views_of(parts@) == then_pieces(items@),
    decreases items, 0int,
{
    let mut parts: Vec<String> = Vec::new();
    let mut i: usize = 0;
    proof {
        assert(views_of(parts@) =~= then_pieces(items@.subrange(0, 0)));
    }
    while i < items.len()
        invariant
            i <= items@.len(),
            views_of(parts@) == then_pieces(items@.subrange(0, i as int)),
        decreases items@.len() - i,
    {
        let ghost pre = parts@;
        let mut p = owned(" THEN ");
        let t = items[i].to_sql_string();
        p.append(t.as_str());
        parts.push(p);
        proof {
            assert(items@.subrange(0, i + 1int) =~= items@.subrange(0, i as int).push(
                items@[i as int],
            ));
            lemma_then_pieces_push(items@.subrange(0, i as int), items@[i as int]);
            assert(views_of(parts@) =~= views_of(pre).push(" THEN "@ + items@[i as int].sql()));
        }
        i = i + 1;
    }
    proof {
        assert(items@.subrange(0, items@.len() as int) =~= items@);
    }
    parts
}

/// Lays two lists of pre-rendered pieces down alternately, stopping at the
/// shorter list.
pub fn interleave_parts(a: &Vec<String>, b: &Vec<String>) -> (r: String)
    ensures
        r@ == interleaved(views_of(a@), views_of(b@)),
{
    let n = if a.len() <= b.len() {
        a.len()
    } else {
        b.len()
    };
    let mut s = String::new();
    let mut i: usize = 0;
    proof {
        assert(views_of(a@).take(0) =~= Seq::<Seq<char>>::empty());
        assert(views_of(b@).take(0) =~= Seq::<Seq<char>>::empty());
        assert(s@ =~= interleaved(views_of(a@).take(0), views_of(b@).take(0)));
    }
    while i < n
        invariant
            i <= n,
            n <= a@.len(),
            n <= b@.len(),
            n == if a@.len() <= b@.len() {
                a@.len()
            } else {
                b@.len()
            },
            s@ == interleaved(views_of(a@).take(i as int), views_of(b@).take(i as int)),
        decreases n - i,
    {
        s.append(a[i].as_str());
        s.append(b[i].as_str());
        proof {
            assert(views_of(a@).take(i + 1int) =~= views_of(a@).take(i as int).push(
                a@[i as int]@,
            ));
            assert(views_of(b@).take(i + 1int) =~= views_of(b@).take(i as int).push(
                b@[i as int]@,
            ));
            lemma_interleaved_push(
                views_of(a@).take(i as int),
                views_of(b@).take(i as int),
                a@[i as int]@,
                b@[i as int]@,
            );
            assert(s@ =~= interleaved(views_of(a@).take(i + 1int), views_of(b@).take(i + 1int)));
        }
        i = i + 1;
    }
    proof {
        lemma_interleaved_trunc(views_of(a@), views_of(b@), n as int);
        assert(views_of(a@).take(n as int) =~= views_of(a@.subrange(0, n as int)));
        assert(views_of(b@).take(n as int) =~= views_of(b@.subrange(0, n as int)));
        assert(s@ =~= interleaved(views_of(a@), views_of(b@)));
    }
    s
}

impl Interval {
    /// The SQL text of this interval expression.
    pub open spec fn sql(self) -> Seq<char>
        decreases self,
    {
        match (self.leading_field, self.leading_precision, self.fractional_seconds_precision) {
            (Option::Some(DateTimeField::Second), Option::Some(lp), Option::Some(fsp)) => {
                "INTERVAL "@ + self.value.sql() + " SECOND ("@ + dec_rep(lp as nat) + ", "@
                    + dec_rep(fsp as nat) + seq![')']
            },
            _ => {
                "INTERVAL "@ + self.value.sql() + (match self.leading_field {
                    Option::Some(f) => " "@ + f.sql(),
                    Option::None => Seq::<char>::empty(),
                }) + (match self.leading_precision {
                    Option::Some(lp) => " ("@ + dec_rep(lp as nat) + seq![')'],
                    Option::None => Seq::<char>::empty(),
                }) + (match self.last_field {
                    Option::Some(f) => " TO "@ + f.sql(),
                    Option::None => Seq::<char>::empty(),
                }) + (match self.fractional_seconds_precision {
                    Option::Some(fsp) => " ("@ + dec_rep(fsp as nat) + seq![')'],
                    Option::None => Seq::<char>::empty(),
                })
            },
        }
    }

    /// Renders this interval back to SQL text.
    #[verifier::rlimit(100)]
    pub fn to_sql_string(&self) -> (r: String)
        ensures
            r@ == self.sql(),
        decreases self,
    {
        match (&self.leading_field, &self.leading_precision, &self.fractional_seconds_precision) {
            (Option::Some(DateTimeField::Second), Option::Some(lp), Option::Some(fsp)) => {
                let mut s = owned("INTERVAL ");
                let v = self.value.to_sql_string();
                s.append(v.as_str());
                s.append(" SECOND (");
                let d = u64_to_string(*lp);
                s.append(d.as_str());
                s.append(", ");
                let d2 = u64_to_string(*fsp);
                s.append(d2.as_str());
                push_char(&mut s, ')');
                proof {
                    assert(s@ =~= self.sql());
                }
                s
            },
            _ => {
                let ghost p0: Seq<char> = "INTERVAL "@ + self.value.sql();
                let ghost p1: Seq<char> = p0 + (match self.leading_field {
                    Option::Some(f) => " "@ + f.sql(),
                    Option::None => Seq::<char>::empty(),
                });
                let ghost p2: Seq<char> = p1 + (match self.leading_precision {
                    Option::Some(lp) => " ("@ + dec_rep(lp as nat) + seq![')'],
                    Option::None => Seq::<char>::empty(),
                });
                let ghost p3: Seq<char> = p2 + (match self.last_field {
                    Option::Some(f) => " TO "@ + f.sql(),
                    Option::None => Seq::<char>::empty(),
                });
                let ghost p4: Seq<char> = p3 + (match self.fractional_seconds_precision {
                    Option::Some(fsp) => " ("@ + dec_rep(fsp as nat) + seq![')'],
                    Option::None => Seq::<char>::empty(),
                });
                let mut s = owned("INTERVAL ");
                let v = self.value.to_sql_string();
                s.append(v.as_str());
                proof {
                    assert(s@ =~= p0);
                }
                if let Option::Some(f) = &self.leading_field {
                    s.append(" ");
                    let t = f.to_sql_string();
                    s.append(t.as_str());
                }
                proof {
                    assert(s@ =~= p1);
                }
                if let Option::Some(lp) = &self.leading_precision {
                    s.append(" (");
                    let d = u64_to_string(*lp);
                    s.append(d.as_str());
                    push_char(&mut s, ')');
                }
                proof {
                    assert(s@ =~= p2);
                }
                if let Option::Some(f) = &self.last_field {
                    s.append(" TO ");
                    let t = f.to_sql_string();
                    s.append(t.as_str());
                }
                proof {
                    assert(s@ =~= p3);
                }
                if let Option::Some(fsp) = &self.fractional_seconds_precision {
                    s.append(" (");
                    let d = u64_to_string(*fsp);
                    s.append(d.as_str());
                    push_char(&mut s, ')');
                }
                proof {
                    assert(s@ =~= p4);
                    assert(p4 =~= self.sql());
                }
                s
            },
        }
    }
}

impl FunctionArgOperator {
    /// The SQL text of this argument operator.
    pub open spec fn sql(self) -> Seq<char> {
        match self {
            FunctionArgOperator::Equals => "="@,
            FunctionArgOperator::RightArrow => "=>"@,
            FunctionArgOperator::Assignment => ":="@,
        }
    }

    /// Renders this argument operator back to SQL text.
    pub fn to_sql_string(&self) -> (r: String)
        ensures
            r@ == self.sql(),
    {
        match self {
            FunctionArgOperator::Equals => owned("="),
            FunctionArgOperator::RightArrow => owned("=>"),
            FunctionArgOperator::Assignment => owned(":="),
        }
    }
}

impl FunctionArgExpr {
    /// The SQL text of this argument value.
    pub open spec fn sql(self) -> Seq<char>
        decreases self,
    {
        match self {
            FunctionArgExpr::Expr(e) => e.sql(),
            FunctionArgExpr::QualifiedWildcard(o) => o.sql() + ".*"@,
            FunctionArgExpr::Wildcard => "*"@,
        }
    }

    /// Renders this argument value back to SQL text.
    pub fn to_sql_string(&self) -> (r: String)
        ensures
            r@ == self.sql(),
        decreases self,
    {
        match self {
            FunctionArgExpr::Expr(e) => e.to_sql_string(),
            FunctionArgExpr::QualifiedWildcard(o) => {
                let mut s = o.to_sql_string();
                s.append(".*");
                s
            },
            FunctionArgExpr::Wildcard => owned("*"),
        }
    }
}

impl FunctionArg {
    /// The SQL text of this function argument.
    pub open spec fn sql(self) -> Seq<char>
        decreases self,
    {
        match self {
            FunctionArg::Named { name, arg, operator } => name.sql() + " "@ + operator.sql()
                + " "@ + arg.sql(),
            FunctionArg::Unnamed(a) => a.sql(),
        }
    }

    /// Renders this function argument back to SQL text.
    pub fn to_sql_string(&self) -> (r: String)
        ensures
            r@ == self.sql(),
        decreases self,
    {
        match self {
            FunctionArg::Named { name, arg, operator } => {
                let mut s = name.to_sql_string();
                s.append(" ");
                let o = operator.to_sql_string();
                s.append(o.as_str());
                s.append(" ");
                let a = arg.to_sql_string();
                s.append(a.as_str());
                proof {
                    assert(s@ =~= self.sql());
                }
                s
            },
            FunctionArg::Unnamed(a) => a.to_sql_string(),
        }
    }
}

impl Function {
    /// The SQL text of this function call: the name followed by the
    /// parenthesized argument list.
    pub open spec fn sql(self) -> Seq<char>
        decreases self,
    {
        match self.args {
            FunctionArguments::List(l) => self.name.sql() + seq!['('] + (match l
                .duplicate_treatment {
                Option::Some(DuplicateTreatment::Distinct) => "DISTINCT "@,
                Option::Some(DuplicateTreatment::All) => "ALL "@,
                Option::None => Seq::<char>::empty(),
            }) + joined(func_args_rendered(l.args@), ", "@) + seq![')'],
        }
    }

    /// Renders this function call back to SQL text.
    pub fn to_sql_string(&self) -> (r: String)
        ensures
            r@ == self.sql(),
        decreases self,
    {
        match &self.args {
            FunctionArguments::List(l) => {
                let mut s = self.name.to_sql_string();
                push_char(&mut s, '(');
                match &l.duplicate_treatment {
                    Option::Some(DuplicateTreatment::Distinct) => s.append("DISTINCT "),
                    Option::Some(DuplicateTreatment::All) => s.append("ALL "),
                    Option::None => (),
                }
                let parts = render_func_args(&l.args);
                let inner = display_comma_separated(&parts);
                s.append(inner.as_str());
                push_char(&mut s, ')');
                proof {
                    assert(s@ =~= self.sql());
                }
                s
            },
        }
    }
}

impl Expr {
    /// The SQL text of this expression. Binary and unary operations are
    /// rendered without parentheses: grouping is carried explicitly by
    /// `Nested` nodes, which the parser produces for every parenthesis it
    /// consumes.
    pub open spec fn sql(self) -> Seq<char>
        decreases self,
    {
        match self {
            Expr::Identifier(i) => i.sql(),
            Expr::CompoundIdentifier(parts) => joined(idents_rendered(parts@), "."@),
            Expr::IsFalse(e) => e.sql() + " IS FALSE"@,
            Expr::IsNotFalse(e) => e.sql() + " IS NOT FALSE"@,
            Expr::IsTrue(e) => e.sql() + " IS TRUE"@,
            Expr::IsNotTrue(e) => e.sql() + " IS NOT TRUE"@,
            Expr::IsNull(e) => e.sql() + " IS NULL"@,
            Expr::IsNotNull(e) => e.sql() + " IS NOT NULL"@,
            Expr::InList { expr, list, negated } => expr.sql() + (if negated {
                " NOT IN ("@
            } else {
                " IN ("@
            }) + joined(exprs_rendered(list@), ", "@) + seq![')'],
            Expr::InSubquery { expr, subquery, negated } => expr.sql() + (if negated {
                " NOT IN ("@
            } else {
                " IN ("@
            }) + subquery.sql() + seq![')'],
            Expr::Between { expr, negated, low, high } => expr.sql() + (if negated {
                " NOT BETWEEN "@
            } else {
                " BETWEEN "@
            }) + low.sql() + " AND "@ + high.sql(),
            Expr::BinaryOp { left, op, right } => left.sql() + " "@ + op.sql() + " "@
                + right.sql(),
            Expr::Like { negated, expr, pattern } => expr.sql() + (if negated {
                " NOT LIKE "@
            } else {
                " LIKE "@
            }) + pattern.sql(),
            Expr::UnaryOp { op, expr } => match op {
                UnaryOperator::Not => "NOT "@ + expr.sql(),
                _ => op.sql() + expr.sql(),
            },
            Expr::Cast { kind, expr, data_type } => match kind {
                CastKind::Cast => "CAST("@ + expr.sql() + " AS "@ + data_type.sql() + seq![')'],
                CastKind::TryCast => "TRY_CAST("@ + expr.sql() + " AS "@ + data_type.sql()
                    + seq![')'],
                CastKind::SafeCast => "SAFE_CAST("@ + expr.sql() + " AS "@ + data_type.sql()
                    + seq![')'],
                CastKind::DoubleColon => expr.sql() + "::"@ + data_type.sql(),
            },
            Expr::Convert { expr, data_type, charset, target_before_value } => {
                match (charset, data_type) {
                    (Option::Some(cs), _) => "CONVERT("@ + expr.sql() + " USING "@ + cs.sql()
                        + seq![')'],
                    (Option::None, Option::Some(dt)) => {
                        if target_before_value {
                            "CONVERT("@ + dt.sql() + ", "@ + expr.sql() + seq![')']
                        } else {
                            "CONVERT("@ + expr.sql() + ", "@ + dt.sql() + seq![')']
                        }
                    },
                    (Option::None, Option::None) => "CONVERT("@ + expr.sql() + seq![')'],
                }
            },
            Expr::Nested(e) => seq!['('] + e.sql() + seq![')'],
            Expr::Value(v) => v.sql(),
            Expr::Function(f) => f.sql(),
            Expr::Case { operand, conditions, results, else_result } => "CASE"@ + (match operand {
                Option::Some(op) => " "@ + op.sql(),
                Option::None => Seq::<char>::empty(),
            }) + interleaved(when_pieces(conditions@), then_pieces(results@)) + (match else_result {
                Option::Some(e) => " ELSE "@ + e.sql(),
                Option::None => Seq::<char>::empty(),
            }) + " END"@,
            Expr::Exists { subquery, negated } => (if negated {
                "NOT EXISTS ("@
            } else {
                "EXISTS ("@
            }) + subquery.sql() + seq![')'],
            Expr::Subquery(q) => seq!['('] + q.sql() + seq![')'],
            Expr::GroupingSets(sets) => "GROUPING SETS ("@ + joined(
                expr_groups_rendered(sets@),
                ", "@,
            ) + seq![')'],
            Expr::Cube(sets) => "CUBE ("@ + joined(expr_groups_compact_rendered(sets@), ", "@)
                + seq![')'],
            Expr::Rollup(sets) => "ROLLUP ("@ + joined(expr_groups_compact_rendered(sets@), ", "@)
                + seq![')'],
            Expr::Tuple(exprs) => seq!['('] + joined(exprs_rendered(exprs@), ", "@) + seq![')'],
            Expr::Interval(i) => i.sql(),
            Expr::Wildcard => "*"@,
            Expr::QualifiedWildcard(o) => o.sql() + ".*"@,
        }
    }

    /// Renders this expression back to SQL text.
    #[verifier::rlimit(50)]
    pub fn to_sql_string(&self) -> (r: String)
        ensures
            r@ == self.sql(),
        decreases self,
    {
        match self {
            Expr::Identifier(i) => i.to_sql_string(),
            Expr::CompoundIdentifier(parts) => {
                let ps = render_idents(parts);
                display_separated(&ps, ".")
            },
            Expr::IsFalse(e) => {
                let mut s = e.to_sql_string();
                s.append(" IS FALSE");
                s
            },
            Expr::IsNotFalse(e) => {
                let mut s = e.to_sql_string();
                s.append(" IS NOT FALSE");
                s
            },
            Expr::IsTrue(e) => {
                let mut s = e.to_sql_string();
                s.append(" IS TRUE");
                s
            },
            Expr::IsNotTrue(e) => {
                let mut s = e.to_sql_string();
                s.append(" IS NOT TRUE");
                s
            },
            Expr::IsNull(e) => {
                let mut s = e.to_sql_string();
                s.append(" IS NULL");
                s
            },
            Expr::IsNotNull(e) => {
                let mut s = e.to_sql_string();
                s.append(" IS NOT NULL");
                s
            },
            Expr::InList { expr, list, negated } => {
                let mut s = expr.to_sql_string();
                if *negated {
                    s.append(" NOT IN (");
                } else {
                    s.append(" IN (");
                }
                let parts = render_exprs(list);
                let inner = display_comma_separated(&parts);
                s.append(inner.as_str());
                push_char(&mut s, ')');
                proof {
                    assert(s@ =~= self.sql());
                }
                s
            },
            Expr::InSubquery { expr, subquery, negated } => {
                let mut s = expr.to_sql_string();
                if *negated {
                    s.append(" NOT IN (");
                } else {
                    s.append(" IN (");
                }
                let q = subquery.to_sql_string();
                s.append(q.as_str());
                push_char(&mut s, ')');
                proof {
                    assert(s@ =~= self.sql());
                }
                s
            },
            Expr::Between { expr, negated, low, high } => {
                let mut s = expr.to_sql_string();
                if *negated {
                    s.append(" NOT BETWEEN ");
                } else {
                    s.append(" BETWEEN ");
                }
                let l = low.to_sql_string();
                s.append(l.as_str());
                s.append(" AND ");
                let h = high.to_sql_string();
                s.append(h.as_str());
                proof {
                    assert(s@ =~= self.sql());
                }
                s
            },
            Expr::BinaryOp { left, op, right } => {
                let mut s = left.to_sql_string();
                s.append(" ");
                let o = op.to_sql_string();
                s.append(o.as_str());
                s.append(" ");
                let t = right.to_sql_string();
                s.append(t.as_str());
                proof {
                    assert(s@ =~= self.sql());
                }
                s
            },
            Expr::Like { negated, expr, pattern } => {
                let mut s = expr.to_sql_string();
                if *negated {
                    s.append(" NOT LIKE ");
                } else {
                    s.append(" LIKE ");
                }
                let p = pattern.to_sql_string();
                s.append(p.as_str());
                proof {
                    assert(s@ =~= self.sql());
                }
                s
            },
            Expr::UnaryOp { op, expr } => {
                match op {
                    UnaryOperator::Not => {
                        let mut s = owned("NOT ");
                        let e = expr.to_sql_string();
                        s.append(e.as_str());
                        s
                    },
                    _ => {
                        let mut s = op.to_sql_string();
                        let e = expr.to_sql_string();
                        s.append(e.as_str());
                        s
                    },
                }
            },
            Expr::Cast { kind, expr, data_type } => {
                match kind {
                    CastKind::DoubleColon => {
                        let mut s = expr.to_sql_string();
                        s.append("::");
                        let d = data_type.to_sql_string();
                        s.append(d.as_str());
                        proof {
                            assert(s@ =~= self.sql());
                        }
                        s
                    },
                    _ => {
                        let mut s = match kind {
                            CastKind::Cast => owned("CAST("),
                            CastKind::TryCast => owned("TRY_CAST("),
                            _ => owned("SAFE_CAST("),
                        };
                        let e = expr.to_sql_string();
                        s.append(e.as_str());
                        s.append(" AS ");
                        let d = data_type.to_sql_string();
                        s.append(d.as_str());
                        push_char(&mut s, ')');
                        proof {
                            assert(s@ =~= self.sql());
                        }
                        s
                    },
                }
            },
            Expr::Convert { expr, data_type, charset, target_before_value } => {
                let mut s = owned("CONVERT(");
                match (charset, data_type) {
                    (Option::Some(cs), _) => {
                        let e = expr.to_sql_string();
                        s.append(e.as_str());
                        s.append(" USING ");
                        let c = cs.to_sql_string();
                        s.append(c.as_str());
                    },
                    (Option::None, Option::Some(dt)) => {
                        if *target_before_value {
                            let d = dt.to_sql_string();
                            s.append(d.as_str());
                            s.append(", ");
                            let e = expr.to_sql_string();
                            s.append(e.as_str());
                        } else {
                            let e = expr.to_sql_string();
                            s.append(e.as_str());
                            s.append(", ");
                            let d = dt.to_sql_string();
                            s.append(d.as_str());
                        }
                    },
                    (Option::None, Option::None) => {
                        let e = expr.to_sql_string();
                        s.append(e.as_str());
                    },
                }
                push_char(&mut s, ')');
                proof {
                    assert(s@ =~= self.sql());
                }
                s
            },
            Expr::Nested(e) => {
                let mut s = String::new();
                push_char(&mut s, '(');
                let t = e.to_sql_string();
                s.append(t.as_str());
                push_char(&mut s, ')');
                proof {
                    assert(s@ =~= self.sql());
                }
                s
            },
            Expr::Value(v) => v.to_sql_string(),
            Expr::Function(f) => f.to_sql_string(),
            Expr::Case { operand, conditions, results, else_result } => {
                let mut s = owned("CASE");
                if let Option::Some(op) = operand {
                    s.append(" ");
                    let o = op.to_sql_string();
                    s.append(o.as_str());
                }
                let wp = render_when_parts(conditions);
                let tp = render_then_parts(results);
                let whens = interleave_parts(&wp, &tp);
                s.append(whens.as_str());
                if let Option::Some(e) = else_result {
                    s.append(" ELSE ");
                    let t = e.to_sql_string();
                    s.append(t.as_str());
                }
                s.append(" END");
                proof {
                    assert(s@ =~= self.sql());
                }
                s
            },
            Expr::Exists { subquery, negated } => {
                let mut s = if *negated {
                    owned("NOT EXISTS (")
                } else {
                    owned("EXISTS (")
                };
                let q = subquery.to_sql_string();
                s.append(q.as_str());
                push_char(&mut s, ')');
                proof {
                    assert(s@ =~= self.sql());
                }
                s
            },
            Expr::Subquery(q) => {
                let mut s = String::new();
                push_char(&mut s, '(');
                let t = q.to_sql_string();
                s.append(t.as_str());
                push_char(&mut s, ')');
                proof {
                    assert(s@ =~= self.sql());
                }
                s
            },
            Expr::GroupingSets(sets) => {
                let mut s = owned("GROUPING SETS (");
                let parts = render_expr_groups(sets);
                let inner = display_comma_separated(&parts);
                s.append(inner.as_str());
                push_char(&mut s, ')');
                proof {
                    assert(s@ =~= self.sql());
                }
                s
            },
            Expr::Cube(sets) => {
                let mut s = owned("CUBE (");
                let parts = render_expr_groups_compact(sets);
                let inner = display_comma_separated(&parts);
                s.append(inner.as_str());
                push_char(&mut s, ')');
                proof {
                    assert(s@ =~= self.sql());
                }
                s
            },
            Expr::Rollup(sets) => {
                let mut s = owned("ROLLUP (");
                let parts = render_expr_groups_compact(sets);
                let inner = display_comma_separated(&parts);
                s.append(inner.as_str());
                push_char(&mut s, ')');
                proof {
                    assert(s@ =~= self.sql());
                }
                s
            },
            Expr::Tuple(exprs) => {
                let mut s = String::new();
                push_char(&mut s, '(');
                let parts = render_exprs(exprs);
                let inner = display_comma_separated(&parts);
                s.append(inner.as_str());
                push_char(&mut s, ')');
                proof {
                    assert(s@ =~= self.sql());
                }
                s
            },
            Expr::Interval(i) => i.to_sql_string(),
            Expr::Wildcard => owned("*"),
            Expr::QualifiedWildcard(o) => {
                let mut s = o.to_sql_string();
                s.append(".*");
                s
            },
        }
    }
}


impl TableAlias {
    /// The SQL text of this table alias, with its column aliases if any.
    pub open spec fn sql(self) -> Seq<char> {
        self.name.sql() + (if self.columns@.len() > 0 {
            " ("@ + joined(idents_rendered(self.columns@), ", "@) + seq![')']
        } else {
            Seq::<char>::empty()
        })
    }

    /// Renders this alias back to SQL text.
    pub fn to_sql_string(&self) -> (r: String)
        ensures
            r@ == self.sql(),
    {
        let mut s = self.name.to_sql_string();
        if self.columns.len() > 0 {
            s.append(" (");
            let parts = render_idents(&self.columns);
            let inner = display_comma_separated(&parts);
            s.append(inner.as_str());
            push_char(&mut s, ')');
        }
        proof {
            assert(s@ =~= self.sql());
        }
        s
    }
}

/// The ` AS alias` suffix after a table factor, when an alias is present.
pub open spec fn opt_alias_sql(alias: Option<TableAlias>) -> Seq<char> {
    match alias {
        Option::Some(a) => " AS "@ + a.sql(),
        Option::None => Seq::<char>::empty(),
    }
}

fn render_opt_alias(alias: &Option<TableAlias>) -> (r: String)
    ensures
        r@ == opt_alias_sql(*alias),
{
    match alias {
        Option::Some(a) => {
            let mut s = owned(" AS ");
            let t = a.to_sql_string();
            s.append(t.as_str());
            s
        },
        Option::None => String::new(),
    }
}

impl TableFactor {
    /// The SQL text of this table reference.
    pub open spec fn sql(self) -> Seq<char>
        decreases self,
    {
        match self {
            TableFactor::Table { name, alias } => name.sql() + opt_alias_sql(alias),
            TableFactor::Derived { subquery, alias } => seq!['('] + subquery.sql() + seq![')']
                + opt_alias_sql(alias),
        }
    }

    /// Renders this table reference back to SQL text.
    pub fn to_sql_string(&self) -> (r: String)
        ensures
            r@ == self.sql(),
        decreases self,
    {
        match self {
            TableFactor::Table { name, alias } => {
                let mut s = name.to_sql_string();
                let a = render_opt_alias(alias);
                s.append(a.as_str());
                proof {
                    assert(s@ =~= self.sql());
                }
                s
            },
            TableFactor::Derived { subquery, alias } => {
                let mut s = String::new();
                push_char(&mut s, '(');
                let q = subquery.to_sql_string();
                s.append(q.as_str());
                push_char(&mut s, ')');
                let a = render_opt_alias(alias);
                s.append(a.as_str());
                proof {
                    assert(s@ =~= self.sql());
                }
                s
            },
        }
    }
}

impl TableWithJoins {
    /// The SQL text of this table reference and its joins.
    pub open spec fn sql(self) -> Seq<char>
        decreases self,
    {
        self.relation.sql() + joins_sql(self.joins@)
    }

    /// Renders this table reference and its joins back to SQL text.
    pub fn to_sql_string(&self) -> (r: String)
        ensures
            r@ == self.sql(),
        decreases self,
    {
        let mut s = self.relation.to_sql_string();
        let j = render_joins(&self.joins);
        s.append(j.as_str());
        s
    }
}

impl SelectItem {
    /// The SQL text of this projection item.
    pub open spec fn sql(self) -> Seq<char>
        decreases self,
    {
        match self {
            SelectItem::UnnamedExpr(e) => e.sql(),
            SelectItem::ExprWithAlias { expr, alias } => expr.sql() + " AS "@ + alias.sql(),
            SelectItem::QualifiedWildcard(o) => o.sql() + ".*"@,
            SelectItem::Wildcard => "*"@,
        }
    }

    /// Renders this projection item back to SQL text.
    pub fn to_sql_string(&self) -> (r: String)
        ensures
            r@ == self.sql(),
        decreases self,
    {
        match self {
            SelectItem::UnnamedExpr(e) => e.to_sql_string(),
            SelectItem::ExprWithAlias { expr, alias } => {
                let mut s = expr.to_sql_string();
                s.append(" AS ");
                let a = alias.to_sql_string();
                s.append(a.as_str());
                proof {
                    assert(s@ =~= self.sql());
                }
                s
            },
            SelectItem::QualifiedWildcard(o) => {
                let mut s = o.to_sql_string();
                s.append(".*");
                s
            },
            SelectItem::Wildcard => owned("*"),
        }
    }
}

impl OrderByExpr {
    /// The SQL text of this ordering expression.
    pub open spec fn sql(self) -> Seq<char>
        decreases self,
    {
        self.expr.sql() + (match self.asc {
            Option::Some(true) => " ASC"@,
            Option::Some(false) => " DESC"@,
            Option::None => Seq::<char>::empty(),
        }) + (match self.nulls_first {
            Option::Some(true) => " NULLS FIRST"@,
            Option::Some(false) => " NULLS LAST"@,
            Option::None => Seq::<char>::empty(),
        })
    }

    /// Renders this ordering expression back to SQL text.
    pub fn to_sql_string(&self) -> (r: String)
        ensures
            r@ == self.sql(),
        decreases self,
    {
        let mut s = self.expr.to_sql_string();
        match &self.asc {
            Option::Some(true) => s.append(" ASC"),
            Option::Some(false) => s.append(" DESC"),
            Option::None => (),
        }
        match &self.nulls_first {
            Option::Some(true) => s.append(" NULLS FIRST"),
            Option::Some(false) => s.append(" NULLS LAST"),
            Option::None => (),
        }
        proof {
            assert(s@ =~= self.sql());
        }
        s
    }
}

impl Offset {
    /// The SQL text of this `OFFSET` clause.
    pub open spec fn sql(self) -> Seq<char>
        decreases self,
    {
        "OFFSET "@ + self.value.sql() + (match self.rows {
            OffsetRows::Omitted => Seq::<char>::empty(),
            OffsetRows::Row => " ROW"@,
            OffsetRows::Rows => " ROWS"@,
        })
    }

    /// Renders this `OFFSET` clause back to SQL text.
    pub fn to_sql_string(&self) -> (r: String)
        ensures
            r@ == self.sql(),
        decreases self,
    {
        let mut s = owned("OFFSET ");
        let v = self.value.to_sql_string();
        s.append(v.as_str());
        match self.rows {
            OffsetRows::Omitted => (),
            OffsetRows::Row => s.append(" ROW"),
            OffsetRows::Rows => s.append(" ROWS"),
        }
        proof {
            assert(s@ =~= self.sql());
        }
        s
    }
}

impl Fetch {
    /// The SQL text of this `FETCH` clause.
    pub open spec fn sql(self) -> Seq<char>
        decreases self,
    {
        (match self.quantity {
            Option::Some(q) => "FETCH FIRST "@ + q.sql() + (if self.percent {
                " PERCENT"@
            } else {
                Seq::<char>::empty()
            }) + " "@,
            Option::None => "FETCH FIRST "@,
        }) + (if self.with_ties {
            "WITH TIES"@
        } else {
            "ROWS ONLY"@
        })
    }

    /// Renders this `FETCH` clause back to SQL text.
    pub fn to_sql_string(&self) -> (r: String)
        ensures
            r@ == self.sql(),
        decreases self,
    {
        let mut s = owned("FETCH FIRST ");
        if let Option::Some(q) = &self.quantity {
            let v = q.to_sql_string();
            s.append(v.as_str());
            if self.percent {
                s.append(" PERCENT");
            }
            s.append(" ");
        }
        if self.with_ties {
            s.append("WITH TIES");
        } else {
            s.append("ROWS ONLY");
        }
        proof {
            assert(s@ =~= self.sql());
        }
        s
    }
}

impl Cte {
    /// The SQL text of this common table expression.
    pub open spec fn sql(self) -> Seq<char>
        decreases self,
    {
        self.alias.sql() + " AS ("@ + self.query.sql() + seq![')']
    }

    /// Renders this common table expression back to SQL text.
    pub fn to_sql_string(&self) -> (r: String)
        ensures
            r@ == self.sql(),
        decreases self,
    {
        let mut s = self.alias.to_sql_string();
        s.append(" AS (");
        let q = self.query.to_sql_string();
        s.append(q.as_str());
        push_char(&mut s, ')');
        proof {
            assert(s@ =~= self.sql());
        }
        s
    }
}

impl SetOperator {
    /// The SQL text of this set operator.
    pub open spec fn sql(self) -> Seq<char> {
        match self {
            SetOperator::Union => "UNION"@,
            SetOperator::Except => "EXCEPT"@,
            SetOperator::Intersect => "INTERSECT"@,
        }
    }

    /// Renders this set operator back to SQL text.
    pub fn to_sql_string(&self) -> (r: String)
        ensures
            r@ == self.sql(),
    {
        match self {
            SetOperator::Union => owned("UNION"),
            SetOperator::Except => owned("EXCEPT"),
            SetOperator::Intersect => owned("INTERSECT"),
        }
    }
}

impl SetExpr {
    /// The SQL text of this query body.
    pub open spec fn sql(self) -> Seq<char>
        decreases self,
    {
        match self {
            SetExpr::Select(s) => s.sql(),
            SetExpr::Query(q) => seq!['('] + q.sql() + seq![')'],
            SetExpr::Values(v) => "VALUES "@ + joined(expr_groups_rendered(v.0@), ", "@),
            SetExpr::SetOperation { op, all, left, right } => left.sql() + " "@ + op.sql() + (
            if all {
                " ALL"@
            } else {
                Seq::<char>::empty()
            }) + " "@ + right.sql(),
        }
    }

    /// Renders this query body back to SQL text.
    pub fn to_sql_string(&self) -> (r: String)
        ensures
            r@ == self.sql(),
        decreases self,
    {
        match self {
            SetExpr::Select(s) => s.to_sql_string(),
            SetExpr::Query(q) => {
                let mut s = String::new();
                push_char(&mut s, '(');
                let t = q.to_sql_string();
                s.append(t.as_str());
                push_char(&mut s, ')');
                proof {
                    assert(s@ =~= self.sql());
                }
                s
            },
            SetExpr::Values(v) => {
                let mut s = owned("VALUES ");
                let parts = render_expr_groups(&v.0);
                let inner = display_comma_separated(&parts);
                s.append(inner.as_str());
                proof {
                    assert(s@ =~= self.sql());
                }
                s
            },
            SetExpr::SetOperation { op, all, left, right } => {
                let mut s = left.to_sql_string();
                s.append(" ");
                let o = op.to_sql_string();
                s.append(o.as_str());
                if *all {
                    s.append(" ALL");
                }
                s.append(" ");
                let t = right.to_sql_string();
                s.append(t.as_str());
                proof {
                    assert(s@ =~= self.sql());
                }
                s
            },
        }
    }
}

impl Select {
    /// The SQL text of this `SELECT` block.
    pub open spec fn sql(self) -> Seq<char>
        decreases self,
    {
        "SELECT "@ + (if self.distinct {
            "DISTINCT "@
        } else {
            Seq::<char>::empty()
        }) + joined(select_items_rendered(self.projection@), ", "@) + (if self.from@.len() > 0 {
            " FROM "@ + joined(twjs_rendered(self.from@), ", "@)
        } else {
            Seq::<char>::empty()
        }) + (match self.selection {
            Option::Some(e) => " WHERE "@ + e.sql(),
            Option::None => Seq::<char>::empty(),
        }) + (if self.group_by@.len() > 0 {
            " GROUP BY "@ + joined(exprs_rendered(self.group_by@), ", "@)
        } else {
            Seq::<char>::empty()
        }) + (match self.having {
            Option::Some(e) => " HAVING "@ + e.sql(),
            Option::None => Seq::<char>::empty(),
        })
    }

    /// Renders this `SELECT` block back to SQL text.
    #[verifier::rlimit(50)]
    pub fn to_sql_string(&self) -> (r: String)
        ensures
            r@ == self.sql(),
        decreases self,
    {
        let mut s = owned("SELECT ");
        if self.distinct {
            s.append("DISTINCT ");
        }
        let items = render_select_items(&self.projection);
        let proj = display_comma_separated(&items);
        s.append(proj.as_str());
        if self.from.len() > 0 {
            s.append(" FROM ");
            let tables = render_twjs(&self.from);
            let f = display_comma_separated(&tables);
            s.append(f.as_str());
        }
        if let Option::Some(e) = &self.selection {
            s.append(" WHERE ");
            let w = e.to_sql_string();
            s.append(w.as_str());
        }
        if self.group_by.len() > 0 {
            s.append(" GROUP BY ");
            let gs = render_exprs(&self.group_by);
            let g = display_comma_separated(&gs);
            s.append(g.as_str());
        }
        if let Option::Some(e) = &self.having {
            s.append(" HAVING ");
            let h = e.to_sql_string();
            s.append(h.as_str());
        }
        proof {
            assert(s@ =~= self.sql());
        }
        s
    }
}


/// The `WITH ...` prefix of a query, when present.
pub open spec fn query_with_sql(w: Option<With>) -> Seq<char>
    decreases w,
{
    match w {
        Option::Some(w) => "WITH "@ + (if w.recursive {
            "RECURSIVE "@
        } else {
            Seq::<char>::empty()
        }) + joined(ctes_rendered(w.cte_tables@), ", "@) + " "@,
        Option::None => Seq::<char>::empty(),
    }
}

/// The ` LIMIT ...` clause of a query, when present.
pub open spec fn query_limit_sql(l: Option<Expr>) -> Seq<char>
    decreases l,
{
    match l {
        Option::Some(l) => " LIMIT "@ + l.sql(),
        Option::None => Seq::<char>::empty(),
    }
}

/// The ` OFFSET ...` clause of a query, when present.
pub open spec fn query_offset_sql(o: Option<Offset>) -> Seq<char>
    decreases o,
{
    match o {
        Option::Some(o) => " "@ + o.sql(),
        Option::None => Seq::<char>::empty(),
    }
}

/// The ` FETCH ...` clause of a query, when present.
pub open spec fn query_fetch_sql(f: Option<Fetch>) -> Seq<char>
    decreases f,
{
    match f {
        Option::Some(f) => " "@ + f.sql(),
        Option::None => Seq::<char>::empty(),
    }
}

impl Query {
    /// The SQL text of this query.
    pub open spec fn sql(self) -> Seq<char>
        decreases self,
    {
        query_with_sql(self.with) + self.body.sql() + (if self.order_by@.len() > 0 {
            " ORDER BY "@ + joined(order_bys_rendered(self.order_by@), ", "@)
        } else {
            Seq::<char>::empty()
        }) + query_limit_sql(self.limit) + query_offset_sql(self.offset) + query_fetch_sql(
            self.fetch,
        )
    }

    /// Renders this query back to SQL text.
    #[verifier::rlimit(50)]
    pub fn to_sql_string(&self) -> (r: String)
        ensures
            r@ == self.sql(),
        decreases self,
    {
        let ghost p0: Seq<char> = query_with_sql(self.with);
        let ghost p1: Seq<char> = p0 + self.body.sql();
        let ghost p2: Seq<char> = p1 + (if self.order_by@.len() > 0 {
            " ORDER BY "@ + joined(order_bys_rendered(self.order_by@), ", "@)
        } else {
            Seq::<char>::empty()
        });
        let ghost p3: Seq<char> = p2 + query_limit_sql(self.limit);
        let ghost p4: Seq<char> = p3 + query_offset_sql(self.offset);
        let ghost p5: Seq<char> = p4 + query_fetch_sql(self.fetch);
        let mut s = String::new();
        if let Option::Some(w) = &self.with {
            s.append("WITH ");
            if w.recursive {
                s.append("RECURSIVE ");
            }
            let cs = render_ctes(&w.cte_tables);
            let c = display_comma_separated(&cs);
            s.append(c.as_str());
            s.append(" ");
        }
        proof {
            assert(s@ =~= p0);
        }
        let b = self.body.to_sql_string();
        s.append(b.as_str());
        proof {
            assert(s@ =~= p1);
        }
        if self.order_by.len() > 0 {
            s.append(" ORDER BY ");
            let os = render_order_bys(&self.order_by);
            let o = display_comma_separated(&os);
            s.append(o.as_str());
        }
        proof {
            assert(s@ =~= p2);
        }
        if let Option::Some(l) = &self.limit {
            s.append(" LIMIT ");
            let t = l.to_sql_string();
            s.append(t.as_str());
        }
        proof {
            assert(s@ =~= p3);
        }
        if let Option::Some(o) = &self.offset {
            s.append(" ");
            let t = o.to_sql_string();
            s.append(t.as_str());
        }
        proof {
            assert(s@ =~= p4);
        }
        if let Option::Some(f) = &self.fetch {
            s.append(" ");
            let t = f.to_sql_string();
            s.append(t.as_str());
        }
        proof {
            assert(s@ =~= p5);
            assert(p5 =~= self.sql());
        }
        s
    }
}

} // verus!
