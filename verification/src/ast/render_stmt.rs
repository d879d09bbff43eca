//! Rendering of statements and data-definition nodes back to SQL text.
use vstd::prelude::*;

use crate::ast::ddl::{ColumnDef, ColumnOption, ColumnOptionDef, TableConstraint};
use crate::ast::render::{idents_rendered, render_idents};
use crate::ast::{
    FileFormat, Ident, ObjectName, ObjectType, SetVariableValue, SqlOption, Statement, Value,
};
use crate::text::{display_comma_separated, joined, push_char, views_of};

verus! {

/// Copies a string slice into an owned string.
fn owned(s: &str) -> (r: String)
    ensures
        r@ == s@,
{
    let mut out = String::new();
    out.append(s);
    out
}


/// The SQL texts of a sequence of column definitions, one per entry.
pub open spec fn col_defs_rendered(items: Seq<ColumnDef>) -> Seq<Seq<char>>
    decreases items,
{
    if items.len() == 0 {
        Seq::<Seq<char>>::empty()
    } else {
        seq![items[0].sql()] + col_defs_rendered(items.drop_first())
    }
}

pub proof fn lemma_col_defs_rendered_push(items: Seq<ColumnDef>, x: ColumnDef)
    ensures
        col_defs_rendered(items.push(x)) == col_defs_rendered(items).push(x.sql()),
    decreases items.len(),
{
    if items.len() == 0 {
        assert(items.push(x)[0] == x);
        assert(items.push(x).drop_first() =~= Seq::<ColumnDef>::empty());
        assert(col_defs_rendered(items.push(x).drop_first()) == Seq::<Seq<char>>::empty());
        assert(col_defs_rendered(items.push(x)) == seq![x.sql()] + Seq::<Seq<char>>::empty());
        assert(seq![x.sql()] + Seq::<Seq<char>>::empty() =~= seq![x.sql()]);
        assert(col_defs_rendered(items).push(x.sql()) =~= seq![x.sql()]);
    } else {
        assert(items.push(x)[0] == items[0]);
        assert(items.push(x).drop_first() =~= items.drop_first().push(x));
        lemma_col_defs_rendered_push(items.drop_first(), x);
        assert(col_defs_rendered(items.push(x)) == seq![items[0].sql()] + col_defs_rendered(
            items.drop_first().push(x),
        ));
        assert(col_defs_rendered(items) == seq![items[0].sql()] + col_defs_rendered(items.drop_first()));
        assert(col_defs_rendered(items.push(x)) =~= col_defs_rendered(items).push(x.sql()));
    }
}

/// Renders each node of the list.
pub fn render_col_defs(items: &Vec<ColumnDef>) -> (parts: Vec<String>)
    ensures
        views_of(parts@) == col_defs_rendered(items@),
    decreases items,
{
    let mut parts: Vec<String> = Vec::new();
    let mut i: usize = 0;
    proof {
        assert(views_of(parts@) =~= col_defs_rendered(items@.subrange(0, 0)));
    }
    while i < items.len()
        invariant
            i <= items@.len(),
            views_of(parts@) == col_defs_rendered(items@.subrange(0, i as int)),
        decreases items@.len() - i,
    {
        let ghost pre = parts@;
        parts.push(items[i].to_sql_string());
        proof {
            assert(items@.subrange(0, i + 1int) =~= items@.subrange(0, i as int).push(
                items@[i as int],
            ));
            lemma_col_defs_rendered_push(items@.subrange(0, i as int), items@[i as int]);
            assert(views_of(parts@) =~= views_of(pre).push(items@[i as int].sql()));
        }
        i = i + 1;
    }
    proof {
        assert(items@.subrange(0, items@.len() as int) =~= items@);
    }
    parts
}




/// The SQL texts of a sequence of table constraints, one per entry.
pub open spec fn constraints_rendered(items: Seq<TableConstraint>) -> Seq<Seq<char>>
    decreases items,
{
    if items.len() == 0 {
        Seq::<Seq<char>>::empty()
    } else {
        seq![items[0].sql()] + constraints_rendered(items.drop_first())
    }
}

pub proof fn lemma_constraints_rendered_push(items: Seq<TableConstraint>, x: TableConstraint)
    ensures
        constraints_rendered(items.push(x)) == constraints_rendered(items).push(x.sql()),
    decreases items.len(),
{
    if items.len() == 0 {
        assert(items.push(x)[0] == x);
        assert(items.push(x).drop_first() =~= Seq::<TableConstraint>::empty());
        assert(constraints_rendered(items.push(x).drop_first()) == Seq::<Seq<char>>::empty());
        assert(constraints_rendered(items.push(x)) == seq![x.sql()] + Seq::<Seq<char>>::empty());
        assert(seq![x.sql()] + Seq::<Seq<char>>::empty() =~= seq![x.sql()]);
        assert(constraints_rendered(items).push(x.sql()) =~= seq![x.sql()]);
    } else {
        assert(items.push(x)[0] == items[0]);
        assert(items.push(x).drop_first() =~= items.drop_first().push(x));
        lemma_constraints_rendered_push(items.drop_first(), x);
        assert(constraints_rendered(items.push(x)) == seq![items[0].sql()] + constraints_rendered(
            items.drop_first().push(x),
        ));
        assert(constraints_rendered(items) == seq![items[0].sql()] + constraints_rendered(items.drop_first()));
        assert(constraints_rendered(items.push(x)) =~= constraints_rendered(items).push(x.sql()));
    }
}

/// Renders each node of the list.
pub fn render_constraints(items: &Vec<TableConstraint>) -> (parts: Vec<String>)
    ensures
        views_of(parts@) == constraints_rendered(items@),
    decreases items,
{
    let mut parts: Vec<String> = Vec::new();
    let mut i: usize = 0;
    proof {
        assert(views_of(parts@) =~= constraints_rendered(items@.subrange(0, 0)));
    }
    while i < items.len()
        invariant
            i <= items@.len(),
            views_of(parts@) == constraints_rendered(items@.subrange(0, i as int)),
        decreases items@.len() - i,
    {
        let ghost pre = parts@;
        parts.push(items[i].to_sql_string());
        proof {
            assert(items@.subrange(0, i + 1int) =~= items@.subrange(0, i as int).push(
                items@[i as int],
            ));
            lemma_constraints_rendered_push(items@.subrange(0, i as int), items@[i as int]);
            assert(views_of(parts@) =~= views_of(pre).push(items@[i as int].sql()));
        }
        i = i + 1;
    }
    proof {
        assert(items@.subrange(0, items@.len() as int) =~= items@);
    }
    parts
}




/// The SQL texts of a sequence of options, one per entry.
pub open spec fn sql_options_rendered(items: Seq<SqlOption>) -> Seq<Seq<char>>
    decreases items,
{
    if items.len() == 0 {
        Seq::<Seq<char>>::empty()
    } else {
        seq![items[0].sql()] + sql_options_rendered(items.drop_first())
    }
}

pub proof fn lemma_sql_options_rendered_push(items: Seq<SqlOption>, x: SqlOption)
    ensures
        sql_options_rendered(items.push(x)) == sql_options_rendered(items).push(x.sql()),
    decreases items.len(),
{
    if items.len() == 0 {
        assert(items.push(x)[0] == x);
        assert(items.push(x).drop_first() =~= Seq::<SqlOption>::empty());
        assert(sql_options_rendered(items.push(x).drop_first()) == Seq::<Seq<char>>::empty());
        assert(sql_options_rendered(items.push(x)) == seq![x.sql()] + Seq::<Seq<char>>::empty());
        assert(seq![x.sql()] + Seq::<Seq<char>>::empty() =~= seq![x.sql()]);
        assert(sql_options_rendered(items).push(x.sql()) =~= seq![x.sql()]);
    } else {
        assert(items.push(x)[0] == items[0]);
        assert(items.push(x).drop_first() =~= items.drop_first().push(x));
        lemma_sql_options_rendered_push(items.drop_first(), x);
        assert(sql_options_rendered(items.push(x)) == seq![items[0].sql()] + sql_options_rendered(
            items.drop_first().push(x),
        ));
        assert(sql_options_rendered(items) == seq![items[0].sql()] + sql_options_rendered(items.drop_first()));
        assert(sql_options_rendered(items.push(x)) =~= sql_options_rendered(items).push(x.sql()));
    }
}

/// Renders each node of the list.
pub fn render_sql_options(items: &Vec<SqlOption>) -> (parts: Vec<String>)
    ensures
        views_of(parts@) == sql_options_rendered(items@),
    decreases items,
{
    let mut parts: Vec<String> = Vec::new();
    let mut i: usize = 0;
    proof {
        assert(views_of(parts@) =~= sql_options_rendered(items@.subrange(0, 0)));
    }
    while i < items.len()
        invariant
            i <= items@.len(),
            views_of(parts@) == sql_options_rendered(items@.subrange(0, i as int)),
        decreases items@.len() - i,
    {
        let ghost pre = parts@;
        parts.push(items[i].to_sql_string());
        proof {
            assert(items@.subrange(0, i + 1int) =~= items@.subrange(0, i as int).push(
                items@[i as int],
            ));
            lemma_sql_options_rendered_push(items@.subrange(0, i as int), items@[i as int]);
            assert(views_of(parts@) =~= views_of(pre).push(items@[i as int].sql()));
        }
        i = i + 1;
    }
    proof {
        assert(items@.subrange(0, items@.len() as int) =~= items@);
    }
    parts
}




/// The SQL texts of a sequence of variable values, one per entry.
pub open spec fn set_values_rendered(items: Seq<SetVariableValue>) -> Seq<Seq<char>>
    decreases items,
{
    if items.len() == 0 {
        Seq::<Seq<char>>::empty()
    } else {
        seq![items[0].sql()] + set_values_rendered(items.drop_first())
    }
}

pub proof fn lemma_set_values_rendered_push(items: Seq<SetVariableValue>, x: SetVariableValue)
    ensures
        set_values_rendered(items.push(x)) == set_values_rendered(items).push(x.sql()),
    decreases items.len(),
{
    if items.len() == 0 {
        assert(items.push(x)[0] == x);
        assert(items.push(x).drop_first() =~= Seq::<SetVariableValue>::empty());
        assert(set_values_rendered(items.push(x).drop_first()) == Seq::<Seq<char>>::empty());
        assert(set_values_rendered(items.push(x)) == seq![x.sql()] + Seq::<Seq<char>>::empty());
        assert(seq![x.sql()] + Seq::<Seq<char>>::empty() =~= seq![x.sql()]);
        assert(set_values_rendered(items).push(x.sql()) =~= seq![x.sql()]);
    } else {
        assert(items.push(x)[0] == items[0]);
        assert(items.push(x).drop_first() =~= items.drop_first().push(x));
        lemma_set_values_rendered_push(items.drop_first(), x);
        assert(set_values_rendered(items.push(x)) == seq![items[0].sql()] + set_values_rendered(
            items.drop_first().push(x),
        ));
        assert(set_values_rendered(items) == seq![items[0].sql()] + set_values_rendered(items.drop_first()));
        assert(set_values_rendered(items.push(x)) =~= set_values_rendered(items).push(x.sql()));
    }
}

/// Renders each node of the list.
pub fn render_set_values(items: &Vec<SetVariableValue>) -> (parts: Vec<String>)
    ensures
        views_of(parts@) == set_values_rendered(items@),
    decreases items,
{
    let mut parts: Vec<String> = Vec::new();
    let mut i: usize = 0;
    proof {
        assert(views_of(parts@) =~= set_values_rendered(items@.subrange(0, 0)));
    }
    while i < items.len()
        invariant
            i <= items@.len(),
            views_of(parts@) == set_values_rendered(items@.subrange(0, i as int)),
        decreases items@.len() - i,
    {
        let ghost pre = parts@;
        parts.push(items[i].to_sql_string());
        proof {
            assert(items@.subrange(0, i + 1int) =~= items@.subrange(0, i as int).push(
                items@[i as int],
            ));
            lemma_set_values_rendered_push(items@.subrange(0, i as int), items@[i as int]);
            assert(views_of(parts@) =~= views_of(pre).push(items@[i as int].sql()));
        }
        i = i + 1;
    }
    proof {
        assert(items@.subrange(0, items@.len() as int) =~= items@);
    }
    parts
}




/// The SQL texts of a sequence of object names, one per entry.
pub open spec fn object_names_rendered(items: Seq<ObjectName>) -> Seq<Seq<char>>
    decreases items,
{
    if items.len() == 0 {
        Seq::<Seq<char>>::empty()
    } else {
        seq![items[0].sql()] + object_names_rendered(items.drop_first())
    }
}

pub proof fn lemma_object_names_rendered_push(items: Seq<ObjectName>, x: ObjectName)
    ensures
        object_names_rendered(items.push(x)) == object_names_rendered(items).push(x.sql()),
    decreases items.len(),
{
    if items.len() == 0 {
        assert(items.push(x)[0] == x);
        assert(items.push(x).drop_first() =~= Seq::<ObjectName>::empty());
        assert(object_names_rendered(items.push(x).drop_first()) == Seq::<Seq<char>>::empty());
        assert(object_names_rendered(items.push(x)) == seq![x.sql()] + Seq::<Seq<char>>::empty());
        assert(seq![x.sql()] + Seq::<Seq<char>>::empty() =~= seq![x.sql()]);
        assert(object_names_rendered(items).push(x.sql()) =~= seq![x.sql()]);
    } else {
        assert(items.push(x)[0] == items[0]);
        assert(items.push(x).drop_first() =~= items.drop_first().push(x));
        lemma_object_names_rendered_push(items.drop_first(), x);
        assert(object_names_rendered(items.push(x)) == seq![items[0].sql()] + object_names_rendered(
            items.drop_first().push(x),
        ));
        assert(object_names_rendered(items) == seq![items[0].sql()] + object_names_rendered(items.drop_first()));
        assert(object_names_rendered(items.push(x)) =~= object_names_rendered(items).push(x.sql()));
    }
}

/// Renders each node of the list.
pub fn render_object_names(items: &Vec<ObjectName>) -> (parts: Vec<String>)
    ensures
        views_of(parts@) == object_names_rendered(items@),
    decreases items,
{
    let mut parts: Vec<String> = Vec::new();
    let mut i: usize = 0;
    proof {
        assert(views_of(parts@) =~= object_names_rendered(items@.subrange(0, 0)));
    }
    while i < items.len()
        invariant
            i <= items@.len(),
            views_of(parts@) == object_names_rendered(items@.subrange(0, i as int)),
        decreases items@.len() - i,
    {
        let ghost pre = parts@;
        parts.push(items[i].to_sql_string());
        proof {
            assert(items@.subrange(0, i + 1int) =~= items@.subrange(0, i as int).push(
                items@[i as int],
            ));
            lemma_object_names_rendered_push(items@.subrange(0, i as int), items@[i as int]);
            assert(views_of(parts@) =~= views_of(pre).push(items@[i as int].sql()));
        }
        i = i + 1;
    }
    proof {
        assert(items@.subrange(0, items@.len() as int) =~= items@);
    }
    parts
}



/// The `CONSTRAINT <name> ` prefix ahead of a named constraint.
pub open spec fn constraint_name_sql(name: Option<Ident>) -> Seq<char> {
    match name {
        Option::Some(n) => "CONSTRAINT "@ + n.sql() + " "@,
        Option::None => Seq::<char>::empty(),
    }
}

fn render_constraint_name(name: &Option<Ident>) -> (r: String)
    ensures
        r@ == constraint_name_sql(*name),
{
    match name {
        Option::Some(n) => {
            let mut s = owned("CONSTRAINT ");
            let t = n.to_sql_string();
            s.append(t.as_str());
            s.append(" ");
            proof {
                assert(s@ =~= constraint_name_sql(*name));
            }
            s
        },
        Option::None => String::new(),
    }
}

impl ColumnOption {
    /// The SQL text of this column option.
    pub open spec fn sql(self) -> Seq<char> {
        match self {
            ColumnOption::Null => "NULL"@,
            ColumnOption::NotNull => "NOT NULL"@,
            ColumnOption::Default(e) => "DEFAULT "@ + e.sql(),
            ColumnOption::Unique { is_primary } => if is_primary {
                "PRIMARY KEY"@
            } else {
                "UNIQUE"@
            },
            ColumnOption::Check(e) => "CHECK ("@ + e.sql() + seq![')'],
        }
    }

    /// Renders this column option back to SQL text.
    pub fn to_sql_string(&self) -> (r: String)
        ensures
            r@ == self.sql(),
    {
        match self {
            ColumnOption::Null => owned("NULL"),
            ColumnOption::NotNull => owned("NOT NULL"),
            ColumnOption::Default(e) => {
                let mut s = owned("DEFAULT ");
                let t = e.to_sql_string();
                s.append(t.as_str());
                proof {
                    assert(s@ =~= self.sql());
                }
                s
            },
            ColumnOption::Unique { is_primary } => {
                if *is_primary {
                    owned("PRIMARY KEY")
                } else {
                    owned("UNIQUE")
                }
            },
            ColumnOption::Check(e) => {
                let mut s = owned("CHECK (");
                let t = e.to_sql_string();
                s.append(t.as_str());
                push_char(&mut s, ')');
                proof {
                    assert(s@ =~= self.sql());
                }
                s
            },
        }
    }
}

impl ColumnOptionDef {
    /// The SQL text of this column option with its optional constraint name.
    pub open spec fn sql(self) -> Seq<char> {
        constraint_name_sql(self.name) + self.option.sql()
    }

    /// Renders this column option back to SQL text.
    pub fn to_sql_string(&self) -> (r: String)
        ensures
            r@ == self.sql(),
    {
        let mut s = render_constraint_name(&self.name);
        let t = self.option.to_sql_string();
        s.append(t.as_str());
        s
    }
}

/// The option clauses of a column definition laid end to end, each with its
/// leading space.
pub open spec fn col_opts_sql(items: Seq<ColumnOptionDef>) -> Seq<char>
    decreases items,
{
    if items.len() == 0 {
        Seq::<char>::empty()
    } else {
        " "@ + items[0].sql() + col_opts_sql(items.drop_first())
    }
}

pub proof fn lemma_col_opts_sql_push(items: Seq<ColumnOptionDef>, x: ColumnOptionDef)
    ensures
        col_opts_sql(items.push(x)) == col_opts_sql(items) + " "@ + x.sql(),
    decreases items.len(),
{
    if items.len() == 0 {
        assert(items.push(x)[0] == x);
        assert(items.push(x).drop_first() =~= Seq::<ColumnOptionDef>::empty());
        assert(col_opts_sql(items.push(x).drop_first()) == Seq::<char>::empty());
        assert(col_opts_sql(items.push(x)) == " "@ + x.sql() + Seq::<char>::empty());
        assert(" "@ + x.sql() + Seq::<char>::empty() =~= " "@ + x.sql());
        assert(col_opts_sql(items) + " "@ + x.sql() =~= " "@ + x.sql());
    } else {
        assert(items.push(x)[0] == items[0]);
        assert(items.push(x).drop_first() =~= items.drop_first().push(x));
        lemma_col_opts_sql_push(items.drop_first(), x);
        assert(col_opts_sql(items.push(x)) == " "@ + items[0].sql() + col_opts_sql(
            items.drop_first().push(x),
        ));
        assert(col_opts_sql(items) == " "@ + items[0].sql() + col_opts_sql(items.drop_first()));
        assert(" "@ + items[0].sql() + (col_opts_sql(items.drop_first()) + " "@ + x.sql()) =~= (
        " "@ + items[0].sql() + col_opts_sql(items.drop_first())) + " "@ + x.sql());
        assert(col_opts_sql(items.push(x)) =~= col_opts_sql(items) + " "@ + x.sql());
    }
}

/// Renders the option clauses of a column definition, laid end to end.
pub fn render_col_opts(items: &Vec<ColumnOptionDef>) -> (r: String)
    ensures
        r@ == col_opts_sql(items@),
{
    let mut s = String::new();
    let mut i: usize = 0;
    proof {
        assert(s@ =~= col_opts_sql(items@.subrange(0, 0)));
    }
    while i < items.len()
        invariant
            i <= items@.len(),
            s@ == col_opts_sql(items@.subrange(0, i as int)),
        decreases items@.len() - i,
    {
        s.append(" ");
        let t = items[i].to_sql_string();
        s.append(t.as_str());
        proof {
            assert(items@.subrange(0, i + 1int) =~= items@.subrange(0, i as int).push(
                items@[i as int],
            ));
            lemma_col_opts_sql_push(items@.subrange(0, i as int), items@[i as int]);
        }
        i = i + 1;
    }
    proof {
        assert(items@.subrange(0, items@.len() as int) =~= items@);
    }
    s
}

impl ColumnDef {
    /// The SQL text of this column definition.
    pub open spec fn sql(self) -> Seq<char> {
        self.name.sql() + " "@ + self.data_type.sql() + (match self.collation {
            Option::Some(c) => " COLLATE "@ + c.sql(),
            Option::None => Seq::<char>::empty(),
        }) + col_opts_sql(self.options@)
    }

    /// Renders this column definition back to SQL text.
    pub fn to_sql_string(&self) -> (r: String)
        ensures
            r@ == self.sql(),
    {
        let mut s = self.name.to_sql_string();
        s.append(" ");
        let t = self.data_type.to_sql_string();
        s.append(t.as_str());
        if let Option::Some(c) = &self.collation {
            s.append(" COLLATE ");
            let u = c.to_sql_string();
            s.append(u.as_str());
        }
        let o = render_col_opts(&self.options);
        s.append(o.as_str());
        proof {
            assert(s@ =~= self.sql());
        }
        s
    }
}

impl TableConstraint {
    /// The SQL text of this table constraint.
    pub open spec fn sql(self) -> Seq<char> {
        match self {
            TableConstraint::Unique { name, columns, is_primary } => constraint_name_sql(name) + (
            if is_primary {
                "PRIMARY KEY"@
            } else {
                "UNIQUE"@
            }) + " ("@ + joined(idents_rendered(columns@), ", "@) + seq![')'],
            TableConstraint::Check { name, expr } => constraint_name_sql(name) + "CHECK ("@
                + expr.sql() + seq![')'],
        }
    }

    /// Renders this table constraint back to SQL text.
    pub fn to_sql_string(&self) -> (r: String)
        ensures
            r@ == self.sql(),
    {
        match self {
            TableConstraint::Unique { name, columns, is_primary } => {
                let mut s = render_constraint_name(name);
                if *is_primary {
                    s.append("PRIMARY KEY");
                } else {
                    s.append("UNIQUE");
                }
                s.append(" (");
                let parts = render_idents(columns);
                let inner = display_comma_separated(&parts);
                s.append(inner.as_str());
                push_char(&mut s, ')');
                proof {
                    assert(s@ =~= self.sql());
                }
                s
            },
            TableConstraint::Check { name, expr } => {
                let mut s = render_constraint_name(name);
                s.append("CHECK (");
                let t = expr.to_sql_string();
                s.append(t.as_str());
                push_char(&mut s, ')');
                proof {
                    assert(s@ =~= self.sql());
                }
                s
            },
        }
    }
}

impl SqlOption {
    /// The SQL text of this `name = value` option.
    pub open spec fn sql(self) -> Seq<char> {
        self.name.sql() + " = "@ + self.value.sql()
    }

    /// Renders this option back to SQL text.
    pub fn to_sql_string(&self) -> (r: String)
        ensures
            r@ == self.sql(),
    {
        let mut s = self.name.to_sql_string();
        s.append(" = ");
        let t = self.value.to_sql_string();
        s.append(t.as_str());
        s
    }
}

impl FileFormat {
    /// The SQL text of this storage format.
    pub open spec fn sql(self) -> Seq<char> {
        match self {
            FileFormat::TEXTFILE => "TEXTFILE"@,
            FileFormat::SEQUENCEFILE => "SEQUENCEFILE"@,
            FileFormat::ORC => "ORC"@,
            FileFormat::PARQUET => "PARQUET"@,
            FileFormat::AVRO => "AVRO"@,
            FileFormat::RCFILE => "RCFILE"@,
            FileFormat::JSONFILE => "JSONFILE"@,
        }
    }

    /// Renders this storage format back to SQL text.
    pub fn to_sql_string(&self) -> (r: String)
        ensures
            r@ == self.sql(),
    {
        match self {
            FileFormat::TEXTFILE => owned("TEXTFILE"),
            FileFormat::SEQUENCEFILE => owned("SEQUENCEFILE"),
            FileFormat::ORC => owned("ORC"),
            FileFormat::PARQUET => owned("PARQUET"),
            FileFormat::AVRO => owned("AVRO"),
            FileFormat::RCFILE => owned("RCFILE"),
            FileFormat::JSONFILE => owned("JSONFILE"),
        }
    }
}

impl ObjectType {
    /// The SQL text of this object kind.
    pub open spec fn sql(self) -> Seq<char> {
        match self {
            ObjectType::Table => "TABLE"@,
            ObjectType::View => "VIEW"@,
            ObjectType::Index => "INDEX"@,
            ObjectType::Schema => "SCHEMA"@,
        }
    }

    /// Renders this object kind back to SQL text.
    pub fn to_sql_string(&self) -> (r: String)
        ensures
            r@ == self.sql(),
    {
        match self {
            ObjectType::Table => owned("TABLE"),
            ObjectType::View => owned("VIEW"),
            ObjectType::Index => owned("INDEX"),
            ObjectType::Schema => owned("SCHEMA"),
        }
    }
}

impl SetVariableValue {
    /// The SQL text of this variable value.
    pub open spec fn sql(self) -> Seq<char> {
        match self {
            SetVariableValue::Ident(i) => i.sql(),
            SetVariableValue::Literal(v) => v.sql(),
        }
    }

    /// Renders this variable value back to SQL text.
    pub fn to_sql_string(&self) -> (r: String)
        ensures
            r@ == self.sql(),
    {
        match self {
            SetVariableValue::Ident(i) => i.to_sql_string(),
            SetVariableValue::Literal(v) => v.to_sql_string(),
        }
    }
}

/// The `STORED AS .. LOCATION ..` tail of a `CREATE EXTERNAL TABLE`.
pub open spec fn external_tail_sql(
    external: bool,
    file_format: Option<FileFormat>,
    location: Option<String>,
) -> Seq<char> {
    if external {
        (match file_format {
            Option::Some(f) => " STORED AS "@ + f.sql(),
            Option::None => Seq::<char>::empty(),
        }) + (match location {
            Option::Some(l) => " LOCATION '"@ + l@ + seq!['\''],
            Option::None => Seq::<char>::empty(),
        })
    } else {
        Seq::<char>::empty()
    }
}

impl Statement {
    /// The SQL text of this statement, in the canonical spelling the parser
    /// round-trips through.
    pub open spec fn sql(self) -> Seq<char> {
        match self {
            Statement::Query(q) => q.sql(),
            Statement::Insert { table_name, columns, source } => "INSERT INTO "@
                + table_name.sql() + (if columns@.len() > 0 {
                " ("@ + joined(idents_rendered(columns@), ", "@) + ") "@
            } else {
                " "@
            }) + source.sql(),
            Statement::Delete { table_name, selection } => "DELETE FROM "@ + table_name.sql() + (
            match selection {
                Option::Some(e) => " WHERE "@ + e.sql(),
                Option::None => Seq::<char>::empty(),
            }),
            Statement::CreateTable {
                name,
                columns,
                constraints,
                with_options,
                if_not_exists,
                external,
                file_format,
                location,
            } => "CREATE "@ + (if external {
                "EXTERNAL "@
            } else {
                Seq::<char>::empty()
            }) + "TABLE "@ + (if if_not_exists {
                "IF NOT EXISTS "@
            } else {
                Seq::<char>::empty()
            }) + name.sql() + " ("@ + joined(
                col_defs_rendered(columns@) + constraints_rendered(constraints@),
                ", "@,
            ) + seq![')'] + external_tail_sql(external, file_format, location) + (
            if with_options@.len() > 0 {
                " WITH ("@ + joined(sql_options_rendered(with_options@), ", "@) + seq![')']
            } else {
                Seq::<char>::empty()
            }),
            Statement::Drop { object_type, if_exists, names, cascade } => "DROP "@
                + object_type.sql() + " "@ + (if if_exists {
                "IF EXISTS "@
            } else {
                Seq::<char>::empty()
            }) + joined(object_names_rendered(names@), ", "@) + (if cascade {
                " CASCADE"@
            } else {
                Seq::<char>::empty()
            }),
            Statement::SetVariable { local, hivevar, variable, value } => "SET "@ + (if local {
                "LOCAL "@
            } else {
                Seq::<char>::empty()
            }) + (if hivevar {
                "HIVEVAR:"@
            } else {
                Seq::<char>::empty()
            }) + variable.sql() + " = "@ + joined(set_values_rendered(value@), ", "@),
            Statement::ShowVariable { variable } => "SHOW "@ + variable.sql(),
        }
    }

    /// Renders this statement back to SQL text.
    #[verifier::rlimit(100)]
    pub fn to_sql_string(&self) -> (r: String)
        ensures
            r@ == self.sql(),
    {
        match self {
            Statement::Query(q) => q.to_sql_string(),
            Statement::Insert { table_name, columns, source } => {
                let mut s = owned("INSERT INTO ");
                let t = table_name.to_sql_string();
                s.append(t.as_str());
                if columns.len() > 0 {
                    s.append(" (");
                    let parts = render_idents(columns);
                    let inner = display_comma_separated(&parts);
                    s.append(inner.as_str());
                    s.append(") ");
                } else {
                    s.append(" ");
                }
                let q = source.to_sql_string();
                s.append(q.as_str());
                proof {
                    assert(s@ =~= self.sql());
                }
                s
            },
            Statement::Delete { table_name, selection } => {
                let mut s = owned("DELETE FROM ");
                let t = table_name.to_sql_string();
                s.append(t.as_str());
                if let Option::Some(e) = selection {
                    s.append(" WHERE ");
                    let u = e.to_sql_string();
                    s.append(u.as_str());
                }
                proof {
                    assert(s@ =~= self.sql());
                }
                s
            },
            Statement::CreateTable {
                name,
                columns,
                constraints,
                with_options,
                if_not_exists,
                external,
                file_format,
                location,
            } => {
                let ghost body: Seq<Seq<char>> = col_defs_rendered(columns@)
                    + constraints_rendered(constraints@);
                let mut s = owned("CREATE ");
                if *external {
                    s.append("EXTERNAL ");
                }
                s.append("TABLE ");
                if *if_not_exists {
                    s.append("IF NOT EXISTS ");
                }
                let t = name.to_sql_string();
                s.append(t.as_str());
                s.append(" (");
                let mut parts = render_col_defs(columns);
                let mut cparts = render_constraints(constraints);
                let ghost parts0 = parts@;
                let ghost cparts0 = cparts@;
                parts.append(&mut cparts);
                proof {
                    assert(views_of(parts@) =~= views_of(parts0) + views_of(cparts0));
                }
                let inner = display_comma_separated(&parts);
                s.append(inner.as_str());
                push_char(&mut s, ')');
                let ghost mid = s@;
                if *external {
                    if let Option::Some(f) = file_format {
                        s.append(" STORED AS ");
                        let u = f.to_sql_string();
                        s.append(u.as_str());
                    }
                    if let Option::Some(l) = location {
                        s.append(" LOCATION '");
                        s.append(l.as_str());
                        push_char(&mut s, '\'');
                    }
                }
                proof {
                    assert(s@ =~= mid + external_tail_sql(*external, *file_format, *location));
                }
                if with_options.len() > 0 {
                    s.append(" WITH (");
                    let ops = render_sql_options(with_options);
                    let inner2 = display_comma_separated(&ops);
                    s.append(inner2.as_str());
                    push_char(&mut s, ')');
                }
                proof {
                    assert(s@ =~= self.sql());
                }
                s
            },
            Statement::Drop { object_type, if_exists, names, cascade } => {
                let mut s = owned("DROP ");
                let t = object_type.to_sql_string();
                s.append(t.as_str());
                s.append(" ");
                if *if_exists {
                    s.append("IF EXISTS ");
                }
                let parts = render_object_names(names);
                let inner = display_comma_separated(&parts);
                s.append(inner.as_str());
                if *cascade {
                    s.append(" CASCADE");
                }
                proof {
                    assert(s@ =~= self.sql());
                }
                s
            },
            Statement::SetVariable { local, hivevar, variable, value } => {
                let mut s = owned("SET ");
                if *local {
                    s.append("LOCAL ");
                }
                if *hivevar {
                    s.append("HIVEVAR:");
                }
                let t = variable.to_sql_string();
                s.append(t.as_str());
                s.append(" = ");
                let parts = render_set_values(value);
                let inner = display_comma_separated(&parts);
                s.append(inner.as_str());
                proof {
                    assert(s@ =~= self.sql());
                }
                s
            },
            Statement::ShowVariable { variable } => {
                let mut s = owned("SHOW ");
                let t = variable.to_sql_string();
                s.append(t.as_str());
                proof {
                    assert(s@ =~= self.sql());
                }
                s
            },
        }
    }
}

} // verus!
