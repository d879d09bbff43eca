//! Rendering of the wider catalog's nodes back to SQL text: window
//! specifications, fetch directions, declarations, sequence options,
//! privileges and function bodies.
use vstd::prelude::*;

use crate::ast::catalog::{
    Action, Array, CastFormat, CreateFunctionBody, CreateFunctionUsing, Declare,
    DeclareAssignment, DeclareType, DictionaryField, FetchDirection, FunctionBehavior,
    FunctionCalledOnNull, FunctionDefinition, FunctionParallel, GrantObjects, JsonPath,
    JsonPathElem, LambdaFunction, MapAccessKey, MapAccessSyntax, NullTreatment,
    OneOrManyWithParens, Privileges, SequenceOptions, StructField, Subscript, WindowFrame,
    WindowFrameBound, WindowFrameUnits, WindowSpec, WindowType,
};
use crate::ast::render::{
    exprs_rendered, idents_rendered, order_bys_rendered, render_exprs, render_idents,
    render_order_bys,
};
use crate::ast::render_stmt::{object_names_rendered, render_object_names};
use crate::ast::query::Query;
use crate::ast::{DataType, Expr, Ident, Value};
use crate::text::{display_comma_separated, joined, push_char, views_of};

verus! {

/// Copies a string slice into an owned string.
fn owned(s: &str) -> (r: String)
    ensures
        r@ == s@,
{
    let mut out = String::new();
    out.append(s);
    out
}

impl NullTreatment {
    /// The SQL text of this null treatment.
    pub open spec fn sql(self) -> Seq<char> {
        match self {
            NullTreatment::IgnoreNulls => "IGNORE NULLS"@,
            NullTreatment::RespectNulls => "RESPECT NULLS"@,
        }
    }

    /// Renders this null treatment back to SQL text.
    pub fn to_sql_string(&self) -> (r: String)
        ensures
            r@ == self.sql(),
    {
        match self {
            NullTreatment::IgnoreNulls => owned("IGNORE NULLS"),
            NullTreatment::RespectNulls => owned("RESPECT NULLS"),
        }
    }
}

impl WindowFrameUnits {
    /// The SQL text of this frame unit.
    pub open spec fn sql(self) -> Seq<char> {
        match self {
            WindowFrameUnits::Rows => "ROWS"@,
            WindowFrameUnits::Range => "RANGE"@,
            WindowFrameUnits::Groups => "GROUPS"@,
        }
    }

    /// Renders this frame unit back to SQL text.
    pub fn to_sql_string(&self) -> (r: String)
        ensures
            r@ == self.sql(),
    {
        match self {
            WindowFrameUnits::Rows => owned("ROWS"),
            WindowFrameUnits::Range => owned("RANGE"),
            WindowFrameUnits::Groups => owned("GROUPS"),
        }
    }
}

impl WindowFrameBound {
    /// The SQL text of this frame bound.
    pub open spec fn sql(self) -> Seq<char> {
        match self {
            WindowFrameBound::CurrentRow => "CURRENT ROW"@,
            WindowFrameBound::Preceding(n) => match n {
                Option::Some(e) => e.sql() + " PRECEDING"@,
                Option::None => "UNBOUNDED PRECEDING"@,
            },
            WindowFrameBound::Following(n) => match n {
                Option::Some(e) => e.sql() + " FOLLOWING"@,
                Option::None => "UNBOUNDED FOLLOWING"@,
            },
        }
    }

    /// Renders this frame bound back to SQL text.
    pub fn to_sql_string(&self) -> (r: String)
        ensures
            r@ == self.sql(),
        decreases self,
    {
        match self {
            WindowFrameBound::CurrentRow => owned("CURRENT ROW"),
            WindowFrameBound::Preceding(n) => match n {
                Option::Some(e) => {
                    let mut s = e.to_sql_string();
                    s.append(" PRECEDING");
                    s
                },
                Option::None => owned("UNBOUNDED PRECEDING"),
            },
            WindowFrameBound::Following(n) => match n {
                Option::Some(e) => {
                    let mut s = e.to_sql_string();
                    s.append(" FOLLOWING");
                    s
                },
                Option::None => owned("UNBOUNDED FOLLOWING"),
            },
        }
    }
}

impl WindowSpec {
    /// The SQL text of this window specification: the clauses that are
    /// present, separated by single spaces.
    pub open spec fn sql(self) -> Seq<char> {
        let named = self.window_name is Some;
        let partitioned = self.partition_by@.len() > 0;
        let ordered = self.order_by@.len() > 0;
        (match self.window_name {
            Option::Some(n) => n.sql(),
            Option::None => Seq::<char>::empty(),
        }) + (if partitioned {
            (if named {
                " "@
            } else {
                Seq::<char>::empty()
            }) + "PARTITION BY "@ + joined(exprs_rendered(self.partition_by@), ", "@)
        } else {
            Seq::<char>::empty()
        }) + (if ordered {
            (if named || partitioned {
                " "@
            } else {
                Seq::<char>::empty()
            }) + "ORDER BY "@ + joined(order_bys_rendered(self.order_by@), ", "@)
        } else {
            Seq::<char>::empty()
        }) + (match self.window_frame {
            Option::Some(f) => (if named || partitioned || ordered {
                " "@
            } else {
                Seq::<char>::empty()
            }) + f.sql(),
            Option::None => Seq::<char>::empty(),
        })
    }

    /// Renders this window specification back to SQL text.
    #[verifier::rlimit(100)]
    pub fn to_sql_string(&self) -> (r: String)
        ensures
            r@ == self.sql(),
    {
        let mut s = String::new();
        let mut delim = false;
        if let Option::Some(n) = &self.window_name {
            let t = n.to_sql_string();
            s.append(t.as_str());
            delim = true;
        }
        if self.partition_by.len() > 0 {
            if delim {
                s.append(" ");
            }
            s.append("PARTITION BY ");
            let ps = render_exprs(&self.partition_by);
            let p = display_comma_separated(&ps);
            s.append(p.as_str());
            delim = true;
        }
        proof {
            assert(s@ =~= (match self.window_name {
                Option::Some(n) => n.sql(),
                Option::None => Seq::<char>::empty(),
            }) + (if self.partition_by@.len() > 0 {
                (if self.window_name is Some {
                    " "@
                } else {
                    Seq::<char>::empty()
                }) + "PARTITION BY "@ + joined(exprs_rendered(self.partition_by@), ", "@)
            } else {
                Seq::<char>::empty()
            }));
            assert(delim == (self.window_name is Some || self.partition_by@.len() > 0));
        }
        if self.order_by.len() > 0 {
            if delim {
                s.append(" ");
            }
            s.append("ORDER BY ");
            let os = render_order_bys(&self.order_by);
            let o = display_comma_separated(&os);
            s.append(o.as_str());
            delim = true;
        }
        if let Option::Some(f) = &self.window_frame {
            if delim {
                s.append(" ");
            }
            let t = f.to_sql_string();
            s.append(t.as_str());
        }
        proof {
            assert(s@ =~= self.sql());
        }
        s
    }
}

impl WindowFrame {
    /// The SQL text of this window frame.
    pub open spec fn sql(self) -> Seq<char> {
        match self.end_bound {
            Option::Some(end) => self.units.sql() + " BETWEEN "@ + self.start_bound.sql()
                + " AND "@ + end.sql(),
            Option::None => self.units.sql() + " "@ + self.start_bound.sql(),
        }
    }

    /// Renders this window frame back to SQL text.
    pub fn to_sql_string(&self) -> (r: String)
        ensures
            r@ == self.sql(),
    {
        let mut s = self.units.to_sql_string();
        match &self.end_bound {
            Option::Some(end) => {
                s.append(" BETWEEN ");
                let a = self.start_bound.to_sql_string();
                s.append(a.as_str());
                s.append(" AND ");
                let b = end.to_sql_string();
                s.append(b.as_str());
            },
            Option::None => {
                s.append(" ");
                let a = self.start_bound.to_sql_string();
                s.append(a.as_str());
            },
        }
        proof {
            assert(s@ =~= self.sql());
        }
        s
    }
}

impl WindowType {
    /// The SQL text of this window: a parenthesized specification or a bare
    /// window name.
    pub open spec fn sql(self) -> Seq<char> {
        match self {
            WindowType::WindowSpec(spec) => seq!['('] + spec.sql() + seq![')'],
            WindowType::NamedWindow(name) => name.sql(),
        }
    }

    /// Renders this window back to SQL text.
    pub fn to_sql_string(&self) -> (r: String)
        ensures
            r@ == self.sql(),
    {
        match self {
            WindowType::WindowSpec(spec) => {
                let mut s = String::new();
                push_char(&mut s, '(');
                let t = spec.to_sql_string();
                s.append(t.as_str());
                push_char(&mut s, ')');
                proof {
                    assert(s@ =~= self.sql());
                }
                s
            },
            WindowType::NamedWindow(name) => name.to_sql_string(),
        }
    }
}

impl FetchDirection {
    /// The SQL text of this cursor fetch direction.
    pub open spec fn sql(self) -> Seq<char> {
        match self {
            FetchDirection::Count { limit } => limit.sql(),
            FetchDirection::Next => "NEXT"@,
            FetchDirection::Prior => "PRIOR"@,
            FetchDirection::First => "FIRST"@,
            FetchDirection::Last => "LAST"@,
            FetchDirection::Absolute { limit } => "ABSOLUTE "@ + limit.sql(),
            FetchDirection::Relative { limit } => "RELATIVE "@ + limit.sql(),
            FetchDirection::All => "ALL"@,
            FetchDirection::Forward { limit } => match limit {
                Option::Some(l) => "FORWARD "@ + l.sql(),
                Option::None => "FORWARD"@,
            },
            FetchDirection::ForwardAll => "FORWARD ALL"@,
            FetchDirection::Backward { limit } => match limit {
                Option::Some(l) => "BACKWARD "@ + l.sql(),
                Option::None => "BACKWARD"@,
            },
            FetchDirection::BackwardAll => "BACKWARD ALL"@,
        }
    }

    /// Renders this fetch direction back to SQL text.
    pub fn to_sql_string(&self) -> (r: String)
        ensures
            r@ == self.sql(),
    {
        match self {
            FetchDirection::Count { limit } => limit.to_sql_string(),
            FetchDirection::Next => owned("NEXT"),
            FetchDirection::Prior => owned("PRIOR"),
            FetchDirection::First => owned("FIRST"),
            FetchDirection::Last => owned("LAST"),
            FetchDirection::Absolute { limit } => {
                let mut s = owned("ABSOLUTE ");
                let t = limit.to_sql_string();
                s.append(t.as_str());
                proof {
                    assert(s@ =~= self.sql());
                }
                s
            },
            FetchDirection::Relative { limit } => {
                let mut s = owned("RELATIVE ");
                let t = limit.to_sql_string();
                s.append(t.as_str());
                proof {
                    assert(s@ =~= self.sql());
                }
                s
            },
            FetchDirection::All => owned("ALL"),
            FetchDirection::Forward { limit } => {
                match limit {
                    Option::Some(l) => {
                        let mut s = owned("FORWARD ");
                        let t = l.to_sql_string();
                        s.append(t.as_str());
                        proof {
                            assert(s@ =~= self.sql());
                        }
                        s
                    },
                    Option::None => owned("FORWARD"),
                }
            },
            FetchDirection::ForwardAll => owned("FORWARD ALL"),
            FetchDirection::Backward { limit } => {
                match limit {
                    Option::Some(l) => {
                        let mut s = owned("BACKWARD ");
                        let t = l.to_sql_string();
                        s.append(t.as_str());
                        proof {
                            assert(s@ =~= self.sql());
                        }
                        s
                    },
                    Option::None => owned("BACKWARD"),
                }
            },
            FetchDirection::BackwardAll => owned("BACKWARD ALL"),
        }
    }
}




/// The ` BINARY` marker of a declaration, when requested.
pub open spec fn declare_binary_sql(b: Option<bool>) -> Seq<char> {
    match b {
        Option::Some(true) => " BINARY"@,
        _ => Seq::<char>::empty(),
    }
}

/// The sensitivity marker of a declaration, when present.
pub open spec fn declare_sensitive_sql(b: Option<bool>) -> Seq<char> {
    match b {
        Option::Some(true) => " INSENSITIVE"@,
        Option::Some(false) => " ASENSITIVE"@,
        Option::None => Seq::<char>::empty(),
    }
}

/// The scrolling marker of a declaration, when present.
pub open spec fn declare_scroll_sql(b: Option<bool>) -> Seq<char> {
    match b {
        Option::Some(true) => " SCROLL"@,
        Option::Some(false) => " NO SCROLL"@,
        Option::None => Seq::<char>::empty(),
    }
}

/// The declared kind of a declaration, when present.
pub open spec fn declare_kind_sql(t: Option<DeclareType>) -> Seq<char> {
    match t {
        Option::Some(t) => " "@ + t.sql(),
        Option::None => Seq::<char>::empty(),
    }
}

/// The holdability marker of a declaration, when present.
pub open spec fn declare_hold_sql(b: Option<bool>) -> Seq<char> {
    match b {
        Option::Some(true) => " WITH HOLD"@,
        Option::Some(false) => " WITHOUT HOLD"@,
        Option::None => Seq::<char>::empty(),
    }
}

/// The ` FOR <query>` clause of a declaration, when present.
pub open spec fn declare_for_query_sql(q: Option<Box<Query>>) -> Seq<char>
    decreases q,
{
    match q {
        Option::Some(q) => " FOR "@ + q.sql(),
        Option::None => Seq::<char>::empty(),
    }
}

/// A ` <data type>` clause, when present.
pub open spec fn opt_data_type_sql(t: Option<DataType>) -> Seq<char>
    decreases t,
{
    match t {
        Option::Some(t) => " "@ + t.sql(),
        Option::None => Seq::<char>::empty(),
    }
}

/// A ` <assignment>` clause, when present.
pub open spec fn declare_assignment_sql(a: Option<DeclareAssignment>) -> Seq<char>
    decreases a,
{
    match a {
        Option::Some(a) => " "@ + a.sql(),
        Option::None => Seq::<char>::empty(),
    }
}

impl DeclareType {
    /// The SQL text of this declared-object kind.
    pub open spec fn sql(self) -> Seq<char> {
        match self {
            DeclareType::Cursor => "CURSOR"@,
            DeclareType::ResultSet => "RESULTSET"@,
            DeclareType::Exception => "EXCEPTION"@,
        }
    }

    /// Renders this declared-object kind back to SQL text.
    pub fn to_sql_string(&self) -> (r: String)
        ensures
            r@ == self.sql(),
    {
        match self {
            DeclareType::Cursor => owned("CURSOR"),
            DeclareType::ResultSet => owned("RESULTSET"),
            DeclareType::Exception => owned("EXCEPTION"),
        }
    }
}

impl DeclareAssignment {
    /// The SQL text of this declaration assignment.
    pub open spec fn sql(self) -> Seq<char> {
        match self {
            DeclareAssignment::Expr(e) => e.sql(),
            DeclareAssignment::Default(e) => "DEFAULT "@ + e.sql(),
            DeclareAssignment::DuckAssignment(e) => ":= "@ + e.sql(),
            DeclareAssignment::MsSqlAssignment(e) => "= "@ + e.sql(),
            DeclareAssignment::For(e) => "FOR "@ + e.sql(),
        }
    }

    /// Renders this declaration assignment back to SQL text.
    pub fn to_sql_string(&self) -> (r: String)
        ensures
            r@ == self.sql(),
        decreases self,
    {
        match self {
            DeclareAssignment::Expr(e) => e.to_sql_string(),
            DeclareAssignment::Default(e) => {
                let mut s = owned("DEFAULT ");
                let t = e.to_sql_string();
                s.append(t.as_str());
                proof {
                    assert(s@ =~= self.sql());
                }
                s
            },
            DeclareAssignment::DuckAssignment(e) => {
                let mut s = owned(":= ");
                let t = e.to_sql_string();
                s.append(t.as_str());
                proof {
                    assert(s@ =~= self.sql());
                }
                s
            },
            DeclareAssignment::MsSqlAssignment(e) => {
                let mut s = owned("= ");
                let t = e.to_sql_string();
                s.append(t.as_str());
                proof {
                    assert(s@ =~= self.sql());
                }
                s
            },
            DeclareAssignment::For(e) => {
                let mut s = owned("FOR ");
                let t = e.to_sql_string();
                s.append(t.as_str());
                proof {
                    assert(s@ =~= self.sql());
                }
                s
            },
        }
    }
}

impl Declare {
    /// The SQL text of this declaration, its optional clauses laid out in
    /// the fixed order names, binary, sensitivity, scrolling, declared kind,
    /// holdability, cursor query, data type and assignment.
    pub open spec fn sql(self) -> Seq<char> {
        joined(idents_rendered(self.names@), ", "@) + declare_binary_sql(self.binary)
            + declare_sensitive_sql(self.sensitive) + declare_scroll_sql(self.scroll)
            + declare_kind_sql(self.declare_type) + declare_hold_sql(self.hold)
            + declare_for_query_sql(self.for_query) + opt_data_type_sql(self.data_type)
            + declare_assignment_sql(self.assignment)
    }

    /// Renders this declaration back to SQL text.
    #[verifier::spinoff_prover]
    #[verifier::rlimit(100)]
    pub fn to_sql_string(&self) -> (r: String)
        ensures
            r@ == self.sql(),
    {
        let parts = render_idents(&self.names);
        let mut s = display_comma_separated(&parts);
        match &self.binary {
            Option::Some(true) => s.append(" BINARY"),
            _ => (),
        }
        proof {
            assert(s@ =~= joined(idents_rendered(self.names@), ", "@) + declare_binary_sql(
                self.binary,
            ));
        }
        match &self.sensitive {
            Option::Some(true) => s.append(" INSENSITIVE"),
            Option::Some(false) => s.append(" ASENSITIVE"),
            Option::None => (),
        }
        proof {
            assert(s@ =~= joined(idents_rendered(self.names@), ", "@) + declare_binary_sql(
                self.binary,
            ) + declare_sensitive_sql(self.sensitive));
        }
        match &self.scroll {
            Option::Some(true) => s.append(" SCROLL"),
            Option::Some(false) => s.append(" NO SCROLL"),
            Option::None => (),
        }
        if let Option::Some(t) = &self.declare_type {
            s.append(" ");
            let u = t.to_sql_string();
            s.append(u.as_str());
        }
        proof {
            assert(s@ =~= joined(idents_rendered(self.names@), ", "@) + declare_binary_sql(
                self.binary,
            ) + declare_sensitive_sql(self.sensitive) + declare_scroll_sql(self.scroll)
                + declare_kind_sql(self.declare_type));
        }
        match &self.hold {
            Option::Some(true) => s.append(" WITH HOLD"),
            Option::Some(false) => s.append(" WITHOUT HOLD"),
            Option::None => (),
        }
        if let Option::Some(q) = &self.for_query {
            s.append(" FOR ");
            let u = q.to_sql_string();
            s.append(u.as_str());
        }
        proof {
            assert(s@ =~= joined(idents_rendered(self.names@), ", "@) + declare_binary_sql(
                self.binary,
            ) + declare_sensitive_sql(self.sensitive) + declare_scroll_sql(self.scroll)
                + declare_kind_sql(self.declare_type) + declare_hold_sql(self.hold)
                + declare_for_query_sql(self.for_query));
        }
        if let Option::Some(t) = &self.data_type {
            s.append(" ");
            let u = t.to_sql_string();
            s.append(u.as_str());
        }
        if let Option::Some(a) = &self.assignment {
            s.append(" ");
            let u = a.to_sql_string();
            s.append(u.as_str());
        }
        proof {
            assert(s@ =~= self.sql());
        }
        s
    }
}

impl SequenceOptions {
    /// The SQL text of this sequence option, with its leading space.
    pub open spec fn sql(self) -> Seq<char> {
        match self {
            SequenceOptions::IncrementBy(increment, by) => " INCREMENT"@ + (if by {
                " BY"@
            } else {
                Seq::<char>::empty()
            }) + " "@ + increment.sql(),
            SequenceOptions::MinValue(v) => match v {
                Option::Some(e) => " MINVALUE "@ + e.sql(),
                Option::None => " NO MINVALUE"@,
            },
            SequenceOptions::MaxValue(v) => match v {
                Option::Some(e) => " MAXVALUE "@ + e.sql(),
                Option::None => " NO MAXVALUE"@,
            },
            SequenceOptions::StartWith(start, with) => " START"@ + (if with {
                " WITH"@
            } else {
                Seq::<char>::empty()
            }) + " "@ + start.sql(),
            SequenceOptions::Cache(cache) => " CACHE "@ + cache.sql(),
            SequenceOptions::Cycle(no) => (if no {
                " NO "@
            } else {
                " "@
            }) + "CYCLE"@,
        }
    }

    /// Renders this sequence option back to SQL text.
    pub fn to_sql_string(&self) -> (r: String)
        ensures
            r@ == self.sql(),
        decreases self,
    {
        match self {
            SequenceOptions::IncrementBy(increment, by) => {
                let mut s = owned(" INCREMENT");
                if *by {
                    s.append(" BY");
                }
                s.append(" ");
                let t = increment.to_sql_string();
                s.append(t.as_str());
                proof {
                    assert(s@ =~= self.sql());
                }
                s
            },
            SequenceOptions::MinValue(v) => match v {
                Option::Some(e) => {
                    let mut s = owned(" MINVALUE ");
                    let t = e.to_sql_string();
                    s.append(t.as_str());
                    proof {
                        assert(s@ =~= self.sql());
                    }
                    s
                },
                Option::None => owned(" NO MINVALUE"),
            },
            SequenceOptions::MaxValue(v) => match v {
                Option::Some(e) => {
                    let mut s = owned(" MAXVALUE ");
                    let t = e.to_sql_string();
                    s.append(t.as_str());
                    proof {
                        assert(s@ =~= self.sql());
                    }
                    s
                },
                Option::None => owned(" NO MAXVALUE"),
            },
            SequenceOptions::StartWith(start, with) => {
                let mut s = owned(" START");
                if *with {
                    s.append(" WITH");
                }
                s.append(" ");
                let t = start.to_sql_string();
                s.append(t.as_str());
                proof {
                    assert(s@ =~= self.sql());
                }
                s
            },
            SequenceOptions::Cache(cache) => {
                let mut s = owned(" CACHE ");
                let t = cache.to_sql_string();
                s.append(t.as_str());
                proof {
                    assert(s@ =~= self.sql());
                }
                s
            },
            SequenceOptions::Cycle(no) => {
                let mut s = if *no {
                    owned(" NO ")
                } else {
                    owned(" ")
                };
                s.append("CYCLE");
                proof {
                    assert(s@ =~= self.sql());
                }
                s
            },
        }
    }
}

impl Action {
    /// The SQL text of this privilege action, with its optional column
    /// list.
    pub open spec fn sql(self) -> Seq<char> {
        match self {
            Action::Connect => "CONNECT"@,
            Action::Create => "CREATE"@,
            Action::Delete => "DELETE"@,
            Action::Execute => "EXECUTE"@,
            Action::Insert { columns } => "INSERT"@ + action_columns_sql(columns),
            Action::References { columns } => "REFERENCES"@ + action_columns_sql(columns),
            Action::Select { columns } => "SELECT"@ + action_columns_sql(columns),
            Action::Temporary => "TEMPORARY"@,
            Action::Trigger => "TRIGGER"@,
            Action::Truncate => "TRUNCATE"@,
            Action::Update { columns } => "UPDATE"@ + action_columns_sql(columns),
            Action::Usage => "USAGE"@,
        }
    }

    /// Renders this privilege action back to SQL text.
    pub fn to_sql_string(&self) -> (r: String)
        ensures
            r@ == self.sql(),
    {
        match self {
            Action::Connect => owned("CONNECT"),
            Action::Create => owned("CREATE"),
            Action::Delete => owned("DELETE"),
            Action::Execute => owned("EXECUTE"),
            Action::Insert { columns } => {
                let mut s = owned("INSERT");
                let t = render_action_columns(columns);
                s.append(t.as_str());
                proof {
                    assert(s@ =~= self.sql());
                }
                s
            },
            Action::References { columns } => {
                let mut s = owned("REFERENCES");
                let t = render_action_columns(columns);
                s.append(t.as_str());
                proof {
                    assert(s@ =~= self.sql());
                }
                s
            },
            Action::Select { columns } => {
                let mut s = owned("SELECT");
                let t = render_action_columns(columns);
                s.append(t.as_str());
                proof {
                    assert(s@ =~= self.sql());
                }
                s
            },
            Action::Temporary => owned("TEMPORARY"),
            Action::Trigger => owned("TRIGGER"),
            Action::Truncate => owned("TRUNCATE"),
            Action::Update { columns } => {
                let mut s = owned("UPDATE");
                let t = render_action_columns(columns);
                s.append(t.as_str());
                proof {
                    assert(s@ =~= self.sql());
                }
                s
            },
            Action::Usage => owned("USAGE"),
        }
    }
}

/// The optional ` (col, ...)` suffix of a privilege action.
pub open spec fn action_columns_sql(columns: Option<Vec<Ident>>) -> Seq<char> {
    match columns {
        Option::Some(cols) => " ("@ + joined(idents_rendered(cols@), ", "@) + seq![')'],
        Option::None => Seq::<char>::empty(),
    }
}

fn render_action_columns(columns: &Option<Vec<Ident>>) -> (r: String)
    ensures
        r@ == action_columns_sql(*columns),
{
    match columns {
        Option::Some(cols) => {
            let parts = render_idents(cols);
            let inner = display_comma_separated(&parts);
            let mut s = owned(" (");
            s.append(inner.as_str());
            push_char(&mut s, ')');
            proof {
                assert(s@ =~= action_columns_sql(*columns));
            }
            s
        },
        Option::None => String::new(),
    }
}

/// The SQL texts of a sequence of privilege actions, one per entry.
pub open spec fn actions_rendered(items: Seq<Action>) -> Seq<Seq<char>>
    decreases items,
{
    if items.len() == 0 {
        Seq::<Seq<char>>::empty()
    } else {
        seq![items[0].sql()] + actions_rendered(items.drop_first())
    }
}

pub proof fn lemma_actions_rendered_push(items: Seq<Action>, x: Action)
    ensures
        actions_rendered(items.push(x)) == actions_rendered(items).push(x.sql()),
    decreases items.len(),
{
    if items.len() == 0 {
        assert(items.push(x)[0] == x);
        assert(items.push(x).drop_first() =~= Seq::<Action>::empty());
        assert(actions_rendered(items.push(x).drop_first()) == Seq::<Seq<char>>::empty());
        assert(actions_rendered(items.push(x)) == seq![x.sql()] + Seq::<Seq<char>>::empty());
        assert(seq![x.sql()] + Seq::<Seq<char>>::empty() =~= seq![x.sql()]);
        assert(actions_rendered(items).push(x.sql()) =~= seq![x.sql()]);
    } else {
        assert(items.push(x)[0] == items[0]);
        assert(items.push(x).drop_first() =~= items.drop_first().push(x));
        lemma_actions_rendered_push(items.drop_first(), x);
        assert(actions_rendered(items.push(x)) == seq![items[0].sql()] + actions_rendered(
            items.drop_first().push(x),
        ));
        assert(actions_rendered(items) == seq![items[0].sql()] + actions_rendered(
            items.drop_first(),
        ));
        assert(actions_rendered(items.push(x)) =~= actions_rendered(items).push(x.sql()));
    }
}

/// Renders each privilege action of a list.
pub fn render_actions(items: &Vec<Action>) -> (parts: Vec<String>)
    ensures
        views_of(parts@) == actions_rendered(items@),
{
    let mut parts: Vec<String> = Vec::new();
    let mut i: usize = 0;
    proof {
        assert(views_of(parts@) =~= actions_rendered(items@.subrange(0, 0)));
    }
    while i < items.len()
        invariant
            i <= items@.len(),
            views_of(parts@) == actions_rendered(items@.subrange(0, i as int)),
        decreases items@.len() - i,
    {
        let ghost pre = parts@;
        parts.push(items[i].to_sql_string());
        proof {
            assert(items@.subrange(0, i + 1int) =~= items@.subrange(0, i as int).push(
                items@[i as int],
            ));
            lemma_actions_rendered_push(items@.subrange(0, i as int), items@[i as int]);
            assert(views_of(parts@) =~= views_of(pre).push(items@[i as int].sql()));
        }
        i = i + 1;
    }
    proof {
        assert(items@.subrange(0, items@.len() as int) =~= items@);
    }
    parts
}

impl Privileges {
    /// The SQL text of this privilege set.
    pub open spec fn sql(self) -> Seq<char> {
        match self {
            Privileges::All { with_privileges_keyword } => "ALL"@ + (if with_privileges_keyword {
                " PRIVILEGES"@
            } else {
                Seq::<char>::empty()
            }),
            Privileges::Actions(actions) => joined(actions_rendered(actions@), ", "@),
        }
    }

    /// Renders this privilege set back to SQL text.
    pub fn to_sql_string(&self) -> (r: String)
        ensures
            r@ == self.sql(),
    {
        match self {
            Privileges::All { with_privileges_keyword } => {
                let mut s = owned("ALL");
                if *with_privileges_keyword {
                    s.append(" PRIVILEGES");
                }
                proof {
                    assert(s@ =~= self.sql());
                }
                s
            },
            Privileges::Actions(actions) => {
                let parts = render_actions(actions);
                display_comma_separated(&parts)
            },
        }
    }
}

impl GrantObjects {
    /// The SQL text of this grant-object list.
    pub open spec fn sql(self) -> Seq<char> {
        match self {
            GrantObjects::Sequences(sequences) => "SEQUENCE "@ + joined(
                object_names_rendered(sequences@),
                ", "@,
            ),
            GrantObjects::Schemas(schemas) => "SCHEMA "@ + joined(
                object_names_rendered(schemas@),
                ", "@,
            ),
            GrantObjects::Tables(tables) => joined(object_names_rendered(tables@), ", "@),
            GrantObjects::AllSequencesInSchema { schemas } => "ALL SEQUENCES IN SCHEMA "@ + joined(
                object_names_rendered(schemas@),
                ", "@,
            ),
            GrantObjects::AllTablesInSchema { schemas } => "ALL TABLES IN SCHEMA "@ + joined(
                object_names_rendered(schemas@),
                ", "@,
            ),
        }
    }

    /// Renders this grant-object list back to SQL text.
    pub fn to_sql_string(&self) -> (r: String)
        ensures
            r@ == self.sql(),
    {
        match self {
            GrantObjects::Sequences(sequences) => {
                let mut s = owned("SEQUENCE ");
                let parts = render_object_names(sequences);
                let inner = display_comma_separated(&parts);
                s.append(inner.as_str());
                proof {
                    assert(s@ =~= self.sql());
                }
                s
            },
            GrantObjects::Schemas(schemas) => {
                let mut s = owned("SCHEMA ");
                let parts = render_object_names(schemas);
                let inner = display_comma_separated(&parts);
                s.append(inner.as_str());
                proof {
                    assert(s@ =~= self.sql());
                }
                s
            },
            GrantObjects::Tables(tables) => {
                let parts = render_object_names(tables);
                display_comma_separated(&parts)
            },
            GrantObjects::AllSequencesInSchema { schemas } => {
                let mut s = owned("ALL SEQUENCES IN SCHEMA ");
                let parts = render_object_names(schemas);
                let inner = display_comma_separated(&parts);
                s.append(inner.as_str());
                proof {
                    assert(s@ =~= self.sql());
                }
                s
            },
            GrantObjects::AllTablesInSchema { schemas } => {
                let mut s = owned("ALL TABLES IN SCHEMA ");
                let parts = render_object_names(schemas);
                let inner = display_comma_separated(&parts);
                s.append(inner.as_str());
                proof {
                    assert(s@ =~= self.sql());
                }
                s
            },
        }
    }
}

impl FunctionBehavior {
    /// The SQL text of this function behavior.
    pub open spec fn sql(self) -> Seq<char> {
        match self {
            FunctionBehavior::Immutable => "IMMUTABLE"@,
            FunctionBehavior::Stable => "STABLE"@,
            FunctionBehavior::Volatile => "VOLATILE"@,
        }
    }

    /// Renders this function behavior back to SQL text.
    pub fn to_sql_string(&self) -> (r: String)
        ensures
            r@ == self.sql(),
    {
        match self {
            FunctionBehavior::Immutable => owned("IMMUTABLE"),
            FunctionBehavior::Stable => owned("STABLE"),
            FunctionBehavior::Volatile => owned("VOLATILE"),
        }
    }
}

impl FunctionCalledOnNull {
    /// The SQL text of this null-input behavior.
    pub open spec fn sql(self) -> Seq<char> {
        match self {
            FunctionCalledOnNull::CalledOnNullInput => "CALLED ON NULL INPUT"@,
            FunctionCalledOnNull::ReturnsNullOnNullInput => "RETURNS NULL ON NULL INPUT"@,
            FunctionCalledOnNull::Strict => "STRICT"@,
        }
    }

    /// Renders this null-input behavior back to SQL text.
    pub fn to_sql_string(&self) -> (r: String)
        ensures
            r@ == self.sql(),
    {
        match self {
            FunctionCalledOnNull::CalledOnNullInput => owned("CALLED ON NULL INPUT"),
            FunctionCalledOnNull::ReturnsNullOnNullInput => owned("RETURNS NULL ON NULL INPUT"),
            FunctionCalledOnNull::Strict => owned("STRICT"),
        }
    }
}

impl FunctionParallel {
    /// The SQL text of this parallelism marker.
    pub open spec fn sql(self) -> Seq<char> {
        match self {
            FunctionParallel::Unsafe => "PARALLEL UNSAFE"@,
            FunctionParallel::Restricted => "PARALLEL RESTRICTED"@,
            FunctionParallel::Safe => "PARALLEL SAFE"@,
        }
    }

    /// Renders this parallelism marker back to SQL text.
    pub fn to_sql_string(&self) -> (r: String)
        ensures
            r@ == self.sql(),
    {
        match self {
            FunctionParallel::Unsafe => owned("PARALLEL UNSAFE"),
            FunctionParallel::Restricted => owned("PARALLEL RESTRICTED"),
            FunctionParallel::Safe => owned("PARALLEL SAFE"),
        }
    }
}

impl FunctionDefinition {
    /// The SQL text of this function definition.
    pub open spec fn sql(self) -> Seq<char> {
        match self {
            FunctionDefinition::SingleQuotedDef(s) => seq!['\''] + s@ + seq!['\''],
            FunctionDefinition::DoubleDollarDef(s) => "$$"@ + s@ + "$$"@,
        }
    }

    /// Renders this function definition back to SQL text.
    pub fn to_sql_string(&self) -> (r: String)
        ensures
            r@ == self.sql(),
    {
        match self {
            FunctionDefinition::SingleQuotedDef(d) => {
                let mut s = String::new();
                push_char(&mut s, '\'');
                s.append(d.as_str());
                push_char(&mut s, '\'');
                proof {
                    assert(s@ =~= self.sql());
                }
                s
            },
            FunctionDefinition::DoubleDollarDef(d) => {
                let mut s = owned("$$");
                s.append(d.as_str());
                s.append("$$");
                proof {
                    assert(s@ =~= self.sql());
                }
                s
            },
        }
    }
}

impl CreateFunctionUsing {
    /// The SQL text of this `USING` clause.
    pub open spec fn sql(self) -> Seq<char> {
        "USING "@ + (match self {
            CreateFunctionUsing::Jar(uri) => "JAR '"@ + uri@ + seq!['\''],
            CreateFunctionUsing::File(uri) => "FILE '"@ + uri@ + seq!['\''],
            CreateFunctionUsing::Archive(uri) => "ARCHIVE '"@ + uri@ + seq!['\''],
        })
    }

    /// Renders this `USING` clause back to SQL text.
    pub fn to_sql_string(&self) -> (r: String)
        ensures
            r@ == self.sql(),
    {
        let mut s = owned("USING ");
        match self {
            CreateFunctionUsing::Jar(uri) => {
                s.append("JAR '");
                s.append(uri.as_str());
                push_char(&mut s, '\'');
            },
            CreateFunctionUsing::File(uri) => {
                s.append("FILE '");
                s.append(uri.as_str());
                push_char(&mut s, '\'');
            },
            CreateFunctionUsing::Archive(uri) => {
                s.append("ARCHIVE '");
                s.append(uri.as_str());
                push_char(&mut s, '\'');
            },
        }
        proof {
            assert(s@ =~= self.sql());
        }
        s
    }
}



/// The behavior marker of a function body, when present.
pub open spec fn body_behavior_sql(b: Option<FunctionBehavior>) -> Seq<char> {
    match b {
        Option::Some(b) => " "@ + b.sql(),
        Option::None => Seq::<char>::empty(),
    }
}

/// The null-input marker of a function body, when present.
pub open spec fn body_called_on_null_sql(c: Option<FunctionCalledOnNull>) -> Seq<char> {
    match c {
        Option::Some(c) => " "@ + c.sql(),
        Option::None => Seq::<char>::empty(),
    }
}

/// The parallelism marker of a function body, when present.
pub open spec fn body_parallel_sql(p: Option<FunctionParallel>) -> Seq<char> {
    match p {
        Option::Some(p) => " "@ + p.sql(),
        Option::None => Seq::<char>::empty(),
    }
}

/// The ` LANGUAGE <name>` clause of a function body, when present.
pub open spec fn body_language_sql(l: Option<Ident>) -> Seq<char>
    decreases l,
{
    match l {
        Option::Some(l) => " LANGUAGE "@ + l.sql(),
        Option::None => Seq::<char>::empty(),
    }
}

/// The ` AS <definition>` clause of a function body, when present.
pub open spec fn body_definition_sql(d: Option<FunctionDefinition>) -> Seq<char>
    decreases d,
{
    match d {
        Option::Some(d) => " AS "@ + d.sql(),
        Option::None => Seq::<char>::empty(),
    }
}

/// The ` RETURN <expr>` clause of a function body, when present.
pub open spec fn body_return_sql(e: Option<Expr>) -> Seq<char>
    decreases e,
{
    match e {
        Option::Some(e) => " RETURN "@ + e.sql(),
        Option::None => Seq::<char>::empty(),
    }
}

/// The ` USING ...` clause of a function body, when present.
pub open spec fn body_using_sql(u: Option<CreateFunctionUsing>) -> Seq<char>
    decreases u,
{
    match u {
        Option::Some(u) => " "@ + u.sql(),
        Option::None => Seq::<char>::empty(),
    }
}

impl CreateFunctionBody {
    /// The SQL text of this function body: its optional clauses in the fixed
    /// order language, behavior, null-input behavior, parallelism,
    /// definition, return expression and `USING` clause, each with a leading
    /// space.
    pub open spec fn sql(self) -> Seq<char> {
        body_language_sql(self.language) + body_behavior_sql(self.behavior)
            + body_called_on_null_sql(self.called_on_null) + body_parallel_sql(self.parallel)
            + body_definition_sql(self.as_) + body_return_sql(self.return_) + body_using_sql(
            self.using,
        )
    }

    /// Renders the language, behavior, null-input and parallelism clauses.
    #[verifier::rlimit(100)]
    fn head_to_sql_string(&self) -> (r: String)
        ensures
            r@ == body_language_sql(self.language) + body_behavior_sql(self.behavior)
                + body_called_on_null_sql(self.called_on_null) + body_parallel_sql(self.parallel),
    {
        let mut s = String::new();
        if let Option::Some(l) = &self.language {
            s.append(" LANGUAGE ");
            let t = l.to_sql_string();
            s.append(t.as_str());
        }
        proof {
            assert(s@ =~= body_language_sql(self.language));
        }
        if let Option::Some(b) = &self.behavior {
            s.append(" ");
            let t = b.to_sql_string();
            s.append(t.as_str());
        }
        proof {
            assert(s@ =~= body_language_sql(self.language) + body_behavior_sql(self.behavior));
        }
        if let Option::Some(c) = &self.called_on_null {
            s.append(" ");
            let t = c.to_sql_string();
            s.append(t.as_str());
        }
        proof {
            assert(s@ =~= body_language_sql(self.language) + body_behavior_sql(self.behavior)
                + body_called_on_null_sql(self.called_on_null));
        }
        if let Option::Some(p) = &self.parallel {
            s.append(" ");
            let t = p.to_sql_string();
            s.append(t.as_str());
        }
        proof {
            assert(s@ =~= body_language_sql(self.language) + body_behavior_sql(self.behavior)
                + body_called_on_null_sql(self.called_on_null) + body_parallel_sql(self.parallel));
        }
        s
    }

    /// Renders this function body back to SQL text.
    #[verifier::rlimit(100)]
    pub fn to_sql_string(&self) -> (r: String)
        ensures
            r@ == self.sql(),
    {
        let mut s = self.head_to_sql_string();
        if let Option::Some(d) = &self.as_ {
            s.append(" AS ");
            let t = d.to_sql_string();
            s.append(t.as_str());
        }
        proof {
            assert(s@ =~= body_language_sql(self.language) + body_behavior_sql(self.behavior)
                + body_called_on_null_sql(self.called_on_null) + body_parallel_sql(self.parallel)
                + body_definition_sql(self.as_));
        }
        if let Option::Some(e) = &self.return_ {
            s.append(" RETURN ");
            let t = e.to_sql_string();
            s.append(t.as_str());
        }
        if let Option::Some(u) = &self.using {
            s.append(" ");
            let t = u.to_sql_string();
            s.append(t.as_str());
        }
        proof {
            assert(s@ =~= self.sql());
        }
        s
    }
}


impl Array {
    /// The SQL text of this array expression.
    pub open spec fn sql(self) -> Seq<char> {
        (if self.named {
            "ARRAY"@
        } else {
            Seq::<char>::empty()
        }) + seq!['['] + joined(exprs_rendered(self.elem@), ", "@) + seq![']']
    }

    /// Renders this array expression back to SQL text.
    pub fn to_sql_string(&self) -> (r: String)
        ensures
            r@ == self.sql(),
    {
        let mut s = String::new();
        if self.named {
            s.append("ARRAY");
        }
        push_char(&mut s, '[');
        let parts = render_exprs(&self.elem);
        let inner = display_comma_separated(&parts);
        s.append(inner.as_str());
        push_char(&mut s, ']');
        proof {
            assert(s@ =~= self.sql());
        }
        s
    }
}

impl StructField {
    /// The SQL text of this struct field definition.
    pub open spec fn sql(self) -> Seq<char> {
        match self.field_name {
            Option::Some(n) => n.sql() + " "@ + self.field_type.sql(),
            Option::None => self.field_type.sql(),
        }
    }

    /// Renders this struct field back to SQL text.
    pub fn to_sql_string(&self) -> (r: String)
        ensures
            r@ == self.sql(),
    {
        match &self.field_name {
            Option::Some(n) => {
                let mut s = n.to_sql_string();
                s.append(" ");
                let t = self.field_type.to_sql_string();
                s.append(t.as_str());
                proof {
                    assert(s@ =~= self.sql());
                }
                s
            },
            Option::None => self.field_type.to_sql_string(),
        }
    }
}

impl DictionaryField {
    /// The SQL text of this dictionary field.
    pub open spec fn sql(self) -> Seq<char> {
        self.key.sql() + ": "@ + self.value.sql()
    }

    /// Renders this dictionary field back to SQL text.
    pub fn to_sql_string(&self) -> (r: String)
        ensures
            r@ == self.sql(),
    {
        let mut s = self.key.to_sql_string();
        s.append(": ");
        let t = self.value.to_sql_string();
        s.append(t.as_str());
        s
    }
}

impl MapAccessKey {
    /// The SQL text of this map access.
    pub open spec fn sql(self) -> Seq<char> {
        match self.syntax {
            MapAccessSyntax::Bracket => seq!['['] + self.key.sql() + seq![']'],
            MapAccessSyntax::Period => seq!['.'] + self.key.sql(),
        }
    }

    /// Renders this map access back to SQL text.
    pub fn to_sql_string(&self) -> (r: String)
        ensures
            r@ == self.sql(),
    {
        match self.syntax {
            MapAccessSyntax::Bracket => {
                let mut s = String::new();
                push_char(&mut s, '[');
                let t = self.key.to_sql_string();
                s.append(t.as_str());
                push_char(&mut s, ']');
                proof {
                    assert(s@ =~= self.sql());
                }
                s
            },
            MapAccessSyntax::Period => {
                let mut s = String::new();
                push_char(&mut s, '.');
                let t = self.key.to_sql_string();
                s.append(t.as_str());
                proof {
                    assert(s@ =~= self.sql());
                }
                s
            },
        }
    }
}

impl CastFormat {
    /// The SQL text of this cast format clause.
    pub open spec fn sql(self) -> Seq<char> {
        match self {
            CastFormat::Value(v) => v.sql(),
            CastFormat::ValueAtTimeZone(v, tz) => v.sql() + " AT TIME ZONE "@ + tz.sql(),
        }
    }

    /// Renders this cast format back to SQL text.
    pub fn to_sql_string(&self) -> (r: String)
        ensures
            r@ == self.sql(),
    {
        match self {
            CastFormat::Value(v) => v.to_sql_string(),
            CastFormat::ValueAtTimeZone(v, tz) => {
                let mut s = v.to_sql_string();
                s.append(" AT TIME ZONE ");
                let t = tz.to_sql_string();
                s.append(t.as_str());
                proof {
                    assert(s@ =~= self.sql());
                }
                s
            },
        }
    }
}

impl Subscript {
    /// The SQL text of this subscript: a plain index, or a slice with its
    /// optional bounds and stride.
    pub open spec fn sql(self) -> Seq<char> {
        match self {
            Subscript::Index { index } => index.sql(),
            Subscript::Slice { lower_bound, upper_bound, stride } => (match lower_bound {
                Option::Some(l) => l.sql(),
                Option::None => Seq::<char>::empty(),
            }) + seq![':'] + (match upper_bound {
                Option::Some(u) => u.sql(),
                Option::None => Seq::<char>::empty(),
            }) + (match stride {
                Option::Some(st) => seq![':'] + st.sql(),
                Option::None => Seq::<char>::empty(),
            }),
        }
    }

    /// Renders this subscript back to SQL text.
    pub fn to_sql_string(&self) -> (r: String)
        ensures
            r@ == self.sql(),
    {
        match self {
            Subscript::Index { index } => index.to_sql_string(),
            Subscript::Slice { lower_bound, upper_bound, stride } => {
                let mut s = String::new();
                if let Option::Some(l) = lower_bound {
                    let t = l.to_sql_string();
                    s.append(t.as_str());
                }
                push_char(&mut s, ':');
                if let Option::Some(u) = upper_bound {
                    let t = u.to_sql_string();
                    s.append(t.as_str());
                }
                if let Option::Some(st) = stride {
                    push_char(&mut s, ':');
                    let t = st.to_sql_string();
                    s.append(t.as_str());
                }
                proof {
                    assert(s@ =~= self.sql());
                }
                s
            },
        }
    }
}

/// The SQL text of one element of a JSON path; the first element is
/// introduced by a colon, later dotted elements by a period.
pub open spec fn json_path_elem_sql(e: JsonPathElem, first: bool) -> Seq<char> {
    match e {
        JsonPathElem::Dot { key, quoted } => (if first {
            seq![':']
        } else {
            seq!['.']
        }) + (if quoted {
            seq!['"'] + crate::text::escaped(key@, '"') + seq!['"']
        } else {
            key@
        }),
        JsonPathElem::Bracket { key } => seq!['['] + key.sql() + seq![']'],
    }
}

/// The SQL text of the elements of a JSON path, `first` saying whether the
/// head element opens the path.
pub open spec fn json_path_sql_from(elems: Seq<JsonPathElem>, first: bool) -> Seq<char>
    decreases elems,
{
    if elems.len() == 0 {
        Seq::<char>::empty()
    } else {
        json_path_elem_sql(elems[0], first) + json_path_sql_from(elems.drop_first(), false)
    }
}

pub proof fn lemma_json_path_push(elems: Seq<JsonPathElem>, x: JsonPathElem, first: bool)
    ensures
        json_path_sql_from(elems.push(x), first) == json_path_sql_from(elems, first)
            + json_path_elem_sql(x, first && elems.len() == 0),
    decreases elems.len(),
{
    let tail = json_path_elem_sql(x, first && elems.len() == 0);
    if elems.len() == 0 {
        assert(elems.push(x)[0] == x);
        assert(elems.push(x).drop_first() =~= Seq::<JsonPathElem>::empty());
        assert(json_path_sql_from(elems.push(x).drop_first(), false) == Seq::<char>::empty());
        assert(json_path_sql_from(elems.push(x), first) == json_path_elem_sql(x, first)
            + Seq::<char>::empty());
        assert(json_path_elem_sql(x, first) + Seq::<char>::empty() =~= tail);
        assert(json_path_sql_from(elems, first) + tail =~= tail);
    } else {
        assert(elems.push(x)[0] == elems[0]);
        assert(elems.push(x).drop_first() =~= elems.drop_first().push(x));
        lemma_json_path_push(elems.drop_first(), x, false);
        let head = json_path_elem_sql(elems[0], first);
        assert(json_path_sql_from(elems.push(x), first) == head + json_path_sql_from(
            elems.drop_first().push(x),
            false,
        ));
        assert(json_path_sql_from(elems, first) == head + json_path_sql_from(
            elems.drop_first(),
            false,
        ));
        assert(head + (json_path_sql_from(elems.drop_first(), false) + tail) =~= (head
            + json_path_sql_from(elems.drop_first(), false)) + tail);
        assert(json_path_sql_from(elems.push(x), first) =~= json_path_sql_from(elems, first)
            + tail);
    }
}

impl JsonPathElem {
    /// Renders this path element back to SQL text, `first` saying whether it
    /// opens the path.
    pub fn to_sql_string(&self, first: bool) -> (r: String)
        ensures
            r@ == json_path_elem_sql(*self, first),
    {
        match self {
            JsonPathElem::Dot { key, quoted } => {
                let mut s = String::new();
                if first {
                    push_char(&mut s, ':');
                } else {
                    push_char(&mut s, '.');
                }
                if *quoted {
                    push_char(&mut s, '"');
                    let esc = crate::text::escape_quoted_string(key.as_str(), '"');
                    s.append(esc.as_str());
                    push_char(&mut s, '"');
                } else {
                    s.append(key.as_str());
                }
                proof {
                    assert(s@ =~= json_path_elem_sql(*self, first));
                }
                s
            },
            JsonPathElem::Bracket { key } => {
                let mut s = String::new();
                push_char(&mut s, '[');
                let t = key.to_sql_string();
                s.append(t.as_str());
                push_char(&mut s, ']');
                proof {
                    assert(s@ =~= json_path_elem_sql(*self, first));
                }
                s
            },
        }
    }
}

impl JsonPath {
    /// The SQL text of this JSON path.
    pub open spec fn sql(self) -> Seq<char> {
        json_path_sql_from(self.path@, true)
    }

    /// Renders this JSON path back to SQL text.
    pub fn to_sql_string(&self) -> (r: String)
        ensures
            r@ == self.sql(),
    {
        let mut s = String::new();
        let mut i: usize = 0;
        proof {
            assert(self.path@.subrange(0, 0) =~= Seq::<JsonPathElem>::empty());
        }
        while i < self.path.len()
            invariant
                i <= self.path@.len(),
                s@ == json_path_sql_from(self.path@.subrange(0, i as int), true),
            decreases self.path@.len() - i,
        {
            let piece = self.path[i].to_sql_string(i == 0);
            s.append(piece.as_str());
            proof {
                assert(self.path@.subrange(0, i + 1int) =~= self.path@.subrange(0, i as int).push(
                    self.path@[i as int],
                ));
                lemma_json_path_push(self.path@.subrange(0, i as int), self.path@[i as int], true);
            }
            i = i + 1;
        }
        proof {
            assert(self.path@.subrange(0, self.path@.len() as int) =~= self.path@);
        }
        s
    }
}

/// The SQL text of lambda parameters: one bare name, or a parenthesized
/// list.
pub open spec fn lambda_params_sql(p: OneOrManyWithParens<Ident>) -> Seq<char> {
    match p {
        OneOrManyWithParens::One(i) => i.sql(),
        OneOrManyWithParens::Many(v) => seq!['('] + joined(idents_rendered(v@), ", "@) + seq![')'],
    }
}

/// Renders lambda parameters back to SQL text.
pub fn render_lambda_params(p: &OneOrManyWithParens<Ident>) -> (r: String)
    ensures
        r@ == lambda_params_sql(*p),
{
    match p {
        OneOrManyWithParens::One(i) => i.to_sql_string(),
        OneOrManyWithParens::Many(v) => {
            let parts = render_idents(v);
            let inner = display_comma_separated(&parts);
            let mut s = String::new();
            push_char(&mut s, '(');
            s.append(inner.as_str());
            push_char(&mut s, ')');
            proof {
                assert(s@ =~= lambda_params_sql(*p));
            }
            s
        },
    }
}

impl LambdaFunction {
    /// The SQL text of this lambda function.
    pub open spec fn sql(self) -> Seq<char> {
        lambda_params_sql(self.params) + " -> "@ + self.body.sql()
    }

    /// Renders this lambda function back to SQL text.
    pub fn to_sql_string(&self) -> (r: String)
        ensures
            r@ == self.sql(),
    {
        let mut s = render_lambda_params(&self.params);
        s.append(" -> ");
        let t = self.body.to_sql_string();
        s.append(t.as_str());
        s
    }
}

} // verus!
