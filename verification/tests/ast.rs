//! Tests of AST construction and rendering.
use sqlparser::ast::catalog::{
    Action, Array, CastFormat, CreateFunctionBody, CreateFunctionUsing, Declare,
    DeclareAssignment, DeclareType, DictionaryField, FetchDirection, FunctionBehavior,
    FunctionDefinition, GrantObjects, JsonPath, JsonPathElem, LambdaFunction, MapAccessKey,
    MapAccessSyntax, OneOrManyWithParens, Privileges, SequenceOptions, StructField, Subscript,
    WindowFrame, WindowFrameBound, WindowFrameUnits, WindowSpec,
};
use sqlparser::ast::query::{OrderByExpr, Query, SelectItem, SetExpr, Select};
use sqlparser::ast::value::Value;
use sqlparser::ast::{DataType, DateTimeField, Expr, Ident, Interval, ObjectName};

#[test]
fn test_window_frame_default() {
    let window_frame = WindowFrame::default();
    assert_eq!(WindowFrameBound::Preceding(None), window_frame.start_bound);
    assert_eq!(WindowFrameUnits::Range, window_frame.units);
    assert_eq!(None, window_frame.end_bound);
}

#[test]
fn test_grouping_sets_display() {
    // a and b in different group
    let grouping_sets = Expr::GroupingSets(vec![
        vec![Expr::Identifier(Ident::new("a"))],
        vec![Expr::Identifier(Ident::new("b"))],
    ]);
    assert_eq!("GROUPING SETS ((a), (b))", grouping_sets.to_sql_string());

    // a and b in the same group
    let grouping_sets = Expr::GroupingSets(vec![vec![
        Expr::Identifier(Ident::new("a")),
        Expr::Identifier(Ident::new("b")),
    ]]);
    assert_eq!("GROUPING SETS ((a, b))", grouping_sets.to_sql_string());

    // (a, b) and (c, d) in different group
    let grouping_sets = Expr::GroupingSets(vec![
        vec![
            Expr::Identifier(Ident::new("a")),
            Expr::Identifier(Ident::new("b")),
        ],
        vec![
            Expr::Identifier(Ident::new("c")),
            Expr::Identifier(Ident::new("d")),
        ],
    ]);
    assert_eq!(
        "GROUPING SETS ((a, b), (c, d))",
        grouping_sets.to_sql_string()
    );
}

#[test]
fn test_rollup_display() {
    let rollup = Expr::Rollup(vec![vec![Expr::Identifier(Ident::new("a"))]]);
    assert_eq!("ROLLUP (a)", rollup.to_sql_string());

    let rollup = Expr::Rollup(vec![vec![
        Expr::Identifier(Ident::new("a")),
        Expr::Identifier(Ident::new("b")),
    ]]);
    assert_eq!("ROLLUP ((a, b))", rollup.to_sql_string());

    let rollup = Expr::Rollup(vec![
        vec![Expr::Identifier(Ident::new("a"))],
        vec![Expr::Identifier(Ident::new("b"))],
    ]);
    assert_eq!("ROLLUP (a, b)", rollup.to_sql_string());

    let rollup = Expr::Rollup(vec![
        vec![Expr::Identifier(Ident::new("a"))],
        vec![
            Expr::Identifier(Ident::new("b")),
            Expr::Identifier(Ident::new("c")),
        ],
        vec![Expr::Identifier(Ident::new("d"))],
    ]);
    assert_eq!("ROLLUP (a, (b, c), d)", rollup.to_sql_string());
}

#[test]
fn test_cube_display() {
    let cube = Expr::Cube(vec![vec![Expr::Identifier(Ident::new("a"))]]);
    assert_eq!("CUBE (a)", cube.to_sql_string());

    let cube = Expr::Cube(vec![vec![
        Expr::Identifier(Ident::new("a")),
        Expr::Identifier(Ident::new("b")),
    ]]);
    assert_eq!("CUBE ((a, b))", cube.to_sql_string());

    let cube = Expr::Cube(vec![
        vec![Expr::Identifier(Ident::new("a"))],
        vec![Expr::Identifier(Ident::new("b"))],
    ]);
    assert_eq!("CUBE (a, b)", cube.to_sql_string());

    let cube = Expr::Cube(vec![
        vec![Expr::Identifier(Ident::new("a"))],
        vec![
            Expr::Identifier(Ident::new("b")),
            Expr::Identifier(Ident::new("c")),
        ],
        vec![Expr::Identifier(Ident::new("d"))],
    ]);
    assert_eq!("CUBE (a, (b, c), d)", cube.to_sql_string());
}

#[test]
fn test_interval_display() {
    let interval = Expr::Interval(Interval {
        value: Box::new(Expr::Value(Value::SingleQuotedString(String::from(
            "123:45.67",
        )))),
        leading_field: Some(DateTimeField::Minute),
        leading_precision: Some(10),
        last_field: Some(DateTimeField::Second),
        fractional_seconds_precision: Some(9),
    });
    assert_eq!(
        "INTERVAL '123:45.67' MINUTE (10) TO SECOND (9)",
        interval.to_sql_string(),
    );

    let interval = Expr::Interval(Interval {
        value: Box::new(Expr::Value(Value::SingleQuotedString(String::from("5")))),
        leading_field: Some(DateTimeField::Second),
        leading_precision: Some(1),
        last_field: None,
        fractional_seconds_precision: Some(3),
    });
    assert_eq!("INTERVAL '5' SECOND (1, 3)", interval.to_sql_string());
}

#[test]
fn test_ident_quote_styles() {
    assert_eq!("plain", Ident::new("plain").to_sql_string());
    assert_eq!("\"a b\"", Ident::with_quote('"', "a b").to_sql_string());
    assert_eq!("`tick`", Ident::with_quote('`', "tick").to_sql_string());
    assert_eq!("[ms]", Ident::with_quote('[', "ms").to_sql_string());
    // A quote character inside the value is doubled on the way out.
    assert_eq!("\"a\"\"b\"", Ident::with_quote('"', "a\"b").to_sql_string());
}

fn ident_expr(name: &str) -> Expr {
    Expr::Identifier(Ident::new(name))
}

fn num(n: &str) -> Expr {
    Expr::Value(Value::Number(n.to_string()))
}

#[test]
fn test_window_spec_display() {
    let spec = WindowSpec {
        window_name: Some(Ident::new("w")),
        partition_by: vec![ident_expr("a")],
        order_by: vec![OrderByExpr {
            expr: ident_expr("b"),
            asc: Some(false),
            nulls_first: None,
        }],
        window_frame: Some(WindowFrame {
            units: WindowFrameUnits::Rows,
            start_bound: WindowFrameBound::Preceding(Some(Box::new(num("5")))),
            end_bound: Some(WindowFrameBound::CurrentRow),
        }),
    };
    assert_eq!(
        "w PARTITION BY a ORDER BY b DESC ROWS BETWEEN 5 PRECEDING AND CURRENT ROW",
        spec.to_sql_string()
    );
    let bare = WindowSpec {
        window_name: None,
        partition_by: vec![],
        order_by: vec![],
        window_frame: Some(WindowFrame::default()),
    };
    assert_eq!("RANGE UNBOUNDED PRECEDING", bare.to_sql_string());
}

#[test]
fn test_fetch_direction_display() {
    assert_eq!("FORWARD ALL", FetchDirection::ForwardAll.to_sql_string());
    assert_eq!(
        "ABSOLUTE 7",
        FetchDirection::Absolute {
            limit: Value::Number("7".to_string())
        }
        .to_sql_string()
    );
    assert_eq!(
        "BACKWARD 2",
        FetchDirection::Backward {
            limit: Some(Value::Number("2".to_string()))
        }
        .to_sql_string()
    );
    assert_eq!(
        "FORWARD",
        FetchDirection::Forward { limit: None }.to_sql_string()
    );
}

fn select_one() -> Query {
    Query {
        with: None,
        body: Box::new(SetExpr::Select(Box::new(Select {
            distinct: false,
            projection: vec![SelectItem::UnnamedExpr(num("1"))],
            from: vec![],
            selection: None,
            group_by: vec![],
            having: None,
        }))),
        order_by: vec![],
        limit: None,
        offset: None,
        fetch: None,
    }
}

#[test]
fn test_declare_display() {
    let declare = Declare {
        names: vec![Ident::new("x")],
        data_type: Some(DataType::Int),
        assignment: Some(DeclareAssignment::Default(Box::new(num("42")))),
        declare_type: None,
        binary: None,
        sensitive: None,
        scroll: None,
        hold: None,
        for_query: None,
    };
    assert_eq!("x INT DEFAULT 42", declare.to_sql_string());

    let cursor = Declare {
        names: vec![Ident::new("c1")],
        data_type: None,
        assignment: None,
        declare_type: Some(DeclareType::Cursor),
        binary: Some(true),
        sensitive: Some(false),
        scroll: Some(true),
        hold: Some(false),
        for_query: Some(Box::new(select_one())),
    };
    assert_eq!(
        "c1 BINARY ASENSITIVE SCROLL CURSOR WITHOUT HOLD FOR SELECT 1",
        cursor.to_sql_string()
    );
}

#[test]
fn test_sequence_options_display() {
    assert_eq!(
        " INCREMENT BY 2",
        SequenceOptions::IncrementBy(num("2"), true).to_sql_string()
    );
    assert_eq!(
        " START 10",
        SequenceOptions::StartWith(num("10"), false).to_sql_string()
    );
    assert_eq!(" NO CYCLE", SequenceOptions::Cycle(true).to_sql_string());
    assert_eq!(
        " NO MINVALUE",
        SequenceOptions::MinValue(None).to_sql_string()
    );
    assert_eq!(
        " MAXVALUE 99",
        SequenceOptions::MaxValue(Some(num("99"))).to_sql_string()
    );
}

#[test]
fn test_privileges_and_grant_objects_display() {
    let p = Privileges::Actions(vec![
        Action::Select {
            columns: Some(vec![Ident::new("a"), Ident::new("b")]),
        },
        Action::Usage,
    ]);
    assert_eq!("SELECT (a, b), USAGE", p.to_sql_string());
    assert_eq!(
        "ALL PRIVILEGES",
        Privileges::All {
            with_privileges_keyword: true
        }
        .to_sql_string()
    );
    let g = GrantObjects::AllTablesInSchema {
        schemas: vec![ObjectName(vec![Ident::new("public")])],
    };
    assert_eq!("ALL TABLES IN SCHEMA public", g.to_sql_string());
}

#[test]
fn test_create_function_body_display() {
    let body = CreateFunctionBody {
        language: Some(Ident::new("plpgsql")),
        behavior: Some(FunctionBehavior::Immutable),
        called_on_null: None,
        parallel: None,
        as_: Some(FunctionDefinition::DoubleDollarDef("select 1".to_string())),
        return_: None,
        using: Some(CreateFunctionUsing::Jar("x.jar".to_string())),
    };
    assert_eq!(
        " LANGUAGE plpgsql IMMUTABLE AS $$select 1$$ USING JAR 'x.jar'",
        body.to_sql_string()
    );
}

#[test]
fn test_expression_payload_display() {
    let arr = Array {
        elem: vec![num("1"), num("2")],
        named: true,
    };
    assert_eq!("ARRAY[1, 2]", arr.to_sql_string());
    let bare = Array {
        elem: vec![],
        named: false,
    };
    assert_eq!("[]", bare.to_sql_string());

    let field = StructField {
        field_name: Some(Ident::new("x")),
        field_type: DataType::Int,
    };
    assert_eq!("x INT", field.to_sql_string());

    let dict = DictionaryField {
        key: Ident::new("k"),
        value: Box::new(num("1")),
    };
    assert_eq!("k: 1", dict.to_sql_string());

    let access = MapAccessKey {
        key: num("0"),
        syntax: MapAccessSyntax::Bracket,
    };
    assert_eq!("[0]", access.to_sql_string());

    let fmt = CastFormat::ValueAtTimeZone(
        Value::SingleQuotedString("YYYY".to_string()),
        Value::SingleQuotedString("UTC".to_string()),
    );
    assert_eq!("'YYYY' AT TIME ZONE 'UTC'", fmt.to_sql_string());

    let slice = Subscript::Slice {
        lower_bound: Some(num("1")),
        upper_bound: Some(num("6")),
        stride: Some(num("2")),
    };
    assert_eq!("1:6:2", slice.to_sql_string());

    let path = JsonPath {
        path: vec![
            JsonPathElem::Dot {
                key: "a b".to_string(),
                quoted: true,
            },
            JsonPathElem::Dot {
                key: "c".to_string(),
                quoted: false,
            },
            JsonPathElem::Bracket { key: num("0") },
        ],
    };
    assert_eq!(":\"a b\".c[0]", path.to_sql_string());

    let lambda = LambdaFunction {
        params: OneOrManyWithParens::Many(vec![Ident::new("x"), Ident::new("y")]),
        body: Box::new(ident_expr("x")),
    };
    assert_eq!("(x, y) -> x", lambda.to_sql_string());
}
