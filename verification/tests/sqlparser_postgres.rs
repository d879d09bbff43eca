//! Tests of SQL syntax specific to PostgreSQL. The parser based on the
//! generic dialect is also tested (on the inputs it can handle).
use sqlparser::ast::ddl::{ColumnDef, ColumnOption, ColumnOptionDef};
use sqlparser::ast::{
    DataType, Expr, Ident, ObjectName, SetVariableValue, SqlOption, Statement, Value,
};
use sqlparser::dialect::Dialect;
use sqlparser::parser::{Parser, ParserError};
use sqlparser::tokenizer::Tokenizer;

fn pg() -> Vec<Dialect> {
    vec![Dialect::PostgreSql]
}

fn pg_and_generic() -> Vec<Dialect> {
    vec![Dialect::PostgreSql, Dialect::Generic]
}

fn parse_sql_statements(
    dialects: &[Dialect],
    sql: &str,
) -> Result<Vec<Statement>, ParserError> {
    let mut result: Option<Result<Vec<Statement>, ParserError>> = None;
    for d in dialects {
        let r = Parser::parse_sql(*d, sql);
        if let Some(prev) = &result {
            assert_eq!(*prev, r, "dialects disagree on {sql}");
        } else {
            result = Some(r);
        }
    }
    result.unwrap()
}

fn one_statement_parses_to(dialects: &[Dialect], sql: &str, canonical: &str) -> Statement {
    let mut statements = parse_sql_statements(dialects, sql).unwrap();
    assert_eq!(statements.len(), 1);
    if !canonical.is_empty() && sql != canonical {
        assert_eq!(parse_sql_statements(dialects, canonical).unwrap(), statements);
    }
    let only_statement = statements.pop().unwrap();
    if !canonical.is_empty() {
        assert_eq!(canonical, only_statement.to_sql_string());
    }
    only_statement
}

fn verified_stmt(dialects: &[Dialect], sql: &str) -> Statement {
    one_statement_parses_to(dialects, sql, sql)
}

fn verified_expr(dialects: &[Dialect], sql: &str) -> Expr {
    let mut result: Option<Expr> = None;
    for d in dialects {
        let tokens = Tokenizer::new(*d, sql).tokenize().unwrap();
        let mut parser = Parser::new(tokens, *d);
        let e = parser.parse_expr().unwrap();
        assert_eq!(sql, e.to_sql_string(), "expression fails to round-trip");
        if let Some(prev) = &result {
            assert_eq!(*prev, e);
        } else {
            result = Some(e);
        }
    }
    result.unwrap()
}

fn number(n: &str) -> Value {
    Value::Number(n.to_string())
}

#[test]
fn parse_create_table_with_defaults() {
    let sql = "CREATE TABLE public.customer (
            customer_id integer DEFAULT nextval(public.customer_customer_id_seq),
            store_id smallint NOT NULL,
            first_name character varying(45) NOT NULL,
            last_name character varying(45) COLLATE \"es_ES\" NOT NULL,
            email character varying(50),
            address_id smallint NOT NULL,
            activebool boolean DEFAULT true NOT NULL,
            create_date date DEFAULT now()::text NOT NULL,
            last_update timestamp without time zone DEFAULT now() NOT NULL,
            active integer NOT NULL
    ) WITH (fillfactor = 20, user_catalog_table = true, autovacuum_vacuum_threshold = 100)";
    match one_statement_parses_to(&pg_and_generic(), sql, "") {
        Statement::CreateTable {
            name,
            columns,
            constraints,
            with_options,
            if_not_exists: false,
            external: false,
            file_format: None,
            location: None,
        } => {
            assert_eq!("public.customer", name.to_sql_string());
            assert_eq!(
                columns,
                vec![
                    ColumnDef {
                        name: Ident::new("customer_id"),
                        data_type: DataType::Int,
                        collation: None,
                        options: vec![ColumnOptionDef {
                            name: None,
                            option: ColumnOption::Default(verified_expr(
                                &pg(),
                                "nextval(public.customer_customer_id_seq)"
                            ))
                        }],
                    },
                    ColumnDef {
                        name: Ident::new("store_id"),
                        data_type: DataType::SmallInt,
                        collation: None,
                        options: vec![ColumnOptionDef {
                            name: None,
                            option: ColumnOption::NotNull,
                        }],
                    },
                    ColumnDef {
                        name: Ident::new("first_name"),
                        data_type: DataType::Varchar(Some(45)),
                        collation: None,
                        options: vec![ColumnOptionDef {
                            name: None,
                            option: ColumnOption::NotNull,
                        }],
                    },
                    ColumnDef {
                        name: Ident::new("last_name"),
                        data_type: DataType::Varchar(Some(45)),
                        collation: Some(ObjectName(vec![Ident::with_quote('"', "es_ES")])),
                        options: vec![ColumnOptionDef {
                            name: None,
                            option: ColumnOption::NotNull,
                        }],
                    },
                    ColumnDef {
                        name: Ident::new("email"),
                        data_type: DataType::Varchar(Some(50)),
                        collation: None,
                        options: vec![],
                    },
                    ColumnDef {
                        name: Ident::new("address_id"),
                        data_type: DataType::SmallInt,
                        collation: None,
                        options: vec![ColumnOptionDef {
                            name: None,
                            option: ColumnOption::NotNull
                        }],
                    },
                    ColumnDef {
                        name: Ident::new("activebool"),
                        data_type: DataType::Boolean,
                        collation: None,
                        options: vec![
                            ColumnOptionDef {
                                name: None,
                                option: ColumnOption::Default(Expr::Value(Value::Boolean(true))),
                            },
                            ColumnOptionDef {
                                name: None,
                                option: ColumnOption::NotNull,
                            }
                        ],
                    },
                    ColumnDef {
                        name: Ident::new("create_date"),
                        data_type: DataType::Date,
                        collation: None,
                        options: vec![
                            ColumnOptionDef {
                                name: None,
                                option: ColumnOption::Default(verified_expr(
                                    &pg(),
                                    "CAST(now() AS TEXT)"
                                ))
                            },
                            ColumnOptionDef {
                                name: None,
                                option: ColumnOption::NotNull,
                            }
                        ],
                    },
                    ColumnDef {
                        name: Ident::new("last_update"),
                        data_type: DataType::Timestamp,
                        collation: None,
                        options: vec![
                            ColumnOptionDef {
                                name: None,
                                option: ColumnOption::Default(verified_expr(&pg(), "now()")),
                            },
                            ColumnOptionDef {
                                name: None,
                                option: ColumnOption::NotNull,
                            }
                        ],
                    },
                    ColumnDef {
                        name: Ident::new("active"),
                        data_type: DataType::Int,
                        collation: None,
                        options: vec![ColumnOptionDef {
                            name: None,
                            option: ColumnOption::NotNull
                        }],
                    },
                ]
            );
            assert!(constraints.is_empty());
            assert_eq!(
                with_options,
                vec![
                    SqlOption {
                        name: Ident::new("fillfactor"),
                        value: number("20")
                    },
                    SqlOption {
                        name: Ident::new("user_catalog_table"),
                        value: Value::Boolean(true)
                    },
                    SqlOption {
                        name: Ident::new("autovacuum_vacuum_threshold"),
                        value: number("100")
                    },
                ]
            );
        }
        _ => unreachable!(),
    }
}

#[test]
fn parse_create_table_from_pg_dump() {
    let sql = "CREATE TABLE public.customer (
            customer_id integer DEFAULT nextval('public.customer_customer_id_seq'::regclass) NOT NULL,
            store_id smallint NOT NULL,
            first_name character varying(45) NOT NULL,
            last_name character varying(45) NOT NULL,
            info text[],
            address_id smallint NOT NULL,
            activebool boolean DEFAULT true NOT NULL,
            create_date date DEFAULT now()::DATE NOT NULL,
            create_date1 date DEFAULT 'now'::TEXT::date NOT NULL,
            last_update timestamp without time zone DEFAULT now(),
            release_year public.year,
            active integer
        )";
    one_statement_parses_to(&pg(), sql, "CREATE TABLE public.customer (\
            customer_id INT DEFAULT nextval(CAST('public.customer_customer_id_seq' AS REGCLASS)) NOT NULL, \
            store_id SMALLINT NOT NULL, \
            first_name CHARACTER VARYING(45) NOT NULL, \
            last_name CHARACTER VARYING(45) NOT NULL, \
            info TEXT[], \
            address_id SMALLINT NOT NULL, \
            activebool BOOLEAN DEFAULT true NOT NULL, \
            create_date DATE DEFAULT CAST(now() AS DATE) NOT NULL, \
            create_date1 DATE DEFAULT CAST(CAST('now' AS TEXT) AS DATE) NOT NULL, \
            last_update TIMESTAMP DEFAULT now(), \
            release_year public.year, \
            active INT\
        )");
}

#[test]
fn parse_create_table_with_inherit() {
    let sql = "\
               CREATE TABLE bazaar.settings (\
               settings_id UUID PRIMARY KEY DEFAULT uuid_generate_v4() NOT NULL, \
               user_id UUID UNIQUE, \
               value TEXT[], \
               use_metric BOOLEAN DEFAULT true\
               )";
    verified_stmt(&pg(), sql);
}

#[test]
fn parse_create_table_empty() {
    // Zero-column tables are weird, but supported by at least PostgreSQL.
    let _ = verified_stmt(&pg_and_generic(), "CREATE TABLE t ()");
}

#[test]
fn parse_create_table_constraints_only() {
    // Zero-column tables can also have constraints in PostgreSQL
    let sql = "CREATE TABLE t (CONSTRAINT positive CHECK (2 > 1))";
    let ast = verified_stmt(&pg_and_generic(), sql);
    match ast {
        Statement::CreateTable {
            name,
            columns,
            constraints,
            ..
        } => {
            assert_eq!("t", name.to_sql_string());
            assert!(columns.is_empty());
            assert_eq!(constraints.len(), 1);
            assert_eq!(
                constraints[0].to_sql_string(),
                "CONSTRAINT positive CHECK (2 > 1)"
            );
        }
        _ => unreachable!(),
    };
}

#[test]
fn parse_create_table_if_not_exists() {
    let sql = "CREATE TABLE IF NOT EXISTS uk_cities ()";
    let ast = verified_stmt(&pg_and_generic(), sql);
    match ast {
        Statement::CreateTable {
            name,
            if_not_exists: true,
            ..
        } => {
            assert_eq!("uk_cities", name.to_sql_string());
        }
        _ => unreachable!(),
    }
}

#[test]
fn parse_bad_if_not_exists() {
    let res = parse_sql_statements(&pg(), "CREATE TABLE NOT EXISTS uk_cities ()");
    assert_eq!(
        ParserError::ParserError("Expected end of statement, found: EXISTS".to_string()),
        res.unwrap_err()
    );

    let res = parse_sql_statements(&pg(), "CREATE TABLE IF EXISTS uk_cities ()");
    assert_eq!(
        ParserError::ParserError("Expected end of statement, found: EXISTS".to_string()),
        res.unwrap_err()
    );

    let res = parse_sql_statements(&pg(), "CREATE TABLE IF uk_cities ()");
    assert_eq!(
        ParserError::ParserError("Expected end of statement, found: uk_cities".to_string()),
        res.unwrap_err()
    );

    let res = parse_sql_statements(&pg(), "CREATE TABLE IF NOT uk_cities ()");
    assert_eq!(
        ParserError::ParserError("Expected end of statement, found: NOT".to_string()),
        res.unwrap_err()
    );
}

#[test]
fn parse_set() {
    let stmt = verified_stmt(&pg_and_generic(), "SET a = b");
    assert_eq!(
        stmt,
        Statement::SetVariable {
            local: false,
            hivevar: false,
            variable: Ident::new("a"),
            value: vec![SetVariableValue::Ident(Ident::new("b"))],
        }
    );

    let stmt = verified_stmt(&pg_and_generic(), "SET a = 'b'");
    assert_eq!(
        stmt,
        Statement::SetVariable {
            local: false,
            hivevar: false,
            variable: Ident::new("a"),
            value: vec![SetVariableValue::Literal(Value::SingleQuotedString(
                "b".to_string()
            ))],
        }
    );

    let stmt = verified_stmt(&pg_and_generic(), "SET a = 0");
    assert_eq!(
        stmt,
        Statement::SetVariable {
            local: false,
            hivevar: false,
            variable: Ident::new("a"),
            value: vec![SetVariableValue::Literal(number("0"))],
        }
    );

    let stmt = verified_stmt(&pg_and_generic(), "SET a = DEFAULT");
    assert_eq!(
        stmt,
        Statement::SetVariable {
            local: false,
            hivevar: false,
            variable: Ident::new("a"),
            value: vec![SetVariableValue::Ident(Ident::new("DEFAULT"))],
        }
    );

    let stmt = verified_stmt(&pg_and_generic(), "SET LOCAL a = b");
    assert_eq!(
        stmt,
        Statement::SetVariable {
            local: true,
            hivevar: false,
            variable: Ident::new("a"),
            value: vec![SetVariableValue::Ident(Ident::new("b"))],
        }
    );

    one_statement_parses_to(&pg_and_generic(), "SET a TO b", "SET a = b");
    one_statement_parses_to(&pg_and_generic(), "SET SESSION a = b", "SET a = b");

    assert_eq!(
        parse_sql_statements(&pg_and_generic(), "SET"),
        Err(ParserError::ParserError(
            "Expected identifier, found: EOF".to_string()
        )),
    );

    assert_eq!(
        parse_sql_statements(&pg_and_generic(), "SET a b"),
        Err(ParserError::ParserError(
            "Expected equals sign or TO, found: b".to_string()
        )),
    );

    assert_eq!(
        parse_sql_statements(&pg_and_generic(), "SET a ="),
        Err(ParserError::ParserError(
            "Expected variable value, found: EOF".to_string()
        )),
    );
}

#[test]
fn parse_show() {
    let stmt = verified_stmt(&pg_and_generic(), "SHOW a");
    assert_eq!(
        stmt,
        Statement::ShowVariable {
            variable: Ident::new("a")
        }
    );

    let stmt = verified_stmt(&pg_and_generic(), "SHOW ALL");
    assert_eq!(
        stmt,
        Statement::ShowVariable {
            variable: Ident::new("ALL")
        }
    )
}
