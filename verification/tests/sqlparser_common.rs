//! Tests of the dialect-independent grammar: operator precedence, the
//! recursion guard, round trips, determinism and error reporting.
use sqlparser::ast::operator::{BinaryOperator, UnaryOperator};
use sqlparser::ast::query::{SetExpr, TableFactor};
use sqlparser::ast::{DataType, Expr, Ident, ObjectName, Statement, Value};
use sqlparser::dialect::{DatabricksDialect, Dialect, MsSqlDialect};
use sqlparser::parser::{Parser, ParserError};
use sqlparser::tokenizer::{Token, Tokenizer};

fn parse_expr(dialect: Dialect, sql: &str) -> Result<Expr, ParserError> {
    let tokens = Tokenizer::new(dialect, sql).tokenize().unwrap();
    let mut parser = Parser::new(tokens, dialect);
    parser.parse_expr()
}

fn verified_stmt(sql: &str) -> Statement {
    let mut stmts = Parser::parse_sql(Dialect::Generic, sql).unwrap();
    assert_eq!(stmts.len(), 1);
    let stmt = stmts.pop().unwrap();
    assert_eq!(sql, stmt.to_sql_string());
    stmt
}

fn ident_expr(name: &str) -> Expr {
    Expr::Identifier(Ident::new(name))
}

fn num(n: &str) -> Expr {
    Expr::Value(Value::Number(n.to_string()))
}

#[test]
fn parse_precedence_mul_before_plus() {
    // 1 + 2 * 3 groups as 1 + (2 * 3), not (1 + 2) * 3.
    let e = parse_expr(Dialect::Generic, "1 + 2 * 3").unwrap();
    assert_eq!(
        e,
        Expr::BinaryOp {
            left: Box::new(num("1")),
            op: BinaryOperator::Plus,
            right: Box::new(Expr::BinaryOp {
                left: Box::new(num("2")),
                op: BinaryOperator::Multiply,
                right: Box::new(num("3")),
            }),
        }
    );
}

#[test]
fn parse_precedence_not_before_and() {
    // NOT a AND b groups as (NOT a) AND b.
    let e = parse_expr(Dialect::Generic, "NOT a AND b").unwrap();
    assert_eq!(
        e,
        Expr::BinaryOp {
            left: Box::new(Expr::UnaryOp {
                op: UnaryOperator::Not,
                expr: Box::new(ident_expr("a")),
            }),
            op: BinaryOperator::And,
            right: Box::new(ident_expr("b")),
        }
    );
}

#[test]
fn parse_determinism() {
    // Parsing the same (text, dialect) pair twice yields equal results.
    let sql = "SELECT a, b FROM t WHERE a IS NOT NULL AND b > 1 ORDER BY a LIMIT 10";
    let first = Parser::parse_sql(Dialect::Generic, sql);
    let second = Parser::parse_sql(Dialect::Generic, sql);
    assert_eq!(first, second);
    let bad = "SELECT * FROM";
    assert_eq!(
        Parser::parse_sql(Dialect::Generic, bad),
        Parser::parse_sql(Dialect::Generic, bad)
    );
}

fn nested_parens(depth: usize) -> String {
    let mut s = String::new();
    for _ in 0..depth {
        s.push('(');
    }
    s.push('1');
    for _ in 0..depth {
        s.push(')');
    }
    s
}

#[test]
fn parse_recursion_guard() {
    // Shallow nesting parses; nesting beyond the limit fails with the
    // dedicated error, not a stack overflow.
    let ok = parse_expr(Dialect::Generic, &nested_parens(10));
    assert!(ok.is_ok());
    let deep = parse_expr(Dialect::Generic, &nested_parens(100));
    assert_eq!(deep, Err(ParserError::RecursionLimitExceeded));
    // A lowered limit rejects shallower nesting.
    let tokens = Tokenizer::new(Dialect::Generic, &nested_parens(10))
        .tokenize()
        .unwrap();
    let mut parser = Parser::new(tokens, Dialect::Generic).with_recursion_limit(5);
    assert_eq!(parser.parse_expr(), Err(ParserError::RecursionLimitExceeded));
}

#[test]
fn parse_convert_dialect_divergence() {
    // MSSQL writes the target type first; other dialects take the value
    // first, so the same text parses differently.
    let mssql = parse_expr(Dialect::MsSql, "CONVERT(INT, x)").unwrap();
    assert_eq!(
        mssql,
        Expr::Convert {
            expr: Box::new(ident_expr("x")),
            data_type: Some(DataType::Int),
            charset: None,
            target_before_value: true,
        }
    );
    assert_eq!("CONVERT(INT, x)", mssql.to_sql_string());
    let generic = parse_expr(Dialect::Generic, "CONVERT(INT, x)").unwrap();
    assert_eq!(
        generic,
        Expr::Convert {
            expr: Box::new(ident_expr("INT")),
            data_type: Some(DataType::Custom(ObjectName(vec![Ident::new("x")]))),
            charset: None,
            target_before_value: false,
        }
    );
    assert_ne!(mssql, generic);
    // The carrier types agree with the dialect table.
    assert!(MsSqlDialect {}.settings().convert_type_before_value);
    assert!(MsSqlDialect {}.is_delimited_identifier_start('['));
    assert!(DatabricksDialect {}.is_delimited_identifier_start('`'));
    assert!(!DatabricksDialect {}.is_identifier_part('#'));
}

#[test]
fn parse_quoted_identifier_fidelity() {
    // SELECT "a b" keeps both the value and the quote style through a
    // parse/render round trip.
    let stmt = verified_stmt("SELECT \"a b\"");
    match &stmt {
        Statement::Query(q) => match q.body.as_ref() {
            SetExpr::Select(s) => {
                assert_eq!(s.projection.len(), 1);
                match &s.projection[0] {
                    sqlparser::ast::query::SelectItem::UnnamedExpr(Expr::Identifier(i)) => {
                        assert_eq!(i.value, "a b");
                        assert_eq!(i.quote_style, Some('"'));
                    }
                    other => panic!("unexpected projection {other:?}"),
                }
            }
            other => panic!("unexpected body {other:?}"),
        },
        other => panic!("unexpected statement {other:?}"),
    }
    // Backtick quoting under a dialect that admits it.
    let e = parse_expr(Dialect::MySql, "`a b`").unwrap();
    assert_eq!(e, Expr::Identifier(Ident::with_quote('`', "a b")));
    assert_eq!("`a b`", e.to_sql_string());
}

#[test]
fn parse_error_locality() {
    // A truncated statement names the construct that is missing.
    let res = Parser::parse_sql(Dialect::Generic, "SELECT * FROM");
    assert_eq!(
        res,
        Err(ParserError::ParserError(
            "Expected identifier, found: EOF".to_string()
        ))
    );
    let res = Parser::parse_sql(Dialect::Generic, "SELECT 1 +");
    assert_eq!(
        res,
        Err(ParserError::ParserError(
            "Expected an expression, found: EOF".to_string()
        ))
    );
}

#[test]
fn parse_query_scenario() {
    let sql = "SELECT a, b FROM t WHERE a IS NOT NULL AND b > 1 ORDER BY a LIMIT 10";
    let stmt = verified_stmt(sql);
    match &stmt {
        Statement::Query(q) => {
            assert_eq!(q.limit, Some(num("10")));
            assert_eq!(q.order_by.len(), 1);
            assert_eq!(q.order_by[0].expr, ident_expr("a"));
            match q.body.as_ref() {
                SetExpr::Select(s) => {
                    assert_eq!(s.projection.len(), 2);
                    let selection = s.selection.as_ref().unwrap();
                    assert_eq!(
                        *selection,
                        Expr::BinaryOp {
                            left: Box::new(Expr::IsNotNull(Box::new(ident_expr("a")))),
                            op: BinaryOperator::And,
                            right: Box::new(Expr::BinaryOp {
                                left: Box::new(ident_expr("b")),
                                op: BinaryOperator::Gt,
                                right: Box::new(num("1")),
                            }),
                        }
                    );
                    assert_eq!(s.from.len(), 1);
                    match &s.from[0].relation {
                        TableFactor::Table { name, alias } => {
                            assert_eq!(name.to_sql_string(), "t");
                            assert!(alias.is_none());
                        }
                        other => panic!("unexpected relation {other:?}"),
                    }
                }
                other => panic!("unexpected body {other:?}"),
            }
        }
        other => panic!("unexpected statement {other:?}"),
    }
}

#[test]
fn parse_round_trip_canonicalizes() {
    // parse . render . parse is the same as parse, also when the input is
    // not already canonical.
    let inputs = [
        ("select 1 + 2 * 3", "SELECT 1 + 2 * 3"),
        ("SELECT x::text FROM t", "SELECT CAST(x AS TEXT) FROM t"),
        (
            "SELECT a FROM t WHERE a BETWEEN 1 AND 3",
            "SELECT a FROM t WHERE a BETWEEN 1 AND 3",
        ),
        (
            "SELECT CASE WHEN a THEN 1 ELSE 2 END FROM t",
            "SELECT CASE WHEN a THEN 1 ELSE 2 END FROM t",
        ),
    ];
    for (sql, canonical) in inputs {
        let first = Parser::parse_sql(Dialect::Generic, sql).unwrap();
        let rendered = first[0].to_sql_string();
        assert_eq!(rendered, canonical);
        let second = Parser::parse_sql(Dialect::Generic, &rendered).unwrap();
        assert_eq!(first, second);
    }
}

#[test]
fn parse_verified_statements() {
    // Exact round trips over a spread of the grammar.
    let cases = [
        "SELECT DISTINCT a AS x, COUNT(*) FROM t AS u GROUP BY a HAVING COUNT(*) > 1",
        "SELECT * FROM a JOIN b ON a.id = b.id LEFT JOIN c USING(id) CROSS JOIN d",
        "SELECT a FROM t WHERE a IN (1, 2, 3) AND b NOT IN (SELECT b FROM u)",
        "SELECT a FROM t WHERE EXISTS (SELECT 1 FROM u) AND a LIKE 'x%'",
        "SELECT a FROM t UNION ALL SELECT a FROM u ORDER BY a OFFSET 5 ROWS",
        "SELECT a FROM t ORDER BY a DESC NULLS FIRST FETCH FIRST 3 ROWS ONLY",
        "WITH cte AS (SELECT 1) SELECT * FROM cte",
        "SELECT (1, 2), (SELECT a FROM t), -b, NOT c FROM u",
        "SELECT INTERVAL '1' YEAR, INTERVAL '123:45.67' MINUTE (10) TO SECOND (9)",
        "SELECT a | b ^ c & d, a || b, a % b FROM t",
        "INSERT INTO t (a, b) VALUES (1, 'x'), (2, 'y')",
        "INSERT INTO t SELECT a FROM u",
        "DELETE FROM t WHERE a = 1",
        "DROP TABLE t",
        "DROP TABLE IF EXISTS a, b CASCADE",
        "CREATE TABLE t (a INT PRIMARY KEY, b NUMERIC(10, 2), CONSTRAINT u UNIQUE (a, b))",
        "CREATE EXTERNAL TABLE t (a INT) STORED AS PARQUET LOCATION '/tmp/x'",
        "SELECT CASE a WHEN 1 THEN 'one' WHEN 2 THEN 'two' ELSE 'many' END FROM t",
        "SELECT a FROM (SELECT b FROM t) AS sub",
        "SELECT TRY_CAST(a AS BIGINT) FROM t",
        "SELECT a FROM t WHERE a IS NULL OR b IS NOT TRUE",
    ];
    for sql in cases {
        verified_stmt(sql);
    }
}

#[test]
fn parse_multiple_statements() {
    let stmts = Parser::parse_sql(Dialect::Generic, "SELECT 1; SELECT 2;").unwrap();
    assert_eq!(stmts.len(), 2);
    let res = Parser::parse_sql(Dialect::Generic, "SELECT 1 SELECT 2");
    assert_eq!(
        res,
        Err(ParserError::ParserError(
            "Expected end of statement, found: SELECT".to_string()
        ))
    );
}

#[test]
fn tokenize_preserves_source_text() {
    // The lexemes of the tokens, laid end to end, are exactly the input.
    let inputs = [
        "SELECT /* block /* nested */ comment */ 'it''s' -- trailing\n1.5e-3 <> 2",
        "a != b\t||\nc::d \"quoted id\" [1]",
    ];
    for sql in inputs {
        let tokens = Tokenizer::new(Dialect::Generic, sql).tokenize().unwrap();
        let mut rebuilt = String::new();
        for t in &tokens {
            assert!(!matches!(t, Token::EOF));
            rebuilt.push_str(&sqlparser::tokenizer::token_to_string(t));
        }
        assert_eq!(sql, rebuilt);
    }
}

#[test]
fn tokenize_reports_position() {
    let err = Tokenizer::new(Dialect::Generic, "SELECT\n 'unterminated")
        .tokenize()
        .unwrap_err();
    assert_eq!(err.message, "Unterminated string literal");
    assert_eq!(err.line, 2);
    assert_eq!(err.col, 2);
    let err = Tokenizer::new(Dialect::Generic, "/* never closed")
        .tokenize()
        .unwrap_err();
    assert_eq!(err.message, "Unterminated multi-line comment");
    let err = Tokenizer::new(Dialect::Generic, "SELECT ?").tokenize().unwrap_err();
    assert_eq!(err.message, "Unexpected character in input");
    // Through the parser entry point, tokenizer failures carry the position.
    let res = Parser::parse_sql(Dialect::Generic, "SELECT 'open");
    assert_eq!(
        res,
        Err(ParserError::TokenizerError(
            "Unterminated string literal at Line: 1, Column: 8".to_string()
        ))
    );
}

#[test]
fn parse_numeric_type_arguments() {
    // Every value that fits an unsigned machine integer is accepted, leading
    // zeros included; anything larger is refused.
    let ok = Parser::parse_sql(
        Dialect::Generic,
        "CREATE TABLE t (a CHARACTER VARYING(18446744073709551615), b CHAR(007))",
    );
    assert!(ok.is_ok());
    let too_big = Parser::parse_sql(
        Dialect::Generic,
        "CREATE TABLE t (a CHARACTER VARYING(18446744073709551616))",
    );
    assert_eq!(
        too_big,
        Err(ParserError::ParserError(
            "Expected literal int, found: 18446744073709551616".to_string()
        ))
    );
}

#[test]
fn parse_keywords_case_insensitively() {
    let mut stmts = Parser::parse_sql(Dialect::Generic, "select A fRoM t").unwrap();
    let stmt = stmts.pop().unwrap();
    assert_eq!("SELECT A FROM t", stmt.to_sql_string());
}

#[test]
fn parse_bracket_identifiers_under_mssql() {
    let sql = "SELECT [a b] FROM [t]";
    let mut stmts = Parser::parse_sql(Dialect::MsSql, sql).unwrap();
    let stmt = stmts.pop().unwrap();
    assert_eq!(sql, stmt.to_sql_string());
    let e = parse_expr(Dialect::MsSql, "[a b]").unwrap();
    assert_eq!(e, Expr::Identifier(Ident::with_quote('[', "a b")));
    // Under the generic dialect a bracket is subscript punctuation, not a
    // quote, so the same text does not parse as an identifier.
    assert!(Parser::parse_sql(Dialect::Generic, sql).is_err());
}

#[test]
fn parse_skips_whitespace_and_comments() {
    let commented = "SELECT -- line comment\n 1 /* block */ + 2";
    let plain = "SELECT 1 + 2";
    let a = Parser::parse_sql(Dialect::Generic, commented).unwrap();
    let b = Parser::parse_sql(Dialect::Generic, plain).unwrap();
    assert_eq!(a, b);
}

#[test]
fn parse_preserves_literal_text() {
    // Numeric literals keep their spelling; string escapes are doubled back
    // out.
    for sql in ["SELECT 1.5e-3", "SELECT 007", "SELECT 'it''s'"] {
        verified_stmt(sql);
    }
}

#[test]
fn parse_identifier_start_is_dialect_specific() {
    // `#` may start an identifier under the generic rules but not under
    // PostgreSQL's.
    assert!(Parser::parse_sql(Dialect::Generic, "SELECT #tmp FROM t").is_ok());
    let res = Parser::parse_sql(Dialect::PostgreSql, "SELECT #tmp FROM t");
    assert_eq!(
        res,
        Err(ParserError::TokenizerError(
            "Unexpected character in input at Line: 1, Column: 8".to_string()
        ))
    );
}

#[test]
fn parse_group_by_special_forms() {
    let cases = [
        "SELECT a FROM t GROUP BY ROLLUP (a, (b, c), d)",
        "SELECT a FROM t GROUP BY CUBE ((a, b), c)",
        "SELECT a FROM t GROUP BY GROUPING SETS ((a), (b), (a, b))",
        "SELECT a FROM t GROUP BY a, ROLLUP (b)",
    ];
    for sql in cases {
        verified_stmt(sql);
    }
    let stmt = verified_stmt("SELECT a FROM t GROUP BY CUBE (a, b)");
    match &stmt {
        Statement::Query(q) => match q.body.as_ref() {
            SetExpr::Select(s) => {
                assert_eq!(
                    s.group_by,
                    vec![Expr::Cube(vec![
                        vec![ident_expr("a")],
                        vec![ident_expr("b")],
                    ])]
                );
            }
            other => panic!("unexpected body {other:?}"),
        },
        other => panic!("unexpected statement {other:?}"),
    }
}

#[test]
fn parse_unicode_identifiers_under_mssql() {
    // SQL Server classifies identifier letters by the Unicode alphabet, not
    // by ASCII ranges.
    let sql = "SELECT caf\u{e9} FROM t";
    let mut stmts = Parser::parse_sql(Dialect::MsSql, sql).unwrap();
    let stmt = stmts.pop().unwrap();
    assert_eq!(sql, stmt.to_sql_string());
    assert!(MsSqlDialect {}.is_identifier_start('\u{e9}'));
    assert!(MsSqlDialect {}.is_identifier_part('\u{e9}'));
    // PostgreSQL's classes here are ASCII, so the same text is rejected.
    assert!(Parser::parse_sql(Dialect::PostgreSql, sql).is_err());
}

#[test]
fn parse_empty_input() {
    // An input without tokens yields no statements, as do bare semicolons.
    assert_eq!(Parser::parse_sql(Dialect::Generic, "").unwrap(), vec![]);
    assert_eq!(Parser::parse_sql(Dialect::Generic, " ;; ").unwrap(), vec![]);
}
