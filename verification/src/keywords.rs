//! The keyword table: a static, case-insensitive mapping from keyword text
//! to a keyword identifier, consulted by the tokenizer for every bare word,
//! together with the reserved-word lists the parser uses to decide whether a
//! bare word after an expression or a table name is an alias.
use vstd::prelude::*;

use crate::text::str_eq;

verus! {

/// Every keyword the grammar knows. A word that matches none of them (after
/// ASCII uppercasing) carries `NoKeyword`.
#[derive(Debug, Clone, Copy, PartialEq, Eq, Structural)]
pub enum Keyword {
    NoKeyword,
    ALL,
    AND,
    ARRAY,
    AS,
    ASC,
    AVRO,
    BETWEEN,
    BIGINT,
    BOOLEAN,
    BOTH,
    BY,
    CASCADE,
    CASE,
    CAST,
    CHAR,
    CHARACTER,
    CHECK,
    COLLATE,
    CONSTRAINT,
    CONVERT,
    CREATE,
    CROSS,
    CUBE,
    DATE,
    DAY,
    DECIMAL,
    DEFAULT,
    DELETE,
    DESC,
    DISTINCT,
    DOUBLE,
    DROP,
    ELSE,
    END,
    ESCAPE,
    EXCEPT,
    EXISTS,
    EXTERNAL,
    FALSE,
    FETCH,
    FIRST,
    FOREIGN,
    FROM,
    FULL,
    GROUP,
    GROUPING,
    HAVING,
    HOUR,
    IF,
    ILIKE,
    IN,
    INNER,
    INSERT,
    INDEX,
    INT,
    INTEGER,
    INTERSECT,
    INTERVAL,
    INTO,
    IS,
    JOIN,
    JSONFILE,
    KEY,
    LAST,
    LEFT,
    LIKE,
    LIMIT,
    LOCAL,
    LOCATION,
    MINUTE,
    MONTH,
    NATURAL,
    NEXT,
    NOT,
    NULL,
    NULLS,
    NUMERIC,
    OFFSET,
    ON,
    ONLY,
    OR,
    ORC,
    ORDER,
    OUTER,
    PARQUET,
    PERCENT,
    PRECISION,
    PRIMARY,
    RCFILE,
    REAL,
    RECURSIVE,
    REFERENCES,
    REGCLASS,
    RESTRICT,
    RIGHT,
    ROLLUP,
    ROW,
    ROWS,
    SECOND,
    SELECT,
    SEQUENCEFILE,
    SCHEMA,
    SESSION,
    SET,
    SETS,
    SHOW,
    SMALLINT,
    STORED,
    TABLE,
    TEXT,
    TEXTFILE,
    THEN,
    TIES,
    TIME,
    TIMESTAMP,
    TO,
    TRUE,
    TRY_CAST,
    UNION,
    UNIQUE,
    USING,
    UUID,
    VALUES,
    VARCHAR,
    VARYING,
    VIEW,
    WHEN,
    WHERE,
    WITH,
    WITHOUT,
    YEAR,
    ZONE,
}

/// The keyword, if any, whose text is exactly the given (already uppercased)
/// word.
pub open spec fn spec_keyword_from_upper(s: Seq<char>) -> Keyword {
    if s == "ALL"@ {
        Keyword::ALL
    } else if s == "AND"@ {
        Keyword::AND
    } else if s == "ARRAY"@ {
        Keyword::ARRAY
    } else if s == "AS"@ {
        Keyword::AS
    } else if s == "ASC"@ {
        Keyword::ASC
    } else if s == "AVRO"@ {
        Keyword::AVRO
    } else if s == "BETWEEN"@ {
        Keyword::BETWEEN
    } else if s == "BIGINT"@ {
        Keyword::BIGINT
    } else if s == "BOOLEAN"@ {
        Keyword::BOOLEAN
    } else if s == "BOTH"@ {
        Keyword::BOTH
    } else if s == "BY"@ {
        Keyword::BY
    } else if s == "CASCADE"@ {
        Keyword::CASCADE
    } else if s == "CASE"@ {
        Keyword::CASE
    } else if s == "CAST"@ {
        Keyword::CAST
    } else if s == "CHAR"@ {
        Keyword::CHAR
    } else if s == "CHARACTER"@ {
        Keyword::CHARACTER
    } else if s == "CHECK"@ {
        Keyword::CHECK
    } else if s == "COLLATE"@ {
        Keyword::COLLATE
    } else if s == "CONSTRAINT"@ {
        Keyword::CONSTRAINT
    } else if s == "CONVERT"@ {
        Keyword::CONVERT
    } else if s == "CREATE"@ {
        Keyword::CREATE
    } else if s == "CROSS"@ {
        Keyword::CROSS
    } else if s == "CUBE"@ {
        Keyword::CUBE
    } else if s == "DATE"@ {
        Keyword::DATE
    } else if s == "DAY"@ {
        Keyword::DAY
    } else if s == "DECIMAL"@ {
        Keyword::DECIMAL
    } else if s == "DEFAULT"@ {
        Keyword::DEFAULT
    } else if s == "DELETE"@ {
        Keyword::DELETE
    } else if s == "DESC"@ {
        Keyword::DESC
    } else if s == "DISTINCT"@ {
        Keyword::DISTINCT
    } else if s == "DOUBLE"@ {
        Keyword::DOUBLE
    } else if s == "DROP"@ {
        Keyword::DROP
    } else if s == "ELSE"@ {
        Keyword::ELSE
    } else if s == "END"@ {
        Keyword::END
    } else if s == "ESCAPE"@ {
        Keyword::ESCAPE
    } else if s == "EXCEPT"@ {
        Keyword::EXCEPT
    } else if s == "EXISTS"@ {
        Keyword::EXISTS
    } else if s == "EXTERNAL"@ {
        Keyword::EXTERNAL
    } else if s == "FALSE"@ {
        Keyword::FALSE
    } else if s == "FETCH"@ {
        Keyword::FETCH
    } else if s == "FIRST"@ {
        Keyword::FIRST
    } else if s == "FOREIGN"@ {
        Keyword::FOREIGN
    } else if s == "FROM"@ {
        Keyword::FROM
    } else if s == "FULL"@ {
        Keyword::FULL
    } else if s == "GROUP"@ {
        Keyword::GROUP
    } else if s == "GROUPING"@ {
        Keyword::GROUPING
    } else if s == "HAVING"@ {
        Keyword::HAVING
    } else if s == "HOUR"@ {
        Keyword::HOUR
    } else if s == "IF"@ {
        Keyword::IF
    } else if s == "ILIKE"@ {
        Keyword::ILIKE
    } else if s == "IN"@ {
        Keyword::IN
    } else if s == "INNER"@ {
        Keyword::INNER
    } else if s == "INSERT"@ {
        Keyword::INSERT
    } else if s == "INDEX"@ {
        Keyword::INDEX
    } else if s == "INT"@ {
        Keyword::INT
    } else if s == "INTEGER"@ {
        Keyword::INTEGER
    } else if s == "INTERSECT"@ {
        Keyword::INTERSECT
    } else if s == "INTERVAL"@ {
        Keyword::INTERVAL
    } else if s == "INTO"@ {
        Keyword::INTO
    } else if s == "IS"@ {
        Keyword::IS
    } else if s == "JOIN"@ {
        Keyword::JOIN
    } else if s == "JSONFILE"@ {
        Keyword::JSONFILE
    } else if s == "KEY"@ {
        Keyword::KEY
    } else if s == "LAST"@ {
        Keyword::LAST
    } else if s == "LEFT"@ {
        Keyword::LEFT
    } else if s == "LIKE"@ {
        Keyword::LIKE
    } else if s == "LIMIT"@ {
        Keyword::LIMIT
    } else if s == "LOCAL"@ {
        Keyword::LOCAL
    } else if s == "LOCATION"@ {
        Keyword::LOCATION
    } else if s == "MINUTE"@ {
        Keyword::MINUTE
    } else if s == "MONTH"@ {
        Keyword::MONTH
    } else if s == "NATURAL"@ {
        Keyword::NATURAL
    } else if s == "NEXT"@ {
        Keyword::NEXT
    } else if s == "NOT"@ {
        Keyword::NOT
    } else if s == "NULL"@ {
        Keyword::NULL
    } else if s == "NULLS"@ {
        Keyword::NULLS
    } else if s == "NUMERIC"@ {
        Keyword::NUMERIC
    } else if s == "OFFSET"@ {
        Keyword::OFFSET
    } else if s == "ON"@ {
        Keyword::ON
    } else if s == "ONLY"@ {
        Keyword::ONLY
    } else if s == "OR"@ {
        Keyword::OR
    } else if s == "ORC"@ {
        Keyword::ORC
    } else if s == "ORDER"@ {
        Keyword::ORDER
    } else if s == "OUTER"@ {
        Keyword::OUTER
    } else if s == "PARQUET"@ {
        Keyword::PARQUET
    } else if s == "PERCENT"@ {
        Keyword::PERCENT
    } else if s == "PRECISION"@ {
        Keyword::PRECISION
    } else if s == "PRIMARY"@ {
        Keyword::PRIMARY
    } else if s == "RCFILE"@ {
        Keyword::RCFILE
    } else if s == "REAL"@ {
        Keyword::REAL
    } else if s == "RECURSIVE"@ {
        Keyword::RECURSIVE
    } else if s == "REFERENCES"@ {
        Keyword::REFERENCES
    } else if s == "REGCLASS"@ {
        Keyword::REGCLASS
    } else if s == "RESTRICT"@ {
        Keyword::RESTRICT
    } else if s == "RIGHT"@ {
        Keyword::RIGHT
    } else if s == "ROLLUP"@ {
        Keyword::ROLLUP
    } else if s == "ROW"@ {
        Keyword::ROW
    } else if s == "ROWS"@ {
        Keyword::ROWS
    } else if s == "SECOND"@ {
        Keyword::SECOND
    } else if s == "SELECT"@ {
        Keyword::SELECT
    } else if s == "SEQUENCEFILE"@ {
        Keyword::SEQUENCEFILE
    } else if s == "SCHEMA"@ {
        Keyword::SCHEMA
    } else if s == "SESSION"@ {
        Keyword::SESSION
    } else if s == "SET"@ {
        Keyword::SET
    } else if s == "SETS"@ {
        Keyword::SETS
    } else if s == "SHOW"@ {
        Keyword::SHOW
    } else if s == "SMALLINT"@ {
        Keyword::SMALLINT
    } else if s == "STORED"@ {
        Keyword::STORED
    } else if s == "TABLE"@ {
        Keyword::TABLE
    } else if s == "TEXT"@ {
        Keyword::TEXT
    } else if s == "TEXTFILE"@ {
        Keyword::TEXTFILE
    } else if s == "THEN"@ {
        Keyword::THEN
    } else if s == "TIES"@ {
        Keyword::TIES
    } else if s == "TIME"@ {
        Keyword::TIME
    } else if s == "TIMESTAMP"@ {
        Keyword::TIMESTAMP
    } else if s == "TO"@ {
        Keyword::TO
    } else if s == "TRUE"@ {
        Keyword::TRUE
    } else if s == "TRY_CAST"@ {
        Keyword::TRY_CAST
    } else if s == "UNION"@ {
        Keyword::UNION
    } else if s == "UNIQUE"@ {
        Keyword::UNIQUE
    } else if s == "USING"@ {
        Keyword::USING
    } else if s == "UUID"@ {
        Keyword::UUID
    } else if s == "VALUES"@ {
        Keyword::VALUES
    } else if s == "VARCHAR"@ {
        Keyword::VARCHAR
    } else if s == "VARYING"@ {
        Keyword::VARYING
    } else if s == "VIEW"@ {
        Keyword::VIEW
    } else if s == "WHEN"@ {
        Keyword::WHEN
    } else if s == "WHERE"@ {
        Keyword::WHERE
    } else if s == "WITH"@ {
        Keyword::WITH
    } else if s == "WITHOUT"@ {
        Keyword::WITHOUT
    } else if s == "YEAR"@ {
        Keyword::YEAR
    } else if s == "ZONE"@ {
        Keyword::ZONE
    } else {
        Keyword::NoKeyword
    }
}

pub fn keyword_from_upper(s: &str) -> (k: Keyword)
    ensures
        k == spec_keyword_from_upper(s@),
{
    if str_eq(s, "ALL") {
        Keyword::ALL
    } else if str_eq(s, "AND") {
        Keyword::AND
    } else if str_eq(s, "ARRAY") {
        Keyword::ARRAY
    } else if str_eq(s, "AS") {
        Keyword::AS
    } else if str_eq(s, "ASC") {
        Keyword::ASC
    } else if str_eq(s, "AVRO") {
        Keyword::AVRO
    } else if str_eq(s, "BETWEEN") {
        Keyword::BETWEEN
    } else if str_eq(s, "BIGINT") {
        Keyword::BIGINT
    } else if str_eq(s, "BOOLEAN") {
        Keyword::BOOLEAN
    } else if str_eq(s, "BOTH") {
        Keyword::BOTH
    } else if str_eq(s, "BY") {
        Keyword::BY
    } else if str_eq(s, "CASCADE") {
        Keyword::CASCADE
    } else if str_eq(s, "CASE") {
        Keyword::CASE
    } else if str_eq(s, "CAST") {
        Keyword::CAST
    } else if str_eq(s, "CHAR") {
        Keyword::CHAR
    } else if str_eq(s, "CHARACTER") {
        Keyword::CHARACTER
    } else if str_eq(s, "CHECK") {
        Keyword::CHECK
    } else if str_eq(s, "COLLATE") {
        Keyword::COLLATE
    } else if str_eq(s, "CONSTRAINT") {
        Keyword::CONSTRAINT
    } else if str_eq(s, "CONVERT") {
        Keyword::CONVERT
    } else if str_eq(s, "CREATE") {
        Keyword::CREATE
    } else if str_eq(s, "CROSS") {
        Keyword::CROSS
    } else if str_eq(s, "CUBE") {
        Keyword::CUBE
    } else if str_eq(s, "DATE") {
        Keyword::DATE
    } else if str_eq(s, "DAY") {
        Keyword::DAY
    } else if str_eq(s, "DECIMAL") {
        Keyword::DECIMAL
    } else if str_eq(s, "DEFAULT") {
        Keyword::DEFAULT
    } else if str_eq(s, "DELETE") {
        Keyword::DELETE
    } else if str_eq(s, "DESC") {
        Keyword::DESC
    } else if str_eq(s, "DISTINCT") {
        Keyword::DISTINCT
    } else if str_eq(s, "DOUBLE") {
        Keyword::DOUBLE
    } else if str_eq(s, "DROP") {
        Keyword::DROP
    } else if str_eq(s, "ELSE") {
        Keyword::ELSE
    } else if str_eq(s, "END") {
        Keyword::END
    } else if str_eq(s, "ESCAPE") {
        Keyword::ESCAPE
    } else if str_eq(s, "EXCEPT") {
        Keyword::EXCEPT
    } else if str_eq(s, "EXISTS") {
        Keyword::EXISTS
    } else if str_eq(s, "EXTERNAL") {
        Keyword::EXTERNAL
    } else if str_eq(s, "FALSE") {
        Keyword::FALSE
    } else if str_eq(s, "FETCH") {
        Keyword::FETCH
    } else if str_eq(s, "FIRST") {
        Keyword::FIRST
    } else if str_eq(s, "FOREIGN") {
        Keyword::FOREIGN
    } else if str_eq(s, "FROM") {
        Keyword::FROM
    } else if str_eq(s, "FULL") {
        Keyword::FULL
    } else if str_eq(s, "GROUP") {
        Keyword::GROUP
    } else if str_eq(s, "GROUPING") {
        Keyword::GROUPING
    } else if str_eq(s, "HAVING") {
        Keyword::HAVING
    } else if str_eq(s, "HOUR") {
        Keyword::HOUR
    } else if str_eq(s, "IF") {
        Keyword::IF
    } else if str_eq(s, "ILIKE") {
        Keyword::ILIKE
    } else if str_eq(s, "IN") {
        Keyword::IN
    } else if str_eq(s, "INNER") {
        Keyword::INNER
    } else if str_eq(s, "INSERT") {
        Keyword::INSERT
    } else if str_eq(s, "INDEX") {
        Keyword::INDEX
    } else if str_eq(s, "INT") {
        Keyword::INT
    } else if str_eq(s, "INTEGER") {
        Keyword::INTEGER
    } else if str_eq(s, "INTERSECT") {
        Keyword::INTERSECT
    } else if str_eq(s, "INTERVAL") {
        Keyword::INTERVAL
    } else if str_eq(s, "INTO") {
        Keyword::INTO
    } else if str_eq(s, "IS") {
        Keyword::IS
    } else if str_eq(s, "JOIN") {
        Keyword::JOIN
    } else if str_eq(s, "JSONFILE") {
        Keyword::JSONFILE
    } else if str_eq(s, "KEY") {
        Keyword::KEY
    } else if str_eq(s, "LAST") {
        Keyword::LAST
    } else if str_eq(s, "LEFT") {
        Keyword::LEFT
    } else if str_eq(s, "LIKE") {
        Keyword::LIKE
    } else if str_eq(s, "LIMIT") {
        Keyword::LIMIT
    } else if str_eq(s, "LOCAL") {
        Keyword::LOCAL
    } else if str_eq(s, "LOCATION") {
        Keyword::LOCATION
    } else if str_eq(s, "MINUTE") {
        Keyword::MINUTE
    } else if str_eq(s, "MONTH") {
        Keyword::MONTH
    } else if str_eq(s, "NATURAL") {
        Keyword::NATURAL
    } else if str_eq(s, "NEXT") {
        Keyword::NEXT
    } else if str_eq(s, "NOT") {
        Keyword::NOT
    } else if str_eq(s, "NULL") {
        Keyword::NULL
    } else if str_eq(s, "NULLS") {
        Keyword::NULLS
    } else if str_eq(s, "NUMERIC") {
        Keyword::NUMERIC
    } else if str_eq(s, "OFFSET") {
        Keyword::OFFSET
    } else if str_eq(s, "ON") {
        Keyword::ON
    } else if str_eq(s, "ONLY") {
        Keyword::ONLY
    } else if str_eq(s, "OR") {
        Keyword::OR
    } else if str_eq(s, "ORC") {
        Keyword::ORC
    } else if str_eq(s, "ORDER") {
        Keyword::ORDER
    } else if str_eq(s, "OUTER") {
        Keyword::OUTER
    } else if str_eq(s, "PARQUET") {
        Keyword::PARQUET
    } else if str_eq(s, "PERCENT") {
        Keyword::PERCENT
    } else if str_eq(s, "PRECISION") {
        Keyword::PRECISION
    } else if str_eq(s, "PRIMARY") {
        Keyword::PRIMARY
    } else if str_eq(s, "RCFILE") {
        Keyword::RCFILE
    } else if str_eq(s, "REAL") {
        Keyword::REAL
    } else if str_eq(s, "RECURSIVE") {
        Keyword::RECURSIVE
    } else if str_eq(s, "REFERENCES") {
        Keyword::REFERENCES
    } else if str_eq(s, "REGCLASS") {
        Keyword::REGCLASS
    } else if str_eq(s, "RESTRICT") {
        Keyword::RESTRICT
    } else if str_eq(s, "RIGHT") {
        Keyword::RIGHT
    } else if str_eq(s, "ROLLUP") {
        Keyword::ROLLUP
    } else if str_eq(s, "ROW") {
        Keyword::ROW
    } else if str_eq(s, "ROWS") {
        Keyword::ROWS
    } else if str_eq(s, "SECOND") {
        Keyword::SECOND
    } else if str_eq(s, "SELECT") {
        Keyword::SELECT
    } else if str_eq(s, "SEQUENCEFILE") {
        Keyword::SEQUENCEFILE
    } else if str_eq(s, "SCHEMA") {
        Keyword::SCHEMA
    } else if str_eq(s, "SESSION") {
        Keyword::SESSION
    } else if str_eq(s, "SET") {
        Keyword::SET
    } else if str_eq(s, "SETS") {
        Keyword::SETS
    } else if str_eq(s, "SHOW") {
        Keyword::SHOW
    } else if str_eq(s, "SMALLINT") {
        Keyword::SMALLINT
    } else if str_eq(s, "STORED") {
        Keyword::STORED
    } else if str_eq(s, "TABLE") {
        Keyword::TABLE
    } else if str_eq(s, "TEXT") {
        Keyword::TEXT
    } else if str_eq(s, "TEXTFILE") {
        Keyword::TEXTFILE
    } else if str_eq(s, "THEN") {
        Keyword::THEN
    } else if str_eq(s, "TIES") {
        Keyword::TIES
    } else if str_eq(s, "TIME") {
        Keyword::TIME
    } else if str_eq(s, "TIMESTAMP") {
        Keyword::TIMESTAMP
    } else if str_eq(s, "TO") {
        Keyword::TO
    } else if str_eq(s, "TRUE") {
        Keyword::TRUE
    } else if str_eq(s, "TRY_CAST") {
        Keyword::TRY_CAST
    } else if str_eq(s, "UNION") {
        Keyword::UNION
    } else if str_eq(s, "UNIQUE") {
        Keyword::UNIQUE
    } else if str_eq(s, "USING") {
        Keyword::USING
    } else if str_eq(s, "UUID") {
        Keyword::UUID
    } else if str_eq(s, "VALUES") {
        Keyword::VALUES
    } else if str_eq(s, "VARCHAR") {
        Keyword::VARCHAR
    } else if str_eq(s, "VARYING") {
        Keyword::VARYING
    } else if str_eq(s, "VIEW") {
        Keyword::VIEW
    } else if str_eq(s, "WHEN") {
        Keyword::WHEN
    } else if str_eq(s, "WHERE") {
        Keyword::WHERE
    } else if str_eq(s, "WITH") {
        Keyword::WITH
    } else if str_eq(s, "WITHOUT") {
        Keyword::WITHOUT
    } else if str_eq(s, "YEAR") {
        Keyword::YEAR
    } else if str_eq(s, "ZONE") {
        Keyword::ZONE
    } else {
        Keyword::NoKeyword
    }
}

/// Keywords that can never be a bare table alias: seeing one after a table name ends the table factor.
pub open spec fn spec_is_reserved_for_table_alias(k: Keyword) -> bool {
    k == Keyword::ALL || k == Keyword::AS || k == Keyword::CROSS || k == Keyword::DISTINCT || k == Keyword::END || k == Keyword::EXCEPT || k == Keyword::FETCH || k == Keyword::FROM || k == Keyword::FULL || k == Keyword::GROUP || k == Keyword::GROUPING || k == Keyword::HAVING || k == Keyword::INNER || k == Keyword::INTERSECT || k == Keyword::INTO || k == Keyword::JOIN || k == Keyword::LEFT || k == Keyword::LIMIT || k == Keyword::NATURAL || k == Keyword::OFFSET || k == Keyword::ON || k == Keyword::ORDER || k == Keyword::OUTER || k == Keyword::RIGHT || k == Keyword::SELECT || k == Keyword::SET || k == Keyword::UNION || k == Keyword::USING || k == Keyword::WHERE || k == Keyword::WITH
}

pub fn is_reserved_for_table_alias(k: Keyword) -> (r: bool)
    ensures
        r == spec_is_reserved_for_table_alias(k),
{
    match k {
        Keyword::ALL | Keyword::AS | Keyword::CROSS | Keyword::DISTINCT | Keyword::END | Keyword::EXCEPT | Keyword::FETCH | Keyword::FROM | Keyword::FULL | Keyword::GROUP | Keyword::GROUPING | Keyword::HAVING | Keyword::INNER | Keyword::INTERSECT | Keyword::INTO | Keyword::JOIN | Keyword::LEFT | Keyword::LIMIT | Keyword::NATURAL | Keyword::OFFSET | Keyword::ON | Keyword::ORDER | Keyword::OUTER | Keyword::RIGHT | Keyword::SELECT | Keyword::SET | Keyword::UNION | Keyword::USING | Keyword::WHERE | Keyword::WITH => true,
        _ => false,
    }
}

/// Keywords that can never be a bare column alias: seeing one after a select item ends the item.
pub open spec fn spec_is_reserved_for_column_alias(k: Keyword) -> bool {
    k == Keyword::ALL || k == Keyword::AS || k == Keyword::DISTINCT || k == Keyword::END || k == Keyword::EXCEPT || k == Keyword::FETCH || k == Keyword::FROM || k == Keyword::GROUP || k == Keyword::HAVING || k == Keyword::INTERSECT || k == Keyword::INTO || k == Keyword::LIMIT || k == Keyword::OFFSET || k == Keyword::ORDER || k == Keyword::SELECT || k == Keyword::UNION || k == Keyword::WHERE || k == Keyword::WITH
}

pub fn is_reserved_for_column_alias(k: Keyword) -> (r: bool)
    ensures
        r == spec_is_reserved_for_column_alias(k),
{
    match k {
        Keyword::ALL | Keyword::AS | Keyword::DISTINCT | Keyword::END | Keyword::EXCEPT | Keyword::FETCH | Keyword::FROM | Keyword::GROUP | Keyword::HAVING | Keyword::INTERSECT | Keyword::INTO | Keyword::LIMIT | Keyword::OFFSET | Keyword::ORDER | Keyword::SELECT | Keyword::UNION | Keyword::WHERE | Keyword::WITH => true,
        _ => false,
    }
}

} // verus!
