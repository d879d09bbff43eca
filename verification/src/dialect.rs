//! The dialect capability set: identifier character classes, quoting styles,
//! operator-precedence overrides and feature toggles that vary between SQL
//! implementations. A dialect value is immutable and consulted, never
//! changed, by the tokenizer and parser.
use vstd::prelude::*;

use crate::tokenizer::Token;

verus! {

/// One of the concrete SQL dialects the library understands. Grammar and
/// lexing decisions that differ between implementations are answered by the
/// methods below instead of being hard-coded in the parser.
#[derive(Debug, Clone, Copy, PartialEq, Eq, Structural)]
pub enum Dialect {
    /// Permissive defaults: accepts a superset of what most dialects allow.
    Generic,
    /// Strict ANSI identifier rules.
    Ansi,
    /// PostgreSQL.
    PostgreSql,
    /// MySQL: identifiers are quoted with backticks.
    MySql,
    /// Microsoft SQL Server: identifiers may be quoted with brackets and
    /// `CONVERT` takes the target type before the value.
    MsSql,
    /// Databricks: ANSI identifier rules with backtick quoting.
    Databricks,
}

/// Feature toggles consulted directly by parser logic.
#[derive(Debug, Clone, Copy, PartialEq, Eq, Structural)]
pub struct DialectSettings {
    /// `CONVERT(type, value)` instead of `CONVERT(value, type)`.
    pub convert_type_before_value: bool,
    /// Whether `CONNECT BY` hierarchical queries are recognized.
    pub supports_connect_by: bool,
}

/// Whether a character is a letter under Unicode's classification: the
/// result of `char::is_alphabetic`, a pure function of the character alone.
pub uninterp spec fn alphabetic(c: char) -> bool;

/// Relies on char::is_alphabetic: Unicode letter classification, which
/// depends on the character alone and never panics.
#[verifier::external_body]
pub fn is_alphabetic(c: char) -> (r: bool)
    ensures
        r == alphabetic(c),
{
    c.is_alphabetic()
}

pub open spec fn ascii_letter(c: char) -> bool {
    ('a' <= c && c <= 'z') || ('A' <= c && c <= 'Z')
}

pub open spec fn ascii_digit(c: char) -> bool {
    '0' <= c && c <= '9'
}

impl Dialect {
    /// Which characters may open a bare identifier under this dialect.
    pub open spec fn spec_is_identifier_start(self, c: char) -> bool {
        match self {
            Dialect::Generic => ascii_letter(c) || c == '_' || c == '#' || c == '@',
            Dialect::Ansi => ascii_letter(c),
            Dialect::PostgreSql => ascii_letter(c) || c == '_',
            Dialect::MySql => ascii_letter(c) || c == '_' || c == '$' || c == '@',
            Dialect::MsSql => alphabetic(c) || c == '_' || c == '#' || c == '@',
            Dialect::Databricks => ascii_letter(c),
        }
    }

    pub fn is_identifier_start(&self, c: char) -> (r: bool)
        ensures
            r == self.spec_is_identifier_start(c),
    {
        let letter = ('a' <= c && c <= 'z') || ('A' <= c && c <= 'Z');
        match self {
            Dialect::Generic => letter || c == '_' || c == '#' || c == '@',
            Dialect::Ansi => letter,
            Dialect::PostgreSql => letter || c == '_',
            Dialect::MySql => letter || c == '_' || c == '$' || c == '@',
            Dialect::MsSql => is_alphabetic(c) || c == '_' || c == '#' || c == '@',
            Dialect::Databricks => letter,
        }
    }

    /// Which characters may continue a bare identifier under this dialect.
    pub open spec fn spec_is_identifier_part(self, c: char) -> bool {
        match self {
            Dialect::Generic => ascii_letter(c) || ascii_digit(c) || c == '_' || c == '#' || c
                == '@' || c == '$',
            Dialect::Ansi => ascii_letter(c) || ascii_digit(c) || c == '_',
            Dialect::PostgreSql => ascii_letter(c) || ascii_digit(c) || c == '_' || c == '$',
            Dialect::MySql => ascii_letter(c) || ascii_digit(c) || c == '_' || c == '$' || c == '@',
            Dialect::MsSql => alphabetic(c) || ascii_digit(c) || c == '@' || c == '$' || c == '#'
                || c == '_',
            Dialect::Databricks => ascii_letter(c) || ascii_digit(c) || c == '_',
        }
    }

    pub fn is_identifier_part(&self, c: char) -> (r: bool)
        ensures
            r == self.spec_is_identifier_part(c),
    {
        let letter = ('a' <= c && c <= 'z') || ('A' <= c && c <= 'Z');
        let digit = '0' <= c && c <= '9';
        match self {
            Dialect::Generic => letter || digit || c == '_' || c == '#' || c == '@' || c == '$',
            Dialect::Ansi => letter || digit || c == '_',
            Dialect::PostgreSql => letter || digit || c == '_' || c == '$',
            Dialect::MySql => letter || digit || c == '_' || c == '$' || c == '@',
            Dialect::MsSql => is_alphabetic(c) || digit || c == '@' || c == '$' || c == '#' || c
                == '_',
            Dialect::Databricks => letter || digit || c == '_',
        }
    }

    /// Which quote characters open a delimited (quoted) identifier.
    pub open spec fn spec_is_delimited_identifier_start(self, c: char) -> bool {
        match self {
            Dialect::Generic => c == '"',
            Dialect::Ansi => c == '"',
            Dialect::PostgreSql => c == '"',
            Dialect::MySql => c == '`',
            Dialect::MsSql => c == '"' || c == '[',
            Dialect::Databricks => c == '`',
        }
    }

    pub fn is_delimited_identifier_start(&self, c: char) -> (r: bool)
        ensures
            r == self.spec_is_delimited_identifier_start(c),
    {
        match self {
            Dialect::Generic => c == '"',
            Dialect::Ansi => c == '"',
            Dialect::PostgreSql => c == '"',
            Dialect::MySql => c == '`',
            Dialect::MsSql => c == '"' || c == '[',
            Dialect::Databricks => c == '`',
        }
    }

    /// The closing quote matching an opening delimiter (`[` closes with `]`,
    /// every other quote closes with itself).
    pub open spec fn spec_closing_quote(self, c: char) -> char {
        if c == '[' {
            ']'
        } else {
            c
        }
    }

    pub fn closing_quote(&self, c: char) -> (r: char)
        ensures
            r == self.spec_closing_quote(c),
    {
        if c == '[' {
            ']'
        } else {
            c
        }
    }

    /// The binding power this dialect assigns to the operator token at the
    /// cursor, overriding the default precedence table; the expression
    /// climber consults this before the table. None of the built-in dialects
    /// currently deviates from the table.
    pub open spec fn spec_precedence_override(self, t: Token) -> Option<u8> {
        Option::<u8>::None
    }

    pub fn precedence_override(&self, t: &Token) -> (r: Option<u8>)
        ensures
            r == self.spec_precedence_override(*t),
    {
        Option::None
    }

    /// The feature toggles of this dialect.
    pub open spec fn spec_settings(self) -> DialectSettings {
        match self {
            Dialect::MsSql => DialectSettings {
                convert_type_before_value: true,
                supports_connect_by: true,
            },
            _ => DialectSettings { convert_type_before_value: false, supports_connect_by: false },
        }
    }

    pub fn settings(&self) -> (r: DialectSettings)
        ensures
            r == self.spec_settings(),
    {
        match self {
            Dialect::MsSql => DialectSettings {
                convert_type_before_value: true,
                supports_connect_by: true,
            },
            _ => DialectSettings { convert_type_before_value: false, supports_connect_by: false },
        }
    }
}

/// The Microsoft SQL Server dialect as a standalone capability carrier.
#[derive(Debug, Clone, Copy, PartialEq, Eq, Structural)]
pub struct MsSqlDialect {}

impl MsSqlDialect {
    /// The dialect value this carrier stands for.
    pub fn dialect(&self) -> (r: Dialect)
        ensures
            r == Dialect::MsSql,
    {
        Dialect::MsSql
    }

    pub fn settings(&self) -> (r: DialectSettings)
        ensures
            r == Dialect::MsSql.spec_settings(),
    {
        Dialect::MsSql.settings()
    }

    pub fn is_delimited_identifier_start(&self, ch: char) -> (r: bool)
        ensures
            r == Dialect::MsSql.spec_is_delimited_identifier_start(ch),
    {
        Dialect::MsSql.is_delimited_identifier_start(ch)
    }

    pub fn is_identifier_start(&self, ch: char) -> (r: bool)
        ensures
            r == Dialect::MsSql.spec_is_identifier_start(ch),
    {
        Dialect::MsSql.is_identifier_start(ch)
    }

    pub fn is_identifier_part(&self, ch: char) -> (r: bool)
        ensures
            r == Dialect::MsSql.spec_is_identifier_part(ch),
    {
        Dialect::MsSql.is_identifier_part(ch)
    }
}

/// The Databricks dialect as a standalone capability carrier.
#[derive(Debug, Clone, Copy, PartialEq, Eq, Structural)]
pub struct DatabricksDialect {}

impl DatabricksDialect {
    /// The dialect value this carrier stands for.
    pub fn dialect(&self) -> (r: Dialect)
        ensures
            r == Dialect::Databricks,
    {
        Dialect::Databricks
    }

    pub fn is_identifier_start(&self, ch: char) -> (r: bool)
        ensures
            r == Dialect::Databricks.spec_is_identifier_start(ch),
    {
        Dialect::Databricks.is_identifier_start(ch)
    }

    pub fn is_identifier_part(&self, ch: char) -> (r: bool)
        ensures
            r == Dialect::Databricks.spec_is_identifier_part(ch),
    {
        Dialect::Databricks.is_identifier_part(ch)
    }

    pub fn is_delimited_identifier_start(&self, ch: char) -> (r: bool)
        ensures
            r == Dialect::Databricks.spec_is_delimited_identifier_start(ch),
    {
        Dialect::Databricks.is_delimited_identifier_start(ch)
    }
}

} // verus!
