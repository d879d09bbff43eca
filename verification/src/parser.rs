//! The recursive-descent parser: consumes a token sequence and produces
//! typed statement and expression trees.
//!
//! The parser owns the token sequence, a cursor index, and a recursion
//! budget. Every grammar function preserves the token sequence, never moves
//! the cursor backwards past where it started, and keeps the cursor inside
//! the sequence; the cursor primitives `peek_token` and `next_token` carry
//! exact contracts over [`next_sig`], the index of the next token that is
//! not whitespace or a comment.
use vstd::prelude::*;

use crate::ast::data_type::DataType;
use crate::ast::operator::{BinaryOperator, UnaryOperator};
use crate::ast::ddl::{ColumnDef, ColumnOption, ColumnOptionDef, TableConstraint};
use crate::ast::query::{
    Cte, Fetch, Join, JoinConstraint, JoinOperator, Offset, OffsetRows, OrderByExpr, Query, Select,
    SelectItem, SetExpr, SetOperator, TableAlias, TableFactor, TableWithJoins, Values, With,
};
use crate::ast::{
    CastKind, DateTimeField, DuplicateTreatment, Expr, FileFormat, Function, FunctionArg,
    FunctionArgExpr, FunctionArgumentList, FunctionArguments, Ident, ObjectName, ObjectType,
    SetVariableValue, SqlOption, Statement, Value,
};
use crate::dialect::Dialect;
use crate::keywords::Keyword;
use crate::tokenizer::{token_display, token_to_string, Token, Tokenizer, Word};

verus! {

/// A fatal syntactic failure. A parse call returns a statement or an error,
/// never a partial result.
#[derive(Debug, Clone, PartialEq, Eq)]
pub enum ParserError {
    /// The input could not even be tokenized; carries the tokenizer's
    /// message and position.
    TokenizerError(String),
    /// The expected construct was not found; the message reads
    /// `Expected <construct>, found: <token>`.
    ParserError(String),
    /// The input nests deeper than the configured recursion limit.
    RecursionLimitExceeded,
}

/// The default bound on grammar recursion depth.
pub const DEFAULT_RECURSION_LIMIT: u32 = 50;

/// The index of the first token at or after `i` that is not whitespace or a
/// comment; the parser reads only such tokens.
pub open spec fn next_sig(tokens: Seq<Token>, i: int) -> int
    decreases tokens.len() - i when 0 <= i <= tokens.len()
{
    if i >= tokens.len() {
        i
    } else if tokens[i] is Whitespace {
        next_sig(tokens, i + 1)
    } else {
        i
    }
}

pub proof fn lemma_next_sig_bounds(tokens: Seq<Token>, i: int)
    requires
        0 <= i <= tokens.len(),
    ensures
        i <= next_sig(tokens, i) <= tokens.len(),
        next_sig(tokens, i) < tokens.len() ==> !(tokens[next_sig(tokens, i)] is Whitespace),
    decreases tokens.len() - i,
{
    if i < tokens.len() && tokens[i] is Whitespace {
        lemma_next_sig_bounds(tokens, i + 1);
    }
}

/// After consuming one significant token, the lookahead shifts by one: the
/// next significant token is what the second peek saw before, and so on.
pub proof fn lemma_peek_after_advance(pre: Parser, post: Parser)
    requires
        pre.wf(),
        post.tokens@ == pre.tokens@,
        post.index as int == pre.spec_advanced(),
    ensures
        post.spec_peek() == pre.spec_peek2(),
        post.spec_peek2() == pre.spec_peek3(),
        post.spec_peek3() == pre.spec_peek4(),
{
    lemma_next_sig_bounds(pre.tokens@, pre.index as int);
    let toks = pre.tokens@;
    let j = next_sig(toks, pre.index as int);
    if j < toks.len() {
        lemma_next_sig_bounds(toks, j + 1);
        let k = next_sig(toks, j + 1);
        if k < toks.len() {
            lemma_next_sig_bounds(toks, k + 1);
            let l = next_sig(toks, k + 1);
            if l < toks.len() {
                lemma_next_sig_bounds(toks, l + 1);
            }
        }
    }
}

/// The next significant token at a cursor position of a token sequence, or
/// the fabricated end-of-input token.
pub open spec fn spec_peek_at(toks: Seq<Token>, i: int) -> Token {
    let j = next_sig(toks, i);
    if j < toks.len() {
        toks[j]
    } else {
        Token::EOF
    }
}

/// The parser state: the token sequence (read-only), the cursor, the
/// dialect, and the recursion budget for nested constructs.
pub struct Parser {
    pub tokens: Vec<Token>,
    pub index: usize,
    pub dialect: Dialect,
    pub recursion_limit: u32,
}

impl Parser {
    /// The cursor never leaves the token sequence.
    pub open spec fn wf(self) -> bool {
        self.index <= self.tokens@.len()
    }

    /// The parts of the state a grammar function never changes.
    pub open spec fn same_input(self, other: Parser) -> bool {
        self.tokens@ == other.tokens@ && self.dialect == other.dialect && self.recursion_limit
            == other.recursion_limit
    }

    /// The standard frame of every grammar function: the input is unchanged,
    /// the cursor only moves forward, and the state stays well formed.
    pub open spec fn frames(pre: Parser, post: Parser) -> bool {
        post.wf() && post.same_input(pre) && pre.index <= post.index
    }

    /// The next significant token, or the fabricated end-of-input token.
    pub open spec fn spec_peek(self) -> Token {
        spec_peek_at(self.tokens@, self.index as int)
    }

    /// The significant token after the next one.
    pub open spec fn spec_peek2(self) -> Token {
        let j = next_sig(self.tokens@, self.index as int);
        if j < self.tokens@.len() {
            let k = next_sig(self.tokens@, j + 1);
            if k < self.tokens@.len() {
                self.tokens@[k]
            } else {
                Token::EOF
            }
        } else {
            Token::EOF
        }
    }

    /// The third significant token from the cursor.
    pub open spec fn spec_peek3(self) -> Token {
        let toks = self.tokens@;
        let j = next_sig(toks, self.index as int);
        if j < toks.len() {
            let k = next_sig(toks, j + 1);
            if k < toks.len() {
                let l = next_sig(toks, k + 1);
                if l < toks.len() {
                    toks[l]
                } else {
                    Token::EOF
                }
            } else {
                Token::EOF
            }
        } else {
            Token::EOF
        }
    }

    /// The fourth significant token from the cursor.
    pub open spec fn spec_peek4(self) -> Token {
        let toks = self.tokens@;
        let j = next_sig(toks, self.index as int);
        if j < toks.len() {
            let k = next_sig(toks, j + 1);
            if k < toks.len() {
                let l = next_sig(toks, k + 1);
                if l < toks.len() {
                    let m = next_sig(toks, l + 1);
                    if m < toks.len() {
                        toks[m]
                    } else {
                        Token::EOF
                    }
                } else {
                    Token::EOF
                }
            } else {
                Token::EOF
            }
        } else {
            Token::EOF
        }
    }

    /// The cursor position after consuming one significant token.
    pub open spec fn spec_advanced(self) -> int {
        let j = next_sig(self.tokens@, self.index as int);
        if j < self.tokens@.len() {
            j + 1
        } else {
            j
        }
    }

    /// The keyword of the next significant token, when it is an unquoted
    /// word.
    pub open spec fn spec_peek_keyword(self) -> Keyword {
        match self.spec_peek() {
            Token::Word(w) => if w.quote_style is None {
                w.keyword
            } else {
                Keyword::NoKeyword
            },
            _ => Keyword::NoKeyword,
        }
    }

    /// Creates a parser over an already tokenized input.
    pub fn new(tokens: Vec<Token>, dialect: Dialect) -> (r: Parser)
        ensures
            r.tokens@ == tokens@,
            r.index == 0,
            r.dialect == dialect,
            r.recursion_limit == DEFAULT_RECURSION_LIMIT,
            r.wf(),
    {
        Parser { tokens, index: 0, dialect, recursion_limit: DEFAULT_RECURSION_LIMIT }
    }

    /// Replaces the recursion budget for nested constructs.
    pub fn with_recursion_limit(self, limit: u32) -> (r: Parser)
        ensures
            r.tokens@ == self.tokens@,
            r.index == self.index,
            r.dialect == self.dialect,
            r.recursion_limit == limit,
    {
        Parser { recursion_limit: limit, ..self }
    }

    /// Returns (a copy of) the next significant token without moving the
    /// cursor.
    pub fn peek_token(&self) -> (t: Token)
        requires
            self.wf(),
        ensures
            t == self.spec_peek(),
    {
        let len = self.tokens.len();
        let mut j: usize = self.index;
        while j < len && matches!(&self.tokens[j], Token::Whitespace(_))
            invariant
                self.index <= j <= len,
                len == self.tokens@.len(),
                next_sig(self.tokens@, self.index as int) == next_sig(self.tokens@, j as int),
            decreases len - j,
        {
            j = j + 1;
        }
        if j < len {
            self.tokens[j].clone()
        } else {
            Token::EOF
        }
    }

    /// Returns the significant token after the next one, without moving the
    /// cursor.
    pub fn peek_token2(&self) -> (t: Token)
        requires
            self.wf(),
        ensures
            t == self.spec_peek2(),
    {
        let len = self.tokens.len();
        let mut j: usize = self.index;
        while j < len && matches!(&self.tokens[j], Token::Whitespace(_))
            invariant
                self.index <= j <= len,
                len == self.tokens@.len(),
                next_sig(self.tokens@, self.index as int) == next_sig(self.tokens@, j as int),
            decreases len - j,
        {
            j = j + 1;
        }
        if j >= len {
            return Token::EOF;
        }
        let mut k: usize = j + 1;
        while k < len && matches!(&self.tokens[k], Token::Whitespace(_))
            invariant
                j + 1 <= k <= len,
                len == self.tokens@.len(),
                next_sig(self.tokens@, j + 1int) == next_sig(self.tokens@, k as int),
            decreases len - k,
        {
            k = k + 1;
        }
        if k < len {
            self.tokens[k].clone()
        } else {
            Token::EOF
        }
    }

    /// Consumes and returns the next significant token, or the end-of-input
    /// token when the sequence is exhausted.
    pub fn next_token(&mut self) -> (t: Token)
        requires
            old(self).wf(),
        ensures
            Self::frames(*old(self), *final(self)),
            t == old(self).spec_peek(),
            final(self).index == old(self).spec_advanced(),
            !(old(self).spec_peek() is EOF) ==> old(self).index < final(self).index,
    {
        proof {
            lemma_next_sig_bounds(self.tokens@, self.index as int);
        }
        let len = self.tokens.len();
        let mut j: usize = self.index;
        while j < len && matches!(&self.tokens[j], Token::Whitespace(_))
            invariant
                self.index <= j <= len,
                len == self.tokens@.len(),
                next_sig(self.tokens@, self.index as int) == next_sig(self.tokens@, j as int),
            decreases len - j,
        {
            j = j + 1;
        }
        if j < len {
            let t = self.tokens[j].clone();
            self.index = j + 1;
            t
        } else {
            self.index = j;
            Token::EOF
        }
    }

    /// The message of a syntax error: what was expected and what stood
    /// there.
    pub open spec fn expected_message(what: Seq<char>, t: Token) -> Seq<char> {
        "Expected "@ + what + ", found: "@ + token_display(t)
    }

    /// Builds the error for an unexpected token.
    pub fn expected_err(&self, what: &str, t: Token) -> (e: ParserError)
        ensures
            e matches ParserError::ParserError(m) && m@ == Self::expected_message(what@, t),
    {
        let mut m = String::new();
        m.append("Expected ");
        m.append(what);
        m.append(", found: ");
        let d = token_to_string(&t);
        m.append(d.as_str());
        ParserError::ParserError(m)
    }

    /// Consumes the next significant token when it is the given keyword.
    pub fn parse_keyword(&mut self, k: Keyword) -> (b: bool)
        requires
            old(self).wf(),
        ensures
            Self::frames(*old(self), *final(self)),
            b == (old(self).spec_peek_keyword() == k && k != Keyword::NoKeyword),
            b ==> final(self).index == old(self).spec_advanced(),
            b ==> old(self).index < final(self).index,
            !b ==> final(self).index == old(self).index,
    {
        proof {
            lemma_next_sig_bounds(self.tokens@, self.index as int);
        }
        let t = self.peek_token();
        match t {
            Token::Word(w) => {
                if matches!(w.quote_style, Option::None) && w.keyword == k && !matches!(
                    k,
                    Keyword::NoKeyword,
                ) {
                    let _ = self.next_token();
                    true
                } else {
                    false
                }
            },
            _ => false,
        }
    }

    /// Consumes the next two significant tokens when they are the two given
    /// keywords in order; consumes nothing otherwise.
    pub fn parse_keywords2(&mut self, k1: Keyword, k2: Keyword) -> (b: bool)
        requires
            old(self).wf(),
        ensures
            Self::frames(*old(self), *final(self)),
            b ==> old(self).index < final(self).index,
            b ==> old(self).spec_peek_keyword() == k1 && token_keyword(old(self).spec_peek2())
                == k2,
            !b ==> final(self).index == old(self).index,
    {
        let start = self.index;
        if self.parse_keyword(k1) {
            proof {
                lemma_peek_after_advance(*old(self), *self);
            }
            if self.parse_keyword(k2) {
                return true;
            }
        }
        self.index = start;
        false
    }

    /// Consumes the next three significant tokens when they are the three
    /// given keywords in order; consumes nothing otherwise.
    pub fn parse_keywords3(&mut self, k1: Keyword, k2: Keyword, k3: Keyword) -> (b: bool)
        requires
            old(self).wf(),
        ensures
            Self::frames(*old(self), *final(self)),
            b ==> old(self).index < final(self).index,
            !b ==> final(self).index == old(self).index,
    {
        let start = self.index;
        if self.parse_keyword(k1) {
            if self.parse_keyword(k2) {
                if self.parse_keyword(k3) {
                    return true;
                }
            }
        }
        self.index = start;
        false
    }

    /// Fails unless the next significant token is the given keyword, which
    /// is consumed.
    pub fn expect_keyword(&mut self, k: Keyword, what: &str) -> (r: Result<(), ParserError>)
        requires
            old(self).wf(),
        ensures
            Self::frames(*old(self), *final(self)),
            r matches Err(e) ==> !(e is TokenizerError),
            r is Ok <==> (old(self).spec_peek_keyword() == k && k != Keyword::NoKeyword),
            r is Ok ==> old(self).index < final(self).index,
            r matches Err(e) ==> e matches ParserError::ParserError(m) && m@
                == Self::expected_message(what@, old(self).spec_peek()),
    {
        if self.parse_keyword(k) {
            Result::Ok(())
        } else {
            let t = self.peek_token();
            Result::Err(self.expected_err(what, t))
        }
    }
}

/// A punctuation token the grammar tests for, named so that the consume and
/// expect helpers can state exactly which token they matched.
#[derive(Debug, Clone, Copy, PartialEq, Eq, Structural)]
pub enum Symbol {
    Comma,
    LParen,
    RParen,
    Period,
    SemiColon,
    Eq,
    Mul,
    DoubleColon,
    LBracket,
    RBracket,
}

/// Whether a token is the given punctuation symbol.
pub open spec fn symbol_matches(s: Symbol, t: Token) -> bool {
    match s {
        Symbol::Comma => t is Comma,
        Symbol::LParen => t is LParen,
        Symbol::RParen => t is RParen,
        Symbol::Period => t is Period,
        Symbol::SemiColon => t is SemiColon,
        Symbol::Eq => t is Eq,
        Symbol::Mul => t is Mul,
        Symbol::DoubleColon => t is DoubleColon,
        Symbol::LBracket => t is LBracket,
        Symbol::RBracket => t is RBracket,
    }
}

impl Parser {
    /// Consumes the next significant token when it is the given punctuation
    /// symbol.
    pub fn consume_symbol(&mut self, s: Symbol) -> (b: bool)
        requires
            old(self).wf(),
        ensures
            Self::frames(*old(self), *final(self)),
            b == symbol_matches(s, old(self).spec_peek()),
            b ==> final(self).index == old(self).spec_advanced(),
            b ==> old(self).index < final(self).index,
            !b ==> final(self).index == old(self).index,
    {
        proof {
            lemma_next_sig_bounds(self.tokens@, self.index as int);
        }
        let t = self.peek_token();
        let hit = match (s, &t) {
            (Symbol::Comma, Token::Comma) => true,
            (Symbol::LParen, Token::LParen) => true,
            (Symbol::RParen, Token::RParen) => true,
            (Symbol::Period, Token::Period) => true,
            (Symbol::SemiColon, Token::SemiColon) => true,
            (Symbol::Eq, Token::Eq) => true,
            (Symbol::Mul, Token::Mul) => true,
            (Symbol::DoubleColon, Token::DoubleColon) => true,
            (Symbol::LBracket, Token::LBracket) => true,
            (Symbol::RBracket, Token::RBracket) => true,
            _ => false,
        };
        if hit {
            let _ = self.next_token();
            true
        } else {
            false
        }
    }

    /// Fails unless the next significant token is the given punctuation
    /// symbol, which is consumed.
    pub fn expect_symbol(&mut self, s: Symbol, what: &str) -> (r: Result<(), ParserError>)
        requires
            old(self).wf(),
        ensures
            Self::frames(*old(self), *final(self)),
            r matches Err(e) ==> !(e is TokenizerError),
            r is Ok <==> symbol_matches(s, old(self).spec_peek()),
            r is Ok ==> old(self).index < final(self).index,
            r matches Err(e) ==> e matches ParserError::ParserError(m) && m@
                == Self::expected_message(what@, old(self).spec_peek()),
    {
        if self.consume_symbol(s) {
            Result::Ok(())
        } else {
            let t = self.peek_token();
            Result::Err(self.expected_err(what, t))
        }
    }

    /// Parses an identifier: any word token, bare or quoted, as the
    /// permissive dialects accept keywords in identifier positions.
    pub fn parse_identifier(&mut self) -> (r: Result<Ident, ParserError>)
        requires
            old(self).wf(),
        ensures
            Self::frames(*old(self), *final(self)),
            r matches Err(e) ==> !(e is TokenizerError),
            r is Ok <==> old(self).spec_peek() is Word,
            r matches Ok(i) ==> old(self).spec_peek() matches Token::Word(w) && i.value@
                == w.value@ && i.quote_style == w.quote_style,
            r matches Err(e) ==> e matches ParserError::ParserError(m) && m@
                == Self::expected_message("identifier"@, old(self).spec_peek()),
            r is Ok ==> old(self).index < final(self).index,
            r is Ok ==> final(self).index == old(self).spec_advanced(),
    {
        proof {
            lemma_next_sig_bounds(self.tokens@, self.index as int);
        }
        let t = self.peek_token();
        match t {
            Token::Word(w) => {
                let _ = self.next_token();
                Result::Ok(Ident { value: w.value, quote_style: w.quote_style })
            },
            _ => Result::Err(self.expected_err("identifier", t)),
        }
    }

    /// Parses a possibly multi-part object name, `part(.part)*`. It fails
    /// exactly when no word starts here, and the first part of a returned
    /// name is the word that stood at the cursor.
    pub fn parse_object_name(&mut self) -> (r: Result<ObjectName, ParserError>)
        requires
            old(self).wf(),
        ensures
            Self::frames(*old(self), *final(self)),
            r matches Err(e) ==> !(e is TokenizerError),
            r is Ok ==> old(self).index < final(self).index,
            !(old(self).spec_peek() is Word) ==> r is Err,
            r matches Ok(n) ==> (old(self).spec_peek() matches Token::Word(w) && n.0@.len() >= 1
                && n.0@[0].value@ == w.value@ && n.0@[0].quote_style == w.quote_style),
            !(old(self).spec_peek2() is Period) ==> (r matches Ok(n) ==> (n.0@.len() == 1
                && final(self).index == old(self).spec_advanced())),
            old(self).spec_peek() is Word && !(old(self).spec_peek2() is Period) ==> r is Ok,
    {
        let ghost single_case = !(old(self).spec_peek2() is Period);
        let mut parts: Vec<Ident> = Vec::new();
        let first = match self.parse_identifier() {
            Result::Ok(i) => i,
            Result::Err(e) => {
                return Result::Err(e);
            },
        };
        proof {
            lemma_peek_after_advance(*old(self), *self);
        }
        let ghost first_id = first;
        parts.push(first);
        loop
            invariant
                self.wf(),
                old(self).index < self.index,
                parts@.len() >= 1,
                parts@[0] == first_id,
                single_case == !(old(self).spec_peek2() is Period),
                single_case ==> (parts@.len() == 1 && self.index == old(self).spec_advanced()
                    && self.spec_peek() == old(self).spec_peek2()),
                self.same_input(*old(self)),
            decreases self.tokens@.len() - self.index,
        {
            if !self.consume_symbol(Symbol::Period) {
                break ;
            }
            let id = match self.parse_identifier() {
                Result::Ok(i) => i,
                Result::Err(e) => {
                    return Result::Err(e);
                },
            };
            parts.push(id);
        }
        Result::Ok(ObjectName(parts))
    }
}


impl Parser {
    /// Whether a token is a numeric literal whose digits fit an unsigned
    /// machine integer.
    pub open spec fn spec_uint_token(t: Token) -> bool {
        match t {
            Token::Number(s) => crate::text::all_dec_digits(s@) && s@.len() >= 1
                && crate::text::dec_value(s@) <= u64::MAX,
            _ => false,
        }
    }

    /// Parses an unsigned integer literal. Succeeds exactly when the next
    /// significant token is a number made of digits whose value fits, and
    /// returns that value; nothing is consumed on failure.
    pub fn parse_literal_uint(&mut self) -> (r: Result<u64, ParserError>)
        requires
            old(self).wf(),
        ensures
            Self::frames(*old(self), *final(self)),
            r matches Err(e) ==> !(e is TokenizerError),
            r is Ok <==> Self::spec_uint_token(old(self).spec_peek()),
            r matches Ok(v) ==> old(self).spec_peek() matches Token::Number(s) && v as nat
                == crate::text::dec_value(s@),
            r is Ok ==> old(self).index < final(self).index,
            r is Err ==> final(self).index == old(self).index,
            r matches Err(e) ==> e matches ParserError::ParserError(m) && m@
                == Self::expected_message("literal int"@, old(self).spec_peek()),
    {
        proof {
            lemma_next_sig_bounds(self.tokens@, self.index as int);
        }
        let t = self.peek_token();
        match t {
            Token::Number(s) => {
                match crate::text::parse_dec_u64(s.as_str()) {
                    Option::Some(v) => {
                        let _ = self.next_token();
                        Result::Ok(v)
                    },
                    Option::None => Result::Err(
                        self.expected_err("literal int", Token::Number(s)),
                    ),
                }
            },
            _ => Result::Err(self.expected_err("literal int", t)),
        }
    }

    /// Parses a single-quoted string literal. Succeeds exactly when the
    /// next significant token is a string literal, whose value it returns.
    pub fn parse_literal_string(&mut self) -> (r: Result<String, ParserError>)
        requires
            old(self).wf(),
        ensures
            Self::frames(*old(self), *final(self)),
            r matches Err(e) ==> !(e is TokenizerError),
            r is Ok ==> old(self).index < final(self).index,
            r matches Ok(v) ==> old(self).spec_peek() matches Token::SingleQuotedString(s) && v@
                == s@,
            r is Err <==> !(old(self).spec_peek() is SingleQuotedString),
            r matches Err(e) ==> e matches ParserError::ParserError(m) && m@
                == Self::expected_message("literal string"@, old(self).spec_peek()),
    {
        proof {
            lemma_next_sig_bounds(self.tokens@, self.index as int);
        }
        let t = self.peek_token();
        match t {
            Token::SingleQuotedString(s) => {
                let _ = self.next_token();
                Result::Ok(s)
            },
            _ => Result::Err(self.expected_err("literal string", t)),
        }
    }

    /// The literal value a token stands for, when it stands for one.
    pub open spec fn spec_value_of(t: Token) -> Option<Value> {
        match t {
            Token::Word(w) => {
                if !(w.quote_style is None) {
                    Option::None
                } else if w.keyword == Keyword::TRUE {
                    Option::Some(Value::Boolean(true))
                } else if w.keyword == Keyword::FALSE {
                    Option::Some(Value::Boolean(false))
                } else if w.keyword == Keyword::NULL {
                    Option::Some(Value::Null)
                } else {
                    Option::None
                }
            },
            Token::Number(s) => Option::Some(Value::Number(s)),
            Token::SingleQuotedString(s) => Option::Some(Value::SingleQuotedString(s)),
            _ => Option::None,
        }
    }

    /// Parses a literal value: a number, a string, `TRUE`, `FALSE` or
    /// `NULL`. Succeeds exactly when the next significant token stands for a
    /// literal value, and returns that value.
    pub fn parse_value(&mut self) -> (r: Result<Value, ParserError>)
        requires
            old(self).wf(),
        ensures
            Self::frames(*old(self), *final(self)),
            r matches Err(e) ==> !(e is TokenizerError),
            r is Ok ==> old(self).index < final(self).index,
            r matches Ok(v) ==> Self::spec_value_of(old(self).spec_peek()) == Option::Some(v),
            r is Err <==> Self::spec_value_of(old(self).spec_peek()) is None,
            r matches Err(e) ==> e matches ParserError::ParserError(m) && m@
                == Self::expected_message("a value"@, old(self).spec_peek()),
    {
        proof {
            lemma_next_sig_bounds(self.tokens@, self.index as int);
        }
        let t = self.peek_token();
        match t {
            Token::Word(w) => {
                let kw = if matches!(w.quote_style, Option::None) {
                    w.keyword
                } else {
                    Keyword::NoKeyword
                };
                match kw {
                    Keyword::TRUE => {
                        let _ = self.next_token();
                        Result::Ok(Value::Boolean(true))
                    },
                    Keyword::FALSE => {
                        let _ = self.next_token();
                        Result::Ok(Value::Boolean(false))
                    },
                    Keyword::NULL => {
                        let _ = self.next_token();
                        Result::Ok(Value::Null)
                    },
                    _ => Result::Err(self.expected_err("a value", Token::Word(w))),
                }
            },
            Token::Number(s) => {
                let _ = self.next_token();
                Result::Ok(Value::Number(s))
            },
            Token::SingleQuotedString(s) => {
                let _ = self.next_token();
                Result::Ok(Value::SingleQuotedString(s))
            },
            _ => Result::Err(self.expected_err("a value", t)),
        }
    }

    /// Parses an optional parenthesized length after a type name.
    fn parse_optional_type_length(&mut self) -> (r: Result<Option<u64>, ParserError>)
        requires
            old(self).wf(),
        ensures
            Self::frames(*old(self), *final(self)),
            r matches Err(e) ==> !(e is TokenizerError),
    {
        if self.consume_symbol(Symbol::LParen) {
            let v = match self.parse_literal_uint() {
                Result::Ok(v) => v,
                Result::Err(e) => {
                    return Result::Err(e);
                },
            };
            match self.expect_symbol(Symbol::RParen, ")") {
                Result::Ok(_) => (),
                Result::Err(e) => {
                    return Result::Err(e);
                },
            }
            Result::Ok(Option::Some(v))
        } else {
            Result::Ok(Option::None)
        }
    }

    /// The data type a lone keyword names, for the types that take no
    /// arguments.
    pub open spec fn spec_simple_type_of(k: Keyword) -> Option<DataType> {
        if k == Keyword::BOOLEAN {
            Option::Some(DataType::Boolean)
        } else if k == Keyword::SMALLINT {
            Option::Some(DataType::SmallInt)
        } else if k == Keyword::INT || k == Keyword::INTEGER {
            Option::Some(DataType::Int)
        } else if k == Keyword::BIGINT {
            Option::Some(DataType::BigInt)
        } else if k == Keyword::REAL {
            Option::Some(DataType::Real)
        } else if k == Keyword::UUID {
            Option::Some(DataType::Uuid)
        } else if k == Keyword::DATE {
            Option::Some(DataType::Date)
        } else if k == Keyword::TIME {
            Option::Some(DataType::Time)
        } else if k == Keyword::TEXT {
            Option::Some(DataType::Text)
        } else if k == Keyword::REGCLASS {
            Option::Some(DataType::Regclass)
        } else {
            Option::None
        }
    }

    /// Whether a keyword opens one of the named type grammars, so a word
    /// carrying none of them is read as a custom type name.
    pub open spec fn spec_type_keyword(k: Keyword) -> bool {
        ||| k == Keyword::BOOLEAN
        ||| k == Keyword::SMALLINT
        ||| k == Keyword::INT
        ||| k == Keyword::INTEGER
        ||| k == Keyword::BIGINT
        ||| k == Keyword::REAL
        ||| k == Keyword::DOUBLE
        ||| k == Keyword::CHARACTER
        ||| k == Keyword::CHAR
        ||| k == Keyword::VARCHAR
        ||| k == Keyword::UUID
        ||| k == Keyword::DATE
        ||| k == Keyword::TIME
        ||| k == Keyword::TIMESTAMP
        ||| k == Keyword::TEXT
        ||| k == Keyword::NUMERIC
        ||| k == Keyword::DECIMAL
        ||| k == Keyword::REGCLASS
    }

    /// Parses a SQL data type name. A lone keyword naming an argument-free
    /// type (not followed by an array bracket) parses to exactly that type,
    /// and a lone word carrying no type keyword parses to exactly that
    /// custom type name.
    #[verifier::rlimit(100)]
    pub fn parse_data_type(&mut self) -> (r: Result<DataType, ParserError>)
        requires
            old(self).wf(),
        ensures
            Self::frames(*old(self), *final(self)),
            r matches Err(e) ==> !(e is TokenizerError),
            Self::spec_simple_type_of(old(self).spec_peek_keyword()) matches Option::Some(dt0)
                ==> (!(old(self).spec_peek2() is LBracket) ==> (r matches Ok(d) && d == dt0)),
            old(self).spec_peek() matches Token::Word(w) ==> ((!Self::spec_type_keyword(
                old(self).spec_peek_keyword(),
            ) && !(old(self).spec_peek2() is Period) && !(old(self).spec_peek2() is LBracket))
                ==> (r matches Ok(d) && (d matches DataType::Custom(nm) && nm.0@.len() == 1
                && nm.0@[0].value@ == w.value@ && nm.0@[0].quote_style == w.quote_style))),
    {
        let ghost simple_case = Self::spec_simple_type_of(old(self).spec_peek_keyword())
            matches Option::Some(dt0) && !(old(self).spec_peek2() is LBracket);
        let ghost custom_case = old(self).spec_peek() is Word && !Self::spec_type_keyword(
            old(self).spec_peek_keyword(),
        ) && !(old(self).spec_peek2() is Period) && !(old(self).spec_peek2() is LBracket);
        let base: DataType;
        if self.parse_keyword(Keyword::BOOLEAN) {
            base = DataType::Boolean;
        } else if self.parse_keyword(Keyword::SMALLINT) {
            base = DataType::SmallInt;
        } else if self.parse_keyword(Keyword::INT) || self.parse_keyword(Keyword::INTEGER) {
            base = DataType::Int;
        } else if self.parse_keyword(Keyword::BIGINT) {
            base = DataType::BigInt;
        } else if self.parse_keyword(Keyword::REAL) {
            base = DataType::Real;
        } else if self.parse_keyword(Keyword::DOUBLE) {
            let _ = self.parse_keyword(Keyword::PRECISION);
            base = DataType::Double;
        } else if self.parse_keyword(Keyword::CHARACTER) || self.parse_keyword(Keyword::CHAR) {
            if self.parse_keyword(Keyword::VARYING) {
                let n = match self.parse_optional_type_length() {
                    Result::Ok(n) => n,
                    Result::Err(e) => {
                        return Result::Err(e);
                    },
                };
                base = DataType::Varchar(n);
            } else {
                let n = match self.parse_optional_type_length() {
                    Result::Ok(n) => n,
                    Result::Err(e) => {
                        return Result::Err(e);
                    },
                };
                base = DataType::Char(n);
            }
        } else if self.parse_keyword(Keyword::VARCHAR) {
            let n = match self.parse_optional_type_length() {
                Result::Ok(n) => n,
                Result::Err(e) => {
                    return Result::Err(e);
                },
            };
            base = DataType::Varchar(n);
        } else if self.parse_keyword(Keyword::UUID) {
            base = DataType::Uuid;
        } else if self.parse_keyword(Keyword::DATE) {
            base = DataType::Date;
        } else if self.parse_keyword(Keyword::TIME) {
            base = DataType::Time;
        } else if self.parse_keyword(Keyword::TIMESTAMP) {
            if self.parse_keyword(Keyword::WITH) || self.parse_keyword(Keyword::WITHOUT) {
                match self.expect_keyword(Keyword::TIME, "TIME") {
                    Result::Ok(_) => (),
                    Result::Err(e) => {
                        return Result::Err(e);
                    },
                }
                match self.expect_keyword(Keyword::ZONE, "ZONE") {
                    Result::Ok(_) => (),
                    Result::Err(e) => {
                        return Result::Err(e);
                    },
                }
            }
            base = DataType::Timestamp;
        } else if self.parse_keyword(Keyword::TEXT) {
            base = DataType::Text;
        } else if self.parse_keyword(Keyword::NUMERIC) || self.parse_keyword(Keyword::DECIMAL) {
            if self.consume_symbol(Symbol::LParen) {
                let p = match self.parse_literal_uint() {
                    Result::Ok(v) => v,
                    Result::Err(e) => {
                        return Result::Err(e);
                    },
                };
                let mut scale: Option<u64> = Option::None;
                if self.consume_symbol(Symbol::Comma) {
                    let sv = match self.parse_literal_uint() {
                        Result::Ok(v) => v,
                        Result::Err(e) => {
                            return Result::Err(e);
                        },
                    };
                    scale = Option::Some(sv);
                }
                match self.expect_symbol(Symbol::RParen, ")") {
                    Result::Ok(_) => (),
                    Result::Err(e) => {
                        return Result::Err(e);
                    },
                }
                base = DataType::Decimal(Option::Some(p), scale);
            } else {
                base = DataType::Decimal(Option::None, Option::None);
            }
        } else if self.parse_keyword(Keyword::REGCLASS) {
            base = DataType::Regclass;
        } else {
            let t = self.peek_token();
            match t {
                Token::Word(_) => {
                    let ghost before_name = *self;
                    let name = match self.parse_object_name() {
                        Result::Ok(n) => n,
                        Result::Err(e) => {
                            return Result::Err(e);
                        },
                    };
                    proof {
                        if custom_case {
                            lemma_peek_after_advance(before_name, *self);
                        }
                    }
                    base = DataType::Custom(name);
                },
                _ => {
                    return Result::Err(self.expected_err("a data type name", t));
                },
            }
        }
        proof {
            if simple_case {
                lemma_peek_after_advance(*old(self), *self);
            }
        }
        // Array suffixes: `type[]`, possibly repeated.
        let mut dt = base;
        loop
            invariant
                self.wf(),
                self.same_input(*old(self)),
                old(self).index <= self.index,
                simple_case == (Self::spec_simple_type_of(old(self).spec_peek_keyword())
                    matches Option::Some(dt0) && !(old(self).spec_peek2() is LBracket)),
                simple_case ==> (Self::spec_simple_type_of(old(self).spec_peek_keyword())
                    matches Option::Some(dt0) && dt == dt0 && !(self.spec_peek() is LBracket)),
                custom_case == (old(self).spec_peek() is Word && !Self::spec_type_keyword(
                    old(self).spec_peek_keyword(),
                ) && !(old(self).spec_peek2() is Period) && !(old(self).spec_peek2() is LBracket)),
                custom_case ==> (old(self).spec_peek() matches Token::Word(w) && (dt
                    matches DataType::Custom(nm) && nm.0@.len() == 1 && nm.0@[0].value@
                    == w.value@ && nm.0@[0].quote_style == w.quote_style) && !(
                self.spec_peek() is LBracket)),
            decreases self.tokens@.len() - self.index,
        {
            if !self.consume_symbol(Symbol::LBracket) {
                break ;
            }
            match self.expect_symbol(Symbol::RBracket, "]") {
                Result::Ok(_) => (),
                Result::Err(e) => {
                    return Result::Err(e);
                },
            }
            dt = DataType::Array(Box::new(dt));
        }
        Result::Ok(dt)
    }
}

/// The precedence tiers of the expression grammar, lowest binding first.
pub const PREC_OR: u8 = 5;

pub const PREC_AND: u8 = 10;

pub const PREC_UNARY_NOT: u8 = 15;

pub const PREC_IS: u8 = 17;

pub const PREC_COMPARISON: u8 = 20;

pub const PREC_PIPE: u8 = 21;

pub const PREC_CARET: u8 = 22;

pub const PREC_AMPERSAND: u8 = 23;

pub const PREC_PLUS_MINUS: u8 = 30;

pub const PREC_MUL_DIV_MOD: u8 = 40;

pub const PREC_STRING_CONCAT: u8 = 50;

pub const PREC_DOUBLE_COLON: u8 = 60;

/// The keyword carried by a token, when it is an unquoted word.
pub open spec fn token_keyword(t: Token) -> Keyword {
    match t {
        Token::Word(w) => if w.quote_style is None {
            w.keyword
        } else {
            Keyword::NoKeyword
        },
        _ => Keyword::NoKeyword,
    }
}

impl Parser {
    /// The binding power of the operator starting at the cursor, and zero
    /// when no operator starts there. The dialect is consulted first and may
    /// override the table; `NOT` binds as the operator it negates (`NOT IN`,
    /// `NOT BETWEEN`, `NOT LIKE`).
    pub open spec fn spec_next_precedence(self) -> u8 {
        match self.dialect.spec_precedence_override(self.spec_peek()) {
            Option::Some(p) => p,
            Option::None => self.spec_default_precedence(),
        }
    }

    /// The default precedence table, applied when the dialect does not
    /// intercept the decision.
    pub open spec fn spec_default_precedence(self) -> u8 {
        match self.spec_peek() {
            Token::Word(w) => {
                if !(w.quote_style is None) {
                    0
                } else if w.keyword == Keyword::OR {
                    PREC_OR
                } else if w.keyword == Keyword::AND {
                    PREC_AND
                } else if w.keyword == Keyword::IS {
                    PREC_IS
                } else if w.keyword == Keyword::IN || w.keyword == Keyword::BETWEEN || w.keyword
                    == Keyword::LIKE {
                    PREC_COMPARISON
                } else if w.keyword == Keyword::NOT {
                    if token_keyword(self.spec_peek2()) == Keyword::IN || token_keyword(
                        self.spec_peek2(),
                    ) == Keyword::BETWEEN || token_keyword(self.spec_peek2()) == Keyword::LIKE {
                        PREC_COMPARISON
                    } else {
                        0
                    }
                } else {
                    0
                }
            },
            Token::Eq | Token::Lt | Token::Gt | Token::LtEq | Token::GtEq => PREC_COMPARISON,
            Token::Neq(_) => PREC_COMPARISON,
            Token::Pipe => PREC_PIPE,
            Token::Caret => PREC_CARET,
            Token::Ampersand => PREC_AMPERSAND,
            Token::Plus | Token::Minus => PREC_PLUS_MINUS,
            Token::Mul | Token::Div | Token::Mod => PREC_MUL_DIV_MOD,
            Token::StringConcat => PREC_STRING_CONCAT,
            Token::DoubleColon => PREC_DOUBLE_COLON,
            _ => 0,
        }
    }

    /// Computes the binding power of the operator at the cursor.
    pub fn get_next_precedence(&self) -> (p: u8)
        requires
            self.wf(),
        ensures
            p == self.spec_next_precedence(),
    {
        let t = self.peek_token();
        if let Option::Some(p) = self.dialect.precedence_override(&t) {
            return p;
        }
        match &t {
            Token::Word(w) => {
                if !matches!(w.quote_style, Option::None) {
                    0
                } else if matches!(w.keyword, Keyword::OR) {
                    PREC_OR
                } else if matches!(w.keyword, Keyword::AND) {
                    PREC_AND
                } else if matches!(w.keyword, Keyword::IS) {
                    PREC_IS
                } else if matches!(w.keyword, Keyword::IN | Keyword::BETWEEN | Keyword::LIKE) {
                    PREC_COMPARISON
                } else if matches!(w.keyword, Keyword::NOT) {
                    let t2 = self.peek_token2();
                    match &t2 {
                        Token::Word(w2) => {
                            if matches!(w2.quote_style, Option::None) && matches!(
                                w2.keyword,
                                Keyword::IN | Keyword::BETWEEN | Keyword::LIKE,
                            ) {
                                PREC_COMPARISON
                            } else {
                                0
                            }
                        },
                        _ => 0,
                    }
                } else {
                    0
                }
            },
            Token::Eq | Token::Lt | Token::Gt | Token::LtEq | Token::GtEq => PREC_COMPARISON,
            Token::Neq(_) => PREC_COMPARISON,
            Token::Pipe => PREC_PIPE,
            Token::Caret => PREC_CARET,
            Token::Ampersand => PREC_AMPERSAND,
            Token::Plus | Token::Minus => PREC_PLUS_MINUS,
            Token::Mul | Token::Div | Token::Mod => PREC_MUL_DIV_MOD,
            Token::StringConcat => PREC_STRING_CONCAT,
            Token::DoubleColon => PREC_DOUBLE_COLON,
            _ => 0,
        }
    }

    /// Hands out one unit of the recursion budget, or fails when the budget
    /// is spent. Every descent into a nested construct goes through this.
    pub fn use_depth(depth: u32) -> (r: Result<u32, ParserError>)
        ensures
            r matches Ok(d) ==> depth > 0 && d == depth - 1,
            r is Err ==> depth == 0 && (r matches Err(e) ==> e
                == ParserError::RecursionLimitExceeded),
    {
        if depth == 0 {
            Result::Err(ParserError::RecursionLimitExceeded)
        } else {
            Result::Ok(depth - 1)
        }
    }

    /// Whether a token can never continue an expression, so an expression
    /// parse stops in front of it.
    pub open spec fn stops_expression(t: Token) -> bool {
        t is EOF || t is RParen || t is Comma || t is SemiColon
    }

    /// The binary operator a token stands for in infix position, when it
    /// stands for one.
    pub open spec fn spec_binop_of(t: Token) -> Option<BinaryOperator> {
        match t {
            Token::Eq => Option::Some(BinaryOperator::Eq),
            Token::Neq(_) => Option::Some(BinaryOperator::NotEq),
            Token::Lt => Option::Some(BinaryOperator::Lt),
            Token::Gt => Option::Some(BinaryOperator::Gt),
            Token::LtEq => Option::Some(BinaryOperator::LtEq),
            Token::GtEq => Option::Some(BinaryOperator::GtEq),
            Token::Plus => Option::Some(BinaryOperator::Plus),
            Token::Minus => Option::Some(BinaryOperator::Minus),
            Token::Mul => Option::Some(BinaryOperator::Multiply),
            Token::Div => Option::Some(BinaryOperator::Divide),
            Token::Mod => Option::Some(BinaryOperator::Modulo),
            Token::StringConcat => Option::Some(BinaryOperator::StringConcat),
            Token::Pipe => Option::Some(BinaryOperator::BitwiseOr),
            Token::Caret => Option::Some(BinaryOperator::BitwiseXor),
            Token::Ampersand => Option::Some(BinaryOperator::BitwiseAnd),
            Token::Word(w) => {
                if !(w.quote_style is None) {
                    Option::None
                } else if w.keyword == Keyword::AND {
                    Option::Some(BinaryOperator::And)
                } else if w.keyword == Keyword::OR {
                    Option::Some(BinaryOperator::Or)
                } else {
                    Option::None
                }
            },
            _ => Option::None,
        }
    }

    /// The literal value a number or string token stands for.
    pub open spec fn spec_literal_value_of(t: Token) -> Option<Value> {
        match t {
            Token::Number(s) => Option::Some(Value::Number(s)),
            Token::SingleQuotedString(s) => Option::Some(Value::SingleQuotedString(s)),
            _ => Option::None,
        }
    }

    /// Parses an expression at the lowest precedence, within the parser's
    /// recursion budget. At the end of the input it fails naming the missing
    /// expression; a lone numeric literal is returned as that literal value.
    pub fn parse_expr(&mut self) -> (r: Result<Expr, ParserError>)
        requires
            old(self).wf(),
        ensures
            Self::frames(*old(self), *final(self)),
            r matches Err(e) ==> !(e is TokenizerError),
            old(self).spec_peek() is EOF ==> (r matches Err(e) && e
                matches ParserError::ParserError(m) && m@ == Self::expected_message(
                "an expression"@,
                Token::EOF,
            )),
            Self::spec_literal_value_of(old(self).spec_peek()) matches Option::Some(v) ==> (
            Self::stops_expression(old(self).spec_peek2()) ==> (r matches Ok(e) && e
                == Expr::Value(v))),
            old(self).recursion_limit >= 1 ==> (Self::spec_literal_value_of(
                old(self).spec_peek(),
            ) matches Option::Some(a) ==> (Self::spec_binop_of(old(self).spec_peek2())
                matches Option::Some(op2) ==> (Self::spec_literal_value_of(old(self).spec_peek3())
                matches Option::Some(b) ==> (Self::stops_expression(old(self).spec_peek4()) ==> (r
                matches Ok(e) && e matches Expr::BinaryOp { left, op, right } && *left
                == Expr::Value(a) && op == op2 && *right == Expr::Value(b)))))),
            old(self).recursion_limit == 0 && old(self).spec_peek() is LParen ==> (r matches Err(
                e,
            ) && e == ParserError::RecursionLimitExceeded),
    {
        let depth = self.recursion_limit;
        self.parse_subexpr_rec(0, depth)
    }

    /// Parses an expression with precedence climbing: a prefix expression,
    /// then every following operator that binds more tightly than the
    /// enclosing one. `depth` is the remaining recursion budget. A lone
    /// literal parses to that value, and a literal, an infix operator and a
    /// second literal parse to exactly that binary operation.
    pub fn parse_subexpr_rec(&mut self, precedence: u8, depth: u32) -> (r: Result<
        Expr,
        ParserError,
    >)
        requires
            old(self).wf(),
        ensures
            Self::frames(*old(self), *final(self)),
            r matches Err(e) ==> !(e is TokenizerError),
            old(self).spec_peek() is EOF ==> (r matches Err(e) && e
                matches ParserError::ParserError(m) && m@ == Self::expected_message(
                "an expression"@,
                Token::EOF,
            )),
            Self::spec_literal_value_of(old(self).spec_peek()) matches Option::Some(v) ==> (
            Self::stops_expression(old(self).spec_peek2()) ==> (r matches Ok(e) && e
                == Expr::Value(v) && final(self).spec_peek() == old(self).spec_peek2())),
            precedence == 0 && depth >= 1 ==> (Self::spec_literal_value_of(old(self).spec_peek())
                matches Option::Some(a) ==> (Self::spec_binop_of(old(self).spec_peek2())
                matches Option::Some(op2) ==> (Self::spec_literal_value_of(old(self).spec_peek3())
                matches Option::Some(b) ==> (Self::stops_expression(old(self).spec_peek4()) ==> (r
                matches Ok(e) && e matches Expr::BinaryOp { left, op, right } && *left
                == Expr::Value(a) && op == op2 && *right == Expr::Value(b)))))),
            depth == 0 && old(self).spec_peek() is LParen ==> (r matches Err(e) && e
                == ParserError::RecursionLimitExceeded),
        decreases depth, 18int,
    {
        let ghost literal_case = Self::spec_literal_value_of(old(self).spec_peek())
            matches Option::Some(v) && Self::stops_expression(old(self).spec_peek2());
        let ghost arith_case = precedence == 0 && depth >= 1 && Self::spec_literal_value_of(
            old(self).spec_peek(),
        ) is Some && Self::spec_binop_of(old(self).spec_peek2()) is Some
            && Self::spec_literal_value_of(old(self).spec_peek3()) is Some
            && Self::stops_expression(old(self).spec_peek4());
        let mut expr = match self.parse_prefix_rec(depth) {
            Result::Ok(e) => e,
            Result::Err(e) => {
                return Result::Err(e);
            },
        };
        proof {
            if literal_case || arith_case {
                lemma_peek_after_advance(*old(self), *self);
            }
        }
        loop
            invariant
                self.wf(),
                self.same_input(*old(self)),
                old(self).index <= self.index,
                !(old(self).spec_peek() is EOF),
                !(depth == 0 && old(self).spec_peek() is LParen),
                literal_case == (Self::spec_literal_value_of(old(self).spec_peek())
                    matches Option::Some(v) && Self::stops_expression(old(self).spec_peek2())),
                literal_case ==> (Self::spec_literal_value_of(old(self).spec_peek())
                    matches Option::Some(v) && expr == Expr::Value(v) && self.spec_peek() == old(
                    self,
                ).spec_peek2() && self.spec_next_precedence() == 0),
                arith_case == (precedence == 0 && depth >= 1 && Self::spec_literal_value_of(
                    old(self).spec_peek(),
                ) is Some && Self::spec_binop_of(old(self).spec_peek2()) is Some
                    && Self::spec_literal_value_of(old(self).spec_peek3()) is Some
                    && Self::stops_expression(old(self).spec_peek4())),
                arith_case ==> ((Self::spec_literal_value_of(old(self).spec_peek())
                    matches Option::Some(a) && expr == Expr::Value(a) && self.spec_peek() == old(
                    self,
                ).spec_peek2() && self.spec_peek2() == old(self).spec_peek3() && self.spec_peek3()
                    == old(self).spec_peek4()) || (Self::spec_literal_value_of(
                    old(self).spec_peek(),
                ) matches Option::Some(a) && Self::spec_binop_of(old(self).spec_peek2())
                    matches Option::Some(op2) && Self::spec_literal_value_of(
                    old(self).spec_peek3(),
                ) matches Option::Some(b) && expr matches Expr::BinaryOp { left, op, right }
                    && *left == Expr::Value(a) && op == op2 && *right == Expr::Value(b)
                    && self.spec_next_precedence() == 0)),
            decreases self.tokens@.len() - self.index,
        {
            let next_precedence = self.get_next_precedence();
            if next_precedence <= precedence {
                return Result::Ok(expr);
            }
            expr = match self.parse_infix_rec(expr, next_precedence, depth) {
                Result::Ok(e) => e,
                Result::Err(e) => {
                    return Result::Err(e);
                },
            };
        }
    }

    /// Parses a prefix or primary expression: a literal, an identifier or
    /// function call, a unary operation, a special form, or a parenthesized
    /// expression, tuple or subquery.
    #[verifier::rlimit(100)]
    fn parse_prefix_rec(&mut self, depth: u32) -> (r: Result<Expr, ParserError>)
        requires
            old(self).wf(),
        ensures
            Self::frames(*old(self), *final(self)),
            r matches Err(e) ==> !(e is TokenizerError),
            r is Ok ==> old(self).index < final(self).index,
            old(self).spec_peek() is EOF ==> (r matches Err(e) && e
                matches ParserError::ParserError(m) && m@ == Self::expected_message(
                "an expression"@,
                Token::EOF,
            )),
            Self::spec_literal_value_of(old(self).spec_peek()) matches Option::Some(v) ==> (r
                matches Ok(e) && e == Expr::Value(v) && final(self).index == old(
                self,
            ).spec_advanced()),
            depth == 0 && old(self).spec_peek() is LParen ==> (r matches Err(e) && e
                == ParserError::RecursionLimitExceeded),
        decreases depth, 17int,
    {
        proof {
            lemma_next_sig_bounds(self.tokens@, self.index as int);
        }
        let t = self.next_token();
        match t {
            Token::Word(w) => {
                let kw = if matches!(w.quote_style, Option::None) {
                    w.keyword
                } else {
                    Keyword::NoKeyword
                };
                match kw {
                    Keyword::TRUE => Result::Ok(Expr::Value(Value::Boolean(true))),
                    Keyword::FALSE => Result::Ok(Expr::Value(Value::Boolean(false))),
                    Keyword::NULL => Result::Ok(Expr::Value(Value::Null)),
                    Keyword::CASE => self.parse_case_rec(depth),
                    Keyword::CAST => self.parse_cast_rec(CastKind::Cast, depth),
                    Keyword::TRY_CAST => self.parse_cast_rec(CastKind::TryCast, depth),
                    Keyword::CONVERT => self.parse_convert_rec(depth),
                    Keyword::INTERVAL => self.parse_interval_rec(depth),
                    Keyword::EXISTS => self.parse_exists_rec(false, depth),
                    Keyword::NOT => {
                        let d = match Self::use_depth(depth) {
                            Result::Ok(d) => d,
                            Result::Err(e) => {
                                return Result::Err(e);
                            },
                        };
                        if self.parse_keyword(Keyword::EXISTS) {
                            self.parse_exists_rec(true, d)
                        } else {
                            let inner = match self.parse_subexpr_rec(PREC_UNARY_NOT, d) {
                                Result::Ok(e) => e,
                                Result::Err(e) => {
                                    return Result::Err(e);
                                },
                            };
                            Result::Ok(
                                Expr::UnaryOp {
                                    op: UnaryOperator::Not,
                                    expr: Box::new(inner),
                                },
                            )
                        }
                    },
                    _ => parse_word_expr(self, w, depth),
                }
            },
            Token::Number(s) => Result::Ok(Expr::Value(Value::Number(s))),
            Token::SingleQuotedString(s) => Result::Ok(Expr::Value(Value::SingleQuotedString(s))),
            Token::Mul => Result::Ok(Expr::Wildcard),
            Token::Plus => {
                let d = match Self::use_depth(depth) {
                    Result::Ok(d) => d,
                    Result::Err(e) => {
                        return Result::Err(e);
                    },
                };
                let inner = match self.parse_subexpr_rec(PREC_PLUS_MINUS, d) {
                    Result::Ok(e) => e,
                    Result::Err(e) => {
                        return Result::Err(e);
                    },
                };
                Result::Ok(Expr::UnaryOp { op: UnaryOperator::Plus, expr: Box::new(inner) })
            },
            Token::Minus => {
                let d = match Self::use_depth(depth) {
                    Result::Ok(d) => d,
                    Result::Err(e) => {
                        return Result::Err(e);
                    },
                };
                let inner = match self.parse_subexpr_rec(PREC_PLUS_MINUS, d) {
                    Result::Ok(e) => e,
                    Result::Err(e) => {
                        return Result::Err(e);
                    },
                };
                Result::Ok(Expr::UnaryOp { op: UnaryOperator::Minus, expr: Box::new(inner) })
            },
            Token::LParen => {
                let d = match Self::use_depth(depth) {
                    Result::Ok(d) => d,
                    Result::Err(e) => {
                        return Result::Err(e);
                    },
                };
                // Decide among a scalar subquery, a single parenthesized
                // expression, and a tuple: a leading SELECT or WITH means a
                // subquery, else a comma-separated list of expressions.
                let starts_query = self.peek_keyword_is(Keyword::SELECT) || self.peek_keyword_is(
                    Keyword::WITH,
                );
                if starts_query {
                    let q = match self.parse_query_rec(d) {
                        Result::Ok(q) => q,
                        Result::Err(e) => {
                            return Result::Err(e);
                        },
                    };
                    match self.expect_symbol(Symbol::RParen, ")") {
                        Result::Ok(_) => (),
                        Result::Err(e) => {
                            return Result::Err(e);
                        },
                    }
                    Result::Ok(Expr::Subquery(Box::new(q)))
                } else {
                    let mut exprs: Vec<Expr> = Vec::new();
                    loop
                        invariant
                            d < depth,
                            self.wf(),
                            self.same_input(*old(self)),
                            old(self).index <= self.index,
                            old(self).spec_peek() is LParen,
                        decreases self.tokens@.len() - self.index,
                    {
                        let e = match self.parse_subexpr_rec(0, d) {
                            Result::Ok(e) => e,
                            Result::Err(e) => {
                                return Result::Err(e);
                            },
                        };
                        exprs.push(e);
                        if !self.consume_symbol(Symbol::Comma) {
                            break ;
                        }
                    }
                    match self.expect_symbol(Symbol::RParen, ")") {
                        Result::Ok(_) => (),
                        Result::Err(e) => {
                            return Result::Err(e);
                        },
                    }
                    if exprs.len() == 1 {
                        let e = exprs.pop().unwrap();
                        Result::Ok(Expr::Nested(Box::new(e)))
                    } else {
                        Result::Ok(Expr::Tuple(exprs))
                    }
                }
            },
            _ => Result::Err(self.expected_err("an expression", t)),
        }
    }

    /// Whether the next significant token is the given keyword, without
    /// consuming it.
    pub fn peek_keyword_is(&self, k: Keyword) -> (b: bool)
        requires
            self.wf(),
        ensures
            b == (self.spec_peek_keyword() == k && k != Keyword::NoKeyword),
    {
        let t = self.peek_token();
        match t {
            Token::Word(w) => matches!(w.quote_style, Option::None) && w.keyword == k && !matches!(
                k,
                Keyword::NoKeyword,
            ),
            _ => false,
        }
    }

    /// Parses the infix or postfix construct that the operator at the cursor
    /// begins, with `expr` as its left operand.
    #[verifier::rlimit(100)]
    fn parse_infix_rec(&mut self, expr: Expr, precedence: u8, depth: u32) -> (r: Result<
        Expr,
        ParserError,
    >)
        requires
            old(self).wf(),
        ensures
            Self::frames(*old(self), *final(self)),
            r matches Err(e) ==> !(e is TokenizerError),
            r is Ok ==> old(self).index < final(self).index,
            depth > 0 ==> (Self::spec_binop_of(old(self).spec_peek()) matches Option::Some(op2)
                ==> (Self::spec_literal_value_of(old(self).spec_peek2()) matches Option::Some(v)
                ==> (Self::stops_expression(old(self).spec_peek3()) ==> (r matches Ok(e2) && e2
                matches Expr::BinaryOp { left, op, right } && *left == expr && op == op2 && *right
                == Expr::Value(v) && final(self).spec_peek() == old(self).spec_peek3())))),
        decreases depth, 16int,
    {
        proof {
            lemma_next_sig_bounds(self.tokens@, self.index as int);
        }
        let t = self.next_token();
        proof {
            lemma_peek_after_advance(*old(self), *self);
        }
        let op: Option<BinaryOperator> = match &t {
            Token::Eq => Option::Some(BinaryOperator::Eq),
            Token::Neq(_) => Option::Some(BinaryOperator::NotEq),
            Token::Lt => Option::Some(BinaryOperator::Lt),
            Token::Gt => Option::Some(BinaryOperator::Gt),
            Token::LtEq => Option::Some(BinaryOperator::LtEq),
            Token::GtEq => Option::Some(BinaryOperator::GtEq),
            Token::Plus => Option::Some(BinaryOperator::Plus),
            Token::Minus => Option::Some(BinaryOperator::Minus),
            Token::Mul => Option::Some(BinaryOperator::Multiply),
            Token::Div => Option::Some(BinaryOperator::Divide),
            Token::Mod => Option::Some(BinaryOperator::Modulo),
            Token::StringConcat => Option::Some(BinaryOperator::StringConcat),
            Token::Pipe => Option::Some(BinaryOperator::BitwiseOr),
            Token::Caret => Option::Some(BinaryOperator::BitwiseXor),
            Token::Ampersand => Option::Some(BinaryOperator::BitwiseAnd),
            Token::Word(w) => {
                if matches!(w.quote_style, Option::None) && matches!(w.keyword, Keyword::AND) {
                    Option::Some(BinaryOperator::And)
                } else if matches!(w.quote_style, Option::None) && matches!(
                    w.keyword,
                    Keyword::OR,
                ) {
                    Option::Some(BinaryOperator::Or)
                } else {
                    Option::None
                }
            },
            _ => Option::None,
        };
        proof {
            assert(op == Self::spec_binop_of(t));
        }
        if let Option::Some(op) = op {
            let d = match Self::use_depth(depth) {
                Result::Ok(d) => d,
                Result::Err(e) => {
                    return Result::Err(e);
                },
            };
            let right = match self.parse_subexpr_rec(precedence, d) {
                Result::Ok(e) => e,
                Result::Err(e) => {
                    return Result::Err(e);
                },
            };
            return Result::Ok(
                Expr::BinaryOp { left: Box::new(expr), op, right: Box::new(right) },
            );
        }
        match t {
            Token::DoubleColon => {
                let dt = match self.parse_data_type() {
                    Result::Ok(dt) => dt,
                    Result::Err(e) => {
                        return Result::Err(e);
                    },
                };
                Result::Ok(Expr::Cast { kind: CastKind::Cast, expr: Box::new(expr), data_type: dt })
            },
            Token::Word(w) => {
                let kw = if matches!(w.quote_style, Option::None) {
                    w.keyword
                } else {
                    Keyword::NoKeyword
                };
                match kw {
                    Keyword::IS => self.parse_is_rec(expr),
                    Keyword::BETWEEN => self.parse_between_rec(expr, false, depth),
                    Keyword::IN => self.parse_in_rec(expr, false, depth),
                    Keyword::LIKE => self.parse_like_rec(expr, false, depth),
                    Keyword::NOT => {
                        if self.parse_keyword(Keyword::IN) {
                            self.parse_in_rec(expr, true, depth)
                        } else if self.parse_keyword(Keyword::BETWEEN) {
                            self.parse_between_rec(expr, true, depth)
                        } else if self.parse_keyword(Keyword::LIKE) {
                            self.parse_like_rec(expr, true, depth)
                        } else {
                            let u = self.peek_token();
                            Result::Err(self.expected_err("IN, BETWEEN or LIKE after NOT", u))
                        }
                    },
                    _ => {
                        let u = self.peek_token();
                        Result::Err(self.expected_err("an infix operator", u))
                    },
                }
            },
            _ => {
                let u = self.peek_token();
                Result::Err(self.expected_err("an infix operator", u))
            },
        }
    }

    /// Parses what follows `IS`: `[NOT] NULL`, `[NOT] TRUE` or `[NOT]
    /// FALSE`.
    fn parse_is_rec(&mut self, expr: Expr) -> (r: Result<Expr, ParserError>)
        requires
            old(self).wf(),
        ensures
            Self::frames(*old(self), *final(self)),
            r matches Err(e) ==> !(e is TokenizerError),
    {
        if self.parse_keyword(Keyword::NULL) {
            Result::Ok(Expr::IsNull(Box::new(expr)))
        } else if self.parse_keywords2(Keyword::NOT, Keyword::NULL) {
            Result::Ok(Expr::IsNotNull(Box::new(expr)))
        } else if self.parse_keyword(Keyword::TRUE) {
            Result::Ok(Expr::IsTrue(Box::new(expr)))
        } else if self.parse_keywords2(Keyword::NOT, Keyword::TRUE) {
            Result::Ok(Expr::IsNotTrue(Box::new(expr)))
        } else if self.parse_keyword(Keyword::FALSE) {
            Result::Ok(Expr::IsFalse(Box::new(expr)))
        } else if self.parse_keywords2(Keyword::NOT, Keyword::FALSE) {
            Result::Ok(Expr::IsNotFalse(Box::new(expr)))
        } else {
            let t = self.peek_token();
            Result::Err(self.expected_err("[NOT] NULL, TRUE or FALSE after IS", t))
        }
    }

    /// Parses `low AND high` after `[NOT] BETWEEN`.
    fn parse_between_rec(&mut self, expr: Expr, negated: bool, depth: u32) -> (r: Result<
        Expr,
        ParserError,
    >)
        requires
            old(self).wf(),
        ensures
            Self::frames(*old(self), *final(self)),
            r matches Err(e) ==> !(e is TokenizerError),
        decreases depth, 15int,
    {
        let d = match Self::use_depth(depth) {
            Result::Ok(d) => d,
            Result::Err(e) => {
                return Result::Err(e);
            },
        };
        let low = match self.parse_subexpr_rec(PREC_COMPARISON, d) {
            Result::Ok(e) => e,
            Result::Err(e) => {
                return Result::Err(e);
            },
        };
        match self.expect_keyword(Keyword::AND, "AND") {
            Result::Ok(_) => (),
            Result::Err(e) => {
                return Result::Err(e);
            },
        }
        let high = match self.parse_subexpr_rec(PREC_COMPARISON, d) {
            Result::Ok(e) => e,
            Result::Err(e) => {
                return Result::Err(e);
            },
        };
        Result::Ok(
            Expr::Between {
                expr: Box::new(expr),
                negated,
                low: Box::new(low),
                high: Box::new(high),
            },
        )
    }

    /// Parses the parenthesized list or subquery after `[NOT] IN`.
    fn parse_in_rec(&mut self, expr: Expr, negated: bool, depth: u32) -> (r: Result<
        Expr,
        ParserError,
    >)
        requires
            old(self).wf(),
        ensures
            Self::frames(*old(self), *final(self)),
            r matches Err(e) ==> !(e is TokenizerError),
        decreases depth, 15int,
    {
        let d = match Self::use_depth(depth) {
            Result::Ok(d) => d,
            Result::Err(e) => {
                return Result::Err(e);
            },
        };
        match self.expect_symbol(Symbol::LParen, "(") {
            Result::Ok(_) => (),
            Result::Err(e) => {
                return Result::Err(e);
            },
        }
        if self.peek_keyword_is(Keyword::SELECT) || self.peek_keyword_is(Keyword::WITH) {
            let q = match self.parse_query_rec(d) {
                Result::Ok(q) => q,
                Result::Err(e) => {
                    return Result::Err(e);
                },
            };
            match self.expect_symbol(Symbol::RParen, ")") {
                Result::Ok(_) => (),
                Result::Err(e) => {
                    return Result::Err(e);
                },
            }
            Result::Ok(
                Expr::InSubquery { expr: Box::new(expr), subquery: Box::new(q), negated },
            )
        } else {
            let mut list: Vec<Expr> = Vec::new();
            loop
                invariant
                    d < depth,
                    self.wf(),
                    self.same_input(*old(self)),
                    old(self).index <= self.index,
                decreases self.tokens@.len() - self.index,
            {
                let e = match self.parse_subexpr_rec(0, d) {
                    Result::Ok(e) => e,
                    Result::Err(e) => {
                        return Result::Err(e);
                    },
                };
                list.push(e);
                if !self.consume_symbol(Symbol::Comma) {
                    break ;
                }
            }
            match self.expect_symbol(Symbol::RParen, ")") {
                Result::Ok(_) => (),
                Result::Err(e) => {
                    return Result::Err(e);
                },
            }
            Result::Ok(Expr::InList { expr: Box::new(expr), list, negated })
        }
    }

    /// Parses the pattern after `[NOT] LIKE`.
    fn parse_like_rec(&mut self, expr: Expr, negated: bool, depth: u32) -> (r: Result<
        Expr,
        ParserError,
    >)
        requires
            old(self).wf(),
        ensures
            Self::frames(*old(self), *final(self)),
            r matches Err(e) ==> !(e is TokenizerError),
        decreases depth, 15int,
    {
        let d = match Self::use_depth(depth) {
            Result::Ok(d) => d,
            Result::Err(e) => {
                return Result::Err(e);
            },
        };
        let pattern = match self.parse_subexpr_rec(PREC_COMPARISON, d) {
            Result::Ok(e) => e,
            Result::Err(e) => {
                return Result::Err(e);
            },
        };
        Result::Ok(Expr::Like { negated, expr: Box::new(expr), pattern: Box::new(pattern) })
    }

    /// Parses `CASE [operand] WHEN .. THEN .. [ELSE ..] END` after `CASE`.
    fn parse_case_rec(&mut self, depth: u32) -> (r: Result<Expr, ParserError>)
        requires
            old(self).wf(),
        ensures
            Self::frames(*old(self), *final(self)),
            r matches Err(e) ==> !(e is TokenizerError),
        decreases depth, 15int,
    {
        let d = match Self::use_depth(depth) {
            Result::Ok(d) => d,
            Result::Err(e) => {
                return Result::Err(e);
            },
        };
        let mut operand: Option<Box<Expr>> = Option::None;
        if !self.parse_keyword(Keyword::WHEN) {
            let e = match self.parse_subexpr_rec(0, d) {
                Result::Ok(e) => e,
                Result::Err(e) => {
                    return Result::Err(e);
                },
            };
            operand = Option::Some(Box::new(e));
            match self.expect_keyword(Keyword::WHEN, "WHEN") {
                Result::Ok(_) => (),
                Result::Err(e) => {
                    return Result::Err(e);
                },
            }
        }
        let mut conditions: Vec<Expr> = Vec::new();
        let mut results: Vec<Expr> = Vec::new();
        loop
            invariant
                d < depth,
                self.wf(),
                self.same_input(*old(self)),
                old(self).index <= self.index,
            decreases self.tokens@.len() - self.index,
        {
            let c = match self.parse_subexpr_rec(0, d) {
                Result::Ok(e) => e,
                Result::Err(e) => {
                    return Result::Err(e);
                },
            };
            conditions.push(c);
            match self.expect_keyword(Keyword::THEN, "THEN") {
                Result::Ok(_) => (),
                Result::Err(e) => {
                    return Result::Err(e);
                },
            }
            let v = match self.parse_subexpr_rec(0, d) {
                Result::Ok(e) => e,
                Result::Err(e) => {
                    return Result::Err(e);
                },
            };
            results.push(v);
            if !self.parse_keyword(Keyword::WHEN) {
                break ;
            }
        }
        let mut else_result: Option<Box<Expr>> = Option::None;
        if self.parse_keyword(Keyword::ELSE) {
            let e = match self.parse_subexpr_rec(0, d) {
                Result::Ok(e) => e,
                Result::Err(e) => {
                    return Result::Err(e);
                },
            };
            else_result = Option::Some(Box::new(e));
        }
        match self.expect_keyword(Keyword::END, "END") {
            Result::Ok(_) => (),
            Result::Err(e) => {
                return Result::Err(e);
            },
        }
        Result::Ok(Expr::Case { operand, conditions, results, else_result })
    }

    /// Parses `(expr AS type)` after `CAST`/`TRY_CAST`.
    fn parse_cast_rec(&mut self, kind: CastKind, depth: u32) -> (r: Result<Expr, ParserError>)
        requires
            old(self).wf(),
        ensures
            Self::frames(*old(self), *final(self)),
            r matches Err(e) ==> !(e is TokenizerError),
        decreases depth, 15int,
    {
        let d = match Self::use_depth(depth) {
            Result::Ok(d) => d,
            Result::Err(e) => {
                return Result::Err(e);
            },
        };
        match self.expect_symbol(Symbol::LParen, "(") {
            Result::Ok(_) => (),
            Result::Err(e) => {
                return Result::Err(e);
            },
        }
        let e = match self.parse_subexpr_rec(0, d) {
            Result::Ok(e) => e,
            Result::Err(e) => {
                return Result::Err(e);
            },
        };
        match self.expect_keyword(Keyword::AS, "AS") {
            Result::Ok(_) => (),
            Result::Err(e) => {
                return Result::Err(e);
            },
        }
        let dt = match self.parse_data_type() {
            Result::Ok(dt) => dt,
            Result::Err(e) => {
                return Result::Err(e);
            },
        };
        match self.expect_symbol(Symbol::RParen, ")") {
            Result::Ok(_) => (),
            Result::Err(e) => {
                return Result::Err(e);
            },
        }
        Result::Ok(Expr::Cast { kind, expr: Box::new(e), data_type: dt })
    }

    /// Parses the argument list after `CONVERT`; the dialect decides whether
    /// the target type is written before or after the value, and a returned
    /// conversion always records which order the dialect uses.
    fn parse_convert_rec(&mut self, depth: u32) -> (r: Result<Expr, ParserError>)
        requires
            old(self).wf(),
        ensures
            Self::frames(*old(self), *final(self)),
            r matches Err(e) ==> !(e is TokenizerError),
            r matches Ok(e) ==> (e matches Expr::Convert { target_before_value, .. }
                && target_before_value == old(self).dialect.spec_settings(
            ).convert_type_before_value),
        decreases depth, 15int,
    {
        let d = match Self::use_depth(depth) {
            Result::Ok(d) => d,
            Result::Err(e) => {
                return Result::Err(e);
            },
        };
        match self.expect_symbol(Symbol::LParen, "(") {
            Result::Ok(_) => (),
            Result::Err(e) => {
                return Result::Err(e);
            },
        }
        if self.dialect.settings().convert_type_before_value {
            let dt = match self.parse_data_type() {
                Result::Ok(dt) => dt,
                Result::Err(e) => {
                    return Result::Err(e);
                },
            };
            match self.expect_symbol(Symbol::Comma, ",") {
                Result::Ok(_) => (),
                Result::Err(e) => {
                    return Result::Err(e);
                },
            }
            let e = match self.parse_subexpr_rec(0, d) {
                Result::Ok(e) => e,
                Result::Err(e) => {
                    return Result::Err(e);
                },
            };
            match self.expect_symbol(Symbol::RParen, ")") {
                Result::Ok(_) => (),
                Result::Err(e) => {
                    return Result::Err(e);
                },
            }
            return Result::Ok(
                Expr::Convert {
                    expr: Box::new(e),
                    data_type: Option::Some(dt),
                    charset: Option::None,
                    target_before_value: true,
                },
            );
        }
        let e = match self.parse_subexpr_rec(0, d) {
            Result::Ok(e) => e,
            Result::Err(e) => {
                return Result::Err(e);
            },
        };
        if self.parse_keyword(Keyword::USING) {
            let cs = match self.parse_object_name() {
                Result::Ok(n) => n,
                Result::Err(e) => {
                    return Result::Err(e);
                },
            };
            match self.expect_symbol(Symbol::RParen, ")") {
                Result::Ok(_) => (),
                Result::Err(e) => {
                    return Result::Err(e);
                },
            }
            return Result::Ok(
                Expr::Convert {
                    expr: Box::new(e),
                    data_type: Option::None,
                    charset: Option::Some(cs),
                    target_before_value: false,
                },
            );
        }
        match self.expect_symbol(Symbol::Comma, ",") {
            Result::Ok(_) => (),
            Result::Err(e) => {
                return Result::Err(e);
            },
        }
        let dt = match self.parse_data_type() {
            Result::Ok(dt) => dt,
            Result::Err(e) => {
                return Result::Err(e);
            },
        };
        match self.expect_symbol(Symbol::RParen, ")") {
            Result::Ok(_) => (),
            Result::Err(e) => {
                return Result::Err(e);
            },
        }
        Result::Ok(
            Expr::Convert {
                expr: Box::new(e),
                data_type: Option::Some(dt),
                charset: Option::None,
                target_before_value: false,
            },
        )
    }

    /// Parses `(query)` after `[NOT] EXISTS`.
    fn parse_exists_rec(&mut self, negated: bool, depth: u32) -> (r: Result<Expr, ParserError>)
        requires
            old(self).wf(),
        ensures
            Self::frames(*old(self), *final(self)),
            r matches Err(e) ==> !(e is TokenizerError),
        decreases depth, 15int,
    {
        let d = match Self::use_depth(depth) {
            Result::Ok(d) => d,
            Result::Err(e) => {
                return Result::Err(e);
            },
        };
        match self.expect_symbol(Symbol::LParen, "(") {
            Result::Ok(_) => (),
            Result::Err(e) => {
                return Result::Err(e);
            },
        }
        let q = match self.parse_query_rec(d) {
            Result::Ok(q) => q,
            Result::Err(e) => {
                return Result::Err(e);
            },
        };
        match self.expect_symbol(Symbol::RParen, ")") {
            Result::Ok(_) => (),
            Result::Err(e) => {
                return Result::Err(e);
            },
        }
        Result::Ok(Expr::Exists { subquery: Box::new(q), negated })
    }

    /// Consumes a datetime unit keyword, when one stands at the cursor.
    fn parse_optional_date_time_field(&mut self) -> (r: Option<DateTimeField>)
        requires
            old(self).wf(),
        ensures
            Self::frames(*old(self), *final(self)),
    {
        if self.parse_keyword(Keyword::YEAR) {
            Option::Some(DateTimeField::Year)
        } else if self.parse_keyword(Keyword::MONTH) {
            Option::Some(DateTimeField::Month)
        } else if self.parse_keyword(Keyword::DAY) {
            Option::Some(DateTimeField::Day)
        } else if self.parse_keyword(Keyword::HOUR) {
            Option::Some(DateTimeField::Hour)
        } else if self.parse_keyword(Keyword::MINUTE) {
            Option::Some(DateTimeField::Minute)
        } else if self.parse_keyword(Keyword::SECOND) {
            Option::Some(DateTimeField::Second)
        } else {
            Option::None
        }
    }

    /// Parses the value and unit clauses after `INTERVAL`.
    fn parse_interval_rec(&mut self, depth: u32) -> (r: Result<Expr, ParserError>)
        requires
            old(self).wf(),
        ensures
            Self::frames(*old(self), *final(self)),
            r matches Err(e) ==> !(e is TokenizerError),
        decreases depth, 15int,
    {
        let d = match Self::use_depth(depth) {
            Result::Ok(d) => d,
            Result::Err(e) => {
                return Result::Err(e);
            },
        };
        let value = match self.parse_subexpr_rec(PREC_PLUS_MINUS, d) {
            Result::Ok(e) => e,
            Result::Err(e) => {
                return Result::Err(e);
            },
        };
        let leading_field = self.parse_optional_date_time_field();
        if matches!(leading_field, Option::Some(DateTimeField::Second)) && self.consume_symbol(
            Symbol::LParen,
        ) {
            // SECOND (leading precision [, fractional seconds precision])
            let lp = match self.parse_literal_uint() {
                Result::Ok(v) => v,
                Result::Err(e) => {
                    return Result::Err(e);
                },
            };
            let mut fsp: Option<u64> = Option::None;
            if self.consume_symbol(Symbol::Comma) {
                let v = match self.parse_literal_uint() {
                    Result::Ok(v) => v,
                    Result::Err(e) => {
                        return Result::Err(e);
                    },
                };
                fsp = Option::Some(v);
            }
            match self.expect_symbol(Symbol::RParen, ")") {
                Result::Ok(_) => (),
                Result::Err(e) => {
                    return Result::Err(e);
                },
            }
            return Result::Ok(
                Expr::Interval(
                    crate::ast::Interval {
                        value: Box::new(value),
                        leading_field,
                        leading_precision: Option::Some(lp),
                        last_field: Option::None,
                        fractional_seconds_precision: fsp,
                    },
                ),
            );
        }
        let mut leading_precision: Option<u64> = Option::None;
        if !matches!(leading_field, Option::None) && self.consume_symbol(Symbol::LParen) {
            let v = match self.parse_literal_uint() {
                Result::Ok(v) => v,
                Result::Err(e) => {
                    return Result::Err(e);
                },
            };
            leading_precision = Option::Some(v);
            match self.expect_symbol(Symbol::RParen, ")") {
                Result::Ok(_) => (),
                Result::Err(e) => {
                    return Result::Err(e);
                },
            }
        }
        let mut last_field: Option<DateTimeField> = Option::None;
        let mut fsp: Option<u64> = Option::None;
        if self.parse_keyword(Keyword::TO) {
            match self.parse_optional_date_time_field() {
                Option::Some(f) => {
                    last_field = Option::Some(f);
                },
                Option::None => {
                    let t = self.peek_token();
                    return Result::Err(self.expected_err("a date or time unit after TO", t));
                },
            }
            if matches!(last_field, Option::Some(DateTimeField::Second)) && self.consume_symbol(
                Symbol::LParen,
            ) {
                let v = match self.parse_literal_uint() {
                    Result::Ok(v) => v,
                    Result::Err(e) => {
                        return Result::Err(e);
                    },
                };
                fsp = Option::Some(v);
                match self.expect_symbol(Symbol::RParen, ")") {
                    Result::Ok(_) => (),
                    Result::Err(e) => {
                        return Result::Err(e);
                    },
                }
            }
        }
        Result::Ok(
            Expr::Interval(
                crate::ast::Interval {
                    value: Box::new(value),
                    leading_field,
                    leading_precision,
                    last_field,
                    fractional_seconds_precision: fsp,
                },
            ),
        )
    }
}

/// Parses what follows a leading word in an expression: a compound
/// identifier, a qualified wildcard, or a function call.
fn parse_word_expr(p: &mut Parser, w: Word, depth: u32) -> (r: Result<Expr, ParserError>)
    requires
        old(p).wf(),
    ensures
        Parser::frames(*old(p), *final(p)),
        r matches Err(e) ==> !(e is TokenizerError),
    decreases depth, 15int,
{
    let quoted = !matches!(w.quote_style, Option::None);
    let mut parts: Vec<Ident> = Vec::new();
    parts.push(Ident { value: w.value, quote_style: w.quote_style });
    loop
        invariant
            p.wf(),
            p.same_input(*old(p)),
            old(p).index <= p.index,
            parts@.len() >= 1,
        decreases p.tokens@.len() - p.index,
    {
        if !p.consume_symbol(Symbol::Period) {
            break ;
        }
        let t = p.peek_token();
        match t {
            Token::Word(w2) => {
                let _ = p.next_token();
                parts.push(Ident { value: w2.value, quote_style: w2.quote_style });
            },
            Token::Mul => {
                let _ = p.next_token();
                return Result::Ok(Expr::QualifiedWildcard(ObjectName(parts)));
            },
            _ => {
                return Result::Err(p.expected_err("an identifier or '*' after '.'", t));
            },
        }
    }
    if !quoted && p.consume_symbol(Symbol::LParen) {
        let d = match Parser::use_depth(depth) {
            Result::Ok(d) => d,
            Result::Err(e) => {
                return Result::Err(e);
            },
        };
        let f = match p.parse_function_args_rec(ObjectName(parts), d) {
            Result::Ok(f) => f,
            Result::Err(e) => {
                return Result::Err(e);
            },
        };
        return Result::Ok(Expr::Function(f));
    }
    if parts.len() == 1 {
        let id = parts.pop().unwrap();
        Result::Ok(Expr::Identifier(id))
    } else {
        Result::Ok(Expr::CompoundIdentifier(parts))
    }
}

impl Parser {
    /// Parses a function argument list after the opening parenthesis has
    /// been consumed.
    fn parse_function_args_rec(&mut self, name: ObjectName, depth: u32) -> (r: Result<
        Function,
        ParserError,
    >)
        requires
            old(self).wf(),
        ensures
            Self::frames(*old(self), *final(self)),
            r matches Err(e) ==> !(e is TokenizerError),
        decreases depth, 15int,
    {
        let d = match Self::use_depth(depth) {
            Result::Ok(d) => d,
            Result::Err(e) => {
                return Result::Err(e);
            },
        };
        if self.consume_symbol(Symbol::RParen) {
            return Result::Ok(
                Function {
                    name,
                    args: FunctionArguments::List(
                        FunctionArgumentList {
                            duplicate_treatment: Option::None,
                            args: Vec::new(),
                        },
                    ),
                },
            );
        }
        let duplicate_treatment: Option<DuplicateTreatment> = if self.parse_keyword(
            Keyword::DISTINCT,
        ) {
            Option::Some(DuplicateTreatment::Distinct)
        } else if self.parse_keyword(Keyword::ALL) {
            Option::Some(DuplicateTreatment::All)
        } else {
            Option::None
        };
        let mut args: Vec<FunctionArg> = Vec::new();
        loop
            invariant
                d < depth,
                self.wf(),
                self.same_input(*old(self)),
                old(self).index <= self.index,
            decreases self.tokens@.len() - self.index,
        {
            let t = self.peek_token();
            let t2 = self.peek_token2();
            let a: FunctionArg;
            if matches!(t, Token::Mul) && matches!(t2, Token::RParen) {
                proof {
                    lemma_next_sig_bounds(self.tokens@, self.index as int);
                }
                let _ = self.next_token();
                a = FunctionArg::Unnamed(FunctionArgExpr::Wildcard);
            } else {
                let e = match self.parse_subexpr_rec(0, d) {
                    Result::Ok(e) => e,
                    Result::Err(e) => {
                        return Result::Err(e);
                    },
                };
                a = FunctionArg::Unnamed(FunctionArgExpr::Expr(e));
            }
            args.push(a);
            if !self.consume_symbol(Symbol::Comma) {
                break ;
            }
        }
        match self.expect_symbol(Symbol::RParen, ")") {
            Result::Ok(_) => (),
            Result::Err(e) => {
                return Result::Err(e);
            },
        }
        Result::Ok(
            Function {
                name,
                args: FunctionArguments::List(FunctionArgumentList { duplicate_treatment, args }),
            },
        )
    }
}


impl Parser {
    /// Parses a complete query: optional `WITH`, the body, and the ordering
    /// and row-limit clauses.
    fn parse_query_rec(&mut self, depth: u32) -> (r: Result<Query, ParserError>)
        requires
            old(self).wf(),
        ensures
            Self::frames(*old(self), *final(self)),
            r matches Err(e) ==> !(e is TokenizerError),
        decreases depth, 26int,
    {
        let with: Option<With> = if self.parse_keyword(Keyword::WITH) {
            let recursive = self.parse_keyword(Keyword::RECURSIVE);
            let mut cte_tables: Vec<Cte> = Vec::new();
            loop
                invariant
                    self.wf(),
                    self.same_input(*old(self)),
                    old(self).index <= self.index,
                decreases self.tokens@.len() - self.index,
            {
                let c = self.parse_cte_rec(depth)?;
                cte_tables.push(c);
                if !self.consume_symbol(Symbol::Comma) {
                    break ;
                }
            }
            Option::Some(With { recursive, cte_tables })
        } else {
            Option::None
        };
        let body = self.parse_query_body_rec(0, depth)?;
        let mut order_by: Vec<OrderByExpr> = Vec::new();
        if self.parse_keywords2(Keyword::ORDER, Keyword::BY) {
            loop
                invariant
                    self.wf(),
                    self.same_input(*old(self)),
                    old(self).index <= self.index,
                decreases self.tokens@.len() - self.index,
            {
                let o = self.parse_order_by_expr_rec(depth)?;
                order_by.push(o);
                if !self.consume_symbol(Symbol::Comma) {
                    break ;
                }
            }
        }
        let mut limit: Option<Expr> = Option::None;
        if self.parse_keyword(Keyword::LIMIT) {
            if !self.parse_keyword(Keyword::ALL) {
                let d = Self::use_depth(depth)?;
                let e = self.parse_subexpr_rec(0, d)?;
                limit = Option::Some(e);
            }
        }
        let mut offset: Option<Offset> = Option::None;
        if self.parse_keyword(Keyword::OFFSET) {
            let d = Self::use_depth(depth)?;
            let value = self.parse_subexpr_rec(0, d)?;
            let rows = if self.parse_keyword(Keyword::ROW) {
                OffsetRows::Row
            } else if self.parse_keyword(Keyword::ROWS) {
                OffsetRows::Rows
            } else {
                OffsetRows::Omitted
            };
            offset = Option::Some(Offset { value, rows });
        }
        let mut fetch: Option<Fetch> = Option::None;
        if self.parse_keyword(Keyword::FETCH) {
            fetch = Option::Some(self.parse_fetch_rec(depth)?);
        }
        Result::Ok(Query { with, body: Box::new(body), order_by, limit, offset, fetch })
    }

    /// Parses one common table expression of a `WITH` clause.
    fn parse_cte_rec(&mut self, depth: u32) -> (r: Result<Cte, ParserError>)
        requires
            old(self).wf(),
        ensures
            Self::frames(*old(self), *final(self)),
            r matches Err(e) ==> !(e is TokenizerError),
            r is Ok ==> old(self).index < final(self).index,
        decreases depth, 25int,
    {
        let d = Self::use_depth(depth)?;
        let name = self.parse_identifier()?;
        let mut columns: Vec<Ident> = Vec::new();
        if self.consume_symbol(Symbol::LParen) {
            columns = self.parse_comma_separated_idents()?;
            self.expect_symbol(Symbol::RParen, ")")?;
        }
        self.expect_keyword(Keyword::AS, "AS")?;
        self.expect_symbol(Symbol::LParen, "(")?;
        let q = self.parse_query_rec(d)?;
        self.expect_symbol(Symbol::RParen, ")")?;
        Result::Ok(Cte { alias: TableAlias { name, columns }, query: Box::new(q) })
    }

    /// Parses a comma-separated list of identifiers.
    fn parse_comma_separated_idents(&mut self) -> (r: Result<Vec<Ident>, ParserError>)
        requires
            old(self).wf(),
        ensures
            Self::frames(*old(self), *final(self)),
            r matches Err(e) ==> !(e is TokenizerError),
    {
        let mut items: Vec<Ident> = Vec::new();
        loop
            invariant
                self.wf(),
                self.same_input(*old(self)),
                old(self).index <= self.index,
            decreases self.tokens@.len() - self.index,
        {
            let i = self.parse_identifier()?;
            items.push(i);
            if !self.consume_symbol(Symbol::Comma) {
                break ;
            }
        }
        Result::Ok(items)
    }

    /// Parses the body of a query: `SELECT`, `VALUES` or a parenthesized
    /// query, combined left to right by set operators of higher binding
    /// power than `precedence`.
    fn parse_query_body_rec(&mut self, precedence: u8, depth: u32) -> (r: Result<
        SetExpr,
        ParserError,
    >)
        requires
            old(self).wf(),
        ensures
            Self::frames(*old(self), *final(self)),
            r matches Err(e) ==> !(e is TokenizerError),
        decreases depth, 25int,
    {
        let mut body: SetExpr;
        if self.parse_keyword(Keyword::SELECT) {
            let s = self.parse_select_rec(depth)?;
            body = SetExpr::Select(Box::new(s));
        } else if self.consume_symbol(Symbol::LParen) {
            let d = Self::use_depth(depth)?;
            let q = self.parse_query_rec(d)?;
            self.expect_symbol(Symbol::RParen, ")")?;
            body = SetExpr::Query(Box::new(q));
        } else if self.parse_keyword(Keyword::VALUES) {
            let v = self.parse_values_rec(depth)?;
            body = SetExpr::Values(v);
        } else {
            let t = self.peek_token();
            return Result::Err(
                self.expected_err("SELECT, VALUES, or a subquery in the query body", t),
            );
        }
        loop
            invariant
                self.wf(),
                self.same_input(*old(self)),
                old(self).index <= self.index,
            decreases self.tokens@.len() - self.index,
        {
            let kw = self.peek_keyword();
            let op_prec: u8 = match kw {
                Keyword::UNION => 10,
                Keyword::EXCEPT => 10,
                Keyword::INTERSECT => 20,
                _ => 0,
            };
            if op_prec == 0 || op_prec <= precedence {
                break ;
            }
            let op = if self.parse_keyword(Keyword::UNION) {
                SetOperator::Union
            } else if self.parse_keyword(Keyword::EXCEPT) {
                SetOperator::Except
            } else if self.parse_keyword(Keyword::INTERSECT) {
                SetOperator::Intersect
            } else {
                break ;
            };
            let all = self.parse_keyword(Keyword::ALL);
            let d = Self::use_depth(depth)?;
            let right = self.parse_query_body_rec(op_prec, d)?;
            body = SetExpr::SetOperation {
                op,
                all,
                left: Box::new(body),
                right: Box::new(right),
            };
        }
        Result::Ok(body)
    }

    /// The keyword at the cursor, as an executable convenience.
    fn peek_keyword(&self) -> (k: Keyword)
        requires
            self.wf(),
        ensures
            k == self.spec_peek_keyword(),
    {
        let t = self.peek_token();
        match t {
            Token::Word(w) => {
                if matches!(w.quote_style, Option::None) {
                    w.keyword
                } else {
                    Keyword::NoKeyword
                }
            },
            _ => Keyword::NoKeyword,
        }
    }

    /// Parses the rows of a `VALUES` list.
    fn parse_values_rec(&mut self, depth: u32) -> (r: Result<Values, ParserError>)
        requires
            old(self).wf(),
        ensures
            Self::frames(*old(self), *final(self)),
            r matches Err(e) ==> !(e is TokenizerError),
        decreases depth, 24int,
    {
        let d = Self::use_depth(depth)?;
        let mut rows: Vec<Vec<Expr>> = Vec::new();
        loop
            invariant
                d < depth,
                self.wf(),
                self.same_input(*old(self)),
                old(self).index <= self.index,
            decreases self.tokens@.len() - self.index,
        {
            self.expect_symbol(Symbol::LParen, "(")?;
            let ghost row_start = self.index;
            let mut row: Vec<Expr> = Vec::new();
            loop
                invariant
                    d < depth,
                    self.wf(),
                    self.same_input(*old(self)),
                    old(self).index <= self.index,
                    row_start <= self.index,
                decreases self.tokens@.len() - self.index,
            {
                let e = self.parse_subexpr_rec(0, d)?;
                row.push(e);
                if !self.consume_symbol(Symbol::Comma) {
                    break ;
                }
            }
            self.expect_symbol(Symbol::RParen, ")")?;
            rows.push(row);
            if !self.consume_symbol(Symbol::Comma) {
                break ;
            }
        }
        Result::Ok(Values(rows))
    }

    /// Parses the clauses of a `SELECT` block, after the `SELECT` keyword.
    fn parse_select_rec(&mut self, depth: u32) -> (r: Result<Select, ParserError>)
        requires
            old(self).wf(),
        ensures
            Self::frames(*old(self), *final(self)),
            r matches Err(e) ==> !(e is TokenizerError),
        decreases depth, 24int,
    {
        let d = Self::use_depth(depth)?;
        let all = self.parse_keyword(Keyword::ALL);
        let distinct = self.parse_keyword(Keyword::DISTINCT);
        if all && distinct {
            let t = self.peek_token();
            return Result::Err(self.expected_err("ALL or DISTINCT, not both,", t));
        }
        let mut projection: Vec<SelectItem> = Vec::new();
        loop
            invariant
                d < depth,
                self.wf(),
                self.same_input(*old(self)),
                old(self).index <= self.index,
            decreases self.tokens@.len() - self.index,
        {
            let item = self.parse_select_item_rec(d)?;
            projection.push(item);
            if !self.consume_symbol(Symbol::Comma) {
                break ;
            }
        }
        let mut from: Vec<TableWithJoins> = Vec::new();
        if self.parse_keyword(Keyword::FROM) {
            loop
                invariant
                    d < depth,
                    self.wf(),
                    self.same_input(*old(self)),
                    old(self).index <= self.index,
                decreases self.tokens@.len() - self.index,
            {
                let twj = self.parse_table_and_joins_rec(d)?;
                from.push(twj);
                if !self.consume_symbol(Symbol::Comma) {
                    break ;
                }
            }
        }
        let mut selection: Option<Expr> = Option::None;
        if self.parse_keyword(Keyword::WHERE) {
            selection = Option::Some(self.parse_subexpr_rec(0, d)?);
        }
        let mut group_by: Vec<Expr> = Vec::new();
        if self.parse_keywords2(Keyword::GROUP, Keyword::BY) {
            loop
                invariant
                    d < depth,
                    self.wf(),
                    self.same_input(*old(self)),
                    old(self).index <= self.index,
                decreases self.tokens@.len() - self.index,
            {
                let e = self.parse_group_by_expr_rec(d)?;
                group_by.push(e);
                if !self.consume_symbol(Symbol::Comma) {
                    break ;
                }
            }
        }
        let mut having: Option<Expr> = Option::None;
        if self.parse_keyword(Keyword::HAVING) {
            having = Option::Some(self.parse_subexpr_rec(0, d)?);
        }
        Result::Ok(Select { distinct, projection, from, selection, group_by, having })
    }


    /// Parses one `GROUP BY` expression: an ordinary expression or a
    /// `ROLLUP`, `CUBE` or `GROUPING SETS` construct.
    fn parse_group_by_expr_rec(&mut self, depth: u32) -> (r: Result<Expr, ParserError>)
        requires
            old(self).wf(),
        ensures
            Self::frames(*old(self), *final(self)),
            r matches Err(e) ==> !(e is TokenizerError),
            r is Ok ==> old(self).index < final(self).index,
        decreases depth, 23int,
    {
        proof {
            lemma_next_sig_bounds(self.tokens@, self.index as int);
        }
        if self.parse_keyword(Keyword::ROLLUP) {
            let groups = self.parse_expr_groups_rec(depth)?;
            Result::Ok(Expr::Rollup(groups))
        } else if self.parse_keyword(Keyword::CUBE) {
            let groups = self.parse_expr_groups_rec(depth)?;
            Result::Ok(Expr::Cube(groups))
        } else if self.parse_keywords2(Keyword::GROUPING, Keyword::SETS) {
            let groups = self.parse_grouping_sets_rec(depth)?;
            Result::Ok(Expr::GroupingSets(groups))
        } else {
            let pre = self.index;
            let e = self.parse_subexpr_rec(0, depth)?;
            if self.index == pre {
                let t = self.peek_token();
                return Result::Err(self.expected_err("an expression", t));
            }
            Result::Ok(e)
        }
    }

    /// Parses the parenthesized group list of `ROLLUP`/`CUBE`: each group a
    /// bare expression or a parenthesized list.
    fn parse_expr_groups_rec(&mut self, depth: u32) -> (r: Result<Vec<Vec<Expr>>, ParserError>)
        requires
            old(self).wf(),
        ensures
            Self::frames(*old(self), *final(self)),
            r matches Err(e) ==> !(e is TokenizerError),
        decreases depth, 22int,
    {
        let d = Self::use_depth(depth)?;
        self.expect_symbol(Symbol::LParen, "(")?;
        let mut groups: Vec<Vec<Expr>> = Vec::new();
        loop
            invariant
                d < depth,
                self.wf(),
                self.same_input(*old(self)),
                old(self).index <= self.index,
            decreases self.tokens@.len() - self.index,
        {
            let mut group: Vec<Expr> = Vec::new();
            if self.consume_symbol(Symbol::LParen) {
                let ghost inner_start = self.index;
                loop
                    invariant
                        d < depth,
                        self.wf(),
                        self.same_input(*old(self)),
                        old(self).index <= self.index,
                        inner_start <= self.index,
                    decreases self.tokens@.len() - self.index,
                {
                    let e = self.parse_subexpr_rec(0, d)?;
                    group.push(e);
                    if !self.consume_symbol(Symbol::Comma) {
                        break ;
                    }
                }
                self.expect_symbol(Symbol::RParen, ")")?;
            } else {
                let e = self.parse_subexpr_rec(0, d)?;
                group.push(e);
            }
            groups.push(group);
            if !self.consume_symbol(Symbol::Comma) {
                break ;
            }
        }
        self.expect_symbol(Symbol::RParen, ")")?;
        Result::Ok(groups)
    }

    /// Parses the group list of `GROUPING SETS`, where every set is
    /// parenthesized.
    fn parse_grouping_sets_rec(&mut self, depth: u32) -> (r: Result<Vec<Vec<Expr>>, ParserError>)
        requires
            old(self).wf(),
        ensures
            Self::frames(*old(self), *final(self)),
            r matches Err(e) ==> !(e is TokenizerError),
        decreases depth, 22int,
    {
        let d = Self::use_depth(depth)?;
        self.expect_symbol(Symbol::LParen, "(")?;
        let mut groups: Vec<Vec<Expr>> = Vec::new();
        loop
            invariant
                d < depth,
                self.wf(),
                self.same_input(*old(self)),
                old(self).index <= self.index,
            decreases self.tokens@.len() - self.index,
        {
            self.expect_symbol(Symbol::LParen, "(")?;
            let ghost set_start = self.index;
            let mut group: Vec<Expr> = Vec::new();
            loop
                invariant
                    d < depth,
                    self.wf(),
                    self.same_input(*old(self)),
                    old(self).index <= self.index,
                    set_start <= self.index,
                decreases self.tokens@.len() - self.index,
            {
                let e = self.parse_subexpr_rec(0, d)?;
                group.push(e);
                if !self.consume_symbol(Symbol::Comma) {
                    break ;
                }
            }
            self.expect_symbol(Symbol::RParen, ")")?;
            groups.push(group);
            if !self.consume_symbol(Symbol::Comma) {
                break ;
            }
        }
        self.expect_symbol(Symbol::RParen, ")")?;
        Result::Ok(groups)
    }

    /// Parses one item of a projection list: a wildcard or an expression
    /// with an optional alias.
    fn parse_select_item_rec(&mut self, depth: u32) -> (r: Result<SelectItem, ParserError>)
        requires
            old(self).wf(),
        ensures
            Self::frames(*old(self), *final(self)),
            r matches Err(e) ==> !(e is TokenizerError),
            r is Ok ==> old(self).index < final(self).index,
        decreases depth, 23int,
    {
        let pre = self.index;
        let e = self.parse_subexpr_rec(0, depth)?;
        proof {
            lemma_next_sig_bounds(self.tokens@, pre as int);
        }
        if self.index == pre {
            // An expression always consumes at least one token; this arm is
            // unreachable, but the cursor must be seen to move.
            let t = self.peek_token();
            return Result::Err(self.expected_err("an expression", t));
        }
        match e {
            Expr::Wildcard => Result::Ok(SelectItem::Wildcard),
            Expr::QualifiedWildcard(o) => Result::Ok(SelectItem::QualifiedWildcard(o)),
            _ => {
                let alias = self.parse_optional_alias(false)?;
                match alias {
                    Option::Some(a) => Result::Ok(SelectItem::ExprWithAlias { expr: e, alias: a }),
                    Option::None => Result::Ok(SelectItem::UnnamedExpr(e)),
                }
            },
        }
    }

    /// Parses a bare or `AS`-introduced alias, unless the next word is
    /// reserved for the enclosing clause.
    fn parse_optional_alias(&mut self, for_table: bool) -> (r: Result<Option<Ident>, ParserError>)
        requires
            old(self).wf(),
        ensures
            Self::frames(*old(self), *final(self)),
            r matches Err(e) ==> !(e is TokenizerError),
    {
        let after_as = self.parse_keyword(Keyword::AS);
        let t = self.peek_token();
        match t {
            Token::Word(w) => {
                let kw = if matches!(w.quote_style, Option::None) {
                    w.keyword
                } else {
                    Keyword::NoKeyword
                };
                let reserved = if for_table {
                    crate::keywords::is_reserved_for_table_alias(kw)
                } else {
                    crate::keywords::is_reserved_for_column_alias(kw)
                };
                if after_as || !reserved {
                    let _ = self.next_token();
                    Result::Ok(Option::Some(Ident { value: w.value, quote_style: w.quote_style }))
                } else {
                    Result::Ok(Option::None)
                }
            },
            _ => {
                if after_as {
                    Result::Err(self.expected_err("an identifier after AS", t))
                } else {
                    Result::Ok(Option::None)
                }
            },
        }
    }

    /// Parses a table reference and all the joins hanging off it.
    fn parse_table_and_joins_rec(&mut self, depth: u32) -> (r: Result<TableWithJoins, ParserError>)
        requires
            old(self).wf(),
        ensures
            Self::frames(*old(self), *final(self)),
            r matches Err(e) ==> !(e is TokenizerError),
        decreases depth, 23int,
    {
        let relation = self.parse_table_factor_rec(depth)?;
        let mut joins: Vec<Join> = Vec::new();
        loop
            invariant
                self.wf(),
                self.same_input(*old(self)),
                old(self).index <= self.index,
            decreases self.tokens@.len() - self.index,
        {
            if self.parse_keywords2(Keyword::CROSS, Keyword::JOIN) {
                let rel = self.parse_table_factor_rec(depth)?;
                joins.push(Join { relation: rel, join_operator: JoinOperator::CrossJoin });
                continue ;
            }
            let natural = self.parse_keyword(Keyword::NATURAL);
            // Which join keyword was seen: inner, left, right or full.
            let kind: u8;
            if self.parse_keyword(Keyword::JOIN) {
                kind = 0;
            } else if self.parse_keyword(Keyword::INNER) {
                self.expect_keyword(Keyword::JOIN, "JOIN")?;
                kind = 0;
            } else if self.parse_keyword(Keyword::LEFT) {
                let _ = self.parse_keyword(Keyword::OUTER);
                self.expect_keyword(Keyword::JOIN, "JOIN")?;
                kind = 1;
            } else if self.parse_keyword(Keyword::RIGHT) {
                let _ = self.parse_keyword(Keyword::OUTER);
                self.expect_keyword(Keyword::JOIN, "JOIN")?;
                kind = 2;
            } else if self.parse_keyword(Keyword::FULL) {
                let _ = self.parse_keyword(Keyword::OUTER);
                self.expect_keyword(Keyword::JOIN, "JOIN")?;
                kind = 3;
            } else {
                if natural {
                    let t = self.peek_token();
                    return Result::Err(self.expected_err("a join type after NATURAL", t));
                }
                break ;
            }
            let rel = self.parse_table_factor_rec(depth)?;
            let constraint = self.parse_join_constraint_rec(natural, depth)?;
            let op = if kind == 0 {
                JoinOperator::Inner(constraint)
            } else if kind == 1 {
                JoinOperator::LeftOuter(constraint)
            } else if kind == 2 {
                JoinOperator::RightOuter(constraint)
            } else {
                JoinOperator::FullOuter(constraint)
            };
            joins.push(Join { relation: rel, join_operator: op });
        }
        Result::Ok(TableWithJoins { relation, joins })
    }

    /// Parses a primary table reference: a named table or a parenthesized
    /// derived table.
    fn parse_table_factor_rec(&mut self, depth: u32) -> (r: Result<TableFactor, ParserError>)
        requires
            old(self).wf(),
        ensures
            Self::frames(*old(self), *final(self)),
            r matches Err(e) ==> !(e is TokenizerError),
            r is Ok ==> old(self).index < final(self).index,
        decreases depth, 22int,
    {
        proof {
            lemma_next_sig_bounds(self.tokens@, self.index as int);
        }
        if self.consume_symbol(Symbol::LParen) {
            let d = Self::use_depth(depth)?;
            let q = self.parse_query_rec(d)?;
            self.expect_symbol(Symbol::RParen, ")")?;
            let alias = self.parse_optional_table_alias()?;
            Result::Ok(TableFactor::Derived { subquery: Box::new(q), alias })
        } else {
            let name = self.parse_object_name()?;
            let alias = self.parse_optional_table_alias()?;
            Result::Ok(TableFactor::Table { name, alias })
        }
    }

    /// Parses an optional table alias with optional column aliases.
    fn parse_optional_table_alias(&mut self) -> (r: Result<Option<TableAlias>, ParserError>)
        requires
            old(self).wf(),
        ensures
            Self::frames(*old(self), *final(self)),
            r matches Err(e) ==> !(e is TokenizerError),
    {
        let alias = self.parse_optional_alias(true)?;
        match alias {
            Option::Some(name) => {
                let mut columns: Vec<Ident> = Vec::new();
                if self.consume_symbol(Symbol::LParen) {
                    columns = self.parse_comma_separated_idents()?;
                    self.expect_symbol(Symbol::RParen, ")")?;
                }
                Result::Ok(Option::Some(TableAlias { name, columns }))
            },
            Option::None => Result::Ok(Option::None),
        }
    }

    /// Parses the constraint after a joined relation.
    fn parse_join_constraint_rec(&mut self, natural: bool, depth: u32) -> (r: Result<
        JoinConstraint,
        ParserError,
    >)
        requires
            old(self).wf(),
        ensures
            Self::frames(*old(self), *final(self)),
            r matches Err(e) ==> !(e is TokenizerError),
        decreases depth, 21int,
    {
        if natural {
            return Result::Ok(JoinConstraint::Natural);
        }
        if self.parse_keyword(Keyword::ON) {
            let d = Self::use_depth(depth)?;
            let e = self.parse_subexpr_rec(0, d)?;
            Result::Ok(JoinConstraint::On(e))
        } else if self.parse_keyword(Keyword::USING) {
            self.expect_symbol(Symbol::LParen, "(")?;
            let columns = self.parse_comma_separated_idents()?;
            self.expect_symbol(Symbol::RParen, ")")?;
            Result::Ok(JoinConstraint::Using(columns))
        } else {
            Result::Ok(JoinConstraint::Unconstrained)
        }
    }

    /// Parses one `ORDER BY` expression with its direction and null
    /// ordering.
    fn parse_order_by_expr_rec(&mut self, depth: u32) -> (r: Result<OrderByExpr, ParserError>)
        requires
            old(self).wf(),
        ensures
            Self::frames(*old(self), *final(self)),
            r matches Err(e) ==> !(e is TokenizerError),
            r is Ok ==> old(self).index < final(self).index,
        decreases depth, 22int,
    {
        let pre = self.index;
        let d = Self::use_depth(depth)?;
        let e = self.parse_subexpr_rec(0, d)?;
        if self.index == pre {
            let t = self.peek_token();
            return Result::Err(self.expected_err("an expression", t));
        }
        let asc: Option<bool> = if self.parse_keyword(Keyword::ASC) {
            Option::Some(true)
        } else if self.parse_keyword(Keyword::DESC) {
            Option::Some(false)
        } else {
            Option::None
        };
        let nulls_first: Option<bool> = if self.parse_keywords2(Keyword::NULLS, Keyword::FIRST) {
            Option::Some(true)
        } else if self.parse_keywords2(Keyword::NULLS, Keyword::LAST) {
            Option::Some(false)
        } else {
            Option::None
        };
        Result::Ok(OrderByExpr { expr: e, asc, nulls_first })
    }

    /// Parses the clauses of a `FETCH` after the `FETCH` keyword.
    fn parse_fetch_rec(&mut self, depth: u32) -> (r: Result<Fetch, ParserError>)
        requires
            old(self).wf(),
        ensures
            Self::frames(*old(self), *final(self)),
            r matches Err(e) ==> !(e is TokenizerError),
        decreases depth, 22int,
    {
        let d = Self::use_depth(depth)?;
        if !self.parse_keyword(Keyword::FIRST) && !self.parse_keyword(Keyword::NEXT) {
            let t = self.peek_token();
            return Result::Err(self.expected_err("one of FIRST or NEXT", t));
        }
        let mut quantity: Option<Expr> = Option::None;
        let mut percent = false;
        if !(self.peek_keyword_is(Keyword::ROW) || self.peek_keyword_is(Keyword::ROWS)) {
            quantity = Option::Some(self.parse_subexpr_rec(0, d)?);
            percent = self.parse_keyword(Keyword::PERCENT);
        }
        if !self.parse_keyword(Keyword::ROW) && !self.parse_keyword(Keyword::ROWS) {
            let t = self.peek_token();
            return Result::Err(self.expected_err("one of ROW or ROWS", t));
        }
        let with_ties = if self.parse_keyword(Keyword::ONLY) {
            false
        } else if self.parse_keywords2(Keyword::WITH, Keyword::TIES) {
            true
        } else {
            let t = self.peek_token();
            return Result::Err(self.expected_err("one of ONLY or WITH TIES", t));
        };
        Result::Ok(Fetch { with_ties, percent, quantity })
    }
}

impl Parser {
    /// Tokenizes and parses a complete source text: the common one-shot
    /// entry point. A `TokenizerError` comes back exactly when the text does
    /// not tokenize under the dialect; every other failure is a syntax error
    /// or the recursion guard.
    pub fn parse_sql(dialect: Dialect, sql: &str) -> (r: Result<Vec<Statement>, ParserError>)
        ensures
            (r matches Err(e) && e is TokenizerError) <==> !crate::tokenizer::spec_tokenizable(
                dialect,
                sql@,
            ),
    {
        let tokenizer = Tokenizer::new(dialect, sql);
        match tokenizer.tokenize() {
            Result::Ok(tokens) => {
                let mut parser = Parser::new(tokens, dialect);
                parser.parse_statements()
            },
            Result::Err(e) => {
                let mut m = e.message;
                m.append(" at Line: ");
                let l = crate::text::u64_to_string(e.line);
                m.append(l.as_str());
                m.append(", Column: ");
                let c = crate::text::u64_to_string(e.col);
                m.append(c.as_str());
                Result::Err(ParserError::TokenizerError(m))
            },
        }
    }

    /// Parses statements separated by semicolons until the end of the input;
    /// on success the whole input has been consumed, an input without tokens
    /// yields no statements, and an input holding exactly `SHOW <word>`
    /// yields exactly that statement.
    pub fn parse_statements(&mut self) -> (r: Result<Vec<Statement>, ParserError>)
        requires
            old(self).wf(),
        ensures
            Self::frames(*old(self), *final(self)),
            r matches Err(e) ==> !(e is TokenizerError),
            r is Ok ==> final(self).spec_peek() is EOF,
            old(self).spec_peek() is EOF ==> (r matches Ok(v) && v@.len() == 0),
            old(self).spec_peek_keyword() == Keyword::SHOW ==> (old(self).spec_peek2()
                matches Token::Word(w) ==> (old(self).spec_peek3() is EOF ==> (r matches Ok(v)
                && v@.len() == 1 && (v@[0] matches Statement::ShowVariable { variable }
                && variable.value@ == w.value@ && variable.quote_style == w.quote_style)))),
    {
        let ghost show_case = old(self).spec_peek_keyword() == Keyword::SHOW && old(
            self,
        ).spec_peek2() is Word && old(self).spec_peek3() is EOF;
        let mut stmts: Vec<Statement> = Vec::new();
        let mut expecting_statement_delimiter = false;
        loop
            invariant
                self.wf(),
                self.same_input(*old(self)),
                old(self).index <= self.index,
                old(self).spec_peek() is EOF ==> self.index == old(self).index && stmts@.len()
                    == 0,
                show_case == (old(self).spec_peek_keyword() == Keyword::SHOW && old(
                    self,
                ).spec_peek2() is Word && old(self).spec_peek3() is EOF),
                show_case ==> ((self.index == old(self).index && stmts@.len() == 0
                    && !expecting_statement_delimiter) || (old(self).spec_peek2()
                    matches Token::Word(w) && stmts@.len() == 1 && (stmts@[0]
                    matches Statement::ShowVariable { variable } && variable.value@ == w.value@
                    && variable.quote_style == w.quote_style) && self.spec_peek() is EOF)),
            decreases self.tokens@.len() - self.index,
        {
            let ghost iter_start = self.index;
            let ghost expecting_at_start = expecting_statement_delimiter;
            loop
                invariant
                    self.wf(),
                    self.same_input(*old(self)),
                    old(self).index <= self.index,
                    iter_start <= self.index,
                    old(self).spec_peek() is EOF && iter_start == old(self).index ==> self.index
                        == old(self).index,
                    !symbol_matches(Symbol::SemiColon, spec_peek_at(self.tokens@, iter_start as int))
                        ==> self.index == iter_start && expecting_statement_delimiter
                        == expecting_at_start,
                decreases self.tokens@.len() - self.index,
            {
                if !self.consume_symbol(Symbol::SemiColon) {
                    break ;
                }
                expecting_statement_delimiter = false;
            }
            proof {
                if show_case {
                    // The semicolon scan does not move in either phase: the
                    // token at the iteration start is the SHOW word or the
                    // end of the input, never a semicolon.
                    assert(!symbol_matches(
                        Symbol::SemiColon,
                        spec_peek_at(self.tokens@, iter_start as int),
                    ));
                    assert(self.index == iter_start);
                }
            }
            let t = self.peek_token();
            if matches!(t, Token::EOF) {
                return Result::Ok(stmts);
            }
            if expecting_statement_delimiter {
                return Result::Err(self.expected_err("end of statement", t));
            }
            let s = self.parse_statement()?;
            stmts.push(s);
            expecting_statement_delimiter = true;
        }
    }

    /// Parses one statement, dispatching on its leading keyword; at the end
    /// of the input it fails naming the missing statement.
    pub fn parse_statement(&mut self) -> (r: Result<Statement, ParserError>)
        requires
            old(self).wf(),
        ensures
            Self::frames(*old(self), *final(self)),
            r matches Err(e) ==> !(e is TokenizerError),
            r is Ok ==> old(self).index < final(self).index,
            old(self).spec_peek() is EOF ==> (r matches Err(e) && e
                matches ParserError::ParserError(m) && m@ == Self::expected_message(
                "an SQL statement"@,
                Token::EOF,
            )),
            old(self).spec_peek_keyword() == Keyword::SHOW ==> (old(self).spec_peek2()
                matches Token::Word(w) ==> (r matches Ok(st) && st
                matches Statement::ShowVariable { variable } && variable.value@ == w.value@
                && variable.quote_style == w.quote_style && final(self).spec_peek() == old(
                self,
            ).spec_peek3())),
            r matches Ok(st) ==> (match old(self).spec_peek_keyword() {
                Keyword::CREATE => st is CreateTable,
                Keyword::DROP => st is Drop,
                Keyword::DELETE => st is Delete,
                Keyword::INSERT => st is Insert,
                Keyword::SET => st is SetVariable,
                Keyword::SHOW => st is ShowVariable,
                _ => st is Query,
            }),
            old(self).spec_peek_keyword() == Keyword::DROP ==> (token_keyword(
                old(self).spec_peek2(),
            ) == Keyword::TABLE ==> (old(self).spec_peek3() matches Token::Word(w) ==> (old(
                self,
            ).spec_peek4() is EOF ==> (r matches Ok(st) && (st matches Statement::Drop {
                object_type,
                if_exists,
                names,
                cascade,
            } && object_type == ObjectType::Table && !if_exists && names@.len() == 1
                && names@[0].0@.len() == 1 && names@[0].0@[0].value@ == w.value@
                && names@[0].0@[0].quote_style == w.quote_style && !cascade))))),
    {
        let depth = self.recursion_limit;
        self.parse_statement_rec(depth)
    }

    /// Parses one statement within a recursion budget.
    fn parse_statement_rec(&mut self, depth: u32) -> (r: Result<Statement, ParserError>)
        requires
            old(self).wf(),
        ensures
            Self::frames(*old(self), *final(self)),
            r matches Err(e) ==> !(e is TokenizerError),
            r is Ok ==> old(self).index < final(self).index,
            old(self).spec_peek() is EOF ==> (r matches Err(e) && e
                matches ParserError::ParserError(m) && m@ == Self::expected_message(
                "an SQL statement"@,
                Token::EOF,
            )),
            old(self).spec_peek_keyword() == Keyword::SHOW ==> (old(self).spec_peek2()
                matches Token::Word(w) ==> (r matches Ok(st) && st
                matches Statement::ShowVariable { variable } && variable.value@ == w.value@
                && variable.quote_style == w.quote_style && final(self).spec_peek() == old(
                self,
            ).spec_peek3())),
            r matches Ok(st) ==> (match old(self).spec_peek_keyword() {
                Keyword::CREATE => st is CreateTable,
                Keyword::DROP => st is Drop,
                Keyword::DELETE => st is Delete,
                Keyword::INSERT => st is Insert,
                Keyword::SET => st is SetVariable,
                Keyword::SHOW => st is ShowVariable,
                _ => st is Query,
            }),
            old(self).spec_peek_keyword() == Keyword::DROP ==> (token_keyword(
                old(self).spec_peek2(),
            ) == Keyword::TABLE ==> (old(self).spec_peek3() matches Token::Word(w) ==> (old(
                self,
            ).spec_peek4() is EOF ==> (r matches Ok(st) && (st matches Statement::Drop {
                object_type,
                if_exists,
                names,
                cascade,
            } && object_type == ObjectType::Table && !if_exists && names@.len() == 1
                && names@[0].0@.len() == 1 && names@[0].0@[0].value@ == w.value@
                && names@[0].0@[0].quote_style == w.quote_style && !cascade))))),
        decreases depth, 30int,
    {
        proof {
            lemma_next_sig_bounds(self.tokens@, self.index as int);
        }
        let pre = self.index;
        let t = self.peek_token();
        let kw = self.peek_keyword();
        let stmt: Statement = if matches!(kw, Keyword::SELECT | Keyword::WITH | Keyword::VALUES)
            || matches!(t, Token::LParen) {
            let q = self.parse_query_rec(depth)?;
            Statement::Query(Box::new(q))
        } else if matches!(kw, Keyword::CREATE) {
            let _ = self.next_token();
            self.parse_create_rec(depth)?
        } else if matches!(kw, Keyword::DROP) {
            let _ = self.next_token();
            proof {
                lemma_peek_after_advance(*old(self), *self);
            }
            self.parse_drop()?
        } else if matches!(kw, Keyword::DELETE) {
            let _ = self.next_token();
            self.parse_delete_rec(depth)?
        } else if matches!(kw, Keyword::INSERT) {
            let _ = self.next_token();
            self.parse_insert_rec(depth)?
        } else if matches!(kw, Keyword::SET) {
            let _ = self.next_token();
            self.parse_set()?
        } else if matches!(kw, Keyword::SHOW) {
            let _ = self.next_token();
            proof {
                lemma_peek_after_advance(*old(self), *self);
            }
            let ghost mid = *self;
            let shown = self.parse_show()?;
            proof {
                if shown is ShowVariable {
                    lemma_peek_after_advance(mid, *self);
                }
            }
            shown
        } else {
            return Result::Err(self.expected_err("an SQL statement", t));
        };
        if self.index == pre {
            // Every statement consumes at least one token; this arm is
            // unreachable, but the cursor must be seen to move.
            let u = self.peek_token();
            return Result::Err(self.expected_err("an SQL statement", u));
        }
        Result::Ok(stmt)
    }

    /// Parses what follows `CREATE`.
    fn parse_create_rec(&mut self, depth: u32) -> (r: Result<Statement, ParserError>)
        requires
            old(self).wf(),
        ensures
            Self::frames(*old(self), *final(self)),
            r matches Err(e) ==> !(e is TokenizerError),
            r matches Ok(st) ==> st is CreateTable,
        decreases depth, 29int,
    {
        let external = self.parse_keyword(Keyword::EXTERNAL);
        self.expect_keyword(Keyword::TABLE, "TABLE")?;
        self.parse_create_table_rec(external, depth)
    }

    /// Parses a `CREATE [EXTERNAL] TABLE` statement after its keywords.
    fn parse_create_table_rec(&mut self, external: bool, depth: u32) -> (r: Result<
        Statement,
        ParserError,
    >)
        requires
            old(self).wf(),
        ensures
            Self::frames(*old(self), *final(self)),
            r matches Err(e) ==> !(e is TokenizerError),
            r matches Ok(st) ==> st is CreateTable,
        decreases depth, 28int,
    {
        let if_not_exists = self.parse_keywords3(Keyword::IF, Keyword::NOT, Keyword::EXISTS);
        let name = self.parse_object_name()?;
        let (columns, constraints) = self.parse_columns_rec(depth)?;
        let mut file_format: Option<FileFormat> = Option::None;
        let mut location: Option<String> = Option::None;
        if external {
            self.expect_keyword(Keyword::STORED, "STORED")?;
            self.expect_keyword(Keyword::AS, "AS")?;
            file_format = Option::Some(self.parse_file_format()?);
            self.expect_keyword(Keyword::LOCATION, "LOCATION")?;
            location = Option::Some(self.parse_literal_string()?);
        }
        let with_options = self.parse_with_options()?;
        Result::Ok(
            Statement::CreateTable {
                name,
                columns,
                constraints,
                with_options,
                if_not_exists,
                external,
                file_format,
                location,
            },
        )
    }

    /// Parses the parenthesized column and constraint list of a `CREATE
    /// TABLE`; absent parentheses mean an empty list.
    fn parse_columns_rec(&mut self, depth: u32) -> (r: Result<
        (Vec<ColumnDef>, Vec<TableConstraint>),
        ParserError,
    >)
        requires
            old(self).wf(),
        ensures
            Self::frames(*old(self), *final(self)),
            r matches Err(e) ==> !(e is TokenizerError),
        decreases depth, 27int,
    {
        let mut columns: Vec<ColumnDef> = Vec::new();
        let mut constraints: Vec<TableConstraint> = Vec::new();
        if !self.consume_symbol(Symbol::LParen) || self.consume_symbol(Symbol::RParen) {
            return Result::Ok((columns, constraints));
        }
        loop
            invariant
                self.wf(),
                self.same_input(*old(self)),
                old(self).index <= self.index,
            decreases self.tokens@.len() - self.index,
        {
            match self.parse_optional_table_constraint_rec(depth)? {
                Option::Some(c) => {
                    constraints.push(c);
                },
                Option::None => {
                    let t = self.peek_token();
                    if matches!(t, Token::Word(_)) {
                        let col = self.parse_column_def_rec(depth)?;
                        columns.push(col);
                    } else {
                        return Result::Err(
                            self.expected_err("column name or constraint definition", t),
                        );
                    }
                },
            }
            let comma = self.consume_symbol(Symbol::Comma);
            if self.consume_symbol(Symbol::RParen) {
                break ;
            }
            if !comma {
                let t = self.peek_token();
                return Result::Err(
                    self.expected_err("',' or ')' after column definition", t),
                );
            }
        }
        Result::Ok((columns, constraints))
    }

    /// Parses one column definition of a `CREATE TABLE`.
    fn parse_column_def_rec(&mut self, depth: u32) -> (r: Result<ColumnDef, ParserError>)
        requires
            old(self).wf(),
        ensures
            Self::frames(*old(self), *final(self)),
            r matches Err(e) ==> !(e is TokenizerError),
            r is Ok ==> old(self).index < final(self).index,
        decreases depth, 26int,
    {
        let name = self.parse_identifier()?;
        let data_type = self.parse_data_type()?;
        let collation: Option<ObjectName> = if self.parse_keyword(Keyword::COLLATE) {
            Option::Some(self.parse_object_name()?)
        } else {
            Option::None
        };
        let mut options: Vec<ColumnOptionDef> = Vec::new();
        loop
            invariant
                self.wf(),
                self.same_input(*old(self)),
                old(self).index < self.index,
            decreases self.tokens@.len() - self.index,
        {
            if self.parse_keyword(Keyword::CONSTRAINT) {
                let cname = self.parse_identifier()?;
                match self.parse_optional_column_option_rec(depth)? {
                    Option::Some(option) => {
                        options.push(ColumnOptionDef { name: Option::Some(cname), option });
                    },
                    Option::None => {
                        let t = self.peek_token();
                        return Result::Err(
                            self.expected_err("constraint details after CONSTRAINT <name>", t),
                        );
                    },
                }
            } else {
                match self.parse_optional_column_option_rec(depth)? {
                    Option::Some(option) => {
                        options.push(ColumnOptionDef { name: Option::None, option });
                    },
                    Option::None => {
                        break ;
                    },
                }
            }
        }
        Result::Ok(ColumnDef { name, data_type, collation, options })
    }

    /// Parses one column option, when one starts at the cursor.
    fn parse_optional_column_option_rec(&mut self, depth: u32) -> (r: Result<
        Option<ColumnOption>,
        ParserError,
    >)
        requires
            old(self).wf(),
        ensures
            Self::frames(*old(self), *final(self)),
            r matches Err(e) ==> !(e is TokenizerError),
            r matches Ok(o) && o is Some ==> old(self).index < final(self).index,
        decreases depth, 25int,
    {
        if self.parse_keywords2(Keyword::NOT, Keyword::NULL) {
            Result::Ok(Option::Some(ColumnOption::NotNull))
        } else if self.parse_keyword(Keyword::NULL) {
            Result::Ok(Option::Some(ColumnOption::Null))
        } else if self.parse_keyword(Keyword::DEFAULT) {
            let d = Self::use_depth(depth)?;
            let e = self.parse_subexpr_rec(0, d)?;
            Result::Ok(Option::Some(ColumnOption::Default(e)))
        } else if self.parse_keywords2(Keyword::PRIMARY, Keyword::KEY) {
            Result::Ok(Option::Some(ColumnOption::Unique { is_primary: true }))
        } else if self.parse_keyword(Keyword::UNIQUE) {
            Result::Ok(Option::Some(ColumnOption::Unique { is_primary: false }))
        } else if self.parse_keyword(Keyword::CHECK) {
            let d = Self::use_depth(depth)?;
            self.expect_symbol(Symbol::LParen, "(")?;
            let e = self.parse_subexpr_rec(0, d)?;
            self.expect_symbol(Symbol::RParen, ")")?;
            Result::Ok(Option::Some(ColumnOption::Check(e)))
        } else {
            Result::Ok(Option::None)
        }
    }

    /// Parses one table constraint, when one starts at the cursor.
    fn parse_optional_table_constraint_rec(&mut self, depth: u32) -> (r: Result<
        Option<TableConstraint>,
        ParserError,
    >)
        requires
            old(self).wf(),
        ensures
            Self::frames(*old(self), *final(self)),
            r matches Err(e) ==> !(e is TokenizerError),
            r matches Ok(o) && o is Some ==> old(self).index < final(self).index,
        decreases depth, 26int,
    {
        let name: Option<Ident> = if self.parse_keyword(Keyword::CONSTRAINT) {
            Option::Some(self.parse_identifier()?)
        } else {
            Option::None
        };
        if self.parse_keywords2(Keyword::PRIMARY, Keyword::KEY) {
            let columns = self.parse_parenthesized_column_list()?;
            Result::Ok(Option::Some(TableConstraint::Unique { name, columns, is_primary: true }))
        } else if self.parse_keyword(Keyword::UNIQUE) {
            let columns = self.parse_parenthesized_column_list()?;
            Result::Ok(
                Option::Some(TableConstraint::Unique { name, columns, is_primary: false }),
            )
        } else if self.parse_keyword(Keyword::CHECK) {
            let d = Self::use_depth(depth)?;
            self.expect_symbol(Symbol::LParen, "(")?;
            let e = self.parse_subexpr_rec(0, d)?;
            self.expect_symbol(Symbol::RParen, ")")?;
            Result::Ok(Option::Some(TableConstraint::Check { name, expr: Box::new(e) }))
        } else {
            match name {
                Option::Some(_) => {
                    let t = self.peek_token();
                    Result::Err(
                        self.expected_err("PRIMARY KEY, UNIQUE or CHECK after CONSTRAINT <name>", t),
                    )
                },
                Option::None => Result::Ok(Option::None),
            }
        }
    }

    /// Parses a mandatory parenthesized list of column names.
    fn parse_parenthesized_column_list(&mut self) -> (r: Result<Vec<Ident>, ParserError>)
        requires
            old(self).wf(),
        ensures
            Self::frames(*old(self), *final(self)),
            r matches Err(e) ==> !(e is TokenizerError),
    {
        self.expect_symbol(Symbol::LParen, "(")?;
        let columns = self.parse_comma_separated_idents()?;
        self.expect_symbol(Symbol::RParen, ")")?;
        Result::Ok(columns)
    }

    /// Parses the `WITH (name = value, ...)` options of a `CREATE TABLE`.
    fn parse_with_options(&mut self) -> (r: Result<Vec<SqlOption>, ParserError>)
        requires
            old(self).wf(),
        ensures
            Self::frames(*old(self), *final(self)),
            r matches Err(e) ==> !(e is TokenizerError),
    {
        let mut options: Vec<SqlOption> = Vec::new();
        if self.parse_keyword(Keyword::WITH) {
            self.expect_symbol(Symbol::LParen, "(")?;
            loop
                invariant
                    self.wf(),
                    self.same_input(*old(self)),
                    old(self).index <= self.index,
                decreases self.tokens@.len() - self.index,
            {
                let name = self.parse_identifier()?;
                self.expect_symbol(Symbol::Eq, "=")?;
                let value = self.parse_value()?;
                options.push(SqlOption { name, value });
                if !self.consume_symbol(Symbol::Comma) {
                    break ;
                }
            }
            self.expect_symbol(Symbol::RParen, ")")?;
        }
        Result::Ok(options)
    }

    /// Parses a storage format keyword.
    fn parse_file_format(&mut self) -> (r: Result<FileFormat, ParserError>)
        requires
            old(self).wf(),
        ensures
            Self::frames(*old(self), *final(self)),
            r matches Err(e) ==> !(e is TokenizerError),
    {
        if self.parse_keyword(Keyword::TEXTFILE) {
            Result::Ok(FileFormat::TEXTFILE)
        } else if self.parse_keyword(Keyword::SEQUENCEFILE) {
            Result::Ok(FileFormat::SEQUENCEFILE)
        } else if self.parse_keyword(Keyword::ORC) {
            Result::Ok(FileFormat::ORC)
        } else if self.parse_keyword(Keyword::PARQUET) {
            Result::Ok(FileFormat::PARQUET)
        } else if self.parse_keyword(Keyword::AVRO) {
            Result::Ok(FileFormat::AVRO)
        } else if self.parse_keyword(Keyword::RCFILE) {
            Result::Ok(FileFormat::RCFILE)
        } else if self.parse_keyword(Keyword::JSONFILE) {
            Result::Ok(FileFormat::JSONFILE)
        } else {
            let t = self.peek_token();
            Result::Err(self.expected_err("a file format", t))
        }
    }

    /// Parses a `DROP` statement after its keyword. `DROP TABLE` with one
    /// bare name and nothing after it drops exactly that table, with no
    /// `IF EXISTS` and no `CASCADE` recorded.
    fn parse_drop(&mut self) -> (r: Result<Statement, ParserError>)
        requires
            old(self).wf(),
        ensures
            Self::frames(*old(self), *final(self)),
            r matches Err(e) ==> !(e is TokenizerError),
            r matches Ok(st) ==> st is Drop,
            old(self).spec_peek_keyword() == Keyword::TABLE ==> (old(self).spec_peek2()
                matches Token::Word(w) ==> (old(self).spec_peek3() is EOF ==> (r matches Ok(st)
                && (st matches Statement::Drop { object_type, if_exists, names, cascade }
                && object_type == ObjectType::Table && !if_exists && names@.len() == 1
                && names@[0].0@.len() == 1 && names@[0].0@[0].value@ == w.value@
                && names@[0].0@[0].quote_style == w.quote_style && !cascade)
                && final(self).spec_peek() == old(self).spec_peek3()))),
    {
        let ghost drop_case = old(self).spec_peek_keyword() == Keyword::TABLE && old(
            self,
        ).spec_peek2() is Word && old(self).spec_peek3() is EOF;
        let object_type: ObjectType = if self.parse_keyword(Keyword::TABLE) {
            ObjectType::Table
        } else if self.parse_keyword(Keyword::VIEW) {
            ObjectType::View
        } else if self.parse_keyword(Keyword::INDEX) {
            ObjectType::Index
        } else if self.parse_keyword(Keyword::SCHEMA) {
            ObjectType::Schema
        } else {
            let t = self.peek_token();
            return Result::Err(self.expected_err("TABLE, VIEW, INDEX or SCHEMA after DROP", t));
        };
        proof {
            if drop_case {
                lemma_peek_after_advance(*old(self), *self);
            }
        }
        let if_exists = self.parse_keywords2(Keyword::IF, Keyword::EXISTS);
        let mut names: Vec<ObjectName> = Vec::new();
        let ghost before_name = *self;
        let first_name = self.parse_object_name()?;
        proof {
            if drop_case {
                lemma_peek_after_advance(before_name, *self);
            }
        }
        names.push(first_name);
        loop
            invariant
                self.wf(),
                self.same_input(*old(self)),
                old(self).index <= self.index,
                names@.len() >= 1,
                drop_case == (old(self).spec_peek_keyword() == Keyword::TABLE && old(
                    self,
                ).spec_peek2() is Word && old(self).spec_peek3() is EOF),
                drop_case ==> (old(self).spec_peek2() matches Token::Word(w) && names@.len() == 1
                    && names@[0].0@.len() == 1 && names@[0].0@[0].value@ == w.value@
                    && names@[0].0@[0].quote_style == w.quote_style && self.spec_peek() is EOF),
            decreases self.tokens@.len() - self.index,
        {
            if !self.consume_symbol(Symbol::Comma) {
                break ;
            }
            let n = self.parse_object_name()?;
            names.push(n);
        }
        let cascade = self.parse_keyword(Keyword::CASCADE);
        let _restrict = self.parse_keyword(Keyword::RESTRICT);
        Result::Ok(Statement::Drop { object_type, if_exists, names, cascade })
    }

    /// Parses a `DELETE FROM` statement after the `DELETE` keyword.
    fn parse_delete_rec(&mut self, depth: u32) -> (r: Result<Statement, ParserError>)
        requires
            old(self).wf(),
        ensures
            Self::frames(*old(self), *final(self)),
            r matches Err(e) ==> !(e is TokenizerError),
            r matches Ok(st) ==> st is Delete,
        decreases depth, 29int,
    {
        self.expect_keyword(Keyword::FROM, "FROM")?;
        let table_name = self.parse_object_name()?;
        let mut selection: Option<Expr> = Option::None;
        if self.parse_keyword(Keyword::WHERE) {
            let d = Self::use_depth(depth)?;
            selection = Option::Some(self.parse_subexpr_rec(0, d)?);
        }
        Result::Ok(Statement::Delete { table_name, selection })
    }

    /// Parses an `INSERT INTO` statement after the `INSERT` keyword.
    fn parse_insert_rec(&mut self, depth: u32) -> (r: Result<Statement, ParserError>)
        requires
            old(self).wf(),
        ensures
            Self::frames(*old(self), *final(self)),
            r matches Err(e) ==> !(e is TokenizerError),
            r matches Ok(st) ==> st is Insert,
        decreases depth, 29int,
    {
        self.expect_keyword(Keyword::INTO, "INTO")?;
        let table_name = self.parse_object_name()?;
        let mut columns: Vec<Ident> = Vec::new();
        // A parenthesis here opens the column list unless it starts the
        // source query.
        let t = self.peek_token();
        let t2 = self.peek_token2();
        let starts_query = match &t2 {
            Token::Word(w) => matches!(w.quote_style, Option::None) && matches!(
                w.keyword,
                Keyword::SELECT | Keyword::WITH | Keyword::VALUES,
            ),
            _ => false,
        };
        if matches!(t, Token::LParen) && !starts_query {
            let _ = self.next_token();
            columns = self.parse_comma_separated_idents()?;
            self.expect_symbol(Symbol::RParen, ")")?;
        }
        let source = self.parse_query_rec(depth)?;
        Result::Ok(Statement::Insert { table_name, columns, source: Box::new(source) })
    }

    /// Parses a `SET` statement after the `SET` keyword.
    fn parse_set(&mut self) -> (r: Result<Statement, ParserError>)
        requires
            old(self).wf(),
        ensures
            Self::frames(*old(self), *final(self)),
            r matches Err(e) ==> !(e is TokenizerError),
            r matches Ok(st) ==> st is SetVariable,
            old(self).spec_peek() matches Token::Word(a) ==> (old(self).spec_peek3()
                matches Token::Word(b) ==> ((old(self).spec_peek_keyword() != Keyword::LOCAL
                && old(self).spec_peek_keyword() != Keyword::SESSION && (old(
                self,
            ).spec_peek2() is Eq || token_keyword(old(self).spec_peek2()) == Keyword::TO) && old(
                self,
            ).spec_peek4() is EOF) ==> (r matches Ok(st) && (st
                matches Statement::SetVariable { local, hivevar, variable, value } && !local
                && !hivevar && variable.value@ == a.value@ && variable.quote_style
                == a.quote_style && value@.len() == 1 && (value@[0]
                matches SetVariableValue::Ident(id) && id.value@ == b.value@ && id.quote_style
                == b.quote_style))))),
    {
        let ghost set_case = old(self).spec_peek() is Word && old(self).spec_peek_keyword()
            != Keyword::LOCAL && old(self).spec_peek_keyword() != Keyword::SESSION && (old(
            self,
        ).spec_peek2() is Eq || token_keyword(old(self).spec_peek2()) == Keyword::TO) && old(
            self,
        ).spec_peek3() is Word && old(self).spec_peek4() is EOF;
        let local = self.parse_keyword(Keyword::LOCAL);
        let _session = self.parse_keyword(Keyword::SESSION);
        let variable = self.parse_identifier()?;
        proof {
            if set_case {
                lemma_peek_after_advance(*old(self), *self);
            }
        }
        let ghost mid = *self;
        if !self.consume_symbol(Symbol::Eq) && !self.parse_keyword(Keyword::TO) {
            let t = self.peek_token();
            return Result::Err(self.expected_err("equals sign or TO", t));
        }
        proof {
            if set_case {
                lemma_peek_after_advance(mid, *self);
            }
        }
        let ghost before_value = *self;
        let mut value: Vec<SetVariableValue> = Vec::new();
        let first_value = self.parse_set_variable_value()?;
        proof {
            if set_case {
                lemma_peek_after_advance(before_value, *self);
            }
        }
        value.push(first_value);
        loop
            invariant
                self.wf(),
                self.same_input(*old(self)),
                old(self).index <= self.index,
                value@.len() >= 1,
                set_case == (old(self).spec_peek() is Word && old(self).spec_peek_keyword()
                    != Keyword::LOCAL && old(self).spec_peek_keyword() != Keyword::SESSION && (
                old(self).spec_peek2() is Eq || token_keyword(old(self).spec_peek2())
                    == Keyword::TO) && old(self).spec_peek3() is Word && old(
                    self,
                ).spec_peek4() is EOF),
                set_case ==> (old(self).spec_peek3() matches Token::Word(b) && value@.len() == 1
                    && (value@[0] matches SetVariableValue::Ident(id) && id.value@ == b.value@
                    && id.quote_style == b.quote_style) && self.spec_peek() is EOF),
            decreases self.tokens@.len() - self.index,
        {
            if !self.consume_symbol(Symbol::Comma) {
                break ;
            }
            let v = self.parse_set_variable_value()?;
            value.push(v);
        }
        Result::Ok(Statement::SetVariable { local, hivevar: false, variable, value })
    }

    /// Parses one value of a `SET` statement: an identifier (keywords
    /// included) or a literal, exactly as the next token provides.
    fn parse_set_variable_value(&mut self) -> (r: Result<SetVariableValue, ParserError>)
        requires
            old(self).wf(),
        ensures
            Self::frames(*old(self), *final(self)),
            r matches Err(e) ==> !(e is TokenizerError),
            r is Ok ==> old(self).index < final(self).index,
            r is Ok ==> final(self).index == old(self).spec_advanced(),
            old(self).spec_peek() matches Token::Word(w) ==> (r matches Ok(v) && (v
                matches SetVariableValue::Ident(id) && id.value@ == w.value@ && id.quote_style
                == w.quote_style)),
    {
        proof {
            lemma_next_sig_bounds(self.tokens@, self.index as int);
        }
        let t = self.peek_token();
        match t {
            Token::Word(w) => {
                let _ = self.next_token();
                Result::Ok(
                    SetVariableValue::Ident(
                        Ident { value: w.value, quote_style: w.quote_style },
                    ),
                )
            },
            Token::Number(s) => {
                let _ = self.next_token();
                Result::Ok(SetVariableValue::Literal(Value::Number(s)))
            },
            Token::SingleQuotedString(s) => {
                let _ = self.next_token();
                Result::Ok(SetVariableValue::Literal(Value::SingleQuotedString(s)))
            },
            _ => Result::Err(self.expected_err("variable value", t)),
        }
    }

    /// Parses a `SHOW` statement after the `SHOW` keyword: it succeeds
    /// exactly when a word follows, and shows that word.
    fn parse_show(&mut self) -> (r: Result<Statement, ParserError>)
        requires
            old(self).wf(),
        ensures
            Self::frames(*old(self), *final(self)),
            r matches Err(e) ==> !(e is TokenizerError),
            r is Ok <==> old(self).spec_peek() is Word,
            r is Ok ==> old(self).index < final(self).index,
            r is Ok ==> final(self).index == old(self).spec_advanced(),
            r matches Ok(st) ==> (old(self).spec_peek() matches Token::Word(w) && st
                matches Statement::ShowVariable { variable } && variable.value@ == w.value@
                && variable.quote_style == w.quote_style),
    {
        let variable = self.parse_identifier()?;
        Result::Ok(Statement::ShowVariable { variable })
    }
}


/// The precedence table is a strict total order over the operator tiers:
/// postfix casts bind above string concatenation, which binds above
/// multiplication, division and modulo, then addition and subtraction, the
/// bitwise operators, comparisons (with `BETWEEN`, `IN` and `LIKE`), `IS`,
/// unary `NOT`, `AND`, and finally `OR`. The climber in
/// [`Parser::parse_subexpr_rec`] consumes an operator only when its tier
/// binds more tightly than the enclosing one, so `1 + 2 * 3` groups the
/// multiplication first and `NOT a AND b` negates only `a`.
pub proof fn lemma_operator_binding_order()
    ensures
        PREC_DOUBLE_COLON > PREC_STRING_CONCAT > PREC_MUL_DIV_MOD > PREC_PLUS_MINUS
            > PREC_AMPERSAND > PREC_CARET > PREC_PIPE > PREC_COMPARISON > PREC_IS > PREC_UNARY_NOT
            > PREC_AND > PREC_OR > 0,
{
}
} // verus!
