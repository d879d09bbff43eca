//! The tokenizer: converts SQL source text into a flat sequence of tokens,
//! consulting the dialect for identifier character classes and quoting
//! styles.
//!
//! Two properties of [`Tokenizer::tokenize`] are verified. Completeness: it
//! succeeds exactly when every position of the input starts a token under
//! the dialect, per the specification scan [`token_end`] and
//! [`spec_tokenizable`]. Faithfulness: the lexemes of the tokens of a
//! successful run, laid end to end, are exactly the input text (see
//! [`concat_token_texts`]).
use vstd::prelude::*;

use crate::dialect::Dialect;
use crate::keywords::{keyword_from_upper, Keyword};
use crate::text::{escaped, push_char, to_ascii_uppercase};

verus! {

/// A run of whitespace or a comment. Comments are kept in the token stream
/// so that the source can be reconstructed exactly.
#[derive(Debug, PartialEq, Eq)]
pub enum Whitespace {
    Space,
    Newline,
    Tab,
    /// A comment running to the end of the line; `comment` includes the
    /// terminating newline when there is one, and `prefix` is the marker that
    /// opened the comment (`--`).
    SingleLineComment { comment: String, prefix: String },
    /// The text between `/*` and the matching `*/`, nested markers included.
    MultiLineComment(String),
}

/// A bare or quoted word, with the keyword recognized in it, if any.
#[derive(Debug, PartialEq, Eq)]
pub struct Word {
    /// The word with any enclosing quotes removed.
    pub value: String,
    /// The opening quote, if the word was quoted.
    pub quote_style: Option<char>,
    /// The keyword the (unquoted, uppercased) word matches, or `NoKeyword`.
    pub keyword: Keyword,
}

/// One lexical unit of SQL text.
#[derive(Debug, PartialEq, Eq)]
pub enum Token {
    /// Fabricated by the parser when it reads past the last real token.
    EOF,
    Word(Word),
    /// A numeric literal, kept as written (the tokenizer does not validate
    /// its range).
    Number(String),
    /// A single-quoted string literal, with `''` escapes already resolved.
    SingleQuotedString(String),
    Whitespace(Whitespace),
    Comma,
    Eq,
    /// `<>` or `!=`, kept as written.
    Neq(String),
    Lt,
    Gt,
    LtEq,
    GtEq,
    Plus,
    Minus,
    Mul,
    Div,
    Mod,
    StringConcat,
    LParen,
    RParen,
    Period,
    SemiColon,
    Colon,
    DoubleColon,
    Ampersand,
    Pipe,
    Caret,
    LBracket,
    RBracket,
}


impl Clone for Whitespace {
    /// Clones this whitespace token; the copy equals the original.
    fn clone(&self) -> (r: Whitespace)
        ensures
            r == *self,
    {
        match self {
            Whitespace::Space => Whitespace::Space,
            Whitespace::Newline => Whitespace::Newline,
            Whitespace::Tab => Whitespace::Tab,
            Whitespace::SingleLineComment { comment, prefix } => Whitespace::SingleLineComment {
                comment: comment.clone(),
                prefix: prefix.clone(),
            },
            Whitespace::MultiLineComment(s) => Whitespace::MultiLineComment(s.clone()),
        }
    }
}

impl Clone for Word {
    /// Clones this word; the copy equals the original.
    fn clone(&self) -> (r: Word)
        ensures
            r == *self,
    {
        Word { value: self.value.clone(), quote_style: self.quote_style, keyword: self.keyword }
    }
}

impl Clone for Token {
    /// Clones this token; the copy equals the original.
    fn clone(&self) -> (r: Token)
        ensures
            r == *self,
    {
        match self {
            Token::EOF => Token::EOF,
            Token::Word(w) => Token::Word(w.clone()),
            Token::Number(s) => Token::Number(s.clone()),
            Token::SingleQuotedString(s) => Token::SingleQuotedString(s.clone()),
            Token::Whitespace(w) => Token::Whitespace(w.clone()),
            Token::Comma => Token::Comma,
            Token::Eq => Token::Eq,
            Token::Neq(s) => Token::Neq(s.clone()),
            Token::Lt => Token::Lt,
            Token::Gt => Token::Gt,
            Token::LtEq => Token::LtEq,
            Token::GtEq => Token::GtEq,
            Token::Plus => Token::Plus,
            Token::Minus => Token::Minus,
            Token::Mul => Token::Mul,
            Token::Div => Token::Div,
            Token::Mod => Token::Mod,
            Token::StringConcat => Token::StringConcat,
            Token::LParen => Token::LParen,
            Token::RParen => Token::RParen,
            Token::Period => Token::Period,
            Token::SemiColon => Token::SemiColon,
            Token::Colon => Token::Colon,
            Token::DoubleColon => Token::DoubleColon,
            Token::Ampersand => Token::Ampersand,
            Token::Pipe => Token::Pipe,
            Token::Caret => Token::Caret,
            Token::LBracket => Token::LBracket,
            Token::RBracket => Token::RBracket,
        }
    }
}

/// The closing quote matching an opening identifier delimiter.
pub open spec fn closing_quote_of(q: char) -> char {
    if q == '[' {
        ']'
    } else {
        q
    }
}

/// The exact source text a token stands for.
pub open spec fn token_text(t: Token) -> Seq<char> {
    match t {
        Token::EOF => Seq::<char>::empty(),
        Token::Word(w) => match w.quote_style {
            Option::None => w.value@,
            Option::Some(q) => seq![q] + w.value@ + seq![closing_quote_of(q)],
        },
        Token::Number(s) => s@,
        Token::SingleQuotedString(s) => seq!['\''] + escaped(s@, '\'') + seq!['\''],
        Token::Whitespace(w) => match w {
            Whitespace::Space => seq![' '],
            Whitespace::Newline => seq!['\n'],
            Whitespace::Tab => seq!['\t'],
            Whitespace::SingleLineComment { comment, prefix } => prefix@ + comment@,
            Whitespace::MultiLineComment(s) => seq!['/', '*'] + s@ + seq!['*', '/'],
        },
        Token::Comma => seq![','],
        Token::Eq => seq!['='],
        Token::Neq(s) => s@,
        Token::Lt => seq!['<'],
        Token::Gt => seq!['>'],
        Token::LtEq => seq!['<', '='],
        Token::GtEq => seq!['>', '='],
        Token::Plus => seq!['+'],
        Token::Minus => seq!['-'],
        Token::Mul => seq!['*'],
        Token::Div => seq!['/'],
        Token::Mod => seq!['%'],
        Token::StringConcat => seq!['|', '|'],
        Token::LParen => seq!['('],
        Token::RParen => seq![')'],
        Token::Period => seq!['.'],
        Token::SemiColon => seq![';'],
        Token::Colon => seq![':'],
        Token::DoubleColon => seq![':', ':'],
        Token::Ampersand => seq!['&'],
        Token::Pipe => seq!['|'],
        Token::Caret => seq!['^'],
        Token::LBracket => seq!['['],
        Token::RBracket => seq![']'],
    }
}

/// The lexemes of a token sequence laid end to end.
pub open spec fn concat_token_texts(ts: Seq<Token>) -> Seq<char>
    decreases ts.len(),
{
    if ts.len() == 0 {
        Seq::<char>::empty()
    } else {
        token_text(ts[0]) + concat_token_texts(ts.drop_first())
    }
}

pub proof fn lemma_concat_snoc(ts: Seq<Token>, t: Token)
    ensures
        concat_token_texts(ts.push(t)) == concat_token_texts(ts) + token_text(t),
    decreases ts.len(),
{
    if ts.len() == 0 {
        assert(ts.push(t)[0] == t);
        assert(ts.push(t).drop_first() =~= Seq::<Token>::empty());
        assert(concat_token_texts(ts.push(t).drop_first()) == Seq::<char>::empty());
        assert(concat_token_texts(ts.push(t)) == token_text(t) + Seq::<char>::empty());
        assert(token_text(t) + Seq::<char>::empty() =~= token_text(t));
        assert(concat_token_texts(ts) + token_text(t) =~= token_text(t));
    } else {
        assert(ts.push(t)[0] == ts[0]);
        assert(ts.push(t).drop_first() =~= ts.drop_first().push(t));
        lemma_concat_snoc(ts.drop_first(), t);
        assert(concat_token_texts(ts.push(t)) == token_text(ts[0]) + concat_token_texts(
            ts.drop_first().push(t),
        ));
        assert(concat_token_texts(ts) == token_text(ts[0]) + concat_token_texts(ts.drop_first()));
        assert(token_text(ts[0]) + (concat_token_texts(ts.drop_first()) + token_text(t)) =~= (
        token_text(ts[0]) + concat_token_texts(ts.drop_first())) + token_text(t));
    }
}


/// The first position at or after `i` that does not hold a decimal digit.
pub open spec fn digits_end(s: Seq<char>, i: int) -> int
    decreases s.len() - i when 0 <= i <= s.len()
{
    if i >= s.len() {
        i
    } else if '0' <= s[i] && s[i] <= '9' {
        digits_end(s, i + 1)
    } else {
        i
    }
}

/// Where a numeric literal starting at `start` ends: digits, an optional
/// fraction, and an optional exponent consumed only when a digit follows it.
pub open spec fn number_end(s: Seq<char>, start: int) -> int {
    let j = digits_end(s, start + 1);
    let j2 = if j < s.len() && s[j] == '.' {
        digits_end(s, j + 1)
    } else {
        j
    };
    if j2 < s.len() && (s[j2] == 'e' || s[j2] == 'E') {
        let k = if j2 + 1 < s.len() && (s[j2 + 1] == '+' || s[j2 + 1] == '-') {
            j2 + 2
        } else {
            j2 + 1
        };
        if k < s.len() && '0' <= s[k] && s[k] <= '9' {
            digits_end(s, k)
        } else {
            j2
        }
    } else {
        j2
    }
}

/// Where a single-quoted string whose body starts at `j` ends (one past the
/// closing quote), or -1 when no closing quote follows; `''` pairs are
/// skipped.
pub open spec fn single_quoted_end(s: Seq<char>, j: int) -> int
    decreases s.len() - j when 0 <= j <= s.len()
{
    if j >= s.len() {
        -1
    } else if s[j] == '\'' {
        if j + 1 < s.len() && s[j + 1] == '\'' {
            single_quoted_end(s, j + 2)
        } else {
            j + 1
        }
    } else {
        single_quoted_end(s, j + 1)
    }
}

/// Where a delimited identifier whose body starts at `j` ends (one past the
/// closing quote), or -1 when the closing quote is missing.
pub open spec fn delimited_end(s: Seq<char>, j: int, close: char) -> int
    decreases s.len() - j when 0 <= j <= s.len()
{
    if j >= s.len() {
        -1
    } else if s[j] == close {
        j + 1
    } else {
        delimited_end(s, j + 1, close)
    }
}

/// Where a line comment whose text starts at `j` ends: one past the next
/// newline, or the end of the input.
pub open spec fn line_comment_end(s: Seq<char>, j: int) -> int
    decreases s.len() - j when 0 <= j <= s.len()
{
    if j >= s.len() {
        j
    } else if s[j] == '\n' {
        j + 1
    } else {
        line_comment_end(s, j + 1)
    }
}

/// Where a block comment whose body starts at `j` at the given nesting depth
/// ends (one past the final close marker), or -1 when it is unterminated.
pub open spec fn block_comment_end(s: Seq<char>, j: int, depth: int) -> int
    decreases s.len() - j when 0 <= j <= s.len()
{
    if j >= s.len() {
        -1
    } else if j + 1 >= s.len() {
        -1
    } else if s[j] == '*' && s[j + 1] == '/' {
        if depth == 1 {
            j + 2
        } else {
            block_comment_end(s, j + 2, depth - 1)
        }
    } else if s[j] == '/' && s[j + 1] == '*' {
        block_comment_end(s, j + 2, depth + 1)
    } else {
        block_comment_end(s, j + 1, depth)
    }
}

/// The first position at or after `j` that cannot continue a bare identifier
/// under the dialect.
pub open spec fn word_end(d: Dialect, s: Seq<char>, j: int) -> int
    decreases s.len() - j when 0 <= j <= s.len()
{
    if j >= s.len() {
        j
    } else if d.spec_is_identifier_part(s[j]) {
        word_end(d, s, j + 1)
    } else {
        j
    }
}

/// Where the token starting at position `i` ends under the dialect, or -1
/// when no token starts there. The classification order mirrors the scan:
/// whitespace, comments, string literals, numbers, delimited identifiers,
/// bare words, then punctuation, longest spelling first.
pub open spec fn token_end(d: Dialect, s: Seq<char>, i: int) -> int {
    let c = s[i];
    if c == ' ' || c == '\t' || c == '\n' {
        i + 1
    } else if c == '-' && i + 1 < s.len() && s[i + 1] == '-' {
        line_comment_end(s, i + 2)
    } else if c == '/' && i + 1 < s.len() && s[i + 1] == '*' {
        block_comment_end(s, i + 2, 1)
    } else if c == '\'' {
        single_quoted_end(s, i + 1)
    } else if '0' <= c && c <= '9' {
        number_end(s, i)
    } else if d.spec_is_delimited_identifier_start(c) {
        delimited_end(s, i + 1, closing_quote_of(c))
    } else if d.spec_is_identifier_start(c) {
        word_end(d, s, i + 1)
    } else if c == ',' || c == '=' {
        i + 1
    } else if c == '!' && i + 1 < s.len() && s[i + 1] == '=' {
        i + 2
    } else if c == '<' && i + 1 < s.len() && (s[i + 1] == '>' || s[i + 1] == '=') {
        i + 2
    } else if c == '<' {
        i + 1
    } else if c == '>' && i + 1 < s.len() && s[i + 1] == '=' {
        i + 2
    } else if c == '>' || c == '+' || c == '-' || c == '*' || c == '/' || c == '%' {
        i + 1
    } else if c == '|' && i + 1 < s.len() && s[i + 1] == '|' {
        i + 2
    } else if c == '|' || c == '(' || c == ')' || c == '.' || c == ';' {
        i + 1
    } else if c == ':' && i + 1 < s.len() && s[i + 1] == ':' {
        i + 2
    } else if c == ':' || c == '&' || c == '^' || c == '[' || c == ']' {
        i + 1
    } else {
        -1
    }
}

/// Whether the input from position `i` on splits completely into tokens:
/// every position starts a token whose end is within bounds, up to the end
/// of the input.
pub open spec fn tokenizable_from(d: Dialect, s: Seq<char>, i: int) -> bool
    decreases s.len() - i when 0 <= i <= s.len()
{
    if i >= s.len() {
        true
    } else {
        let e = token_end(d, s, i);
        if i < e && e <= s.len() {
            tokenizable_from(d, s, e)
        } else {
            false
        }
    }
}

/// Whether the whole input tokenizes under the dialect.
pub open spec fn spec_tokenizable(d: Dialect, s: Seq<char>) -> bool {
    tokenizable_from(d, s, 0)
}


/// Whether a token has the kind, quote style and keyword that the scan
/// assigns to the text starting at position `i`. Together with
/// [`token_text`] equal to the consumed text, this determines the token:
/// the value of a quoted word or string literal is pinned by its delimiters
/// and escaping (see [`crate::text::lemma_unescape_escape`]).
pub open spec fn token_kind_matches(d: Dialect, s: Seq<char>, i: int, t: Token) -> bool {
    let c = s[i];
    if c == ' ' {
        t == Token::Whitespace(Whitespace::Space)
    } else if c == '\t' {
        t == Token::Whitespace(Whitespace::Tab)
    } else if c == '\n' {
        t == Token::Whitespace(Whitespace::Newline)
    } else if c == '-' && i + 1 < s.len() && s[i + 1] == '-' {
        t matches Token::Whitespace(w2) && (w2 matches Whitespace::SingleLineComment {
            prefix,
            comment,
        } && prefix@ == seq!['-', '-'])
    } else if c == '/' && i + 1 < s.len() && s[i + 1] == '*' {
        t matches Token::Whitespace(w2) && w2 is MultiLineComment
    } else if c == '\'' {
        t is SingleQuotedString
    } else if '0' <= c && c <= '9' {
        t is Number
    } else if d.spec_is_delimited_identifier_start(c) {
        t matches Token::Word(w) && w.quote_style == Option::Some(c) && w.keyword
            == Keyword::NoKeyword
    } else if d.spec_is_identifier_start(c) {
        t matches Token::Word(w) && w.quote_style is None && w.keyword
            == crate::keywords::spec_keyword_from_upper(
            crate::text::spec_upper_seq(s.subrange(i, token_end(d, s, i))),
        )
    } else if c == ',' {
        t == Token::Comma
    } else if c == '=' {
        t == Token::Eq
    } else if c == '!' && i + 1 < s.len() && s[i + 1] == '=' {
        t is Neq
    } else if c == '<' && i + 1 < s.len() && s[i + 1] == '>' {
        t is Neq
    } else if c == '<' && i + 1 < s.len() && s[i + 1] == '=' {
        t == Token::LtEq
    } else if c == '<' {
        t == Token::Lt
    } else if c == '>' && i + 1 < s.len() && s[i + 1] == '=' {
        t == Token::GtEq
    } else if c == '>' {
        t == Token::Gt
    } else if c == '+' {
        t == Token::Plus
    } else if c == '-' {
        t == Token::Minus
    } else if c == '*' {
        t == Token::Mul
    } else if c == '/' {
        t == Token::Div
    } else if c == '%' {
        t == Token::Mod
    } else if c == '|' && i + 1 < s.len() && s[i + 1] == '|' {
        t == Token::StringConcat
    } else if c == '|' {
        t == Token::Pipe
    } else if c == '(' {
        t == Token::LParen
    } else if c == ')' {
        t == Token::RParen
    } else if c == '.' {
        t == Token::Period
    } else if c == ';' {
        t == Token::SemiColon
    } else if c == ':' && i + 1 < s.len() && s[i + 1] == ':' {
        t == Token::DoubleColon
    } else if c == ':' {
        t == Token::Colon
    } else if c == '&' {
        t == Token::Ampersand
    } else if c == '^' {
        t == Token::Caret
    } else if c == '[' {
        t == Token::LBracket
    } else if c == ']' {
        t == Token::RBracket
    } else {
        false
    }
}

/// Whether the tokens cover the text from `lo` to `hi` exactly: each token
/// starts where the previous one ended, carries the kind the scan assigns
/// there, and its text is the text it covers.
pub open spec fn tokens_match_span(d: Dialect, s: Seq<char>, lo: int, hi: int, ts: Seq<Token>) -> bool
    decreases ts.len(),
{
    if ts.len() == 0 {
        lo == hi
    } else {
        &&& 0 <= lo < s.len()
        &&& {
            let e = token_end(d, s, lo);
            &&& lo < e <= s.len()
            &&& token_kind_matches(d, s, lo, ts[0])
            &&& token_text(ts[0]) == s.subrange(lo, e)
            &&& tokens_match_span(d, s, e, hi, ts.drop_first())
        }
    }
}

pub proof fn lemma_tokens_match_span_push(
    d: Dialect,
    s: Seq<char>,
    lo: int,
    mid: int,
    ts: Seq<Token>,
    t: Token,
)
    requires
        tokens_match_span(d, s, lo, mid, ts),
        0 <= mid < s.len(),
        mid < token_end(d, s, mid) <= s.len(),
        token_kind_matches(d, s, mid, t),
        token_text(t) == s.subrange(mid, token_end(d, s, mid)),
    ensures
        tokens_match_span(d, s, lo, token_end(d, s, mid), ts.push(t)),
    decreases ts.len(),
{
    let e = token_end(d, s, mid);
    if ts.len() == 0 {
        assert(lo == mid);
        assert(ts.push(t)[0] == t);
        assert(ts.push(t).drop_first() =~= Seq::<Token>::empty());
        assert(tokens_match_span(d, s, e, e, ts.push(t).drop_first()));
        assert(tokens_match_span(d, s, lo, e, ts.push(t)));
    } else {
        assert(ts.push(t)[0] == ts[0]);
        assert(ts.push(t).drop_first() =~= ts.drop_first().push(t));
        assert(tokens_match_span(d, s, token_end(d, s, lo), mid, ts.drop_first()));
        lemma_tokens_match_span_push(d, s, token_end(d, s, lo), mid, ts.drop_first(), t);
        assert(tokens_match_span(d, s, lo, e, ts.push(t)));
    }
}

/// A fatal lexical failure, attributed to one line and column of the input.
#[derive(Debug, Clone, PartialEq, Eq)]
pub struct TokenizerError {
    pub message: String,
    pub line: u64,
    pub col: u64,
}

/// The characters of a string slice as a vector.
pub fn str_to_chars(s: &str) -> (v: Vec<char>)
    ensures
        v@ == s@,
{
    let n = s.unicode_len();
    let mut v: Vec<char> = Vec::new();
    let mut i: usize = 0;
    while i < n
        invariant
            i <= n,
            n == s@.len(),
            v@ == s@.subrange(0, i as int),
        decreases n - i,
    {
        v.push(s.get_char(i));
        proof {
            assert(s@.subrange(0, i + 1int) =~= s@.subrange(0, i as int).push(s@[i as int]));
        }
        i = i + 1;
    }
    proof {
        assert(s@.subrange(0, n as int) =~= s@);
    }
    v
}

/// Scans a numeric literal: digits, an optional fractional part, and an
/// optional exponent.
fn scan_number(chars: &Vec<char>, start: usize) -> (r: (String, usize))
    requires
        start < chars@.len(),
    ensures
        start < r.1 <= chars@.len(),
        r.0@ == chars@.subrange(start as int, r.1 as int),
        r.1 as int == number_end(chars@, start as int),
{
    let len = chars.len();
    let mut s = String::new();
    push_char(&mut s, chars[start]);
    let mut j: usize = start + 1;
    proof {
        assert(chars@.subrange(start as int, start + 1int) =~= seq![chars@[start as int]]);
    }
    while j < len && '0' <= chars[j] && chars[j] <= '9'
        invariant
            start < j <= len,
            len == chars@.len(),
            s@ == chars@.subrange(start as int, j as int),
            digits_end(chars@, start + 1) == digits_end(chars@, j as int),
        decreases len - j,
    {
        push_char(&mut s, chars[j]);
        proof {
            assert(chars@.subrange(start as int, j + 1int) =~= chars@.subrange(
                start as int,
                j as int,
            ).push(chars@[j as int]));
        }
        j = j + 1;
    }
    let ghost j1 = j as int;
    proof {
        assert(digits_end(chars@, start + 1) == j1);
    }
    if j < len && chars[j] == '.' {
        push_char(&mut s, '.');
        proof {
            assert(chars@.subrange(start as int, j + 1int) =~= chars@.subrange(
                start as int,
                j as int,
            ).push(chars@[j as int]));
        }
        j = j + 1;
        while j < len && '0' <= chars[j] && chars[j] <= '9'
            invariant
                start < j <= len,
                len == chars@.len(),
                s@ == chars@.subrange(start as int, j as int),
                digits_end(chars@, j1 + 1) == digits_end(chars@, j as int),
            decreases len - j,
        {
            push_char(&mut s, chars[j]);
            proof {
                assert(chars@.subrange(start as int, j + 1int) =~= chars@.subrange(
                    start as int,
                    j as int,
                ).push(chars@[j as int]));
            }
            j = j + 1;
        }
    }
    let ghost j2 = j as int;
    proof {
        assert(j2 == if j1 < chars@.len() && chars@[j1] == '.' {
            digits_end(chars@, j1 + 1)
        } else {
            j1
        });
    }
    // An exponent is consumed only when at least one digit follows it.
    if j < len && (chars[j] == 'e' || chars[j] == 'E') {
        let mut k: usize = j + 1;
        if k < len && (chars[k] == '+' || chars[k] == '-') {
            k = k + 1;
        }
        if k < len && '0' <= chars[k] && chars[k] <= '9' {
            let ghost k0 = k as int;
            while j < k
                invariant
                    start < j <= k <= len,
                    k as int == k0,
                    len == chars@.len(),
                    s@ == chars@.subrange(start as int, j as int),
                decreases k - j,
            {
                push_char(&mut s, chars[j]);
                proof {
                    assert(chars@.subrange(start as int, j + 1int) =~= chars@.subrange(
                        start as int,
                        j as int,
                    ).push(chars@[j as int]));
                }
                j = j + 1;
            }
            while j < len && '0' <= chars[j] && chars[j] <= '9'
                invariant
                    start < j <= len,
                    len == chars@.len(),
                    s@ == chars@.subrange(start as int, j as int),
                    digits_end(chars@, k0) == digits_end(chars@, j as int),
                decreases len - j,
            {
                push_char(&mut s, chars[j]);
                proof {
                    assert(chars@.subrange(start as int, j + 1int) =~= chars@.subrange(
                        start as int,
                        j as int,
                    ).push(chars@[j as int]));
                }
                j = j + 1;
            }
            proof {
                assert(digits_end(chars@, k0) == j as int);
            }
        }
    }
    proof {
        assert(j as int == number_end(chars@, start as int));
    }
    (s, j)
}

/// Scans a bare identifier or keyword under the dialect's character classes.
fn scan_word(chars: &Vec<char>, start: usize, dialect: Dialect) -> (r: (String, usize))
    requires
        start < chars@.len(),
    ensures
        start < r.1 <= chars@.len(),
        r.0@ == chars@.subrange(start as int, r.1 as int),
        r.1 as int == word_end(dialect, chars@, start + 1),
{
    let len = chars.len();
    let mut s = String::new();
    push_char(&mut s, chars[start]);
    let mut j: usize = start + 1;
    proof {
        assert(chars@.subrange(start as int, start + 1int) =~= seq![chars@[start as int]]);
    }
    while j < len && dialect.is_identifier_part(chars[j])
        invariant
            start < j <= len,
            len == chars@.len(),
            s@ == chars@.subrange(start as int, j as int),
            word_end(dialect, chars@, start + 1) == word_end(dialect, chars@, j as int),
        decreases len - j,
    {
        push_char(&mut s, chars[j]);
        proof {
            assert(chars@.subrange(start as int, j + 1int) =~= chars@.subrange(
                start as int,
                j as int,
            ).push(chars@[j as int]));
        }
        j = j + 1;
    }
    (s, j)
}

/// Scans a single-quoted string literal, resolving `''` escapes. Fails when
/// the closing quote is missing.
fn scan_single_quoted(chars: &Vec<char>, start: usize) -> (r: Result<(String, usize), ()>)
    requires
        start < chars@.len(),
        chars@[start as int] == '\'',
    ensures
        r matches Ok(p) ==> start < p.1 <= chars@.len() && seq!['\''] + escaped(p.0@, '\'')
            + seq!['\''] == chars@.subrange(start as int, p.1 as int),
        r matches Ok(p) ==> p.1 as int == single_quoted_end(chars@, start + 1),
        r is Err ==> single_quoted_end(chars@, start + 1) == -1,
{
    let len = chars.len();
    let mut value = String::new();
    let mut j: usize = start + 1;
    proof {
        assert(chars@.subrange(start + 1int, start + 1int) =~= Seq::<char>::empty());
    }
    loop
        invariant
            start < j <= len,
            len == chars@.len(),
            chars@[start as int] == '\'',
            escaped(value@, '\'') == chars@.subrange(start + 1int, j as int),
            single_quoted_end(chars@, start + 1) == single_quoted_end(chars@, j as int),
        decreases len - j,
    {
        if j >= len {
            return Result::Err(());
        }
        let c = chars[j];
        let ghost pre = value@;
        if c == '\'' {
            if j + 1 < len && chars[j + 1] == '\'' {
                push_char(&mut value, '\'');
                proof {
                    crate::text::lemma_escaped_push(pre, '\'', '\'');
                    assert(chars@.subrange(start + 1int, j + 2int) =~= chars@.subrange(
                        start + 1int,
                        j as int,
                    ) + seq!['\'', '\'']);
                }
                j = j + 2;
            } else {
                let end = j + 1;
                proof {
                    assert(seq!['\''] + escaped(value@, '\'') + seq!['\''] =~= chars@.subrange(
                        start as int,
                        end as int,
                    ));
                }
                return Result::Ok((value, end));
            }
        } else {
            push_char(&mut value, c);
            proof {
                crate::text::lemma_escaped_push(pre, c, '\'');
                assert(chars@.subrange(start + 1int, j + 1int) =~= chars@.subrange(
                    start + 1int,
                    j as int,
                ) + seq![c]);
            }
            j = j + 1;
        }
    }
}

/// Scans a delimited (quoted) identifier up to the closing quote, which must
/// be present. No escape is recognized inside.
fn scan_delimited(chars: &Vec<char>, start: usize, close: char) -> (r: Result<(String, usize), ()>)
    requires
        start < chars@.len(),
    ensures
        r matches Ok(p) ==> start < p.1 <= chars@.len() && seq![chars@[start as int]] + p.0@ + seq![
            close,
        ] == chars@.subrange(start as int, p.1 as int),
        r matches Ok(p) ==> p.1 as int == delimited_end(chars@, start + 1, close),
        r is Err ==> delimited_end(chars@, start + 1, close) == -1,
{
    let len = chars.len();
    let mut value = String::new();
    let mut j: usize = start + 1;
    while j < len && chars[j] != close
        invariant
            start < j <= len,
            len == chars@.len(),
            value@ == chars@.subrange(start + 1int, j as int),
            delimited_end(chars@, start + 1, close) == delimited_end(chars@, j as int, close),
        decreases len - j,
    {
        push_char(&mut value, chars[j]);
        proof {
            assert(chars@.subrange(start + 1int, j + 1int) =~= chars@.subrange(
                start + 1int,
                j as int,
            ).push(chars@[j as int]));
        }
        j = j + 1;
    }
    if j >= len {
        return Result::Err(());
    }
    let end = j + 1;
    proof {
        assert(seq![chars@[start as int]] + value@ + seq![close] =~= chars@.subrange(
            start as int,
            end as int,
        ));
    }
    Result::Ok((value, end))
}

/// Scans a line comment starting at the `--` marker; the comment text runs
/// to and includes the next newline, or to the end of the input.
fn scan_line_comment(chars: &Vec<char>, start: usize) -> (r: (String, usize))
    requires
        start + 2 <= chars@.len(),
    ensures
        start + 2 <= r.1 <= chars@.len(),
        r.0@ == chars@.subrange(start + 2int, r.1 as int),
        r.1 as int == line_comment_end(chars@, start + 2),
{
    let len = chars.len();
    let mut s = String::new();
    let mut j: usize = start + 2;
    proof {
        assert(chars@.subrange(start + 2int, start + 2int) =~= Seq::<char>::empty());
    }
    while j < len && chars[j] != '\n'
        invariant
            start + 2 <= j <= len,
            len == chars@.len(),
            s@ == chars@.subrange(start + 2int, j as int),
            line_comment_end(chars@, start + 2) == line_comment_end(chars@, j as int),
        decreases len - j,
    {
        push_char(&mut s, chars[j]);
        proof {
            assert(chars@.subrange(start + 2int, j + 1int) =~= chars@.subrange(
                start + 2int,
                j as int,
            ).push(chars@[j as int]));
        }
        j = j + 1;
    }
    if j < len {
        // Include the newline in the comment text.
        push_char(&mut s, '\n');
        proof {
            assert(chars@.subrange(start + 2int, j + 1int) =~= chars@.subrange(
                start + 2int,
                j as int,
            ).push(chars@[j as int]));
        }
        j = j + 1;
    }
    (s, j)
}

/// Scans a block comment; nested `/* ... */` groups are consumed as part of
/// the comment. Fails when the matching close marker is missing.
fn scan_block_comment(chars: &Vec<char>, start: usize) -> (r: Result<(String, usize), ()>)
    requires
        start + 2 <= chars@.len(),
        chars@[start as int] == '/',
        chars@[start + 1int] == '*',
    ensures
        r matches Ok(p) ==> start + 2 <= p.1 <= chars@.len() && seq!['/', '*'] + p.0@ + seq![
            '*',
            '/',
        ] == chars@.subrange(start as int, p.1 as int),
        r matches Ok(p) ==> p.1 as int == block_comment_end(chars@, start + 2, 1),
        r is Err ==> block_comment_end(chars@, start + 2, 1) == -1,
{
    let len = chars.len();
    let mut s = String::new();
    let mut depth: usize = 1;
    let mut j: usize = start + 2;
    proof {
        assert(chars@.subrange(start + 2int, start + 2int) =~= Seq::<char>::empty());
    }
    loop
        invariant
            start + 2 <= j <= len,
            len == chars@.len(),
            depth >= 1,
            depth <= j,
            chars@[start as int] == '/',
            chars@[start + 1int] == '*',
            s@ == chars@.subrange(start + 2int, j as int),
            block_comment_end(chars@, start + 2, 1) == block_comment_end(
                chars@,
                j as int,
                depth as int,
            ),
        decreases len - j,
    {
        if j >= len {
            return Result::Err(());
        }
        if j + 1 >= len {
            return Result::Err(());
        }
        let c = chars[j];
        let d = chars[j + 1];
        if c == '*' && d == '/' {
            if depth == 1 {
                let end = j + 2;
                proof {
                    assert(seq!['/', '*'] + s@ + seq!['*', '/'] =~= chars@.subrange(
                        start as int,
                        end as int,
                    ));
                }
                return Result::Ok((s, end));
            } else {
                depth = depth - 1;
                push_char(&mut s, '*');
                push_char(&mut s, '/');
                proof {
                    assert(chars@.subrange(start + 2int, j + 2int) =~= chars@.subrange(
                        start + 2int,
                        j as int,
                    ).push(chars@[j as int]).push(chars@[j + 1int]));
                }
                j = j + 2;
            }
        } else if c == '/' && d == '*' {
            depth = depth + 1;
            push_char(&mut s, '/');
            push_char(&mut s, '*');
            proof {
                assert(chars@.subrange(start + 2int, j + 2int) =~= chars@.subrange(
                    start + 2int,
                    j as int,
                ).push(chars@[j as int]).push(chars@[j + 1int]));
            }
            j = j + 2;
        } else {
            push_char(&mut s, c);
            proof {
                assert(chars@.subrange(start + 2int, j + 1int) =~= chars@.subrange(
                    start + 2int,
                    j as int,
                ).push(chars@[j as int]));
            }
            j = j + 1;
        }
    }
}

/// Converts a tokenizer of one query. The dialect decides identifier
/// character classes and which quote characters open delimited identifiers.
pub struct Tokenizer<'a> {
    pub dialect: Dialect,
    pub query: &'a str,
}

impl<'a> Tokenizer<'a> {
    pub fn new(dialect: Dialect, query: &'a str) -> (r: Tokenizer<'a>)
        ensures
            r.dialect == dialect,
            r.query@ == query@,
    {
        Tokenizer { dialect, query }
    }

    /// Tokenizes the whole input. It succeeds exactly when every position of
    /// the input starts a token under the dialect (see [`spec_tokenizable`]);
    /// on success the tokens, laid end to end, reproduce the input exactly,
    /// and each token covers the text and carries the kind, quote style and
    /// keyword that the scan assigns at its position (see
    /// [`tokens_match_span`]).
    #[verifier::rlimit(100)]
    pub fn tokenize(&self) -> (r: Result<Vec<Token>, TokenizerError>)
        ensures
            r matches Ok(ts) ==> concat_token_texts(ts@) == self.query@,
            r is Ok <==> spec_tokenizable(self.dialect, self.query@),
            r matches Ok(ts) ==> tokens_match_span(
                self.dialect,
                self.query@,
                0,
                self.query@.len() as int,
                ts@,
            ),
    {
        let chars = str_to_chars(self.query);
        let len = chars.len();
        let mut tokens: Vec<Token> = Vec::new();
        let mut i: usize = 0;
        let mut line: u64 = 1;
        let mut col: u64 = 1;
        while i < len
            invariant
                i <= len,
                len == chars@.len(),
                chars@ == self.query@,
                concat_token_texts(tokens@) == chars@.subrange(0, i as int),
                tokens_match_span(self.dialect, chars@, 0, i as int, tokens@),
                tokenizable_from(self.dialect, chars@, i as int) == spec_tokenizable(
                    self.dialect,
                    chars@,
                ),
            decreases len - i,
        {
            let c = chars[i];
            let ghost pre = tokens@;
            let ghost start = i as int;
            let t: Token;
            let next_i: usize;
            if c == ' ' {
                t = Token::Whitespace(Whitespace::Space);
                next_i = i + 1;
                proof {
                    assert(next_i as int == token_end(self.dialect, chars@, i as int));
                    assert(token_kind_matches(self.dialect, chars@, i as int, t));
                }
            } else if c == '\t' {
                t = Token::Whitespace(Whitespace::Tab);
                next_i = i + 1;
                proof {
                    assert(next_i as int == token_end(self.dialect, chars@, i as int));
                    assert(token_kind_matches(self.dialect, chars@, i as int, t));
                }
            } else if c == '\n' {
                t = Token::Whitespace(Whitespace::Newline);
                next_i = i + 1;
                proof {
                    assert(next_i as int == token_end(self.dialect, chars@, i as int));
                    assert(token_kind_matches(self.dialect, chars@, i as int, t));
                }
            } else if c == '-' && i + 1 < len && chars[i + 1] == '-' {
                let (comment, j) = scan_line_comment(&chars, i);
                let mut prefix = String::new();
                push_char(&mut prefix, '-');
                push_char(&mut prefix, '-');
                proof {
                    assert(prefix@ =~= seq!['-', '-']);
                }
                t = Token::Whitespace(Whitespace::SingleLineComment { comment, prefix });
                next_i = j;
                proof {
                    assert(token_text(t) =~= chars@.subrange(start, j as int));
                    assert(next_i as int == token_end(self.dialect, chars@, i as int));
                    assert(token_kind_matches(self.dialect, chars@, i as int, t));
                }
            } else if c == '/' && i + 1 < len && chars[i + 1] == '*' {
                match scan_block_comment(&chars, i) {
                    Result::Ok((body, j)) => {
                        t = Token::Whitespace(Whitespace::MultiLineComment(body));
                        next_i = j;
                        proof {
                            assert(next_i as int == token_end(self.dialect, chars@, i as int));
                            assert(token_kind_matches(self.dialect, chars@, i as int, t));
                        }
                    },
                    Result::Err(_) => {
                        proof {
                            assert(token_end(self.dialect, chars@, i as int) == -1);
                            assert(!tokenizable_from(self.dialect, chars@, i as int));
                        }
                        return Result::Err(
                            self.error_at("Unterminated multi-line comment", line, col),
                        );
                    },
                }
            } else if c == '\'' {
                match scan_single_quoted(&chars, i) {
                    Result::Ok((value, j)) => {
                        t = Token::SingleQuotedString(value);
                        next_i = j;
                        proof {
                            assert(next_i as int == token_end(self.dialect, chars@, i as int));
                            assert(token_kind_matches(self.dialect, chars@, i as int, t));
                        }
                    },
                    Result::Err(_) => {
                        proof {
                            assert(token_end(self.dialect, chars@, i as int) == -1);
                            assert(!tokenizable_from(self.dialect, chars@, i as int));
                        }
                        return Result::Err(
                            self.error_at("Unterminated string literal", line, col),
                        );
                    },
                }
            } else if '0' <= c && c <= '9' {
                let (text, j) = scan_number(&chars, i);
                t = Token::Number(text);
                next_i = j;
                proof {
                    assert(next_i as int == token_end(self.dialect, chars@, i as int));
                    assert(token_kind_matches(self.dialect, chars@, i as int, t));
                }

            } else if self.dialect.is_delimited_identifier_start(c) {
                let close = self.dialect.closing_quote(c);
                match scan_delimited(&chars, i, close) {
                    Result::Ok((value, j)) => {
                        t = Token::Word(
                            Word { value, quote_style: Option::Some(c), keyword: Keyword::NoKeyword },
                        );
                        next_i = j;
                        proof {
                            assert(closing_quote_of(c) == close);
                            assert(next_i as int == token_end(self.dialect, chars@, i as int));
                            assert(token_kind_matches(self.dialect, chars@, i as int, t));
                        }
                    },
                    Result::Err(_) => {
                        proof {
                            assert(closing_quote_of(c) == close);
                            assert(token_end(self.dialect, chars@, i as int) == -1);
                            assert(!tokenizable_from(self.dialect, chars@, i as int));
                        }
                        return Result::Err(
                            self.error_at("Expected close delimiter for a quoted identifier", line, col),
                        );
                    },
                }
            } else if self.dialect.is_identifier_start(c) {
                let (value, j) = scan_word(&chars, i, self.dialect);
                let upper = to_ascii_uppercase(value.as_str());
                let keyword = keyword_from_upper(upper.as_str());
                t = Token::Word(Word { value, quote_style: Option::None, keyword });
                next_i = j;
                proof {
                    assert(next_i as int == token_end(self.dialect, chars@, i as int));
                    assert(token_kind_matches(self.dialect, chars@, i as int, t));
                }

            } else if c == ',' {
                t = Token::Comma;
                next_i = i + 1;
                proof {
                    assert(next_i as int == token_end(self.dialect, chars@, i as int));
                    assert(token_kind_matches(self.dialect, chars@, i as int, t));
                }
            } else if c == '=' {
                t = Token::Eq;
                next_i = i + 1;
                proof {
                    assert(next_i as int == token_end(self.dialect, chars@, i as int));
                    assert(token_kind_matches(self.dialect, chars@, i as int, t));
                }
            } else if c == '!' && i + 1 < len && chars[i + 1] == '=' {
                let mut sp = String::new();
                push_char(&mut sp, '!');
                push_char(&mut sp, '=');
                t = Token::Neq(sp);
                next_i = i + 2;
                proof {
                    assert(next_i as int == token_end(self.dialect, chars@, i as int));
                    assert(token_kind_matches(self.dialect, chars@, i as int, t));
                }
            } else if c == '<' && i + 1 < len && chars[i + 1] == '>' {
                let mut sp = String::new();
                push_char(&mut sp, '<');
                push_char(&mut sp, '>');
                t = Token::Neq(sp);
                next_i = i + 2;
                proof {
                    assert(next_i as int == token_end(self.dialect, chars@, i as int));
                    assert(token_kind_matches(self.dialect, chars@, i as int, t));
                }
            } else if c == '<' && i + 1 < len && chars[i + 1] == '=' {
                t = Token::LtEq;
                next_i = i + 2;
                proof {
                    assert(next_i as int == token_end(self.dialect, chars@, i as int));
                    assert(token_kind_matches(self.dialect, chars@, i as int, t));
                }
            } else if c == '<' {
                t = Token::Lt;
                next_i = i + 1;
                proof {
                    assert(next_i as int == token_end(self.dialect, chars@, i as int));
                    assert(token_kind_matches(self.dialect, chars@, i as int, t));
                }
            } else if c == '>' && i + 1 < len && chars[i + 1] == '=' {
                t = Token::GtEq;
                next_i = i + 2;
                proof {
                    assert(next_i as int == token_end(self.dialect, chars@, i as int));
                    assert(token_kind_matches(self.dialect, chars@, i as int, t));
                }
            } else if c == '>' {
                t = Token::Gt;
                next_i = i + 1;
                proof {
                    assert(next_i as int == token_end(self.dialect, chars@, i as int));
                    assert(token_kind_matches(self.dialect, chars@, i as int, t));
                }
            } else if c == '+' {
                t = Token::Plus;
                next_i = i + 1;
                proof {
                    assert(next_i as int == token_end(self.dialect, chars@, i as int));
                    assert(token_kind_matches(self.dialect, chars@, i as int, t));
                }
            } else if c == '-' {
                t = Token::Minus;
                next_i = i + 1;
                proof {
                    assert(next_i as int == token_end(self.dialect, chars@, i as int));
                    assert(token_kind_matches(self.dialect, chars@, i as int, t));
                }
            } else if c == '*' {
                t = Token::Mul;
                next_i = i + 1;
                proof {
                    assert(next_i as int == token_end(self.dialect, chars@, i as int));
                    assert(token_kind_matches(self.dialect, chars@, i as int, t));
                }
            } else if c == '/' {
                t = Token::Div;
                next_i = i + 1;
                proof {
                    assert(next_i as int == token_end(self.dialect, chars@, i as int));
                    assert(token_kind_matches(self.dialect, chars@, i as int, t));
                }
            } else if c == '%' {
                t = Token::Mod;
                next_i = i + 1;
                proof {
                    assert(next_i as int == token_end(self.dialect, chars@, i as int));
                    assert(token_kind_matches(self.dialect, chars@, i as int, t));
                }
            } else if c == '|' && i + 1 < len && chars[i + 1] == '|' {
                t = Token::StringConcat;
                next_i = i + 2;
                proof {
                    assert(next_i as int == token_end(self.dialect, chars@, i as int));
                    assert(token_kind_matches(self.dialect, chars@, i as int, t));
                }
            } else if c == '|' {
                t = Token::Pipe;
                next_i = i + 1;
                proof {
                    assert(next_i as int == token_end(self.dialect, chars@, i as int));
                    assert(token_kind_matches(self.dialect, chars@, i as int, t));
                }
            } else if c == '(' {
                t = Token::LParen;
                next_i = i + 1;
                proof {
                    assert(next_i as int == token_end(self.dialect, chars@, i as int));
                    assert(token_kind_matches(self.dialect, chars@, i as int, t));
                }
            } else if c == ')' {
                t = Token::RParen;
                next_i = i + 1;
                proof {
                    assert(next_i as int == token_end(self.dialect, chars@, i as int));
                    assert(token_kind_matches(self.dialect, chars@, i as int, t));
                }
            } else if c == '.' {
                t = Token::Period;
                next_i = i + 1;
                proof {
                    assert(next_i as int == token_end(self.dialect, chars@, i as int));
                    assert(token_kind_matches(self.dialect, chars@, i as int, t));
                }
            } else if c == ';' {
                t = Token::SemiColon;
                next_i = i + 1;
                proof {
                    assert(next_i as int == token_end(self.dialect, chars@, i as int));
                    assert(token_kind_matches(self.dialect, chars@, i as int, t));
                }
            } else if c == ':' && i + 1 < len && chars[i + 1] == ':' {
                t = Token::DoubleColon;
                next_i = i + 2;
                proof {
                    assert(next_i as int == token_end(self.dialect, chars@, i as int));
                    assert(token_kind_matches(self.dialect, chars@, i as int, t));
                }
            } else if c == ':' {
                t = Token::Colon;
                next_i = i + 1;
                proof {
                    assert(next_i as int == token_end(self.dialect, chars@, i as int));
                    assert(token_kind_matches(self.dialect, chars@, i as int, t));
                }
            } else if c == '&' {
                t = Token::Ampersand;
                next_i = i + 1;
                proof {
                    assert(next_i as int == token_end(self.dialect, chars@, i as int));
                    assert(token_kind_matches(self.dialect, chars@, i as int, t));
                }
            } else if c == '^' {
                t = Token::Caret;
                next_i = i + 1;
                proof {
                    assert(next_i as int == token_end(self.dialect, chars@, i as int));
                    assert(token_kind_matches(self.dialect, chars@, i as int, t));
                }
            } else if c == '[' {
                t = Token::LBracket;
                next_i = i + 1;
                proof {
                    assert(next_i as int == token_end(self.dialect, chars@, i as int));
                    assert(token_kind_matches(self.dialect, chars@, i as int, t));
                }
            } else if c == ']' {
                t = Token::RBracket;
                next_i = i + 1;
                proof {
                    assert(next_i as int == token_end(self.dialect, chars@, i as int));
                    assert(token_kind_matches(self.dialect, chars@, i as int, t));
                }
            } else {
                proof {
                    assert(token_end(self.dialect, chars@, i as int) == -1);
                    assert(!tokenizable_from(self.dialect, chars@, i as int));
                }
                return Result::Err(self.error_at("Unexpected character in input", line, col));
            }
            proof {
                if next_i == i + 1 {
                    assert(chars@.subrange(start, start + 1) =~= seq![chars@[start]]);
                }
                if next_i == i + 2 {
                    assert(chars@.subrange(start, start + 2) =~= seq![
                        chars@[start],
                        chars@[start + 1],
                    ]);
                }
                assert(token_text(t) == chars@.subrange(start, next_i as int));
                assert(next_i as int == token_end(self.dialect, chars@, start));
                lemma_tokens_match_span_push(self.dialect, chars@, 0, start, pre, t);
                assert(tokenizable_from(self.dialect, chars@, start) == tokenizable_from(
                    self.dialect,
                    chars@,
                    next_i as int,
                ));
                lemma_concat_snoc(pre, t);
                assert(chars@.subrange(0, next_i as int) =~= chars@.subrange(0, start)
                    + chars@.subrange(start, next_i as int));
            }
            tokens.push(t);
            // Advance the line and column counters over the consumed text.
            let mut k: usize = i;
            while k < next_i
                invariant
                    k <= next_i,
                    next_i <= len,
                    len == chars@.len(),
                decreases next_i - k,
            {
                if chars[k] == '\n' {
                    line = if line < u64::MAX {
                        line + 1
                    } else {
                        line
                    };
                    col = 1;
                } else {
                    col = if col < u64::MAX {
                        col + 1
                    } else {
                        col
                    };
                }
                k = k + 1;
            }
            i = next_i;
        }
        proof {
            assert(chars@.subrange(0, len as int) =~= chars@);
        }
        Result::Ok(tokens)
    }

    fn error_at(&self, message: &str, line: u64, col: u64) -> (r: TokenizerError)
        ensures
            r.message@ == message@,
            r.line == line,
            r.col == col,
    {
        let mut m = String::new();
        m.append(message);
        TokenizerError { message: m, line, col }
    }
}

/// How a token is shown inside error messages: its own text, except for the
/// fabricated end-of-input token.
pub open spec fn token_display(t: Token) -> Seq<char> {
    match t {
        Token::EOF => seq!['E', 'O', 'F'],
        _ => token_text(t),
    }
}

/// Renders one token back to text, for error messages.
pub fn token_to_string(t: &Token) -> (r: String)
    ensures
        r@ == token_display(*t),
{
    match t {
        Token::EOF => {
            let mut s = String::new();
            push_char(&mut s, 'E');
            push_char(&mut s, 'O');
            push_char(&mut s, 'F');
            proof {
                assert(s@ =~= seq!['E', 'O', 'F']);
            }
            s
        },
        Token::Word(w) => {
            match &w.quote_style {
                Option::None => {
                    let mut s = String::new();
                    s.append(w.value.as_str());
                    proof {
                        assert(s@ =~= w.value@);
                    }
                    s
                },
                Option::Some(q) => {
                    let mut s = String::new();
                    push_char(&mut s, *q);
                    s.append(w.value.as_str());
                    let close = if *q == '[' {
                        ']'
                    } else {
                        *q
                    };
                    push_char(&mut s, close);
                    proof {
                        assert(s@ =~= seq![*q] + w.value@ + seq![closing_quote_of(*q)]);
                    }
                    s
                },
            }
        },
        Token::Number(n) => {
            let mut s = String::new();
            s.append(n.as_str());
            proof {
                assert(s@ =~= n@);
            }
            s
        },
        Token::SingleQuotedString(v) => {
            let mut s = String::new();
            push_char(&mut s, '\'');
            let esc = crate::text::escape_quoted_string(v.as_str(), '\'');
            s.append(esc.as_str());
            push_char(&mut s, '\'');
            proof {
                assert(s@ =~= seq!['\''] + escaped(v@, '\'') + seq!['\'']);
            }
            s
        },
        Token::Neq(sp) => {
            let mut s = String::new();
            s.append(sp.as_str());
            proof {
                assert(s@ =~= sp@);
            }
            s
        },
        Token::Whitespace(w) => {
            match w {
                Whitespace::Space => char_token_string(' '),
                Whitespace::Newline => char_token_string('\n'),
                Whitespace::Tab => char_token_string('\t'),
                Whitespace::SingleLineComment { comment, prefix } => {
                    let mut s = String::new();
                    s.append(prefix.as_str());
                    s.append(comment.as_str());
                    proof {
                        assert(s@ =~= prefix@ + comment@);
                    }
                    s
                },
                Whitespace::MultiLineComment(body) => {
                    let mut s = String::new();
                    push_char(&mut s, '/');
                    push_char(&mut s, '*');
                    s.append(body.as_str());
                    push_char(&mut s, '*');
                    push_char(&mut s, '/');
                    proof {
                        assert(s@ =~= seq!['/', '*'] + body@ + seq!['*', '/']);
                    }
                    s
                },
            }
        },
        Token::Comma => char_token_string(','),
        Token::Eq => char_token_string('='),
        Token::Lt => char_token_string('<'),
        Token::Gt => char_token_string('>'),
        Token::LtEq => two_char_token_string('<', '='),
        Token::GtEq => two_char_token_string('>', '='),
        Token::Plus => char_token_string('+'),
        Token::Minus => char_token_string('-'),
        Token::Mul => char_token_string('*'),
        Token::Div => char_token_string('/'),
        Token::Mod => char_token_string('%'),
        Token::StringConcat => two_char_token_string('|', '|'),
        Token::LParen => char_token_string('('),
        Token::RParen => char_token_string(')'),
        Token::Period => char_token_string('.'),
        Token::SemiColon => char_token_string(';'),
        Token::Colon => char_token_string(':'),
        Token::DoubleColon => two_char_token_string(':', ':'),
        Token::Ampersand => char_token_string('&'),
        Token::Pipe => char_token_string('|'),
        Token::Caret => char_token_string('^'),
        Token::LBracket => char_token_string('['),
        Token::RBracket => char_token_string(']'),
    }
}

fn char_token_string(c: char) -> (r: String)
    ensures
        r@ == seq![c],
{
    let mut s = String::new();
    push_char(&mut s, c);
    proof {
        assert(s@ =~= seq![c]);
    }
    s
}

fn two_char_token_string(c: char, d: char) -> (r: String)
    ensures
        r@ == seq![c, d],
{
    let mut s = String::new();
    push_char(&mut s, c);
    push_char(&mut s, d);
    proof {
        assert(s@ =~= seq![c, d]);
    }
    s
}

} // verus!
