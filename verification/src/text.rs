//! Small verified helpers for building and comparing the strings that the
//! tokenizer, the renderer and the error messages are made of.
use vstd::calc;
use vstd::prelude::*;

verus! {

/// Relies on String::push: appends one character at the end of the string.
#[verifier::external_body]
pub fn push_char(s: &mut String, c: char)
    ensures
        final(s)@ == old(s)@.push(c),
{
    s.push(c);
}

/// Relies on str's PartialEq: two string slices are equal exactly when their
/// character sequences are equal.
#[verifier::external_body]
pub fn str_eq(a: &str, b: &str) -> (r: bool)
    ensures
        r == (a@ == b@),
{
    a == b
}

/// The uppercase form of an ASCII letter; any other character is unchanged.
pub open spec fn spec_upper(c: char) -> char {
    if 'a' <= c && c <= 'z' {
        (((c as u8) - 32) as char)
    } else {
        c
    }
}

pub fn upper_char(c: char) -> (r: char)
    ensures
        r == spec_upper(c),
{
    if 'a' <= c && c <= 'z' {
        ((c as u8) - 32) as char
    } else {
        c
    }
}

/// A word mapped character by character to its ASCII uppercase form.
pub open spec fn spec_upper_seq(s: Seq<char>) -> Seq<char> {
    s.map_values(|c: char| spec_upper(c))
}

pub fn to_ascii_uppercase(s: &str) -> (r: String)
    ensures
        r@ == spec_upper_seq(s@),
{
    let n = s.unicode_len();
    let mut out = String::new();
    let mut i: usize = 0;
    while i < n
        invariant
            i <= n,
            n == s@.len(),
            out@ == spec_upper_seq(s@.subrange(0, i as int)),
        decreases n - i,
    {
        let c = s.get_char(i);
        push_char(&mut out, upper_char(c));
        proof {
            assert(s@.subrange(0, i + 1int).map_values(|ch: char| spec_upper(ch)) =~= s@.subrange(
                0,
                i as int,
            ).map_values(|ch: char| spec_upper(ch)).push(spec_upper(s@[i as int])));
        }
        i = i + 1;
    }
    proof {
        assert(s@.subrange(0, n as int) =~= s@);
    }
    out
}

/// The decimal digit characters zero through nine.
pub open spec fn dec_digit(d: nat) -> char {
    if d == 0 {
        '0'
    } else if d == 1 {
        '1'
    } else if d == 2 {
        '2'
    } else if d == 3 {
        '3'
    } else if d == 4 {
        '4'
    } else if d == 5 {
        '5'
    } else if d == 6 {
        '6'
    } else if d == 7 {
        '7'
    } else if d == 8 {
        '8'
    } else {
        '9'
    }
}

/// The usual decimal rendering of a natural number, most significant digit
/// first and without leading zeros (except for zero itself).
pub open spec fn dec_rep(n: nat) -> Seq<char>
    decreases n,
{
    if n < 10 {
        seq![dec_digit(n)]
    } else {
        dec_rep(n / 10).push(dec_digit(n % 10))
    }
}

fn dec_digit_char(d: u64) -> (c: char)
    requires
        d < 10,
    ensures
        c == dec_digit(d as nat),
{
    if d == 0 {
        '0'
    } else if d == 1 {
        '1'
    } else if d == 2 {
        '2'
    } else if d == 3 {
        '3'
    } else if d == 4 {
        '4'
    } else if d == 5 {
        '5'
    } else if d == 6 {
        '6'
    } else if d == 7 {
        '7'
    } else if d == 8 {
        '8'
    } else {
        '9'
    }
}

pub fn u64_to_string(n: u64) -> (r: String)
    ensures
        r@ == dec_rep(n as nat),
    decreases n,
{
    if n < 10 {
        let mut s = String::new();
        push_char(&mut s, dec_digit_char(n));
        s
    } else {
        let mut s = u64_to_string(n / 10);
        push_char(&mut s, dec_digit_char(n % 10));
        s
    }
}

/// A quoted chunk of text with every occurrence of the quote character
/// doubled, as SQL requires inside string literals and quoted identifiers.
pub open spec fn escaped(s: Seq<char>, q: char) -> Seq<char>
    decreases s.len(),
{
    if s.len() == 0 {
        Seq::<char>::empty()
    } else {
        (if s[0] == q {
            seq![q, q]
        } else {
            seq![s[0]]
        }) + escaped(s.drop_first(), q)
    }
}

pub proof fn lemma_escaped_push(s: Seq<char>, c: char, q: char)
    ensures
        escaped(s.push(c), q) == escaped(s, q) + (if c == q {
            seq![q, q]
        } else {
            seq![c]
        }),
    decreases s.len(),
{
    let tail: Seq<char> = if c == q {
        seq![q, q]
    } else {
        seq![c]
    };
    if s.len() == 0 {
        assert(s.push(c)[0] == c);
        assert(s.push(c).drop_first() =~= Seq::<char>::empty());
        assert(escaped(s.push(c).drop_first(), q) == Seq::<char>::empty());
        assert(escaped(s.push(c), q) == tail + Seq::<char>::empty());
        assert(tail + Seq::<char>::empty() =~= tail);
        assert(escaped(s, q) + tail =~= tail);
        assert(escaped(s.push(c), q) =~= escaped(s, q) + tail);
    } else {
        let head: Seq<char> = if s[0] == q {
            seq![q, q]
        } else {
            seq![s[0]]
        };
        assert(s.push(c).drop_first() =~= s.drop_first().push(c));
        lemma_escaped_push(s.drop_first(), c, q);
        assert(s.push(c)[0] == s[0]);
        calc! {
            (==)
            escaped(s.push(c), q); {}
            head + escaped(s.drop_first().push(c), q); {}
            head + (escaped(s.drop_first(), q) + tail); {
                assert(head + (escaped(s.drop_first(), q) + tail) =~= (head + escaped(
                    s.drop_first(),
                    q,
                )) + tail);
            }
            (head + escaped(s.drop_first(), q)) + tail; {}
            escaped(s, q) + tail;
        }
    }
}

pub fn escape_quoted_string(value: &str, q: char) -> (r: String)
    ensures
        r@ == escaped(value@, q),
{
    let n = value.unicode_len();
    let mut out = String::new();
    let mut i: usize = 0;
    while i < n
        invariant
            i <= n,
            n == value@.len(),
            out@ == escaped(value@.subrange(0, i as int), q),
        decreases n - i,
    {
        let c = value.get_char(i);
        if c == q {
            push_char(&mut out, q);
            push_char(&mut out, q);
        } else {
            push_char(&mut out, c);
        }
        proof {
            assert(value@.subrange(0, i + 1int) =~= value@.subrange(0, i as int).push(
                value@[i as int],
            ));
            lemma_escaped_push(value@.subrange(0, i as int), value@[i as int], q);
        }
        i = i + 1;
    }
    proof {
        assert(value@.subrange(0, n as int) =~= value@);
    }
    out
}

/// The given pieces of text laid end to end with the separator between
/// consecutive pieces.
pub open spec fn joined(parts: Seq<Seq<char>>, sep: Seq<char>) -> Seq<char>
    decreases parts.len(),
{
    if parts.len() == 0 {
        Seq::<char>::empty()
    } else if parts.len() == 1 {
        parts[0]
    } else {
        parts[0] + sep + joined(parts.drop_first(), sep)
    }
}

pub proof fn lemma_joined_push(parts: Seq<Seq<char>>, x: Seq<char>, sep: Seq<char>)
    requires
        parts.len() >= 1,
    ensures
        joined(parts.push(x), sep) == joined(parts, sep) + sep + x,
    decreases parts.len(),
{
    if parts.len() == 1 {
        assert(parts.push(x)[0] == parts[0]);
        assert(parts.push(x).drop_first() =~= seq![x]);
        assert(joined(seq![x], sep) == x);
        assert(joined(parts.push(x), sep) =~= joined(parts, sep) + sep + x);
    } else {
        assert(parts.push(x).drop_first() =~= parts.drop_first().push(x));
        lemma_joined_push(parts.drop_first(), x, sep);
        assert(parts.push(x)[0] == parts[0]);
        calc! {
            (==)
            joined(parts.push(x), sep); {}
            parts[0] + sep + joined(parts.drop_first().push(x), sep); {}
            parts[0] + sep + (joined(parts.drop_first(), sep) + sep + x); {
                assert(parts[0] + sep + (joined(parts.drop_first(), sep) + sep + x) =~= (parts[0]
                    + sep + joined(parts.drop_first(), sep)) + sep + x);
            }
            (parts[0] + sep + joined(parts.drop_first(), sep)) + sep + x; {}
            joined(parts, sep) + sep + x;
        }
    }
}

/// The character sequences held by a vector of strings.
pub open spec fn views_of(parts: Seq<String>) -> Seq<Seq<char>> {
    parts.map_values(|p: String| p@)
}

/// Joins already rendered pieces with an arbitrary separator.
pub fn display_separated(parts: &Vec<String>, sep: &str) -> (r: String)
    ensures
        r@ == joined(views_of(parts@), sep@),
{
    let mut out = String::new();
    let mut i: usize = 0;
    while i < parts.len()
        invariant
            i <= parts@.len(),
            out@ == joined(views_of(parts@.subrange(0, i as int)), sep@),
        decreases parts@.len() - i,
    {
        if i > 0 {
            out.append(sep);
        }
        out.append(parts[i].as_str());
        proof {
            let prev = views_of(parts@.subrange(0, i as int));
            assert(views_of(parts@.subrange(0, i + 1int)) =~= prev.push(parts@[i as int]@));
            if i > 0 {
                lemma_joined_push(prev, parts@[i as int]@, sep@);
            } else {
                assert(joined(prev.push(parts@[i as int]@), sep@) =~= parts@[i as int]@);
            }
        }
        i = i + 1;
    }
    proof {
        assert(parts@.subrange(0, parts@.len() as int) =~= parts@);
    }
    out
}

/// Joins already rendered pieces with a comma and a space, the layout used
/// for most SQL lists.
pub fn display_comma_separated(parts: &Vec<String>) -> (r: String)
    ensures
        r@ == joined(views_of(parts@), ", "@),
{
    display_separated(parts, ", ")
}

/// Whether every character of the text is a decimal digit.
pub open spec fn all_dec_digits(s: Seq<char>) -> bool {
    forall|i: int| 0 <= i < s.len() ==> '0' <= #[trigger] s[i] <= '9'
}

/// The numeric value of one digit character.
pub open spec fn digit_val(c: char) -> nat {
    if '0' <= c && c <= '9' {
        (c as int - '0' as int) as nat
    } else {
        0
    }
}

/// The value of a string of decimal digits, most significant first.
pub open spec fn dec_value(s: Seq<char>) -> nat
    decreases s.len(),
{
    if s.len() == 0 {
        0
    } else {
        dec_value(s.drop_last()) * 10 + digit_val(s.last())
    }
}

/// A prefix of a digit string never exceeds the whole string's value.
pub proof fn lemma_dec_value_take(s: Seq<char>, k: int)
    requires
        0 <= k <= s.len(),
    ensures
        dec_value(s.take(k)) <= dec_value(s),
    decreases s.len(),
{
    if k == s.len() {
        assert(s.take(k) =~= s);
    } else {
        assert(s.drop_last().take(k) =~= s.take(k));
        lemma_dec_value_take(s.drop_last(), k);
        assert(dec_value(s) == dec_value(s.drop_last()) * 10 + digit_val(s.last()));
        assert(dec_value(s.drop_last()) * 10 >= dec_value(s.drop_last()));
    }
}

/// Reads the value of a string of decimal digits; refused when the string is
/// empty, holds a non-digit, or its value does not fit.
pub fn parse_dec_u64(s: &str) -> (r: Option<u64>)
    ensures
        r matches Some(v) ==> all_dec_digits(s@) && s@.len() >= 1 && v as nat == dec_value(s@),
        r is Some <==> (all_dec_digits(s@) && s@.len() >= 1 && dec_value(s@) <= u64::MAX),
{
    let n = s.unicode_len();
    if n == 0 {
        return Option::None;
    }
    let mut acc: u64 = 0;
    let mut i: usize = 0;
    proof {
        assert(s@.subrange(0, 0) =~= Seq::<char>::empty());
    }
    while i < n
        invariant
            i <= n,
            1 <= n,
            n == s@.len(),
            acc as nat == dec_value(s@.subrange(0, i as int)),
            all_dec_digits(s@.subrange(0, i as int)),
        decreases n - i,
    {
        let c = s.get_char(i);
        if !('0' <= c && c <= '9') {
            proof {
                assert(!('0' <= s@[i as int] && s@[i as int] <= '9'));
            }
            return Option::None;
        }
        let d = (c as u32 - 48) as u64;
        let limit = (u64::MAX - d) / 10;
        proof {
            assert(s@.subrange(0, i + 1int).drop_last() =~= s@.subrange(0, i as int));
            assert(s@.subrange(0, i + 1int).last() == s@[i as int]);
        }
        if acc > limit {
            proof {
                assert(dec_value(s@.subrange(0, i + 1int)) == acc as nat * 10 + d);
                assert(acc as nat * 10 + d > u64::MAX);
                lemma_dec_value_take(s@, i + 1int);
                assert(s@.take(i + 1int) =~= s@.subrange(0, i + 1int));
            }
            return Option::None;
        }
        proof {
            assert(acc as nat * 10 + d <= u64::MAX);
        }
        acc = acc * 10 + d;
        proof {
            let post = s@.subrange(0, i + 1int);
            assert(forall|k: int| 0 <= k < post.len() ==> '0' <= #[trigger] post[k] <= '9');
        }
        i = i + 1;
    }
    proof {
        assert(s@.subrange(0, n as int) =~= s@);
    }
    Option::Some(acc)
}
/// Rendering a number and reading it back returns the same number: the
/// decimal representation and the decimal value are mutual inverses.
pub proof fn lemma_dec_round_trip(n: nat)
    ensures
        dec_value(dec_rep(n)) == n,
    decreases n,
{
    if n < 10 {
        assert(dec_rep(n) == seq![dec_digit(n)]);
        assert(seq![dec_digit(n)].drop_last() =~= Seq::<char>::empty());
        assert(seq![dec_digit(n)].last() == dec_digit(n));
        assert(dec_value(Seq::<char>::empty()) == 0);
        assert(dec_value(seq![dec_digit(n)]) == 0 * 10 + digit_val(dec_digit(n)));
        assert(digit_val(dec_digit(n)) == n);
    } else {
        lemma_dec_round_trip(n / 10);
        assert(dec_rep(n).drop_last() =~= dec_rep(n / 10));
        assert(dec_rep(n).last() == dec_digit(n % 10));
        assert(digit_val(dec_digit(n % 10)) == n % 10);
        assert(dec_value(dec_rep(n)) == dec_value(dec_rep(n / 10)) * 10 + n % 10);
    }
}

/// The inverse of [`escaped`]: collapses each doubled quote character back
/// to a single one.
pub open spec fn unescaped(s: Seq<char>, q: char) -> Seq<char>
    decreases s.len(),
{
    if s.len() == 0 {
        Seq::<char>::empty()
    } else if s[0] == q && s.len() >= 2 && s[1] == q {
        seq![q] + unescaped(s.skip(2), q)
    } else {
        seq![s[0]] + unescaped(s.drop_first(), q)
    }
}

/// Quoted-text fidelity: doubling the quote characters of a chunk of text
/// and collapsing them again returns the original text, so a value carried
/// inside a quoted identifier or string literal is never changed by the
/// escaping.
pub proof fn lemma_unescape_escape(s: Seq<char>, q: char)
    ensures
        unescaped(escaped(s, q), q) == s,
    decreases s.len(),
{
    if s.len() == 0 {
    } else {
        lemma_unescape_escape(s.drop_first(), q);
        let e = escaped(s.drop_first(), q);
        if s[0] == q {
            let w = seq![q, q] + e;
            assert(escaped(s, q) == w);
            assert(w[0] == q);
            assert(w.len() >= 2);
            assert(w[1] == q);
            assert(w.skip(2) =~= e);
            assert(unescaped(w, q) == seq![q] + unescaped(e, q));
            assert(seq![q] + s.drop_first() =~= s);
        } else {
            let w = seq![s[0]] + e;
            assert(escaped(s, q) == w);
            assert(w[0] == s[0]);
            if w.len() >= 2 && w[0] == q && w[1] == q {
                assert(false);
            }
            assert(w.drop_first() =~= e);
            assert(unescaped(w, q) == seq![s[0]] + unescaped(e, q));
            assert(seq![s[0]] + s.drop_first() =~= s);
        }
    }
}
} // verus!
