//! What the serializers promise about how their output is read back.
use vstd::prelude::*;

use crate::css::{decimal_text, is_exponent_like, numeric_css, signed_decimal_text, token_css, unit_css};
use crate::escape::{
    escape_char, escape_name, escape_name_char, escape_text, hex_digit, hex_escape, hex_text,
    is_ascii_digit, is_control, is_name_char, replace_nul, EscapeContext,
};
use crate::reading::{
    escaped_code_point, hex_digit_value, hex_number, is_hex_digit, is_name_start, is_newline,
    leading_hex_digits, read_escaped, reads_raw, starts_identifier, valid_escape_at,
};
use crate::serializer::{identifier_body, identifier_css};
use crate::token::{
    after_set_if_nothing, separator_needed, token_category, NumericValue, Token,
    TokenSerializationType, TokenSerializationTypeVariants,
};

verus! {

/// `Some(seq![c] + r)` when `read` is `Some(r)`, and `None` otherwise.
pub open spec fn read_after(c: char, read: Option<Seq<char>>) -> Option<Seq<char>> {
    match read {
        Some(r) => Some(seq![c] + r),
        None => None,
    }
}

/// The character CSS reads for `c` once it has been written escaped.
pub open spec fn nul_replaced(c: char) -> char {
    if c == '\0' {
        '\u{FFFD}'
    } else {
        c
    }
}

proof fn lemma_read_raw(ctx: EscapeContext, c: char, t: Seq<char>)
    requires
        reads_raw(ctx, c),
        c != '\\',
    ensures
        read_escaped(ctx, seq![c] + t) == read_after(c, read_escaped(ctx, t)),
{
    let s = seq![c] + t;
    assert(s.skip(1) =~= t);
}

proof fn lemma_read_backslash(ctx: EscapeContext, c: char, t: Seq<char>)
    requires
        !is_hex_digit(c),
        !is_newline(c),
    ensures
        read_escaped(ctx, seq!['\\', c] + t) == read_after(c, read_escaped(ctx, t)),
{
    let s = seq!['\\', c] + t;
    assert(s.skip(2) =~= t);
}

proof fn lemma_leading_hex_digits_of(h: Seq<char>, rest: Seq<char>, limit: nat)
    requires
        h.len() <= limit,
        forall|i: int| 0 <= i < h.len() ==> is_hex_digit(#[trigger] h[i]),
        rest.len() > 0,
        !is_hex_digit(rest[0]),
    ensures
        leading_hex_digits(h + rest, limit) == h.len(),
    decreases h.len(),
{
    if h.len() > 0 {
        assert((h + rest).drop_first() =~= h.drop_first() + rest);
        lemma_leading_hex_digits_of(h.drop_first(), rest, (limit - 1) as nat);
    }
}

proof fn lemma_read_hex_escape(ctx: EscapeContext, h: Seq<char>, t: Seq<char>)
    requires
        1 <= h.len() <= 6,
        forall|i: int| 0 <= i < h.len() ==> is_hex_digit(#[trigger] h[i]),
    ensures
        read_escaped(ctx, seq!['\\'] + h + seq![' '] + t) == read_after(
            escaped_code_point(hex_number(h)),
            read_escaped(ctx, t),
        ),
{
    let s = seq!['\\'] + h + seq![' '] + t;
    assert(s.skip(1) =~= h + (seq![' '] + t));
    lemma_leading_hex_digits_of(h, seq![' '] + t, 6);
    let n = h.len() as int;
    let after = s.skip(1 + n);
    assert(after.skip(1) =~= t);
    assert(s.subrange(1, 1 + n) =~= h);
}

proof fn lemma_hex_digit(d: nat, upper: bool)
    requires
        d < 16,
    ensures
        is_hex_digit(hex_digit(d, upper)),
        hex_digit_value(hex_digit(d, upper)) == d,
{
}

proof fn lemma_hex_number_single(d: char)
    ensures
        hex_number(seq![d]) == hex_digit_value(d),
{
    assert(seq![d].drop_last() =~= Seq::<char>::empty());
    assert(hex_number(Seq::<char>::empty()) == 0);
}

proof fn lemma_hex_number_pair(a: char, b: char)
    ensures
        hex_number(seq![a, b]) == hex_digit_value(a) * 16 + hex_digit_value(b),
{
    assert(seq![a, b].drop_last() =~= seq![a]);
    lemma_hex_number_single(a);
}

proof fn lemma_hex_text(n: nat, upper: bool)
    requires
        n < 256,
    ensures
        1 <= hex_text(n, upper).len() <= 2,
        forall|i: int|
            0 <= i < hex_text(n, upper).len() ==> is_hex_digit(#[trigger] hex_text(n, upper)[i]),
        hex_number(hex_text(n, upper)) == n,
{
    if n < 16 {
        lemma_hex_digit(n, upper);
        lemma_hex_number_single(hex_digit(n, upper));
    } else {
        lemma_hex_digit(n / 16, upper);
        lemma_hex_digit(n % 16, upper);
        let h = hex_text(n, upper);
        assert(hex_text(n / 16, upper) == seq![hex_digit(n / 16, upper)]);
        assert(h =~= seq![hex_digit(n / 16, upper), hex_digit(n % 16, upper)]);
        lemma_hex_number_pair(hex_digit(n / 16, upper), hex_digit(n % 16, upper));
    }
}

proof fn lemma_read_char_hex_escape(ctx: EscapeContext, c: char, upper: bool, t: Seq<char>)
    requires
        (c as u32) < 256,
    ensures
        read_escaped(ctx, hex_escape(c, upper) + t) == read_after(
            escaped_code_point(c as nat),
            read_escaped(ctx, t),
        ),
{
    lemma_hex_text(c as nat, upper);
    lemma_read_hex_escape(ctx, hex_text(c as nat, upper), t);
}

/// How one escaped character reads back, whatever follows it.
proof fn lemma_read_escaped_char(ctx: EscapeContext, c: char, t: Seq<char>)
    ensures
        read_escaped(ctx, escape_char(ctx, c) + t) == read_after(
            nul_replaced(c),
            read_escaped(ctx, t),
        ),
{
    let n = c as u32;
    match ctx {
        EscapeContext::Name => {
            if is_name_char(c) {
                lemma_read_raw(ctx, c, t);
            } else if c == '\0' {
                lemma_read_raw(ctx, '\u{FFFD}', t);
            } else if is_control(c) {
                lemma_read_char_hex_escape(ctx, c, false, t);
            } else {
                lemma_read_backslash(ctx, c, t);
            }
        },
        EscapeContext::QuotedString => {
            if c == '"' || c == '\\' {
                lemma_read_backslash(ctx, c, t);
            } else if c == '\n' {
                lemma_read_hex_escape(ctx, seq!['A'], t);
                lemma_hex_number_single('A');
                assert(seq!['\\', 'A', ' '] + t =~= seq!['\\'] + seq!['A'] + seq![' '] + t);
            } else if c == '\r' {
                lemma_read_hex_escape(ctx, seq!['D'], t);
                lemma_hex_number_single('D');
                assert(seq!['\\', 'D', ' '] + t =~= seq!['\\'] + seq!['D'] + seq![' '] + t);
            } else if c == '\0' {
                lemma_read_raw(ctx, '\u{FFFD}', t);
            } else if is_control(c) {
                lemma_read_char_hex_escape(ctx, c, false, t);
            } else {
                lemma_read_raw(ctx, c, t);
            }
        },
        EscapeContext::Url => {
            if n <= 0x20 || n == 0x7f {
                lemma_read_char_hex_escape(ctx, c, true, t);
            } else if c == '(' || c == ')' || c == '"' || c == '\'' || c == '\\' {
                lemma_read_backslash(ctx, c, t);
            } else {
                lemma_read_raw(ctx, c, t);
            }
        },
    }
}

/// Escaped text reads back as the original text, NUL read as U+FFFD: in a
/// name, inside a double-quoted string, and in an unquoted URL. In particular
/// the output holds nothing that would end the name, string or URL early.
pub proof fn law_escaped_text_reads_back(ctx: EscapeContext, s: Seq<char>)
    ensures
        read_escaped(ctx, escape_text(ctx, s)) == Some(replace_nul(s)),
    decreases s.len(),
{
    if s.len() > 0 {
        law_escaped_text_reads_back(ctx, s.drop_first());
        lemma_read_escaped_char(ctx, s[0], escape_text(ctx, s.drop_first()));
    }
}

/// Whether `s` begins like a name that may start an identifier: a name-start
/// character, or a valid escape.
pub open spec fn begins_name_start(s: Seq<char>) -> bool {
    s.len() > 0 && (is_name_start(s[0]) || valid_escape_at(s, 0))
}

proof fn lemma_identifier_body(w: Seq<char>)
    requires
        w.len() > 0,
        w[0] != '-',
    ensures
        read_escaped(EscapeContext::Name, identifier_body(w)) == Some(replace_nul(w)),
        begins_name_start(identifier_body(w)),
{
    let rest = w.skip(1);
    law_escaped_text_reads_back(EscapeContext::Name, rest);
    let tail = escape_name(rest);
    if is_ascii_digit(w[0]) {
        let h = seq!['3', w[0]];
        lemma_read_hex_escape(EscapeContext::Name, h, tail);
        lemma_hex_number_pair('3', w[0]);
        assert(identifier_body(w) =~= seq!['\\'] + h + seq![' '] + tail);
    } else {
        lemma_read_escaped_char(EscapeContext::Name, w[0], tail);
        if is_control(w[0]) {
            // the escape starts with a hex digit, not a newline
            lemma_hex_text(w[0] as nat, false);
        }
    }
}

/// A serialized identifier reads back as the original value (NUL read as
/// U+FFFD), and, when the value is not empty, it starts an identifier: the
/// output is read as one identifier token with that value.
pub proof fn law_identifier_reads_back(v: Seq<char>)
    ensures
        read_escaped(EscapeContext::Name, identifier_css(v)) == Some(replace_nul(v)),
        v.len() > 0 ==> starts_identifier(identifier_css(v)),
{
    let out = identifier_css(v);
    if v.len() == 0 {
        // nothing is written
    } else if v.len() >= 2 && v[0] == '-' && v[1] == '-' {
        let tail = escape_name(v.skip(2));
        law_escaped_text_reads_back(EscapeContext::Name, v.skip(2));
        lemma_read_raw(EscapeContext::Name, '-', tail);
        lemma_read_raw(EscapeContext::Name, '-', seq!['-'] + tail);
        assert(out =~= seq!['-'] + (seq!['-'] + tail));
    } else if v.len() == 1 && v[0] == '-' {
        lemma_read_backslash(EscapeContext::Name, '-', Seq::empty());
    } else if v[0] == '-' {
        let w = v.skip(1);
        lemma_identifier_body(w);
        lemma_read_raw(EscapeContext::Name, '-', identifier_body(w));
    } else {
        lemma_identifier_body(v);
    }
}

/// The absence of a token never needs a separator, before or after any
/// token category.
pub proof fn law_nothing_needs_no_separator(t: TokenSerializationTypeVariants)
    ensures
        !separator_needed(TokenSerializationTypeVariants::Nothing, t),
        !separator_needed(t, TokenSerializationTypeVariants::Nothing),
{
}

/// Whitespace already separates: no separator is needed before or after it.
pub proof fn law_whitespace_needs_no_separator(t: TokenSerializationTypeVariants)
    ensures
        !separator_needed(TokenSerializationTypeVariants::WhiteSpace, t),
        !separator_needed(t, TokenSerializationTypeVariants::WhiteSpace),
{
}

/// `set_if_nothing` keeps the first category that is not `nothing()`: setting
/// `b` then `c` gives what setting the result of `b.set_if_nothing(c)` gives,
/// and `nothing()` changes nothing on either side.
pub proof fn law_set_if_nothing_keeps_first(
    a: TokenSerializationType,
    b: TokenSerializationType,
    c: TokenSerializationType,
)
    ensures
        after_set_if_nothing(after_set_if_nothing(a, b), c) == after_set_if_nothing(
            a,
            after_set_if_nothing(b, c),
        ),
        after_set_if_nothing(
            TokenSerializationType(TokenSerializationTypeVariants::Nothing),
            b,
        ) == b,
        after_set_if_nothing(a, TokenSerializationType(TokenSerializationTypeVariants::Nothing))
            == a,
        a.0 != TokenSerializationTypeVariants::Nothing ==> after_set_if_nothing(a, b) == a,
{
}

/// Whether `s` starts with what CSS would read as the exponent of a number
/// written just before it: `e` or `E`, then a digit, or a sign and a digit.
pub open spec fn starts_exponent(s: Seq<char>) -> bool {
    &&& s.len() >= 2
    &&& (s[0] == 'e' || s[0] == 'E')
    &&& (is_ascii_digit(s[1]) || ((s[1] == '+' || s[1] == '-') && s.len() >= 3 && is_ascii_digit(
        s[2],
    )))
}

/// The unit of a dimension is never written so that it would read as the
/// exponent of its number, for every unit that does not itself start with `e`
/// or `E` followed by a digit.
pub proof fn law_unit_not_read_as_exponent(unit: Seq<char>)
    requires
        !(unit.len() >= 2 && (unit[0] == 'e' || unit[0] == 'E') && is_ascii_digit(unit[1])),
    ensures
        !starts_exponent(unit_css(unit)),
{
    let out = unit_css(unit);
    if is_exponent_like(unit) {
        assert(out[0] == '\\') by {
            reveal_strlit("\\65 ");
        }
    } else if unit.len() > 0 && unit[0] != '-' && !is_ascii_digit(unit[0]) {
        // The identifier is written as a name; otherwise it starts with `-`
        // or `\`.
        assert(out == escape_name_char(unit[0]) + escape_name(unit.drop_first()));
        assert(out[0] == escape_name_char(unit[0])[0]);
    }
}

/// A number's text is its decimal text, with a `+` before it only when the
/// source had an explicit sign and the value is positive, and `.0` after it
/// only when the value is integral but was not written as an integer. `-0` is
/// written for a negative zero and only for it.
pub proof fn law_number_text(v: NumericValue)
    ensures
        !v.is_zero ==> numeric_css(v) == (if v.has_sign && v.sign_positive {
            seq!['+']
        } else {
            Seq::empty()
        }) + v.text@ + (if v.int_value is None && v.is_integral {
            seq!['.', '0']
        } else {
            Seq::empty()
        }),
        !v.sign_positive ==> numeric_css(v) == (if v.is_zero {
            seq!['-', '0']
        } else {
            v.text@
        }) + (if v.int_value is None && v.is_integral {
            seq!['.', '0']
        } else {
            Seq::empty()
        }),
{
}

/// A percentage is written as its number would be as a `Number` token,
/// followed by `%`; a dimension as its number followed by its unit.
pub proof fn law_percentage_and_dimension_follow_number(v: NumericValue, unit: String)
    ensures
        token_css(Token::Percentage(v)) == token_css(Token::Number(v)) + seq!['%'],
        token_css(Token::Dimension(v, unit)) == token_css(Token::Number(v)) + unit_css(unit@),
{
    reveal_strlit("%");
}

/// The decimal value of a run of ASCII digits.
pub open spec fn digits_value(s: Seq<char>) -> int
    decreases s.len(),
{
    if s.len() == 0 {
        0
    } else {
        digits_value(s.drop_last()) * 10 + (s.last() as int - 48)
    }
}

/// `n` is written with at least one digit, only digits, no leading zero
/// unless `n` is zero, and the digits spell `n`.
pub proof fn law_decimal_text_reads_back(n: nat)
    ensures
        decimal_text(n).len() > 0,
        forall|k: int| 0 <= k < decimal_text(n).len() ==> is_ascii_digit(#[trigger] decimal_text(n)[k]),
        n > 0 ==> decimal_text(n)[0] != '0',
        digits_value(decimal_text(n)) == n,
    decreases n,
{
    let t = decimal_text(n);
    if n < 10 {
        assert(t.drop_last() =~= Seq::<char>::empty());
        assert(digits_value(Seq::<char>::empty()) == 0);
        assert(t.last() as int == n + 48);
    } else {
        law_decimal_text_reads_back(n / 10);
        let d = decimal_text(n / 10);
        assert(t.drop_last() =~= d);
        assert(t[0] == d[0]);
        assert(t.last() as int == n % 10 + 48);
        assert(digits_value(t) == (n / 10) * 10 + n % 10);
        assert forall|k: int| 0 <= k < t.len() implies is_ascii_digit(#[trigger] t[k]) by {
            if k < d.len() {
                assert(t[k] == d[k]);
            }
        }
    }
}

/// An integer is written as the decimal digits of its magnitude, with a `-`
/// before them exactly when it is negative: never empty, and zero is `0`.
pub proof fn law_integer_text_reads_back(i: int)
    ensures
        signed_decimal_text(i).len() > 0,
        (signed_decimal_text(i)[0] == '-') == (i < 0),
        i < 0 ==> signed_decimal_text(i) == seq!['-'] + decimal_text((-i) as nat),
        i >= 0 ==> signed_decimal_text(i) == decimal_text(i as nat),
        i >= 0 ==> digits_value(signed_decimal_text(i)) == i,
        i < 0 ==> digits_value(signed_decimal_text(i).skip(1)) == -i,
        i == 0 ==> signed_decimal_text(i) == seq!['0'],
{
    if i < 0 {
        law_decimal_text_reads_back((-i) as nat);
        assert((seq!['-'] + decimal_text((-i) as nat)).skip(1) =~= decimal_text((-i) as nat));
    } else {
        law_decimal_text_reads_back(i as nat);
    }
}

/// Tokens whose text can be continued by a name character or a digit into a
/// longer token: identifiers, at-keywords, hashes, numbers, dimensions, and the
/// delimiters `-` and `#`.
pub open spec fn continues_with_name(t: Token) -> bool {
    ||| t is Ident
    ||| t is AtKeyword
    ||| t is Hash
    ||| t is IDHash
    ||| t is Number
    ||| t is Dimension
    ||| (t matches Token::Delim(c) && (c == '-' || c == '#'))
}

/// Tokens whose text starts with a name character, a digit or a sign that
/// would join the token before: identifiers, functions, URLs, numbers,
/// percentages, dimensions, and the delimiter `-`.
pub open spec fn starts_like_name(t: Token) -> bool {
    ||| t is Ident
    ||| t is Function
    ||| t is UnquotedUrl
    ||| t is BadUrl
    ||| t is Number
    ||| t is Percentage
    ||| t is Dimension
    ||| (t matches Token::Delim(c) && c == '-')
}

/// Written next to each other, a token that a name can continue and a token
/// that starts like a name would be read as one token: a separator is needed
/// between them (so `1` then `a` is not read as the dimension `1a`, and `#foo`
/// then `bar` is not read as `#foobar`).
pub proof fn law_separator_between_name_parts(a: Token, b: Token)
    requires
        continues_with_name(a),
        starts_like_name(b),
    ensures
        separator_needed(token_category(a), token_category(b)),
{
}

/// Hashes, ID hashes and at-keywords share one category.
pub proof fn law_hash_tokens_share_category(x: String, y: String, z: String)
    ensures
        token_category(Token::Hash(x)) == token_category(Token::IDHash(y)),
        token_category(Token::IDHash(y)) == token_category(Token::AtKeyword(z)),
        token_category(Token::Hash(x)) != token_category(Token::Colon),
{
}

/// Tokens that end with punctuation which nothing can extend never need a
/// separator after them.
pub proof fn law_no_separator_after_closing_punctuation(a: Token, b: Token)
    requires
        a is Colon || a is Semicolon || a is Comma || a is CloseParenthesis
            || a is CloseSquareBracket || a is CloseCurlyBracket || a is QuotedString,
    ensures
        !separator_needed(token_category(a), token_category(b)),
{
}

} // verus!
