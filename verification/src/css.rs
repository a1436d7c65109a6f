//! The `ToCss` trait, and the serialization of tokens and numbers.
use vstd::prelude::*;
use vstd::string::*;

use crate::escape::{escape_name, escape_string, escape_url, hex_digit, hex_digit_char, string_push};
use crate::serializer::{
    identifier_css, serialize_identifier, serialize_name, serialize_string,
    serialize_unquoted_url,
};
use crate::token::{NumericValue, Token};

verus! {

broadcast use vstd::string::group_string_axioms;

/// Trait for things that can serialize themselves in CSS syntax.
pub trait ToCss {
    /// The CSS text of `self`.
    spec fn css_text(&self) -> Seq<char>;

    /// Serialize `self` in CSS syntax, appending to `dest`.
    fn to_css(&self, dest: &mut String)
        ensures
            final(dest)@ == old(dest)@ + self.css_text(),
    ;

    /// Serialize `self` in CSS syntax and return a string.
    ///
    /// (This is a convenience wrapper for `to_css` and probably should not be overridden.)
    fn to_css_string(&self) -> (s: String)
        ensures
            s@ == self.css_text(),
    {
        let mut s = String::new();
        self.to_css(&mut s);
        s
    }

    /// Serialize `self` in CSS syntax, for use from a `Display` impl.
    ///
    /// (This is a convenience wrapper for `to_css` and probably should not be overridden.)
    fn fmt_to_css(&self, dest: &mut String)
        ensures
            final(dest)@ == old(dest)@ + self.css_text(),
    {
        self.to_css(dest)
    }
}

/// The text of a number: an explicit `+` where the source had one, `-0` for
/// negative zero, and `.0` after an integral value that was not written as an
/// integer.
pub open spec fn numeric_css(value: NumericValue) -> Seq<char> {
    (if value.has_sign && value.sign_positive {
        seq!['+']
    } else {
        Seq::empty()
    }) + (if value.is_zero && !value.sign_positive {
        seq!['-', '0']
    } else {
        value.text@
    }) + (if value.int_value is None && value.is_integral {
        seq!['.', '0']
    } else {
        Seq::empty()
    })
}

/// Writes a number as `numeric_css` describes.
pub fn write_numeric(value: &NumericValue, dest: &mut String)
    ensures
        final(dest)@ == old(dest)@ + numeric_css(*value),
{
    if value.has_sign && value.sign_positive {
        string_push(dest, '+');
    }
    if value.is_zero && !value.sign_positive {
        string_push(dest, '-');
        string_push(dest, '0');
    } else {
        dest.append(value.text.as_str());
    }
    if value.int_value.is_none() && value.is_integral {
        string_push(dest, '.');
        string_push(dest, '0');
    }
}

/// Whether a dimension's unit would read as the exponent of the number before
/// it: `e`, `E`, or a unit starting with `e-` or `E-`.
pub open spec fn is_exponent_like(unit: Seq<char>) -> bool {
    &&& unit.len() >= 1
    &&& (unit[0] == 'e' || unit[0] == 'E')
    &&& (unit.len() == 1 || unit[1] == '-')
}

/// The text of a dimension's unit: one that would read as an exponent starts
/// with an escaped `e`.
pub open spec fn unit_css(unit: Seq<char>) -> Seq<char> {
    if is_exponent_like(unit) {
        "\\65 "@ + escape_name(unit.skip(1))
    } else {
        identifier_css(unit)
    }
}

/// The text `Token::to_css` writes for a token.
pub open spec fn token_css(token: Token) -> Seq<char> {
    match token {
        Token::Ident(value) => identifier_css(value@),
        Token::AtKeyword(value) => "@"@ + identifier_css(value@),
        Token::Hash(value) => "#"@ + escape_name(value@),
        Token::IDHash(value) => "#"@ + identifier_css(value@),
        Token::QuotedString(value) => seq!['"'] + escape_string(value@) + seq!['"'],
        Token::UnquotedUrl(value) => "url("@ + escape_url(value@) + ")"@,
        Token::Delim(c) => seq![c],
        Token::Number(value) => numeric_css(value),
        Token::Percentage(value) => numeric_css(value) + "%"@,
        Token::Dimension(value, unit) => numeric_css(value) + unit_css(unit@),
        Token::WhiteSpace(content) => content@,
        Token::Comment(content) => "/*"@ + content@ + "*/"@,
        Token::Colon => ":"@,
        Token::Semicolon => ";"@,
        Token::Comma => ","@,
        Token::IncludeMatch => "~="@,
        Token::DashMatch => "|="@,
        Token::PrefixMatch => "^="@,
        Token::SuffixMatch => "$="@,
        Token::SubstringMatch => "*="@,
        Token::Column => "||"@,
        Token::CDO => "<!--"@,
        Token::CDC => "-->"@,
        Token::Function(name) => identifier_css(name@) + "("@,
        Token::ParenthesisBlock => "("@,
        Token::SquareBracketBlock => "["@,
        Token::CurlyBracketBlock => "{"@,
        Token::BadUrl => "url(<bad url>)"@,
        Token::BadString => "\"<bad string>\n"@,
        Token::CloseParenthesis => ")"@,
        Token::CloseSquareBracket => "]"@,
        Token::CloseCurlyBracket => "}"@,
    }
}

/// Writes a dimension's unit as `unit_css` describes.
fn write_unit(unit: &str, dest: &mut String)
    ensures
        final(dest)@ == old(dest)@ + unit_css(unit@),
{
    let len = unit.unicode_len();
    let exponent_like = len >= 1 && {
        let first = unit.get_char(0);
        (first == 'e' || first == 'E') && (len == 1 || unit.get_char(1) == '-')
    };
    if exponent_like {
        dest.append("\\65 ");
        let rest = unit.substring_char(1, len);
        serialize_name(rest, dest);
    } else {
        serialize_identifier(unit, dest);
    }
}

impl<'a> ToCss for Token<'a> {
    open spec fn css_text(&self) -> Seq<char> {
        token_css(*self)
    }

    fn to_css(&self, dest: &mut String) {
        match self {
            Token::Ident(value) => serialize_identifier(value.as_str(), dest),
            Token::AtKeyword(value) => {
                dest.append("@");
                serialize_identifier(value.as_str(), dest);
            },
            Token::Hash(value) => {
                dest.append("#");
                serialize_name(value.as_str(), dest);
            },
            Token::IDHash(value) => {
                dest.append("#");
                serialize_identifier(value.as_str(), dest);
            },
            Token::QuotedString(value) => serialize_string(value.as_str(), dest),
            Token::UnquotedUrl(value) => {
                dest.append("url(");
                serialize_unquoted_url(value.as_str(), dest);
                dest.append(")");
            },
            Token::Delim(value) => string_push(dest, *value),
            Token::Number(value) => write_numeric(value, dest),
            Token::Percentage(value) => {
                write_numeric(value, dest);
                dest.append("%");
            },
            Token::Dimension(value, unit) => {
                write_numeric(value, dest);
                // Disambiguate with scientific notation.
                write_unit(unit.as_str(), dest);
            },
            Token::WhiteSpace(content) => dest.append(content),
            Token::Comment(content) => {
                dest.append("/*");
                dest.append(content);
                dest.append("*/");
            },
            Token::Colon => dest.append(":"),
            Token::Semicolon => dest.append(";"),
            Token::Comma => dest.append(","),
            Token::IncludeMatch => dest.append("~="),
            Token::DashMatch => dest.append("|="),
            Token::PrefixMatch => dest.append("^="),
            Token::SuffixMatch => dest.append("$="),
            Token::SubstringMatch => dest.append("*="),
            Token::Column => dest.append("||"),
            Token::CDO => dest.append("<!--"),
            Token::CDC => dest.append("-->"),
            Token::Function(name) => {
                serialize_identifier(name.as_str(), dest);
                dest.append("(");
            },
            Token::ParenthesisBlock => dest.append("("),
            Token::SquareBracketBlock => dest.append("["),
            Token::CurlyBracketBlock => dest.append("{"),
            Token::BadUrl => dest.append("url(<bad url>)"),
            Token::BadString => dest.append("\"<bad string>\n"),
            Token::CloseParenthesis => dest.append(")"),
            Token::CloseSquareBracket => dest.append("]"),
            Token::CloseCurlyBracket => dest.append("}"),
        }
    }
}

/// `n` in decimal without leading zeros.
pub open spec fn decimal_text(n: nat) -> Seq<char>
    decreases n,
{
    if n < 10 {
        seq![hex_digit(n, false)]
    } else {
        decimal_text(n / 10) + seq![hex_digit(n % 10, false)]
    }
}

/// `i` in decimal, with a leading `-` when it is negative.
pub open spec fn signed_decimal_text(i: int) -> Seq<char> {
    if i < 0 {
        seq!['-'] + decimal_text((-i) as nat)
    } else {
        decimal_text(i as nat)
    }
}

fn write_decimal(n: u64, dest: &mut String)
    ensures
        final(dest)@ == old(dest)@ + decimal_text(n as nat),
    decreases n,
{
    if n >= 10 {
        write_decimal(n / 10, dest);
    }
    string_push(dest, hex_digit_char((n % 10) as u32, false));
}

fn write_signed_decimal(i: i64, dest: &mut String)
    ensures
        final(dest)@ == old(dest)@ + signed_decimal_text(i as int),
{
    if i < 0 {
        string_push(dest, '-');
        let magnitude = (0i128 - i as i128) as u64;
        write_decimal(magnitude, dest);
    } else {
        write_decimal(i as u64, dest);
    }
}

impl ToCss for i8 {
    open spec fn css_text(&self) -> Seq<char> {
        signed_decimal_text(*self as int)
    }

    fn to_css(&self, dest: &mut String) {
        write_signed_decimal(*self as i64, dest);
    }
}

impl ToCss for u8 {
    open spec fn css_text(&self) -> Seq<char> {
        decimal_text(*self as nat)
    }

    fn to_css(&self, dest: &mut String) {
        write_decimal(*self as u64, dest);
    }
}

impl ToCss for i16 {
    open spec fn css_text(&self) -> Seq<char> {
        signed_decimal_text(*self as int)
    }

    fn to_css(&self, dest: &mut String) {
        write_signed_decimal(*self as i64, dest);
    }
}

impl ToCss for u16 {
    open spec fn css_text(&self) -> Seq<char> {
        decimal_text(*self as nat)
    }

    fn to_css(&self, dest: &mut String) {
        write_decimal(*self as u64, dest);
    }
}

impl ToCss for i32 {
    open spec fn css_text(&self) -> Seq<char> {
        signed_decimal_text(*self as int)
    }

    fn to_css(&self, dest: &mut String) {
        write_signed_decimal(*self as i64, dest);
    }
}

impl ToCss for u32 {
    open spec fn css_text(&self) -> Seq<char> {
        decimal_text(*self as nat)
    }

    fn to_css(&self, dest: &mut String) {
        write_decimal(*self as u64, dest);
    }
}

impl ToCss for i64 {
    open spec fn css_text(&self) -> Seq<char> {
        signed_decimal_text(*self as int)
    }

    fn to_css(&self, dest: &mut String) {
        write_signed_decimal(*self, dest);
    }
}

impl ToCss for u64 {
    open spec fn css_text(&self) -> Seq<char> {
        decimal_text(*self as nat)
    }

    fn to_css(&self, dest: &mut String) {
        write_decimal(*self, dest);
    }
}

} // verus!
