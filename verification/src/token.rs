//! CSS tokens, and the categories that decide where two adjacent tokens need
//! an empty comment between them.
use vstd::prelude::*;

use crate::token::TokenSerializationTypeVariants as Kind;

verus! {

/// A number as the serializer needs it.
///
/// The tokenizer keeps a number as a float; serialization only reads these
/// facts about it, so this is what the library holds.
pub struct NumericValue {
    /// Whether the number was written with an explicit `+` or `-` sign.
    pub has_sign: bool,
    /// The value as an integer, if the number was written as an integer.
    pub int_value: Option<i32>,
    /// Whether the sign bit of the value is clear (true also for `+0`).
    pub sign_positive: bool,
    /// Whether the value equals zero, of either sign.
    pub is_zero: bool,
    /// Whether the value has no fractional part.
    pub is_integral: bool,
    /// The shortest decimal text of the value, as Rust's `{}` prints the float.
    pub text: String,
}

/// One token of CSS syntax.
pub enum Token<'a> {
    /// An identifier, such as `color`.
    Ident(String),
    /// `@` followed by an identifier.
    AtKeyword(String),
    /// `#` followed by a name that is not a valid identifier.
    Hash(String),
    /// `#` followed by an identifier.
    IDHash(String),
    /// A quoted string, value without quotes or escapes.
    QuotedString(String),
    /// `url(...)` without quotes, value without escapes.
    UnquotedUrl(String),
    /// A single character that starts no other token.
    Delim(char),
    /// A number.
    Number(NumericValue),
    /// A percentage; the value is the number written before `%`.
    Percentage(NumericValue),
    /// A number followed by a unit.
    Dimension(NumericValue, String),
    /// A run of whitespace, kept as written.
    WhiteSpace(&'a str),
    /// A comment; the text between `/*` and `*/`.
    Comment(&'a str),
    /// `:`
    Colon,
    /// `;`
    Semicolon,
    /// `,`
    Comma,
    /// `~=`
    IncludeMatch,
    /// `|=`
    DashMatch,
    /// `^=`
    PrefixMatch,
    /// `$=`
    SuffixMatch,
    /// `*=`
    SubstringMatch,
    /// `||`
    Column,
    /// `<!--`
    CDO,
    /// `-->`
    CDC,
    /// An identifier followed by `(`; the value is the name.
    Function(String),
    /// `(`
    ParenthesisBlock,
    /// `[`
    SquareBracketBlock,
    /// `{`
    CurlyBracketBlock,
    /// A `url(` whose content could not be read.
    BadUrl,
    /// A string with an unescaped newline.
    BadString,
    /// `)`
    CloseParenthesis,
    /// `]`
    CloseSquareBracket,
    /// `}`
    CloseCurlyBracket,
}

/// A category of token. See the `needs_separator_when_before` method.
#[derive(Copy, Clone, Eq, PartialEq, Debug)]
pub struct TokenSerializationType(pub TokenSerializationTypeVariants);

/// The categories of tokens that matter for separators.
#[derive(Copy, Clone, Eq, PartialEq, Structural, Debug)]
pub enum TokenSerializationTypeVariants {
    Nothing,
    WhiteSpace,
    AtKeywordOrHash,
    Number,
    Dimension,
    Percentage,
    UrlOrBadUrl,
    Function,
    Ident,
    CDC,
    DashMatch,
    SubstringMatch,
    /// `(`
    OpenParen,
    /// `#`
    DelimHash,
    /// `@`
    DelimAt,
    /// `.` or `+`
    DelimDotOrPlus,
    /// `-`
    DelimMinus,
    /// `?`
    DelimQuestion,
    /// `$`, `^` or `~`
    DelimAssorted,
    /// `=`
    DelimEquals,
    /// `|`
    DelimBar,
    /// `/`
    DelimSlash,
    /// `*`
    DelimAsterisk,
    /// anything else
    Other,
}

/// Whether a token of category `a` written just before one of category `b`,
/// with no whitespace between them, must be followed by `/**/` so that the two
/// are not read back as a single token.
pub open spec fn separator_needed(
    a: TokenSerializationTypeVariants,
    b: TokenSerializationTypeVariants,
) -> bool {
    let ident_like = b is Ident || b is Function || b is UrlOrBadUrl || b is DelimMinus;
    let number_like = b is Number || b is Percentage || b is Dimension;
    match a {
        Kind::Ident => ident_like || number_like || b is CDC || b is OpenParen,
        Kind::AtKeywordOrHash | Kind::Dimension => ident_like || number_like || b is CDC,
        Kind::DelimHash | Kind::DelimMinus | Kind::Number => ident_like || number_like,
        Kind::DelimAt => ident_like,
        Kind::DelimDotOrPlus => number_like,
        Kind::DelimAssorted | Kind::DelimAsterisk => b is DelimEquals,
        Kind::DelimBar => b is DelimEquals || b is DelimBar || b is DashMatch,
        Kind::DelimSlash => b is DelimAsterisk || b is SubstringMatch,
        _ => false,
    }
}

/// The value `a.set_if_nothing(b)` leaves in `a`.
pub open spec fn after_set_if_nothing(
    a: TokenSerializationType,
    b: TokenSerializationType,
) -> TokenSerializationType {
    if a.0 == Kind::Nothing {
        b
    } else {
        a
    }
}

impl TokenSerializationType {
    /// Return a value that represents the absence of a token, e.g. before the start of the input.
    pub fn nothing() -> (t: TokenSerializationType)
        ensures
            t.0 == Kind::Nothing,
    {
        TokenSerializationType(Kind::Nothing)
    }

    /// If this value is `TokenSerializationType::nothing()`, set it to the given value instead.
    pub fn set_if_nothing(&mut self, new_value: TokenSerializationType)
        ensures
            *final(self) == after_set_if_nothing(*old(self), new_value),
    {
        if self.0 == Kind::Nothing {
            self.0 = new_value.0
        }
    }

    /// Return true if, when a token of category `self` is serialized just before
    /// a token of category `other` with no whitespace in between,
    /// an empty comment `/**/` needs to be inserted between them
    /// so that they are not re-parsed as a single token.
    ///
    /// See https://drafts.csswg.org/css-syntax/#serialization
    pub fn needs_separator_when_before(self, other: TokenSerializationType) -> (r: bool)
        ensures
            r == separator_needed(self.0, other.0),
    {
        let ident_like = match other.0 {
            Kind::Ident | Kind::Function | Kind::UrlOrBadUrl | Kind::DelimMinus => true,
            _ => false,
        };
        let number_like = match other.0 {
            Kind::Number | Kind::Percentage | Kind::Dimension => true,
            _ => false,
        };
        match self.0 {
            Kind::Ident => ident_like || number_like || other.0 == Kind::CDC
                || other.0 == Kind::OpenParen,
            Kind::AtKeywordOrHash | Kind::Dimension => ident_like || number_like || other.0
                == Kind::CDC,
            Kind::DelimHash | Kind::DelimMinus | Kind::Number => ident_like || number_like,
            Kind::DelimAt => ident_like,
            Kind::DelimDotOrPlus => number_like,
            Kind::DelimAssorted | Kind::DelimAsterisk => other.0 == Kind::DelimEquals,
            Kind::DelimBar => other.0 == Kind::DelimEquals || other.0 == Kind::DelimBar
                || other.0 == Kind::DashMatch,
            Kind::DelimSlash => other.0 == Kind::DelimAsterisk || other.0 == Kind::SubstringMatch,
            Kind::Nothing | Kind::WhiteSpace | Kind::Percentage | Kind::UrlOrBadUrl
            | Kind::Function | Kind::CDC | Kind::OpenParen | Kind::DashMatch
            | Kind::SubstringMatch | Kind::DelimQuestion | Kind::DelimEquals
            | Kind::Other => false,
        }
    }
}

/// The category of a token, for separators.
pub open spec fn token_category(t: Token) -> TokenSerializationTypeVariants {
    match t {
        Token::Ident(_) => Kind::Ident,
        Token::AtKeyword(_) | Token::Hash(_) | Token::IDHash(_) => Kind::AtKeywordOrHash,
        Token::UnquotedUrl(_) | Token::BadUrl => Kind::UrlOrBadUrl,
        Token::Delim(c) => delim_category(c),
        Token::Number(_) => Kind::Number,
        Token::Percentage(_) => Kind::Percentage,
        Token::Dimension(..) => Kind::Dimension,
        Token::WhiteSpace(_) => Kind::WhiteSpace,
        Token::Comment(_) => Kind::DelimSlash,
        Token::DashMatch => Kind::DashMatch,
        Token::SubstringMatch => Kind::SubstringMatch,
        Token::Column => Kind::DelimBar,
        Token::CDC => Kind::CDC,
        Token::Function(_) => Kind::Function,
        Token::ParenthesisBlock => Kind::OpenParen,
        _ => Kind::Other,
    }
}

/// The category of a `Delim` token holding `c`.
pub open spec fn delim_category(c: char) -> TokenSerializationTypeVariants {
    if c == '#' {
        Kind::DelimHash
    } else if c == '@' {
        Kind::DelimAt
    } else if c == '.' || c == '+' {
        Kind::DelimDotOrPlus
    } else if c == '-' {
        Kind::DelimMinus
    } else if c == '?' {
        Kind::DelimQuestion
    } else if c == '$' || c == '^' || c == '~' {
        Kind::DelimAssorted
    } else if c == '=' {
        Kind::DelimEquals
    } else if c == '|' {
        Kind::DelimBar
    } else if c == '/' {
        Kind::DelimSlash
    } else if c == '*' {
        Kind::DelimAsterisk
    } else {
        Kind::Other
    }
}

impl<'a> Token<'a> {
    /// Categorize a token into a type that determines when `/**/` needs to be inserted
    /// between two tokens when serialized next to each other without whitespace in between.
    ///
    /// See the `TokenSerializationType::needs_separator_when_before` method.
    pub fn serialization_type(&self) -> (t: TokenSerializationType)
        ensures
            t.0 == token_category(*self),
    {
        TokenSerializationType(
            match *self {
                Token::Ident(_) => Kind::Ident,
                Token::AtKeyword(_) | Token::Hash(_) | Token::IDHash(_) => Kind::AtKeywordOrHash,
                Token::UnquotedUrl(_) | Token::BadUrl => Kind::UrlOrBadUrl,
                Token::Delim('#') => Kind::DelimHash,
                Token::Delim('@') => Kind::DelimAt,
                Token::Delim('.') | Token::Delim('+') => Kind::DelimDotOrPlus,
                Token::Delim('-') => Kind::DelimMinus,
                Token::Delim('?') => Kind::DelimQuestion,
                Token::Delim('$') | Token::Delim('^') | Token::Delim('~') => Kind::DelimAssorted,
                Token::Delim('=') => Kind::DelimEquals,
                Token::Delim('|') => Kind::DelimBar,
                Token::Delim('/') => Kind::DelimSlash,
                Token::Delim('*') => Kind::DelimAsterisk,
                Token::Number(_) => Kind::Number,
                Token::Percentage(_) => Kind::Percentage,
                Token::Dimension(..) => Kind::Dimension,
                Token::WhiteSpace(_) => Kind::WhiteSpace,
                Token::Comment(_) => Kind::DelimSlash,
                Token::DashMatch => Kind::DashMatch,
                Token::SubstringMatch => Kind::SubstringMatch,
                Token::Column => Kind::DelimBar,
                Token::CDC => Kind::CDC,
                Token::Function(_) => Kind::Function,
                Token::ParenthesisBlock => Kind::OpenParen,
                Token::SquareBracketBlock | Token::CurlyBracketBlock | Token::CloseParenthesis
                | Token::CloseSquareBracket | Token::CloseCurlyBracket | Token::QuotedString(_)
                | Token::BadString | Token::Delim(_) | Token::Colon | Token::Semicolon
                | Token::Comma | Token::CDO | Token::IncludeMatch | Token::PrefixMatch
                | Token::SuffixMatch => Kind::Other,
            },
        )
    }
}

} // verus!
