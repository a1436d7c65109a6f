use lib::css::{write_numeric, ToCss};
use lib::token::{NumericValue, Token, TokenSerializationType};

fn number(text: &str, has_sign: bool, int_value: Option<i32>) -> NumericValue {
    let value: f32 = text.parse().unwrap();
    NumericValue {
        has_sign,
        int_value,
        sign_positive: value.is_sign_positive(),
        is_zero: value == 0.0,
        is_integral: value.fract() == 0.0,
        text: format!("{}", value),
    }
}

fn css(token: Token) -> String {
    token.to_css_string()
}

#[test]
fn simple_tokens() {
    assert_eq!(css(Token::Colon), ":");
    assert_eq!(css(Token::Semicolon), ";");
    assert_eq!(css(Token::Comma), ",");
    assert_eq!(css(Token::IncludeMatch), "~=");
    assert_eq!(css(Token::DashMatch), "|=");
    assert_eq!(css(Token::PrefixMatch), "^=");
    assert_eq!(css(Token::SuffixMatch), "$=");
    assert_eq!(css(Token::SubstringMatch), "*=");
    assert_eq!(css(Token::Column), "||");
    assert_eq!(css(Token::CDO), "<!--");
    assert_eq!(css(Token::CDC), "-->");
    assert_eq!(css(Token::ParenthesisBlock), "(");
    assert_eq!(css(Token::SquareBracketBlock), "[");
    assert_eq!(css(Token::CurlyBracketBlock), "{");
    assert_eq!(css(Token::BadUrl), "url(<bad url>)");
    assert_eq!(css(Token::BadString), "\"<bad string>\n");
    assert_eq!(css(Token::CloseParenthesis), ")");
    assert_eq!(css(Token::CloseSquareBracket), "]");
    assert_eq!(css(Token::CloseCurlyBracket), "}");
}

#[test]
fn named_tokens() {
    assert_eq!(css(Token::Ident("1a".to_string())), "\\31 a");
    assert_eq!(css(Token::AtKeyword("media".to_string())), "@media");
    assert_eq!(css(Token::Hash("123".to_string())), "#123");
    assert_eq!(css(Token::IDHash("1x".to_string())), "#\\31 x");
    assert_eq!(css(Token::Function("rgb".to_string())), "rgb(");
    assert_eq!(css(Token::QuotedString("it's \"x\"".to_string())), "\"it's \\\"x\\\"\"");
    assert_eq!(css(Token::UnquotedUrl("a b.png".to_string())), "url(a\\20 b.png)");
    assert_eq!(css(Token::Delim('*')), "*");
    assert_eq!(css(Token::WhiteSpace(" \n")), " \n");
    assert_eq!(css(Token::Comment(" note ")), "/* note */");
}

#[test]
fn numbers() {
    assert_eq!(css(Token::Number(number("1", false, Some(1)))), "1");
    assert_eq!(css(Token::Number(number("1", true, Some(1)))), "+1");
    assert_eq!(css(Token::Number(number("-1", true, Some(-1)))), "-1");
    assert_eq!(css(Token::Number(number("1.0", false, None))), "1.0");
    assert_eq!(css(Token::Number(number("1.5", false, None))), "1.5");
    assert_eq!(css(Token::Number(number("-0", true, Some(0)))), "-0");
    assert_eq!(css(Token::Number(number("-0.0", true, None))), "-0.0");
    assert_eq!(css(Token::Number(number("0", false, Some(0)))), "0");
}

#[test]
fn write_numeric_appends() {
    let mut out = String::from("=");
    write_numeric(&number("2.5", true, None), &mut out);
    assert_eq!(out, "=+2.5");
}

#[test]
fn percentages_and_dimensions() {
    assert_eq!(css(Token::Percentage(number("50", false, Some(50)))), "50%");
    assert_eq!(css(Token::Percentage(number("12.5", false, None))), "12.5%");
    assert_eq!(css(Token::Dimension(number("10", false, Some(10)), "px".to_string())), "10px");
    assert_eq!(css(Token::Dimension(number("1", false, Some(1)), "e".to_string())), "1\\65 ");
    assert_eq!(css(Token::Dimension(number("1", false, Some(1)), "E".to_string())), "1\\65 ");
    assert_eq!(css(Token::Dimension(number("1", false, Some(1)), "e-x".to_string())), "1\\65 -x");
    assert_eq!(css(Token::Dimension(number("1", false, Some(1)), "E-3".to_string())), "1\\65 -3");
    assert_eq!(css(Token::Dimension(number("2", false, Some(2)), "em".to_string())), "2em");
    assert_eq!(css(Token::Dimension(number("2", false, Some(2)), "e+3".to_string())), "2e\\+3");
    assert_eq!(css(Token::Dimension(number("2", false, Some(2)), "-x".to_string())), "2-x");
}

#[test]
fn to_css_and_fmt_to_css_agree() {
    let token = Token::Ident("a b".to_string());
    let mut out = String::from(">");
    token.to_css(&mut out);
    let mut other = String::from(">");
    token.fmt_to_css(&mut other);
    assert_eq!(out, ">a\\ b");
    assert_eq!(out, other);
    assert_eq!(token.to_css_string(), "a\\ b");
}

#[test]
fn integers() {
    assert_eq!(0u8.to_css_string(), "0");
    assert_eq!(255u8.to_css_string(), "255");
    assert_eq!((-128i8).to_css_string(), "-128");
    assert_eq!(127i8.to_css_string(), "127");
    assert_eq!(65535u16.to_css_string(), "65535");
    assert_eq!((-32768i16).to_css_string(), "-32768");
    assert_eq!(4294967295u32.to_css_string(), "4294967295");
    assert_eq!((-2147483648i32).to_css_string(), "-2147483648");
    assert_eq!(u64::MAX.to_css_string(), "18446744073709551615");
    assert_eq!(i64::MIN.to_css_string(), "-9223372036854775808");
    assert_eq!(10i64.to_css_string(), "10");
}

#[test]
fn separators_between_categories() {
    let ident = Token::Ident("a".to_string()).serialization_type();
    let num = Token::Number(number("1", false, Some(1))).serialization_type();
    let dim = Token::Dimension(number("1", false, Some(1)), "px".to_string()).serialization_type();
    let paren = Token::ParenthesisBlock.serialization_type();
    let minus = Token::Delim('-').serialization_type();
    let dot = Token::Delim('.').serialization_type();
    let slash = Token::Delim('/').serialization_type();
    let star = Token::Delim('*').serialization_type();
    let bar = Token::Delim('|').serialization_type();
    let equals = Token::Delim('=').serialization_type();
    let cdc = Token::CDC.serialization_type();
    let hash = Token::Hash("x".to_string()).serialization_type();
    let at = Token::Delim('@').serialization_type();
    let comment = Token::Comment("c").serialization_type();
    let column = Token::Column.serialization_type();
    let percent = Token::Percentage(number("1", false, Some(1))).serialization_type();
    assert!(ident.needs_separator_when_before(ident));
    assert!(ident.needs_separator_when_before(num));
    assert!(ident.needs_separator_when_before(paren));
    assert!(ident.needs_separator_when_before(cdc));
    assert!(hash.needs_separator_when_before(cdc));
    assert!(!hash.needs_separator_when_before(paren));
    assert!(num.needs_separator_when_before(dim));
    assert!(!num.needs_separator_when_before(cdc));
    assert!(minus.needs_separator_when_before(ident));
    assert!(at.needs_separator_when_before(minus));
    assert!(!at.needs_separator_when_before(num));
    assert!(dot.needs_separator_when_before(num));
    assert!(!dot.needs_separator_when_before(ident));
    assert!(slash.needs_separator_when_before(star));
    assert!(comment.needs_separator_when_before(star));
    assert!(star.needs_separator_when_before(equals));
    assert!(bar.needs_separator_when_before(equals));
    assert!(column.needs_separator_when_before(bar));
    assert!(!percent.needs_separator_when_before(ident));
    assert!(!equals.needs_separator_when_before(equals));
    assert_eq!(Token::Delim('&').serialization_type(), Token::Colon.serialization_type());
    assert_eq!(Token::Delim('$').serialization_type(), Token::Delim('~').serialization_type());
    assert_eq!(Token::BadUrl.serialization_type(), Token::UnquotedUrl("u".to_string()).serialization_type());
}

#[test]
fn nothing_and_whitespace_need_no_separator() {
    let nothing = TokenSerializationType::nothing();
    let space = Token::WhiteSpace(" ").serialization_type();
    let samples = [
        Token::Ident("a".to_string()).serialization_type(),
        Token::Delim('-').serialization_type(),
        Token::Delim('/').serialization_type(),
        Token::Number(number("1", false, Some(1))).serialization_type(),
        nothing,
        space,
    ];
    for t in samples {
        assert!(!nothing.needs_separator_when_before(t));
        assert!(!t.needs_separator_when_before(nothing));
        assert!(!space.needs_separator_when_before(t));
        assert!(!t.needs_separator_when_before(space));
    }
}

#[test]
fn set_if_nothing_keeps_first_category() {
    let ident = Token::Ident("a".to_string()).serialization_type();
    let num = Token::Number(number("1", false, Some(1))).serialization_type();
    let mut t = TokenSerializationType::nothing();
    t.set_if_nothing(TokenSerializationType::nothing());
    assert_eq!(t, TokenSerializationType::nothing());
    t.set_if_nothing(ident);
    assert_eq!(t, ident);
    t.set_if_nothing(num);
    assert_eq!(t, ident);
}
