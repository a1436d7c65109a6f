//! How CSS syntax reads escaped text back: the rules of CSS Syntax Level 3 for
//! names, for the inside of quoted strings, and for unquoted URLs, written as
//! spec functions so that the serializers can be proved against them.
use vstd::prelude::*;

use crate::escape::{is_ascii_digit, is_name_char, EscapeContext};

verus! {

pub open spec fn is_hex_digit(c: char) -> bool {
    is_ascii_digit(c) || ('a' <= c && c <= 'f') || ('A' <= c && c <= 'F')
}

pub open spec fn hex_digit_value(c: char) -> nat {
    if is_ascii_digit(c) {
        (c as nat - 48) as nat
    } else if 'a' <= c && c <= 'f' {
        (c as nat - 87) as nat
    } else {
        (c as nat - 55) as nat
    }
}

/// The number that a run of hexadecimal digits spells.
pub open spec fn hex_number(digits: Seq<char>) -> nat
    decreases digits.len(),
{
    if digits.len() == 0 {
        0
    } else {
        hex_number(digits.drop_last()) * 16 + hex_digit_value(digits.last())
    }
}

/// How many hexadecimal digits `s` starts with, counting at most `limit`.
pub open spec fn leading_hex_digits(s: Seq<char>, limit: nat) -> nat
    decreases limit,
{
    if limit == 0 || s.len() == 0 || !is_hex_digit(s[0]) {
        0
    } else {
        1 + leading_hex_digits(s.drop_first(), (limit - 1) as nat)
    }
}

pub proof fn lemma_leading_hex_digits_bound(s: Seq<char>, limit: nat)
    ensures
        leading_hex_digits(s, limit) <= s.len(),
        leading_hex_digits(s, limit) <= limit,
    decreases limit,
{
    if limit > 0 && s.len() > 0 && is_hex_digit(s[0]) {
        lemma_leading_hex_digits_bound(s.drop_first(), (limit - 1) as nat);
    }
}

/// Newlines as the input stream holds them before preprocessing.
pub open spec fn is_newline(c: char) -> bool {
    c == '\n' || c == '\r' || c == '\u{c}'
}

pub open spec fn is_whitespace(c: char) -> bool {
    c == ' ' || c == '\t' || is_newline(c)
}

/// The length of the single whitespace that may end a hex escape: `\r\n`
/// counts as one newline.
pub open spec fn escape_end_len(s: Seq<char>) -> nat {
    if s.len() >= 2 && s[0] == '\r' && s[1] == '\n' {
        2
    } else if s.len() >= 1 && is_whitespace(s[0]) {
        1
    } else {
        0
    }
}

/// The length of the newline that `s` starts with (`\r\n` is one newline).
pub open spec fn newline_len(s: Seq<char>) -> nat {
    if s.len() >= 2 && s[0] == '\r' && s[1] == '\n' {
        2
    } else {
        1
    }
}

/// The character a hex escape stands for: zero, surrogates and values above
/// U+10FFFF read as U+FFFD.
pub open spec fn escaped_code_point(n: nat) -> char {
    if n == 0 || (0xd800 <= n && n <= 0xdfff) || n > 0x10ffff {
        '\u{FFFD}'
    } else {
        n as char
    }
}

/// Characters that may not appear raw in an unquoted URL.
pub open spec fn is_non_printable(c: char) -> bool {
    (c as u32 <= 8) || c as u32 == 0xb || (0xe <= c as u32 && c as u32 <= 0x1f) || c as u32
        == 0x7f
}

/// Whether `c` is read as itself, unescaped, in the given context.
pub open spec fn reads_raw(ctx: EscapeContext, c: char) -> bool {
    match ctx {
        EscapeContext::Name => is_name_char(c),
        EscapeContext::QuotedString => c != '"' && c != '\\' && !is_newline(c),
        EscapeContext::Url => !(c == '"' || c == '\'' || c == '(' || c == ')' || c == '\\')
            && !is_whitespace(c) && !is_non_printable(c),
    }
}

/// What CSS reads from `s` in the given context, or `None` when `s` could not
/// stand there as a whole: a character that is not allowed raw, or a
/// backslash that starts no valid escape.
pub open spec fn read_escaped(ctx: EscapeContext, s: Seq<char>) -> Option<Seq<char>>
    decreases s.len(),
{
    if s.len() == 0 {
        Some(Seq::empty())
    } else if s[0] == '\\' {
        if s.len() == 1 {
            // A backslash at the end of a string is dropped.
            if ctx == EscapeContext::QuotedString {
                Some(Seq::empty())
            } else {
                None
            }
        } else if is_newline(s[1]) {
            // In a string, an escaped newline continues the line.
            if ctx == EscapeContext::QuotedString {
                read_escaped(ctx, s.skip(1).skip(newline_len(s.skip(1)) as int))
            } else {
                None
            }
        } else if is_hex_digit(s[1]) {
            proof {
                lemma_leading_hex_digits_bound(s.skip(1), 6);
            }
            let n = leading_hex_digits(s.skip(1), 6) as int;
            let after = s.skip(1 + n);
            match read_escaped(ctx, after.skip(escape_end_len(after) as int)) {
                Some(rest) => Some(seq![escaped_code_point(hex_number(s.subrange(1, 1 + n)))]
                    + rest),
                None => None,
            }
        } else {
            match read_escaped(ctx, s.skip(2)) {
                Some(rest) => Some(seq![s[1]] + rest),
                None => None,
            }
        }
    } else if reads_raw(ctx, s[0]) {
        match read_escaped(ctx, s.skip(1)) {
            Some(rest) => Some(seq![s[0]] + rest),
            None => None,
        }
    } else {
        None
    }
}

/// A character that may start an identifier: an ASCII letter, `_`, or a
/// non-ASCII character.
pub open spec fn is_name_start(c: char) -> bool {
    ('A' <= c && c <= 'Z') || ('a' <= c && c <= 'z') || c == '_' || c as u32 >= 0x80
}

/// Whether a valid escape starts at index `i` of `s`.
pub open spec fn valid_escape_at(s: Seq<char>, i: int) -> bool {
    0 <= i < s.len() && s[i] == '\\' && !(i + 1 < s.len() && is_newline(s[i + 1]))
}

/// Whether `s` starts with what CSS reads as the start of an identifier.
pub open spec fn starts_identifier(s: Seq<char>) -> bool {
    if s.len() == 0 {
        false
    } else if s[0] == '-' {
        s.len() > 1 && (is_name_start(s[1]) || s[1] == '-' || valid_escape_at(s, 1))
    } else if is_name_start(s[0]) {
        true
    } else {
        valid_escape_at(s, 0)
    }
}

} // verus!
