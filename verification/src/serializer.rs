//! Writing CSS identifiers, names, strings and URLs with escaping.
use vstd::prelude::*;
use vstd::string::*;

use crate::escape::{
    escape_name, escape_name_char, escape_string, escape_string_char, escape_text, escape_url,
    escape_url_char, is_ascii_digit, lemma_escape_push, push_hex_escape, string_push,
    EscapeContext,
};

verus! {

broadcast use vstd::string::group_string_axioms;

fn push_name_char(dest: &mut String, c: char)
    ensures
        final(dest)@ == old(dest)@ + escape_name_char(c),
{
    let n = c as u32;
    if ('0' <= c && c <= '9') || ('A' <= c && c <= 'Z') || ('a' <= c && c <= 'z') || c == '_'
        || c == '-' || n >= 0x80 {
        string_push(dest, c);
    } else if c == '\0' {
        string_push(dest, '\u{FFFD}');
    } else if (1 <= n && n <= 0x1f) || n == 0x7f {
        push_hex_escape(dest, c, false);
    } else {
        string_push(dest, '\\');
        string_push(dest, c);
    }
}

fn push_string_char(dest: &mut String, c: char)
    ensures
        final(dest)@ == old(dest)@ + escape_string_char(c),
{
    let n = c as u32;
    if c == '"' {
        string_push(dest, '\\');
        string_push(dest, '"');
    } else if c == '\\' {
        string_push(dest, '\\');
        string_push(dest, '\\');
    } else if c == '\n' {
        string_push(dest, '\\');
        string_push(dest, 'A');
        string_push(dest, ' ');
    } else if c == '\r' {
        string_push(dest, '\\');
        string_push(dest, 'D');
        string_push(dest, ' ');
    } else if c == '\0' {
        string_push(dest, '\u{FFFD}');
    } else if (1 <= n && n <= 0x1f) || n == 0x7f {
        push_hex_escape(dest, c, false);
    } else {
        string_push(dest, c);
    }
}

fn push_url_char(dest: &mut String, c: char)
    ensures
        final(dest)@ == old(dest)@ + escape_url_char(c),
{
    let n = c as u32;
    if n <= 0x20 || n == 0x7f {
        push_hex_escape(dest, c, true);
    } else if c == '(' || c == ')' || c == '"' || c == '\'' || c == '\\' {
        string_push(dest, '\\');
        string_push(dest, c);
    } else {
        string_push(dest, c);
    }
}

/// Appends the escaped form of every character of `value`.
fn push_escaped(ctx: EscapeContext, value: &str, dest: &mut String)
    ensures
        final(dest)@ == old(dest)@ + escape_text(ctx, value@),
{
    let ghost start = dest@;
    for c in it: value.chars()
        invariant
            it.seq() == value@,
            dest@ == start + escape_text(ctx, value@.take(it.index() as int)),
    {
        proof {
            assert(value@.take(it.index() + 1) =~= value@.take(it.index() as int).push(c));
            lemma_escape_push(ctx, value@.take(it.index() as int), c);
        }
        match ctx {
            EscapeContext::Name => push_name_char(dest, c),
            EscapeContext::QuotedString => push_string_char(dest, c),
            EscapeContext::Url => push_url_char(dest, c),
        }
    }
    assert(value@.take(value@.len() as int) =~= value@);
}

/// Write a CSS name: the characters that cannot appear raw in an identifier
/// are escaped, and NUL becomes U+FFFD.
pub fn serialize_name(value: &str, dest: &mut String)
    ensures
        final(dest)@ == old(dest)@ + escape_name(value@),
{
    push_escaped(EscapeContext::Name, value, dest);
}

/// The part of an identifier after an optional leading `-`: a leading digit
/// is written as a hex escape (`\3X `), the rest as a name.
pub open spec fn identifier_body(v: Seq<char>) -> Seq<char> {
    if v.len() > 0 && is_ascii_digit(v[0]) {
        seq!['\\', '3', v[0], ' '] + escape_name(v.skip(1))
    } else {
        escape_name(v)
    }
}

/// The text `serialize_identifier` writes for `v`.
pub open spec fn identifier_css(v: Seq<char>) -> Seq<char> {
    if v.len() == 0 {
        Seq::empty()
    } else if v.len() >= 2 && v[0] == '-' && v[1] == '-' {
        seq!['-', '-'] + escape_name(v.skip(2))
    } else if v.len() == 1 && v[0] == '-' {
        seq!['\\', '-']
    } else if v[0] == '-' {
        seq!['-'] + identifier_body(v.skip(1))
    } else {
        identifier_body(v)
    }
}

/// Writes the part of an identifier after its optional leading `-`.
fn serialize_identifier_body(value: &str, dest: &mut String)
    ensures
        final(dest)@ == old(dest)@ + identifier_body(value@),
{
    let len = value.unicode_len();
    if len > 0 {
        let first = value.get_char(0);
        if '0' <= first && first <= '9' {
            string_push(dest, '\\');
            string_push(dest, '3');
            string_push(dest, first);
            string_push(dest, ' ');
            let rest = value.substring_char(1, len);
            serialize_name(rest, dest);
            return;
        }
    }
    serialize_name(value, dest);
}

/// Write a CSS identifier, escaping characters as necessary.
pub fn serialize_identifier(value: &str, dest: &mut String)
    ensures
        final(dest)@ == old(dest)@ + identifier_css(value@),
{
    let len = value.unicode_len();
    if len == 0 {
        return;
    }
    let first = value.get_char(0);
    if len >= 2 && first == '-' && value.get_char(1) == '-' {
        string_push(dest, '-');
        string_push(dest, '-');
        let rest = value.substring_char(2, len);
        serialize_name(rest, dest);
    } else if len == 1 && first == '-' {
        string_push(dest, '\\');
        string_push(dest, '-');
    } else if first == '-' {
        string_push(dest, '-');
        let rest = value.substring_char(1, len);
        serialize_identifier_body(rest, dest);
    } else {
        serialize_identifier_body(value, dest);
    }
}

/// Write the content of an unquoted `url(...)` token, escaping characters as
/// necessary.
pub fn serialize_unquoted_url(value: &str, dest: &mut String)
    ensures
        final(dest)@ == old(dest)@ + escape_url(value@),
{
    push_escaped(EscapeContext::Url, value, dest);
}

/// Write a double-quoted CSS string token, escaping content as necessary.
pub fn serialize_string(value: &str, dest: &mut String)
    ensures
        final(dest)@ == old(dest)@ + seq!['"'] + escape_string(value@) + seq!['"'],
{
    string_push(dest, '"');
    CssStringWriter::new(dest).write_str(value);
    string_push(dest, '"');
}

/// An adapter that escapes the text written through it for a double-quoted
/// CSS string, and appends it to the wrapped `String`. Quotes are not
/// included.
pub struct CssStringWriter<'a> {
    pub inner: &'a mut String,
}

impl<'a> CssStringWriter<'a> {
    /// Wrap a text writer to create a `CssStringWriter`.
    pub fn new(inner: &'a mut String) -> (w: CssStringWriter<'a>)
        ensures
            *w.inner == *old(inner),
            *final(inner) == *final(w.inner),
    {
        CssStringWriter { inner }
    }

    /// Appends `s` to the wrapped string, escaped for a double-quoted string.
    pub fn write_str(&mut self, s: &str)
        ensures
            final(self).inner@ == old(self).inner@ + escape_string(s@),
            // the writer keeps writing through to the same string
            *final(final(self).inner) == *final(old(self).inner),
    {
        push_escaped(EscapeContext::QuotedString, s, self.inner);
    }
}

} // verus!
