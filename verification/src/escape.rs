//! Character-level escaping rules shared by the CSS serializers.
//!
//! Every serializer in this crate maps its input character by character, so
//! each one is described by a function from one character to the text written
//! for it, and the whole output is the concatenation of those pieces
//! (`escape_text`).
use vstd::prelude::*;

verus! {

/// The three places where text is escaped: a name (the body of an
/// identifier), the inside of a double-quoted string, and an unquoted URL.
#[derive(Clone, Copy, PartialEq, Eq, Debug)]
pub enum EscapeContext {
    Name,
    QuotedString,
    Url,
}

/// The text written for one character in the given context.
pub open spec fn escape_char(ctx: EscapeContext, c: char) -> Seq<char> {
    match ctx {
        EscapeContext::Name => escape_name_char(c),
        EscapeContext::QuotedString => escape_string_char(c),
        EscapeContext::Url => escape_url_char(c),
    }
}

/// Escapes each character of `s` and concatenates the results in order.
pub open spec fn escape_text(ctx: EscapeContext, s: Seq<char>) -> Seq<char>
    decreases s.len(),
{
    if s.len() == 0 {
        Seq::empty()
    } else {
        escape_char(ctx, s[0]) + escape_text(ctx, s.drop_first())
    }
}

/// Escaping a concatenation is concatenating the escaped parts: the text a
/// serializer produces does not depend on how its input was split into chunks.
pub proof fn lemma_escape_concat(ctx: EscapeContext, a: Seq<char>, b: Seq<char>)
    ensures
        escape_text(ctx, a + b) == escape_text(ctx, a) + escape_text(ctx, b),
    decreases a.len(),
{
    if a.len() == 0 {
    } else {
        assert((a + b).drop_first() =~= a.drop_first() + b);
        lemma_escape_concat(ctx, a.drop_first(), b);
        assert(escape_text(ctx, a + b) =~= escape_char(ctx, a[0]) + (escape_text(
            ctx,
            a.drop_first(),
        ) + escape_text(ctx, b)));
    }
}

/// Appending one character appends exactly its own escaped form.
pub proof fn lemma_escape_push(ctx: EscapeContext, s: Seq<char>, c: char)
    ensures
        escape_text(ctx, s.push(c)) == escape_text(ctx, s) + escape_char(ctx, c),
{
    assert(s.push(c) =~= s + seq![c]);
    lemma_escape_concat(ctx, s, seq![c]);
    assert(seq![c].drop_first() =~= Seq::<char>::empty());
    assert(escape_text(ctx, Seq::<char>::empty()) =~= Seq::<char>::empty());
}

/// Replaces U+0000 by U+FFFD REPLACEMENT CHARACTER, as CSS does on input.
pub open spec fn replace_nul(s: Seq<char>) -> Seq<char> {
    s.map_values(|c: char| if c == '\0' { '\u{FFFD}' } else { c })
}

pub open spec fn is_ascii_digit(c: char) -> bool {
    '0' <= c && c <= '9'
}

/// The characters that a CSS name may hold without escaping: ASCII letters,
/// digits, `_`, `-`, and every non-ASCII character.
pub open spec fn is_name_char(c: char) -> bool {
    ||| is_ascii_digit(c)
    ||| ('A' <= c && c <= 'Z')
    ||| ('a' <= c && c <= 'z')
    ||| c == '_'
    ||| c == '-'
    ||| c as u32 >= 0x80
}

/// C0 controls other than NUL, and DEL.
pub open spec fn is_control(c: char) -> bool {
    (1 <= c as u32 && c as u32 <= 0x1f) || c as u32 == 0x7f
}

/// One hexadecimal digit, upper or lower case.
pub open spec fn hex_digit(d: nat, upper: bool) -> char
    recommends
        d < 16,
{
    if d < 10 {
        (d + 48) as char
    } else if upper {
        (d + 55) as char
    } else {
        (d + 87) as char
    }
}

/// `n` in hexadecimal without leading zeros, as `{:x}` (or `{:X}`) prints it.
pub open spec fn hex_text(n: nat, upper: bool) -> Seq<char>
    decreases n,
{
    if n < 16 {
        seq![hex_digit(n, upper)]
    } else {
        hex_text(n / 16, upper) + seq![hex_digit(n % 16, upper)]
    }
}

/// A hexadecimal escape: a backslash, the code point in hex, and a space that
/// ends the escape.
pub open spec fn hex_escape(c: char, upper: bool) -> Seq<char> {
    seq!['\\'] + hex_text(c as nat, upper) + seq![' ']
}

/// The text written for one character of a name.
pub open spec fn escape_name_char(c: char) -> Seq<char> {
    if is_name_char(c) {
        seq![c]
    } else if c == '\0' {
        seq!['\u{FFFD}']
    } else if is_control(c) {
        hex_escape(c, false)
    } else {
        seq!['\\', c]
    }
}

/// The text written for one character inside a double-quoted string.
pub open spec fn escape_string_char(c: char) -> Seq<char> {
    if c == '"' {
        seq!['\\', '"']
    } else if c == '\\' {
        seq!['\\', '\\']
    } else if c == '\n' {
        seq!['\\', 'A', ' ']
    } else if c == '\r' {
        seq!['\\', 'D', ' ']
    } else if c == '\0' {
        seq!['\u{FFFD}']
    } else if is_control(c) {
        hex_escape(c, false)
    } else {
        seq![c]
    }
}

/// The characters that `url(...)` escapes with a backslash alone.
pub open spec fn is_url_delimiter(c: char) -> bool {
    c == '(' || c == ')' || c == '"' || c == '\'' || c == '\\'
}

/// The text written for one character of an unquoted URL.
pub open spec fn escape_url_char(c: char) -> Seq<char> {
    if c as u32 <= 0x20 || c as u32 == 0x7f {
        hex_escape(c, true)
    } else if is_url_delimiter(c) {
        seq!['\\', c]
    } else {
        seq![c]
    }
}

/// A CSS name with every character escaped as necessary.
pub open spec fn escape_name(s: Seq<char>) -> Seq<char> {
    escape_text(EscapeContext::Name, s)
}

/// The content of a double-quoted CSS string, quotes not included.
pub open spec fn escape_string(s: Seq<char>) -> Seq<char> {
    escape_text(EscapeContext::QuotedString, s)
}

/// The content of an unquoted `url(...)`, parentheses not included.
pub open spec fn escape_url(s: Seq<char>) -> Seq<char> {
    escape_text(EscapeContext::Url, s)
}

/// Appends one character to a `String`.
#[verifier::external_body]
pub(crate) fn string_push(s: &mut String, c: char)
    ensures
        final(s)@ == old(s)@.push(c),
{
    s.push(c);
}

/// The character of one hexadecimal digit.
pub(crate) fn hex_digit_char(d: u32, upper: bool) -> (c: char)
    requires
        d < 16,
    ensures
        c == hex_digit(d as nat, upper),
{
    if d < 10 {
        char_from_ascii((d + 48) as u8)
    } else if upper {
        char_from_ascii((d + 55) as u8)
    } else {
        char_from_ascii((d + 87) as u8)
    }
}

fn char_from_ascii(b: u8) -> (c: char)
    requires
        b < 128,
    ensures
        c as u32 == b as u32,
{
    b as char
}

/// Appends a hexadecimal escape of `c`, whose code point is below 256.
pub(crate) fn push_hex_escape(dest: &mut String, c: char, upper: bool)
    requires
        (c as u32) < 256,
    ensures
        final(dest)@ == old(dest)@ + hex_escape(c, upper),
{
    let n = c as u32;
    string_push(dest, '\\');
    if n < 16 {
        string_push(dest, hex_digit_char(n, upper));
    } else {
        assert(hex_text((n / 16) as nat, upper) == seq![hex_digit((n / 16) as nat, upper)]);
        string_push(dest, hex_digit_char(n / 16, upper));
        string_push(dest, hex_digit_char(n % 16, upper));
    }
    string_push(dest, ' ');
}

} // verus!
