use lib::serializer::{
    serialize_identifier, serialize_name, serialize_string, serialize_unquoted_url,
    CssStringWriter,
};

fn identifier(value: &str) -> String {
    let mut out = String::new();
    serialize_identifier(value, &mut out);
    out
}

fn name(value: &str) -> String {
    let mut out = String::new();
    serialize_name(value, &mut out);
    out
}

fn url(value: &str) -> String {
    let mut out = String::new();
    serialize_unquoted_url(value, &mut out);
    out
}

fn string(value: &str) -> String {
    let mut out = String::new();
    serialize_string(value, &mut out);
    out
}

#[test]
fn identifier_plain_and_empty() {
    assert_eq!(identifier(""), "");
    assert_eq!(identifier("color"), "color");
    assert_eq!(identifier("a_b-c9"), "a_b-c9");
    assert_eq!(identifier("é文"), "é文");
}

#[test]
fn identifier_dashes() {
    assert_eq!(identifier("-"), "\\-");
    assert_eq!(identifier("--"), "--");
    assert_eq!(identifier("--x y"), "--x\\ y");
    assert_eq!(identifier("--1"), "--1");
    assert_eq!(identifier("-a"), "-a");
    assert_eq!(identifier("-1a"), "-\\31 a");
}

#[test]
fn identifier_leading_digit() {
    assert_eq!(identifier("1"), "\\31 ");
    assert_eq!(identifier("9px"), "\\39 px");
    assert_eq!(identifier("a1"), "a1");
}

#[test]
fn identifier_appends_to_existing_text() {
    let mut out = String::from("x:");
    serialize_identifier("1", &mut out);
    assert_eq!(out, "x:\\31 ");
}

#[test]
fn name_escapes() {
    assert_eq!(name("a!b"), "a\\!b");
    assert_eq!(name("a b"), "a\\ b");
    assert_eq!(name("a\0b"), "a\u{FFFD}b");
    assert_eq!(name("\x01"), "\\1 ");
    assert_eq!(name("\x1f"), "\\1f ");
    assert_eq!(name("\x7f"), "\\7f ");
    assert_eq!(name("\n"), "\\a ");
    assert_eq!(name("1-x"), "1-x");
    assert_eq!(name("ü"), "ü");
}

#[test]
fn url_escapes() {
    assert_eq!(url("a.png"), "a.png");
    assert_eq!(url("a b"), "a\\20 b");
    assert_eq!(url("f(x)"), "f\\(x\\)");
    assert_eq!(url("\"'\\"), "\\\"\\'\\\\");
    assert_eq!(url("\0"), "\\0 ");
    assert_eq!(url("\x1f\x7f"), "\\1F \\7F ");
    assert_eq!(url("\n"), "\\A ");
    assert_eq!(url("é"), "é");
}

#[test]
fn string_escapes() {
    assert_eq!(string(""), "\"\"");
    assert_eq!(string("abc"), "\"abc\"");
    assert_eq!(string("a\"b"), "\"a\\\"b\"");
    assert_eq!(string("a\\b"), "\"a\\\\b\"");
    assert_eq!(string("a\nb"), "\"a\\A b\"");
    assert_eq!(string("a\rb"), "\"a\\D b\"");
    assert_eq!(string("a\0b"), "\"a\u{FFFD}b\"");
    assert_eq!(string("\x01\x7f"), "\"\\1 \\7f \"");
    assert_eq!(string("'(é)"), "\"'(é)\"");
}

#[test]
fn string_writer_escapes_without_quotes() {
    let mut out = String::from("[");
    {
        let mut writer = CssStringWriter::new(&mut out);
        writer.write_str("say \"hi\"");
    }
    out.push(']');
    assert_eq!(out, "[say \\\"hi\\\"]");
}

#[test]
fn string_writer_chunking_does_not_matter() {
    let whole = "a\"b\nc";
    for split in 0..=whole.len() {
        if !whole.is_char_boundary(split) {
            continue;
        }
        let mut parts = String::new();
        {
            let mut writer = CssStringWriter::new(&mut parts);
            writer.write_str(&whole[..split]);
            writer.write_str(&whole[split..]);
        }
        let mut once = String::new();
        CssStringWriter::new(&mut once).write_str(whole);
        assert_eq!(parts, once);
    }
}

#[test]
fn name_chunking_does_not_matter() {
    let mut parts = String::new();
    serialize_name("a b", &mut parts);
    serialize_name("\x01c", &mut parts);
    assert_eq!(parts, name("a b\x01c"));
}
