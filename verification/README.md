# CSS serializer, verified

Serialization of CSS tokens: identifiers, names, quoted strings and unquoted
URLs with the escaping CSS syntax needs, numbers, and the rule for when two
adjacent tokens need an empty comment between them.

- `src/escape.rs`: the escaping of each character in a name, a quoted string
  and a URL, as spec functions, with the character-level writers.
- `src/serializer.rs`: `serialize_identifier`, `serialize_name`,
  `serialize_unquoted_url`, `serialize_string` and `CssStringWriter`.
- `src/token.rs`: `Token`, `NumericValue`, and the separator categories
  (`TokenSerializationType`).
- `src/css.rs`: the `ToCss` trait, its impls for tokens and integers, and
  `write_numeric`.
- `src/reading.rs`: how CSS syntax reads escaped text back, as spec functions.
- `src/laws.rs`: proofs that the output reads back as the input, starts an
  identifier where it should, and that a dimension's unit never reads as an
  exponent; laws of the separator categories.
- `app/`: the `std::fmt::Write` interface, and what needs floating point.

The library writes into a `String`; `app/` forwards that text to any
`fmt::Write`.
