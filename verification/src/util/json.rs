//! Rendering text as a JSON string literal, through `serde_json`.

use vstd::prelude::*;

verus! {

#[verifier::external_type_specification]
#[verifier::external_body]
pub struct ExJsonError(serde_json::Error);

/// A hexadecimal digit, in lower case.
pub open spec fn hex_digit(d: int) -> char {
    if d < 10 {
        (d + 48) as char
    } else {
        (d + 87) as char
    }
}

/// How `serde_json` writes the character `c` inside a string literal: a
/// quote and a backslash escaped with a backslash; backspace, form feed, line
/// feed, carriage return and tab as `\b`, `\f`, `\n`, `\r`, `\t`; the other
/// control characters below `0x20` as `\u00` and two lower-case hexadecimal
/// digits; every other character as it is.
pub open spec fn json_escaped_char(c: char) -> Seq<char> {
    if c == '"' {
        seq!['\\', '"']
    } else if c == '\\' {
        seq!['\\', '\\']
    } else if c == '\u{8}' {
        seq!['\\', 'b']
    } else if c == '\u{c}' {
        seq!['\\', 'f']
    } else if c == '\n' {
        seq!['\\', 'n']
    } else if c == '\r' {
        seq!['\\', 'r']
    } else if c == '\t' {
        seq!['\\', 't']
    } else if (c as int) < 32 {
        seq!['\\', 'u', '0', '0', hex_digit((c as int) / 16), hex_digit((c as int) % 16)]
    } else {
        seq![c]
    }
}

/// The characters of `s`, each as `serde_json` writes it inside a string
/// literal.
pub open spec fn json_escaped(s: Seq<char>) -> Seq<char>
    decreases s.len(),
{
    if s.len() == 0 {
        Seq::<char>::empty()
    } else {
        json_escaped(s.drop_last()) + json_escaped_char(s.last())
    }
}

/// The JSON string literal that `serde_json` writes for the text `s`: the
/// escaped characters between double quotes.
pub open spec fn json_string_literal(s: Seq<char>) -> Seq<char> {
    seq!['"'] + json_escaped(s) + seq!['"']
}

/// Calls `serde_json::to_string(s)` on a string slice. Claimed: the result is
/// `json_string_literal(s)`, which is what `format_escaped_str` in the
/// crate's `ser.rs` writes (its `ESCAPE` table and `write_char_escape`), and
/// it never fails (a string always serialises, and the writer is an
/// in-memory buffer).
#[verifier::external_body]
pub(crate) fn quote_json(s: &str) -> (r: Result<String, serde_json::Error>)
    ensures
        r is Ok,
        r matches Ok(t) ==> t@ == json_string_literal(s@),
{
    serde_json::to_string(s)
}

/// `s` as a JSON string literal.
pub fn json_string(s: &str) -> (r: String)
    ensures
        r@ == json_string_literal(s@),
{
    match quote_json(s) {
        Ok(q) => q,
        Err(_) => {
            proof {
                assert(false);
            }
            String::new()
        },
    }
}

/// The JSON object `{"token":...}` that serialising a value with a single
/// string field `token` produces.
pub open spec fn token_object_json(token: Seq<char>) -> Seq<char> {
    "{\"token\":"@ + json_string_literal(token) + "}"@
}

/// Renders `{"token":<token as a JSON string>}`.
pub fn token_object(token: &str) -> (r: String)
    ensures
        r@ == token_object_json(token@),
{
    let quoted = json_string(token);
    let mut r = String::from_str("{\"token\":");
    r.append(quoted.as_str());
    r.append("}");
    r
}

} // verus!
