//! JSON through serde_json: string literals for request bodies, and string
//! members of parsed documents.

use vstd::prelude::*;

verus! {

/// The lowercase hexadecimal digit of a value below 16.
pub open spec fn hex_digit(v: int) -> char {
    if v < 10 {
        (v + 48) as char
    } else {
        (v + 87) as char
    }
}

/// How serde_json writes one character inside a JSON string: quote and
/// backslash escaped, the five short control escapes, other control
/// characters as `\u00XX`, everything else as itself.
pub open spec fn json_escape(c: char) -> Seq<char> {
    if c == '"' {
        seq!['\\', '"']
    } else if c == '\\' {
        seq!['\\', '\\']
    } else if c == '\u{8}' {
        seq!['\\', 'b']
    } else if c == '\t' {
        seq!['\\', 't']
    } else if c == '\n' {
        seq!['\\', 'n']
    } else if c == '\u{c}' {
        seq!['\\', 'f']
    } else if c == '\r' {
        seq!['\\', 'r']
    } else if (c as int) < 32 {
        seq!['\\', 'u', '0', '0', hex_digit((c as int) / 16), hex_digit((c as int) % 16)]
    } else {
        seq![c]
    }
}

/// The characters of `s`, each escaped as inside a JSON string.
pub open spec fn json_escaped(s: Seq<char>) -> Seq<char>
    decreases s.len(),
{
    if s.len() == 0 {
        Seq::empty()
    } else {
        json_escaped(s.drop_last()) + json_escape(s.last())
    }
}

/// `s` as a JSON string literal.
pub open spec fn json_quoted(s: Seq<char>) -> Seq<char> {
    seq!['"'] + json_escaped(s) + seq!['"']
}

/// Calls `serde_json::to_string` on a string slice. Its contract states the
/// escaping that serde_json's serializer applies (its `ESCAPE` table and
/// `write_char_escape`): the literal is the string between quotes with quote,
/// backslash and control characters escaped. Serializing a `str` does not
/// fail.
#[verifier::external_body]
pub(crate) fn json_string(s: &str) -> (r: String)
    ensures
        r@ == json_quoted(s@),
{
    serde_json::to_string(s).unwrap_or_default()
}

/// What serde_json makes of `text` read as a JSON document, for the member
/// `key`: `Err` with serde_json's error message when the text is not JSON;
/// `Ok(Some(v))` when the document is an object whose member `key` is the
/// string `v`; `Ok(None)` otherwise.
pub uninterp spec fn json_member_text(text: Seq<char>, key: Seq<char>) -> Result<
    Option<Seq<char>>,
    Seq<char>,
>;

/// The view of a lookup result.
pub open spec fn member_view(r: Result<Option<String>, String>) -> Result<
    Option<Seq<char>>,
    Seq<char>,
> {
    match r {
        Ok(Some(v)) => Ok(Some(v@)),
        Ok(None) => Ok(None),
        Err(e) => Err(e@),
    }
}

/// Calls `serde_json::from_str::<serde_json::Value>` and picks the string
/// member `key` of the document (`Value::get`, then `Value::as_str`). The
/// contract names the result `json_member_text` of the text and the key and
/// states nothing more: JSON's grammar and serde_json's error messages are
/// not restated here.
#[verifier::external_body]
pub(crate) fn json_member(text: &str, key: &str) -> (r: Result<Option<String>, String>)
    ensures
        member_view(r) == json_member_text(text@, key@),
{
    match serde_json::from_str::<serde_json::Value>(text) {
        Ok(doc) => Ok(doc.get(key).and_then(|m| m.as_str()).map(|m| m.to_string())),
        Err(e) => Err(e.to_string()),
    }
}

} // verus!
