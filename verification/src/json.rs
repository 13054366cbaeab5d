//! The little JSON that the library itself reads and writes.

use vstd::prelude::*;

use crate::number::hex_char;

verus! {

/// A character inside a JSON string.
pub open spec fn json_char(c: char) -> Seq<char> {
    let n = c as int;
    if c == '"' {
        seq!['\\', '"']
    } else if c == '\\' {
        seq!['\\', '\\']
    } else if n == 8 {
        seq!['\\', 'b']
    } else if n == 9 {
        seq!['\\', 't']
    } else if n == 10 {
        seq!['\\', 'n']
    } else if n == 12 {
        seq!['\\', 'f']
    } else if n == 13 {
        seq!['\\', 'r']
    } else if n < 0x20 {
        seq!['\\', 'u', '0', '0', hex_char((n / 16) as nat, false), hex_char((n % 16) as nat, false)]
    } else {
        seq![c]
    }
}

/// The characters inside a JSON string.
pub open spec fn json_chars(s: Seq<char>) -> Seq<char>
    decreases s.len(),
{
    if s.len() == 0 {
        seq![]
    } else {
        json_chars(s.drop_last()) + json_char(s.last())
    }
}

/// A text as a JSON string.
pub open spec fn json_quoted(s: Seq<char>) -> Seq<char> {
    seq!['"'] + json_chars(s) + seq!['"']
}

/// `serde_json::to_string` of a text: the text between quotes, with quotes, backslashes
/// and control characters escaped. It reads back as the text.
#[verifier::external_body]
pub(crate) fn write_json_string(s: &str) -> (out: String)
    ensures
        out@ == json_quoted(s@),
        json_string_of(out@) == Some(s@),
{
    serde_json::to_string(s).unwrap_or_default()
}

/// What `serde_json::from_str` reads as a string in JSON text, if it is one.
pub uninterp spec fn json_string_of(text: Seq<char>) -> Option<Seq<char>>;

/// `serde_json::from_str` into a `String`: the string that the JSON text is, or nothing
/// where it is something else.
#[verifier::external_body]
pub(crate) fn read_json_string(text: &str) -> (out: Option<String>)
    ensures
        match out {
            Some(s) => json_string_of(text@) == Some(s@),
            None => json_string_of(text@) is None,
        },
{
    serde_json::from_str::<String>(text).ok()
}

/// What `serde_json::Value::get` finds under a key in JSON text, as JSON text again.
pub uninterp spec fn json_member_of(text: Seq<char>, key: Seq<char>) -> Option<Seq<char>>;

/// `serde_json::from_str` into a `Value`, then `Value::get` and `to_string`: the member
/// of the object under the key as JSON text, or nothing where there is no object or no
/// such member.
#[verifier::external_body]
pub(crate) fn read_json_member(text: &str, key: &str) -> (out: Option<String>)
    ensures
        match out {
            Some(s) => json_member_of(text@, key@) == Some(s@),
            None => json_member_of(text@, key@) is None,
        },
{
    let value = serde_json::from_str::<serde_json::Value>(text).ok()?;
    value.get(key).map(|member| member.to_string())
}

/// A truth value in JSON.
pub open spec fn json_bool(b: bool) -> Seq<char> {
    if b {
        "true"@
    } else {
        "false"@
    }
}

/// Writes a truth value in JSON.
pub fn bool_text(b: bool) -> (out: String)
    ensures
        out@ == json_bool(b),
{
    if b {
        "true".to_owned()
    } else {
        "false".to_owned()
    }
}

/// An object with one truth value, on three lines.
pub open spec fn bool_object(key: Seq<char>, b: bool) -> Seq<char> {
    "{\n  "@ + json_quoted(key) + ": "@ + json_bool(b) + "\n}"@
}

/// `serde_json::to_string_pretty` of an object with one truth value: the object on three
/// lines, indented by two spaces. The member reads back.
#[verifier::external_body]
pub(crate) fn write_bool_object(key: &str, b: bool) -> (out: String)
    ensures
        out@ == bool_object(key@, b),
        json_member_of(out@, key@) == Some(json_bool(b)),
{
    let mut object = serde_json::Map::new();
    object.insert(key.to_string(), serde_json::Value::Bool(b));
    serde_json::to_string_pretty(&object).unwrap_or_default()
}

} // verus!
