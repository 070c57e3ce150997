//! The calls into `serde_json`: reading an engine line once into the
//! members the bridge looks at, and quoting text into the lines it sends.
//! Each function here makes its call into `serde_json` and is trusted; what
//! a document holds is named, not restated, and nothing in this crate says
//! more of it than the contracts here state.
use vstd::prelude::*;
use serde_json::Value;

verus! {

/// A member of a JSON object, as far as the bridge reads members: a string,
/// a number (with its value as `i64` and as `u64`, where it is an integer in
/// range), a boolean, or anything else.
pub enum JsonScalar {
    Str(String),
    Number { as_i64: Option<i64>, as_u64: Option<u64> },
    Bool(bool),
    Other,
}

/// A named member of a JSON object.
pub struct JsonMember {
    pub key: String,
    pub value: JsonScalar,
}

/// A JSON document: an object with its members, or any other value.
pub enum JsonDocument {
    Object(Vec<JsonMember>),
    Other,
}

/// The value of a `JsonScalar`, with its text as a sequence.
pub enum ScalarModel {
    Str(Seq<char>),
    Number { as_i64: Option<i64>, as_u64: Option<u64> },
    Bool(bool),
    Other,
}

/// The value of a `JsonDocument`: an object's members as (key, value) pairs
/// in the order the document holds them, or any other value.
pub enum DocumentModel {
    Object(Seq<(Seq<char>, ScalarModel)>),
    Other,
}

/// A member value, taken by its value.
pub open spec fn scalar_model(v: JsonScalar) -> ScalarModel {
    match v {
        JsonScalar::Str(s) => ScalarModel::Str(s@),
        JsonScalar::Number { as_i64, as_u64 } => ScalarModel::Number { as_i64, as_u64 },
        JsonScalar::Bool(b) => ScalarModel::Bool(b),
        JsonScalar::Other => ScalarModel::Other,
    }
}

/// An object's members, taken as (key, value) pairs.
pub open spec fn members_model(v: Seq<JsonMember>) -> Seq<(Seq<char>, ScalarModel)> {
    v.map_values(|m: JsonMember| (m.key@, scalar_model(m.value)))
}

/// A document, taken by its value; `None` when there is none.
pub open spec fn document_model(d: Option<JsonDocument>) -> Option<DocumentModel> {
    match d {
        Some(JsonDocument::Object(ms)) => Some(DocumentModel::Object(members_model(ms@))),
        Some(JsonDocument::Other) => Some(DocumentModel::Other),
        None => None,
    }
}

/// What `serde_json::from_str::<serde_json::Value>` makes of `text`:
/// `None` when it rejects the text; an object's members, in the order of
/// `serde_json`'s map; or another value.
pub uninterp spec fn json_document(text: Seq<char>) -> Option<DocumentModel>;

/// The lowercase hexadecimal digit for `d` (0..=15).
pub open spec fn hex_digit_char(d: int) -> char {
    if d < 10 {
        (d + 48) as char
    } else {
        (d + 87) as char
    }
}

/// How `serde_json` writes one character inside a string literal: `"` and
/// `\` behind a backslash, backspace, tab, line feed, form feed and carriage
/// return as `\b`, `\t`, `\n`, `\f`, `\r`, the other characters below 0x20
/// as `\u00` and two lowercase hex digits, and every other character as it
/// is.
pub open spec fn json_escape_char(c: char) -> Seq<char> {
    let u = c as int;
    if c == '"' {
        seq!['\\', '"']
    } else if c == '\\' {
        seq!['\\', '\\']
    } else if u == 0x08 {
        seq!['\\', 'b']
    } else if u == 0x09 {
        seq!['\\', 't']
    } else if u == 0x0A {
        seq!['\\', 'n']
    } else if u == 0x0C {
        seq!['\\', 'f']
    } else if u == 0x0D {
        seq!['\\', 'r']
    } else if u < 0x20 {
        seq!['\\', 'u', '0', '0', hex_digit_char(u / 16), hex_digit_char(u % 16)]
    } else {
        seq![c]
    }
}

/// The characters of `s`, each escaped as `json_escape_char` says.
pub open spec fn json_escaped(s: Seq<char>) -> Seq<char>
    decreases s.len(),
{
    if s.len() == 0 {
        Seq::empty()
    } else {
        json_escaped(s.drop_last()) + json_escape_char(s.last())
    }
}

/// `s` written as a JSON string literal, as `serde_json` writes a
/// `Value::String`: a quote, the escaped characters, a quote.
pub open spec fn json_string_literal(s: Seq<char>) -> Seq<char> {
    seq!['"'] + json_escaped(s) + seq!['"']
}

/// Calls `serde_json::from_str::<serde_json::Value>` once and converts what
/// it returns: an object's members, each string, number (through
/// `Number::as_i64` and `Number::as_u64`) or boolean as it is and every
/// other value as `Other`; any other document as `Other`; a rejected text as
/// `None`. The contract names the outcome and claims nothing else of it.
#[verifier::external_body]
pub(crate) fn json_read(text: &str) -> (r: Option<JsonDocument>)
    ensures
        document_model(r) == json_document(text@),
{
    match serde_json::from_str::<Value>(text) {
        Ok(Value::Object(m)) => Some(JsonDocument::Object(m.into_iter().map(|(key, v)| JsonMember {
            key,
            value: match v {
                Value::String(s) => JsonScalar::Str(s),
                Value::Number(n) => JsonScalar::Number { as_i64: n.as_i64(), as_u64: n.as_u64() },
                Value::Bool(b) => JsonScalar::Bool(b),
                _ => JsonScalar::Other,
            },
        }).collect())),
        Ok(_) => Some(JsonDocument::Other),
        Err(_) => None,
    }
}

/// Writes `s` as a JSON string through `serde_json::Value::String` and its
/// `Display` (`to_string`). The contract claims the quoting and escaping
/// that `serde_json`'s compact formatter applies to a string (its `ESCAPE`
/// table and `write_char_escape`).
#[verifier::external_body]
pub(crate) fn json_quote(s: &str) -> (r: String)
    ensures
        r@ == json_string_literal(s@),
{
    serde_json::Value::String(s.to_string()).to_string()
}

} // verus!
