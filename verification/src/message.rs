//! The engine's messages, as the bridge reads them from a JSON line: the
//! `type` member decides, and each type takes the members it needs, with the
//! defaults that the bridge uses where a member is absent or of another kind.
use vstd::prelude::*;
use crate::json::{
    document_model, json_document, json_read, members_model, scalar_model, DocumentModel,
    JsonDocument, JsonMember, JsonScalar, ScalarModel,
};
use crate::text::same_text;

verus! {

/// A message of the engine.
pub enum EngineMessage {
    /// The line is not JSON.
    NotJson,
    /// A `book` message; the snapshot itself is decoded from the line.
    Book,
    /// A `fill` at this price (0 when the line has none).
    Fill { price: i64 },
    /// An `ack`, with the acknowledged order's id when the line has one.
    Ack { order_id: Option<u64> },
    /// A `cancel_result`: whether the engine cancelled (`false` unless the
    /// line says `true`).
    CancelResult { success: bool },
    /// An `error`, with its message ("engine error" when the line has none).
    Error { message: String },
    /// The answer to a latency ping.
    ClientPong,
    /// Any other type, or none.
    Other,
}

/// The value of an `EngineMessage`, with its text as a sequence.
pub enum MessageModel {
    NotJson,
    Book,
    Fill { price: i64 },
    Ack { order_id: Option<u64> },
    CancelResult { success: bool },
    Error { message: Seq<char> },
    ClientPong,
    Other,
}

/// A message, taken by its value.
pub open spec fn message_model(m: EngineMessage) -> MessageModel {
    match m {
        EngineMessage::NotJson => MessageModel::NotJson,
        EngineMessage::Book => MessageModel::Book,
        EngineMessage::Fill { price } => MessageModel::Fill { price },
        EngineMessage::Ack { order_id } => MessageModel::Ack { order_id },
        EngineMessage::CancelResult { success } => MessageModel::CancelResult { success },
        EngineMessage::Error { message } => MessageModel::Error { message: message@ },
        EngineMessage::ClientPong => MessageModel::ClientPong,
        EngineMessage::Other => MessageModel::Other,
    }
}

/// The value under `key` among an object's members (keys are unique in a
/// parsed object, so the first is the only one).
pub open spec fn first_member(ms: Seq<(Seq<char>, ScalarModel)>, key: Seq<char>) -> Option<
    ScalarModel,
>
    decreases ms.len(),
{
    if ms.len() == 0 {
        None
    } else if ms[0].0 == key {
        Some(ms[0].1)
    } else {
        first_member(ms.drop_first(), key)
    }
}

/// The member `key` of a document; a document that is not an object has
/// none.
pub open spec fn member_of(d: DocumentModel, key: Seq<char>) -> Option<ScalarModel> {
    match d {
        DocumentModel::Object(ms) => first_member(ms, key),
        DocumentModel::Other => None,
    }
}

/// The member `key` when it is a string.
pub open spec fn str_member(d: DocumentModel, key: Seq<char>) -> Option<Seq<char>> {
    match member_of(d, key) {
        Some(ScalarModel::Str(s)) => Some(s),
        _ => None,
    }
}

/// The member `key` when it is an integer that fits an `i64`.
pub open spec fn i64_member(d: DocumentModel, key: Seq<char>) -> Option<i64> {
    match member_of(d, key) {
        Some(ScalarModel::Number { as_i64, as_u64 }) => as_i64,
        _ => None,
    }
}

/// The member `key` when it is an integer that fits a `u64`.
pub open spec fn u64_member(d: DocumentModel, key: Seq<char>) -> Option<u64> {
    match member_of(d, key) {
        Some(ScalarModel::Number { as_i64, as_u64 }) => as_u64,
        _ => None,
    }
}

/// The member `key` when it is a boolean.
pub open spec fn bool_member(d: DocumentModel, key: Seq<char>) -> Option<bool> {
    match member_of(d, key) {
        Some(ScalarModel::Bool(b)) => Some(b),
        _ => None,
    }
}

/// The `type` member of a document, empty when it has none.
pub open spec fn message_type(d: DocumentModel) -> Seq<char> {
    match str_member(d, "type"@) {
        Some(t) => t,
        None => Seq::empty(),
    }
}

/// The message that a parsed line (or a line that did not parse) carries.
pub open spec fn spec_decode(doc: Option<DocumentModel>) -> MessageModel {
    match doc {
        None => MessageModel::NotJson,
        Some(d) => {
            let t = message_type(d);
            if t == "book"@ {
                MessageModel::Book
            } else if t == "fill"@ {
                MessageModel::Fill {
                    price: match i64_member(d, "price"@) {
                        Some(p) => p,
                        None => 0,
                    },
                }
            } else if t == "ack"@ {
                MessageModel::Ack { order_id: u64_member(d, "order_id"@) }
            } else if t == "cancel_result"@ {
                MessageModel::CancelResult { success: bool_member(d, "success"@) == Some(true) }
            } else if t == "error"@ {
                MessageModel::Error {
                    message: match str_member(d, "message"@) {
                        Some(m) => m,
                        None => "engine error"@,
                    },
                }
            } else if t == "client_pong"@ {
                MessageModel::ClientPong
            } else {
                MessageModel::Other
            }
        },
    }
}

/// The message of an engine line, as `serde_json` reads the line.
pub open spec fn line_message(text: Seq<char>) -> MessageModel {
    spec_decode(json_document(text))
}

proof fn lemma_message_types_distinct()
    ensures
        "book"@ != "fill"@,
        "book"@ != "ack"@,
        "book"@ != "cancel_result"@,
        "book"@ != "error"@,
        "book"@ != "client_pong"@,
        "fill"@ != "ack"@,
        "fill"@ != "cancel_result"@,
        "fill"@ != "error"@,
        "fill"@ != "client_pong"@,
        "ack"@ != "cancel_result"@,
        "ack"@ != "error"@,
        "ack"@ != "client_pong"@,
        "cancel_result"@ != "error"@,
        "cancel_result"@ != "client_pong"@,
        "error"@ != "client_pong"@,
{
    reveal_strlit("book");
    reveal_strlit("fill");
    reveal_strlit("ack");
    reveal_strlit("cancel_result");
    reveal_strlit("error");
    reveal_strlit("client_pong");
    assert("book"@[0] != "fill"@[0]);
    assert("book"@[0] != "error"@[0]);
    assert("fill"@[0] != "error"@[0]);
    assert("ack"@[0] != "cancel_result"@[0]);
    assert("ack"@[0] != "client_pong"@[0]);
    assert("cancel_result"@[1] != "client_pong"@[1]);
}

/// The position of the member `key` among `members`, the first where keys
/// repeat.
pub fn find_member(members: &Vec<JsonMember>, key: &str) -> (r: Option<usize>)
    ensures
        match r {
            Some(i) => i < members@.len() && first_member(members_model(members@), key@) == Some(
                scalar_model(members@[i as int].value),
            ),
            None => first_member(members_model(members@), key@) is None,
        },
{
    let ghost ms = members_model(members@);
    let mut i: usize = 0;
    assert(ms.skip(0) =~= ms);
    while i < members.len()
        invariant
            i <= members@.len(),
            ms == members_model(members@),
            first_member(ms, key@) == first_member(ms.skip(i as int), key@),
        decreases members@.len() - i,
    {
        assert(ms.skip(i as int)[0] == (members@[i as int].key@, scalar_model(
            members@[i as int].value,
        )));
        if same_text(members[i].key.as_str(), key) {
            return Some(i);
        }
        assert(ms.skip(i as int).drop_first() =~= ms.skip(i + 1));
        i = i + 1;
    }
    None
}

fn member<'a>(doc: &'a JsonDocument, key: &str) -> (r: Option<&'a JsonScalar>)
    ensures
        match r {
            Some(v) => member_of(document_model(Some(*doc)).unwrap(), key@) == Some(
                scalar_model(*v),
            ),
            None => member_of(document_model(Some(*doc)).unwrap(), key@) is None,
        },
{
    match doc {
        JsonDocument::Object(ms) => match find_member(ms, key) {
            Some(i) => Some(&ms[i].value),
            None => None,
        },
        JsonDocument::Other => None,
    }
}

fn string_member(doc: &JsonDocument, key: &str) -> (r: Option<String>)
    ensures
        match r {
            Some(s) => str_member(document_model(Some(*doc)).unwrap(), key@) == Some(s@),
            None => str_member(document_model(Some(*doc)).unwrap(), key@) is None,
        },
{
    match member(doc, key) {
        Some(JsonScalar::Str(s)) => Some(s.clone()),
        _ => None,
    }
}

/// Reads the message that a document carries, or `NotJson` without one.
pub fn decode_document(doc: &Option<JsonDocument>) -> (r: EngineMessage)
    ensures
        message_model(r) == spec_decode(document_model(*doc)),
{
    let d = match doc {
        None => {
            return EngineMessage::NotJson;
        },
        Some(d) => d,
    };
    proof {
        lemma_message_types_distinct();
    }
    let typ: String = match string_member(d, "type") {
        Some(t) => t,
        None => String::new(),
    };
    if same_text(typ.as_str(), "book") {
        EngineMessage::Book
    } else if same_text(typ.as_str(), "fill") {
        let price: i64 = match member(d, "price") {
            Some(JsonScalar::Number { as_i64: Some(p), .. }) => *p,
            _ => 0,
        };
        EngineMessage::Fill { price }
    } else if same_text(typ.as_str(), "ack") {
        let order_id: Option<u64> = match member(d, "order_id") {
            Some(JsonScalar::Number { as_u64, .. }) => *as_u64,
            _ => None,
        };
        EngineMessage::Ack { order_id }
    } else if same_text(typ.as_str(), "cancel_result") {
        let success: bool = match member(d, "success") {
            Some(JsonScalar::Bool(b)) => *b,
            _ => false,
        };
        EngineMessage::CancelResult { success }
    } else if same_text(typ.as_str(), "error") {
        let message = match string_member(d, "message") {
            Some(m) => m,
            None => String::from_str("engine error"),
        };
        EngineMessage::Error { message }
    } else if same_text(typ.as_str(), "client_pong") {
        EngineMessage::ClientPong
    } else {
        EngineMessage::Other
    }
}

/// Reads the message of one engine line.
pub fn decode_line(text: &str) -> (r: EngineMessage)
    ensures
        message_model(r) == line_message(text@),
{
    let doc = json_read(text);
    decode_document(&doc)
}

} // verus!
