use oes_desktop::bridge::{BridgeState, LineAction};
use oes_desktop::display::{append_notices, failure_notice, FailedAction};
use oes_desktop::json::{JsonDocument, JsonMember, JsonScalar};
use oes_desktop::message::{decode_document, decode_line, find_member, EngineMessage};
use oes_desktop::orders::order_line;

fn member(key: &str, value: JsonScalar) -> JsonMember {
    JsonMember { key: key.to_string(), value }
}

#[test]
fn lines_decode_to_messages() {
    assert!(matches!(decode_line("nope"), EngineMessage::NotJson));
    assert!(matches!(decode_line(r#"{"type":"book","bids":[]}"#), EngineMessage::Book));
    assert!(matches!(decode_line(r#"{"type":"fill","price":123}"#), EngineMessage::Fill { price: 123 }));
    assert!(matches!(decode_line(r#"{"type":"fill","price":1.5}"#), EngineMessage::Fill { price: 0 }));
    assert!(matches!(
        decode_line(r#"{"order_id":9,"type":"ack"}"#),
        EngineMessage::Ack { order_id: Some(9) }
    ));
    assert!(matches!(
        decode_line(r#"{"type":"ack","order_id":"9"}"#),
        EngineMessage::Ack { order_id: None }
    ));
    assert!(matches!(
        decode_line(r#"{"type":"cancel_result","success":true}"#),
        EngineMessage::CancelResult { success: true }
    ));
    assert!(matches!(
        decode_line(r#"{"type":"cancel_result","success":1}"#),
        EngineMessage::CancelResult { success: false }
    ));
    match decode_line(r#"{"type":"error","message":"halted"}"#) {
        EngineMessage::Error { message } => assert_eq!(message, "halted"),
        _ => panic!("not an error message"),
    }
    match decode_line(r#"{"type":"error","message":3}"#) {
        EngineMessage::Error { message } => assert_eq!(message, "engine error"),
        _ => panic!("not an error message"),
    }
    assert!(matches!(decode_line(r#"{"type":"client_pong"}"#), EngineMessage::ClientPong));
    assert!(matches!(decode_line(r#"{"type":"Book"}"#), EngineMessage::Other));
    assert!(matches!(decode_line(r#""book""#), EngineMessage::Other));
    assert!(matches!(decode_line(r#"{"type":"fill","type":"ack","order_id":4}"#), EngineMessage::Ack { order_id: Some(4) }));
}

#[test]
fn documents_decode_by_their_members() {
    let doc = Some(JsonDocument::Object(vec![
        member("price", JsonScalar::Number { as_i64: Some(-5), as_u64: None }),
        member("type", JsonScalar::Str("fill".to_string())),
    ]));
    assert!(matches!(decode_document(&doc), EngineMessage::Fill { price: -5 }));
    assert!(matches!(decode_document(&Some(JsonDocument::Other)), EngineMessage::Other));
    assert!(matches!(decode_document(&None), EngineMessage::NotJson));
    let ms = vec![member("a", JsonScalar::Other), member("b", JsonScalar::Bool(true))];
    assert_eq!(find_member(&ms, "b"), Some(1));
    assert_eq!(find_member(&ms, "c"), None);
}

#[test]
fn messages_apply_to_the_state() {
    let mut s = BridgeState::new();
    assert!(matches!(s.apply_message(EngineMessage::Book, 0), LineAction::DecodeBook));
    assert!(matches!(s.apply_message(EngineMessage::Ack { order_id: Some(3) }, 0), LineAction::Done));
    s.apply_message(EngineMessage::Error { message: "x".to_string() }, 0);
    s.apply_message(EngineMessage::Fill { price: 8 }, 4);
    let ui = s.snapshot_ui(5);
    assert_eq!(ui.last_order_id, Some(3));
    assert_eq!(ui.toasts, vec!["x".to_string()]);
    assert_eq!((ui.fill_markers[0].t_ns, ui.fill_markers[0].price), (4, 8));
}

#[test]
fn order_text_is_escaped_as_json() {
    let line = order_line("a\u{1}\t\\b/é", "1", "2", "LIMIT", "GTC").unwrap();
    assert_eq!(
        line,
        "{\"price\":1,\"qty\":2,\"side\":\"a\\u0001\\t\\\\b/é\",\"tif\":\"GTC\",\"type\":\"LIMIT\"}"
    );
    assert_eq!(
        serde_json::to_string("a\u{1f}\u{8}\u{c}\r\n\"").unwrap(),
        "\"a\\u001f\\b\\f\\r\\n\\\"\""
    );
}

#[test]
fn ui_notices_keep_their_order() {
    let mut list = vec!["old".to_string()];
    append_notices(&mut list, vec!["a".to_string(), "b".to_string()]);
    assert_eq!(list, vec!["old".to_string(), "a".to_string(), "b".to_string()]);
    assert_eq!(failure_notice(FailedAction::StateSync, "timeout"), "state sync: timeout");
    assert_eq!(failure_notice(FailedAction::Ping, "x"), "ping: x");
    assert_eq!(failure_notice(FailedAction::OrderRejected, "x"), "Order rejected: x");
    assert_eq!(failure_notice(FailedAction::CancelFailed, "x"), "Cancel failed: x");
}
