use oes_desktop::book::{
    ladder_view, max_qty, midpoint, midpoint_from_book, BookLevel, BookSnapshot,
};
use oes_desktop::bridge::{
    BridgeState, EngineFrame, FrameAction, LineAction, FRAME_NS, WINDOW_NS,
};

fn book(bid: i64, ask: Option<i64>) -> BookSnapshot {
    let mut b = BookSnapshot::empty();
    b.msg_type = Some("book".to_string());
    b.best_bid = bid;
    b.best_ask = ask;
    b
}

fn lvl(price: i64, qty: i32) -> BookLevel {
    BookLevel { price, qty }
}

#[test]
fn midpoint_needs_two_positive_sides() {
    assert_eq!(midpoint(10_000_000, Some(10_500_000)), Some(20_500_000));
    assert_eq!(midpoint(10_000_000, None), None);
    assert_eq!(midpoint(0, Some(10)), None);
    assert_eq!(midpoint(-1, Some(10)), None);
    assert_eq!(midpoint(10, Some(0)), None);
    assert_eq!(midpoint(10, Some(i64::MAX)), None);
    assert_eq!(midpoint(i64::MAX, Some(i64::MAX - 1)), Some(2 * (i64::MAX as i128) - 1));
    assert_eq!(midpoint_from_book(&book(3, Some(5))), Some(8));
}

#[test]
fn max_qty_is_at_least_one() {
    assert_eq!(max_qty(&[]), 1);
    assert_eq!(max_qty(&[lvl(1, 0), lvl(2, -5)]), 1);
    assert_eq!(max_qty(&[lvl(1, 3), lvl(2, 9), lvl(3, 4)]), 9);
}

#[test]
fn ladder_shows_ten_levels_asks_reversed() {
    let mut b = book(100, Some(110));
    for i in 0..12 {
        b.asks.push(lvl(110 + i, (i + 1) as i32));
        b.bids.push(lvl(100 - i, 2));
    }
    let l = ladder_view(&b);
    assert_eq!(l.asks.len(), 10);
    assert_eq!(l.asks[0], lvl(119, 10));
    assert_eq!(l.asks[9], lvl(110, 1));
    assert_eq!(l.bids.len(), 10);
    assert_eq!(l.bids[0], lvl(100, 2));
    assert_eq!(l.bids[9], lvl(91, 2));
    assert_eq!(l.max_qty, 12);
    assert_eq!(l.spread, Some(10));
    assert_eq!(l.mid_x2, Some(210));

    let one_sided = ladder_view(&book(100, None));
    assert_eq!(one_sided.spread, None);
    assert_eq!(one_sided.mid_x2, None);
    assert_eq!(one_sided.max_qty, 1);
    assert!(one_sided.asks.is_empty());
    let crossed = ladder_view(&book(100, Some(-5)));
    assert_eq!(crossed.spread, Some(-105));
    assert_eq!(crossed.mid_x2, None);
}

#[test]
fn fresh_bridge_shows_nothing() {
    let mut s = BridgeState::new();
    let ui = s.snapshot_ui(0);
    assert!(ui.book.is_none());
    assert!(!ui.ws_connected);
    assert_eq!(ui.latency_ns, 0);
    assert_eq!(ui.last_order_id, None);
    assert!(ui.midpoint_series.is_empty());
    assert!(ui.fill_markers.is_empty());
    assert!(ui.toasts.is_empty());
    assert_eq!(ui.engine_connections, 0);
    assert_eq!(ui.best_bid_cached, None);
    assert_eq!(ui.best_ask_cached, None);
}

#[test]
fn book_line_asks_for_decoding_and_commits_on_poll() {
    let mut s = BridgeState::new();
    let line = r#"{"type":"book","best_bid":10000000,"best_ask":10500000,"connections":3}"#;
    assert!(matches!(s.ingest_json_line(line, 5), LineAction::DecodeBook));
    let mut b = book(10_000_000, Some(10_500_000));
    b.connections = Some(3);
    b.best_ask_cached = Some(10_400_000);
    s.ingest_book(Ok(b));
    let ui = s.snapshot_ui(1_000);
    let shown = ui.book.unwrap();
    assert_eq!(shown.best_bid, 10_000_000);
    assert_eq!(ui.engine_connections, 3);
    assert_eq!(ui.best_bid_cached, Some(10_000_000));
    assert_eq!(ui.best_ask_cached, Some(10_400_000));
    assert_eq!(ui.midpoint_series.len(), 1);
    assert_eq!(ui.midpoint_series[0].t_ns, 1_000);
    assert_eq!(ui.midpoint_series[0].mid_x2, 20_500_000);
}

#[test]
fn commits_are_throttled_to_one_per_frame() {
    let mut s = BridgeState::new();
    s.ingest_book(Ok(book(10, Some(20))));
    let ui = s.snapshot_ui(1_000);
    assert_eq!(ui.book.unwrap().best_bid, 10);
    s.ingest_book(Ok(book(11, Some(21))));
    let ui = s.snapshot_ui(1_000 + FRAME_NS - 1);
    assert_eq!(ui.book.unwrap().best_bid, 10);
    assert_eq!(ui.midpoint_series.len(), 1);
    s.ingest_book(Ok(book(12, Some(22))));
    let ui = s.snapshot_ui(1_000 + FRAME_NS);
    assert_eq!(ui.book.unwrap().best_bid, 12);
    assert_eq!(ui.midpoint_series.len(), 2);
    assert_eq!(ui.midpoint_series[1].mid_x2, 34);
}

#[test]
fn one_sided_book_commits_without_a_midpoint() {
    let mut s = BridgeState::new();
    s.ingest_book(Ok(book(10, None)));
    let ui = s.snapshot_ui(0);
    assert_eq!(ui.book.unwrap().best_bid, 10);
    assert!(ui.midpoint_series.is_empty());
    assert_eq!(ui.best_ask_cached, None);
}

#[test]
fn bad_book_leaves_a_notice() {
    let mut s = BridgeState::new();
    s.ingest_book(Err("missing field `price`".to_string()));
    let ui = s.snapshot_ui(0);
    assert_eq!(ui.toasts, vec!["book parse: missing field `price`".to_string()]);
    assert!(ui.book.is_none());
}

#[test]
fn non_json_and_error_lines_leave_notices_once() {
    let mut s = BridgeState::new();
    assert!(matches!(s.ingest_json_line("not json", 0), LineAction::Done));
    s.ingest_json_line(r#"{"type":"error","message":"price out of band"}"#, 0);
    s.ingest_json_line(r#"{"type":"error"}"#, 0);
    s.ingest_json_line(r#"{"type":"cancel_result","success":false}"#, 0);
    s.ingest_json_line(r#"{"type":"cancel_result"}"#, 0);
    s.ingest_json_line(r#"{"type":"cancel_result","success":true}"#, 0);
    let ui = s.snapshot_ui(0);
    assert_eq!(
        ui.toasts,
        vec![
            "Non-JSON message from engine".to_string(),
            "price out of band".to_string(),
            "engine error".to_string(),
            "Cancel rejected by engine".to_string(),
            "Cancel rejected by engine".to_string(),
        ]
    );
    let again = s.snapshot_ui(0);
    assert!(again.toasts.is_empty());
}

#[test]
fn ack_records_the_order_id() {
    let mut s = BridgeState::new();
    s.ingest_json_line(r#"{"type":"ack","order_id":77}"#, 0);
    assert_eq!(s.last_order_id(), Some(77));
    s.ingest_json_line(r#"{"type":"ack","order_id":-3}"#, 0);
    assert_eq!(s.last_order_id(), Some(77));
    s.ingest_json_line(r#"{"type":"ack"}"#, 0);
    assert_eq!(s.snapshot_ui(0).last_order_id, Some(77));
}

#[test]
fn fills_are_marked_at_their_time() {
    let mut s = BridgeState::new();
    s.ingest_json_line(r#"{"type":"fill","price":10250000,"qty":3}"#, 7);
    s.ingest_json_line(r#"{"type":"fill"}"#, 9);
    let ui = s.snapshot_ui(10);
    assert_eq!(ui.fill_markers.len(), 2);
    assert_eq!((ui.fill_markers[0].t_ns, ui.fill_markers[0].price), (7, 10_250_000));
    assert_eq!((ui.fill_markers[1].t_ns, ui.fill_markers[1].price), (9, 0));
}

#[test]
fn series_keep_a_window_of_time() {
    let mut s = BridgeState::new();
    s.ingest_book(Ok(book(10, Some(20))));
    s.snapshot_ui(0);
    s.ingest_json_line(r#"{"type":"fill","price":15}"#, 1);
    s.ingest_json_line(r#"{"type":"fill","price":16}"#, WINDOW_NS + 1);
    let ui = s.snapshot_ui(WINDOW_NS + 1);
    // the midpoint at 0 lies more than the window before the newest fill
    assert!(ui.midpoint_series.is_empty());
    assert_eq!(ui.fill_markers.len(), 2);
    s.ingest_json_line(r#"{"type":"fill","price":17}"#, WINDOW_NS + 2);
    let ui = s.snapshot_ui(WINDOW_NS + 2);
    assert_eq!(ui.fill_markers.len(), 2);
    assert_eq!(ui.fill_markers[0].price, 16);
}

#[test]
fn pong_measures_latency_once() {
    let mut s = BridgeState::new();
    let line = s.begin_ping(1_000, 55);
    assert_eq!(line, r#"{"id":55,"type":"client_pong"}"#.replace("client_pong", "client_ping"));
    s.ingest_json_line(r#"{"type":"client_pong","id":55}"#, 4_000);
    assert_eq!(s.snapshot_ui(4_000).latency_ns, 3_000);
    s.ingest_json_line(r#"{"type":"client_pong","id":55}"#, 9_000);
    assert_eq!(s.snapshot_ui(9_000).latency_ns, 3_000);
}

#[test]
fn unknown_types_change_nothing() {
    let mut s = BridgeState::new();
    s.ingest_json_line(r#"{"type":"heartbeat"}"#, 0);
    s.ingest_json_line(r#"[1,2,3]"#, 0);
    s.ingest_json_line(r#"{"kind":"fill"}"#, 0);
    let ui = s.snapshot_ui(0);
    assert!(ui.toasts.is_empty());
    assert!(ui.fill_markers.is_empty());
}

#[test]
fn connection_events_update_status_and_notices() {
    let mut s = BridgeState::new();
    s.on_connected();
    assert!(s.snapshot_ui(0).ws_connected);
    s.on_disconnected();
    s.on_connect_failed();
    let ui = s.snapshot_ui(0);
    assert!(!ui.ws_connected);
    assert_eq!(
        ui.toasts,
        vec![
            "WebSocket disconnected \u{2014} reconnecting\u{2026}".to_string(),
            "Cannot connect to engine at ws://127.0.0.1:8080/ws (is oes_engine running?)"
                .to_string(),
        ]
    );
}

#[test]
fn frames_drive_the_read_loop() {
    let mut s = BridgeState::new();
    assert!(matches!(s.on_frame(EngineFrame::Ping(vec![1, 2]), 0), FrameAction::Pong(p) if p == vec![1, 2]));
    assert!(matches!(s.on_frame(EngineFrame::Other, 0), FrameAction::Continue));
    assert!(matches!(s.on_frame(EngineFrame::Close, 0), FrameAction::Stop));
    assert!(matches!(s.on_frame(EngineFrame::End, 0), FrameAction::Stop));
    assert!(matches!(s.on_frame(EngineFrame::Error, 0), FrameAction::Stop));
    let book_line = r#"{"type":"book","best_bid":1}"#.to_string();
    match s.on_frame(EngineFrame::Text(book_line.clone()), 0) {
        FrameAction::DecodeBook(t) => assert_eq!(t, book_line),
        _ => panic!("book line not handed back"),
    }
    assert!(matches!(
        s.on_frame(EngineFrame::Text(r#"{"type":"ack","order_id":5}"#.to_string()), 0),
        FrameAction::Continue
    ));
    assert_eq!(s.last_order_id(), Some(5));
}

#[test]
fn newest_book_wins_and_commit_settles() {
    let mut s = BridgeState::new();
    s.ingest_book(Ok(book(10, Some(20))));
    s.ingest_book(Ok(book(11, Some(21))));
    let ui = s.snapshot_ui(0);
    assert_eq!(ui.book.unwrap().best_bid, 11);
    assert_eq!(ui.midpoint_series.len(), 1);
    let later = s.snapshot_ui(10 * FRAME_NS);
    assert_eq!(later.book.unwrap().best_bid, 11);
    assert_eq!(later.midpoint_series.len(), 1);
}

#[test]
fn quick_cancel_follows_the_last_ack() {
    let mut s = BridgeState::new();
    s.ingest_json_line(r#"{"type":"ack","order_id":12}"#, 0);
    s.ingest_json_line(r#"{"type":"ack","order_id":13}"#, 0);
    assert_eq!(
        oes_desktop::orders::cancel_line(s.last_order_id()),
        Ok(r#"{"action":"cancel","id":13}"#.to_string())
    );
}

#[test]
fn series_stay_in_time_order() {
    let mut s = BridgeState::new();
    let mut t = 0u64;
    for i in 0..20i64 {
        t += 3 * FRAME_NS;
        s.ingest_book(Ok(book(100 + i, Some(200 + i))));
        s.ingest_json_line(&format!(r#"{{"type":"fill","price":{}}}"#, 150 + i), t);
        s.snapshot_ui(t + 1);
    }
    let ui = s.snapshot_ui(t + 2);
    assert!(ui.midpoint_series.windows(2).all(|w| w[0].t_ns <= w[1].t_ns));
    assert!(ui.fill_markers.windows(2).all(|w| w[0].t_ns <= w[1].t_ns));
    assert_eq!(ui.midpoint_series.len(), 20);
    assert_eq!(ui.fill_markers.len(), 20);
}

#[test]
fn midpoint_lies_between_bid_and_ask() {
    for (bid, ask) in [(1i64, 1i64), (1, 2), (10_000_000, 10_000_001), (5, 1_000_000_000)] {
        let m = midpoint(bid, Some(ask)).unwrap();
        assert!(2 * bid as i128 <= m && m <= 2 * ask as i128);
    }
}
