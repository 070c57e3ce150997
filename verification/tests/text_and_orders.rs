use oes_desktop::display::{cache_text, dismiss_toast, order_id_text};
use oes_desktop::orders::{cancel_line, order_line, ping_line};
use oes_desktop::text::{
    i64_to_decimal, parse_i32_trimmed, parse_i64_trimmed, same_text, u64_to_decimal,
};

#[test]
fn decimal_formatting() {
    assert_eq!(i64_to_decimal(0), "0");
    assert_eq!(i64_to_decimal(100500000), "100500000");
    assert_eq!(i64_to_decimal(-42), "-42");
    assert_eq!(i64_to_decimal(i64::MIN), "-9223372036854775808");
    assert_eq!(i64_to_decimal(i64::MAX), "9223372036854775807");
    assert_eq!(u64_to_decimal(u64::MAX), "18446744073709551615");
}

#[test]
fn parsing_matches_std() {
    let cases = [
        "", " ", "0", "  12  ", "+7", "-7", "-", "+", "1 2", "12a", "\t\n99\r", "\u{3000}5\u{2009}",
        "9223372036854775807", "9223372036854775808", "-9223372036854775808",
        "-9223372036854775809", "2147483647", "2147483648", "-2147483648", "-2147483649", "٣",
        "00042", "+-1", "18446744073709551616", "99999999999999999999999999999999999999999",
    ];
    for c in cases.iter() {
        assert_eq!(parse_i64_trimmed(c), c.trim().parse::<i64>().ok(), "i64 {:?}", c);
        assert_eq!(parse_i32_trimmed(c), c.trim().parse::<i32>().ok(), "i32 {:?}", c);
    }
}

#[test]
fn decimal_round_trip_on_values() {
    for v in [0i64, 1, -1, 10, 99, 100, -100, 123456789, i64::MIN, i64::MAX] {
        assert_eq!(parse_i64_trimmed(&i64_to_decimal(v)), Some(v));
    }
}

#[test]
fn same_text_compares_characters() {
    assert!(same_text("book", "book"));
    assert!(!same_text("book", "books"));
    assert!(!same_text("book", "fill"));
    assert!(same_text("", ""));
    assert!(same_text("é€", "é€"));
}

#[test]
fn order_line_writes_sorted_compact_json() {
    let line = order_line("BUY", "100500000", "10", "LIMIT", "GTC").unwrap();
    assert_eq!(line, r#"{"price":100500000,"qty":10,"side":"BUY","tif":"GTC","type":"LIMIT"}"#);
    let parsed: serde_json::Value = serde_json::from_str(&line).unwrap();
    assert_eq!(parsed["price"].as_i64(), Some(100500000));
    assert_eq!(parsed["qty"].as_i64(), Some(10));
}

#[test]
fn order_line_trims_fields_and_escapes_text() {
    let line = order_line("SE\"LL", "  -5 ", "\t3\n", "MARKET", "IOC").unwrap();
    assert_eq!(line, r#"{"price":-5,"qty":3,"side":"SE\"LL","tif":"IOC","type":"MARKET"}"#);
    let parsed: serde_json::Value = serde_json::from_str(&line).unwrap();
    assert_eq!(parsed["side"].as_str(), Some("SE\"LL"));
}

#[test]
fn order_line_rejects_bad_numbers() {
    assert_eq!(order_line("BUY", "abc", "10", "LIMIT", "GTC"), Err("invalid price".to_string()));
    assert_eq!(order_line("BUY", "abc", "x", "LIMIT", "GTC"), Err("invalid price".to_string()));
    assert_eq!(order_line("BUY", "1", "x", "LIMIT", "GTC"), Err("invalid qty".to_string()));
    assert_eq!(
        order_line("BUY", "1", "2147483648", "LIMIT", "GTC"),
        Err("invalid qty".to_string())
    );
    assert_eq!(
        order_line("BUY", "9223372036854775808", "1", "LIMIT", "GTC"),
        Err("invalid price".to_string())
    );
}

#[test]
fn cancel_line_targets_the_id() {
    assert_eq!(cancel_line(Some(42)), Ok(r#"{"action":"cancel","id":42}"#.to_string()));
    assert_eq!(cancel_line(None), Err("no last order id yet".to_string()));
    assert_eq!(cancel_line(Some(u64::MAX)), Ok(r#"{"action":"cancel","id":-1}"#.to_string()));
}

#[test]
fn ping_line_carries_the_id() {
    assert_eq!(ping_line(1700000000123), r#"{"id":1700000000123,"type":"client_ping"}"#);
}

#[test]
fn health_and_header_texts() {
    assert_eq!(cache_text(Some(100), Some(-3)), "100 / -3");
    assert_eq!(cache_text(None, Some(7)), "\u{2014} / 7");
    assert_eq!(cache_text(None, None), "\u{2014} / \u{2014}");
    assert_eq!(order_id_text(Some(77)), "77");
    assert_eq!(order_id_text(None), "\u{2014}");
}

#[test]
fn dismissing_a_toast_removes_only_that_one() {
    let mut v = vec!["a".to_string(), "b".to_string(), "c".to_string()];
    dismiss_toast(&mut v, 1);
    assert_eq!(v, vec!["a".to_string(), "c".to_string()]);
    dismiss_toast(&mut v, 5);
    assert_eq!(v, vec!["a".to_string(), "c".to_string()]);
}
