//! The lines that the desktop sends to the engine: new orders, cancels of the
//! last acknowledged order, and latency pings. Each is one compact JSON
//! object with its members in key order.
use vstd::prelude::*;
use crate::json::{json_quote, json_string_literal};
use crate::text::{
    int_decimal, parse_i32_trimmed, parse_i64_trimmed, parse_int_in, push_i64_decimal, trim,
};

verus! {

/// A `Result` of two strings, taken by the text of each.
pub open spec fn result_text(r: Result<String, String>) -> Result<Seq<char>, Seq<char>> {
    match r {
        Ok(s) => Ok(s@),
        Err(e) => Err(e@),
    }
}

/// The line of a new order: price and quantity as numbers, side, time in
/// force and order type as JSON strings.
pub open spec fn order_line_text(
    side: Seq<char>,
    price: int,
    qty: int,
    order_type: Seq<char>,
    tif: Seq<char>,
) -> Seq<char> {
    "{\"price\":"@ + int_decimal(price) + ",\"qty\":"@ + int_decimal(qty) + ",\"side\":"@
        + json_string_literal(side) + ",\"tif\":"@ + json_string_literal(tif) + ",\"type\":"@
        + json_string_literal(order_type) + "}"@
}

/// What a new order's fields give: the price must be an `i64` and the
/// quantity an `i32`, each written in base ten with whitespace around it
/// allowed; the price is checked first.
pub open spec fn spec_order_line(
    side: Seq<char>,
    price: Seq<char>,
    qty: Seq<char>,
    order_type: Seq<char>,
    tif: Seq<char>,
) -> Result<Seq<char>, Seq<char>> {
    match parse_int_in(trim(price), i64::MIN as int, i64::MAX as int) {
        None => Err("invalid price"@),
        Some(p) => match parse_int_in(trim(qty), i32::MIN as int, i32::MAX as int) {
            None => Err("invalid qty"@),
            Some(q) => Ok(order_line_text(side, p, q, order_type, tif)),
        },
    }
}

/// Builds the line of a new order from the fields of the order form, or
/// says which field is not a number.
pub fn order_line(side: &str, price: &str, qty: &str, order_type: &str, tif: &str) -> (r: Result<
    String,
    String,
>)
    ensures
        result_text(r) == spec_order_line(side@, price@, qty@, order_type@, tif@),
{
    let p = match parse_i64_trimmed(price) {
        Some(p) => p,
        None => {
            return Err(String::from_str("invalid price"));
        },
    };
    let q = match parse_i32_trimmed(qty) {
        Some(q) => q,
        None => {
            return Err(String::from_str("invalid qty"));
        },
    };
    let mut line = String::from_str("{\"price\":");
    push_i64_decimal(&mut line, p);
    line.append(",\"qty\":");
    push_i64_decimal(&mut line, q as i64);
    line.append(",\"side\":");
    let quoted_side = json_quote(side);
    line.append(quoted_side.as_str());
    line.append(",\"tif\":");
    let quoted_tif = json_quote(tif);
    line.append(quoted_tif.as_str());
    line.append(",\"type\":");
    let quoted_type = json_quote(order_type);
    line.append(quoted_type.as_str());
    line.append("}");
    assert(line@ =~= order_line_text(side@, p as int, q as int, order_type@, tif@));
    Ok(line)
}

/// The line that cancels order `id`. The engine reads ids as signed, so the
/// id goes out as its two's-complement `i64`.
pub open spec fn cancel_line_text(id: u64) -> Seq<char> {
    "{\"action\":\"cancel\",\"id\":"@ + int_decimal((id as i64) as int) + "}"@
}

/// What a quick cancel gives: the cancel line of the last acknowledged
/// order, or an error while no order has been acknowledged.
pub open spec fn spec_cancel_line(last_order_id: Option<u64>) -> Result<Seq<char>, Seq<char>> {
    match last_order_id {
        Some(id) => Ok(cancel_line_text(id)),
        None => Err("no last order id yet"@),
    }
}

/// Builds the line that cancels the last acknowledged order.
pub fn cancel_line(last_order_id: Option<u64>) -> (r: Result<String, String>)
    ensures
        result_text(r) == spec_cancel_line(last_order_id),
{
    match last_order_id {
        None => Err(String::from_str("no last order id yet")),
        Some(id) => {
            let mut line = String::from_str("{\"action\":\"cancel\",\"id\":");
            push_i64_decimal(&mut line, id as i64);
            line.append("}");
            assert(line@ =~= cancel_line_text(id));
            Ok(line)
        },
    }
}

/// The line of a latency ping with the given id.
pub open spec fn ping_line_text(id: i64) -> Seq<char> {
    "{\"id\":"@ + int_decimal(id as int) + ",\"type\":\"client_ping\"}"@
}

/// Builds the line of a latency ping.
pub fn ping_line(id: i64) -> (r: String)
    ensures
        r@ == ping_line_text(id),
{
    let mut line = String::from_str("{\"id\":");
    push_i64_decimal(&mut line, id);
    line.append(",\"type\":\"client_ping\"}");
    assert(line@ =~= ping_line_text(id));
    line
}

} // verus!
