//! The text that the UI's panels derive from the bridge's integers, and the
//! notice list that the user dismisses one by one.
use vstd::prelude::*;
use crate::text::{int_decimal, nat_digits, push_i64_decimal, push_u64_decimal};

verus! {

/// A value in base ten, or an em dash when there is none.
pub open spec fn optional_i64_text(v: Option<i64>) -> Seq<char> {
    match v {
        Some(x) => int_decimal(x as int),
        None => "\u{2014}"@,
    }
}

/// The health panel's top-of-book cache: `bid / ask`, each in fixed-point
/// units, an em dash for a side the engine has not cached.
pub open spec fn cache_text_spec(best_bid: Option<i64>, best_ask: Option<i64>) -> Seq<char> {
    optional_i64_text(best_bid) + " / "@ + optional_i64_text(best_ask)
}

fn push_optional_i64(out: &mut String, v: Option<i64>)
    ensures
        final(out)@ == old(out)@ + optional_i64_text(v),
{
    match v {
        Some(x) => push_i64_decimal(out, x),
        None => out.append("\u{2014}"),
    }
}

/// Writes the health panel's top-of-book cache line.
pub fn cache_text(best_bid: Option<i64>, best_ask: Option<i64>) -> (r: String)
    ensures
        r@ == cache_text_spec(best_bid, best_ask),
{
    let mut s = String::new();
    push_optional_i64(&mut s, best_bid);
    s.append(" / ");
    push_optional_i64(&mut s, best_ask);
    assert(s@ =~= cache_text_spec(best_bid, best_ask));
    s
}

/// The header's last order id, an em dash before the first acknowledgement.
pub open spec fn order_id_text_spec(id: Option<u64>) -> Seq<char> {
    match id {
        Some(x) => nat_digits(x as nat),
        None => "\u{2014}"@,
    }
}

/// Writes the header's last order id.
pub fn order_id_text(id: Option<u64>) -> (r: String)
    ensures
        r@ == order_id_text_spec(id),
{
    let mut s = String::new();
    match id {
        Some(x) => push_u64_decimal(&mut s, x),
        None => s.append("\u{2014}"),
    }
    assert(s@ =~= order_id_text_spec(id));
    s
}

/// Removes the notice at position `i`, if there is one there; the others
/// keep their order.
pub fn dismiss_toast(items: &mut Vec<String>, i: usize)
    ensures
        final(items)@ == (if i < old(items)@.len() {
            old(items)@.remove(i as int)
        } else {
            old(items)@
        }),
{
    if i < items.len() {
        items.remove(i);
    }
}

/// The UI actions whose failure the UI reports as a notice.
pub enum FailedAction {
    /// Polling the bridge's state.
    StateSync,
    /// Sending a latency ping.
    Ping,
    /// Submitting an order.
    OrderRejected,
    /// Cancelling the last order.
    CancelFailed,
}

/// The words that a failure notice starts with.
pub open spec fn failure_prefix(a: FailedAction) -> Seq<char> {
    match a {
        FailedAction::StateSync => "state sync: "@,
        FailedAction::Ping => "ping: "@,
        FailedAction::OrderRejected => "Order rejected: "@,
        FailedAction::CancelFailed => "Cancel failed: "@,
    }
}

/// The notice for a failed UI action: what failed, then the reason given.
pub fn failure_notice(action: FailedAction, reason: &str) -> (r: String)
    ensures
        r@ == failure_prefix(action) + reason@,
{
    let mut s = match action {
        FailedAction::StateSync => String::from_str("state sync: "),
        FailedAction::Ping => String::from_str("ping: "),
        FailedAction::OrderRejected => String::from_str("Order rejected: "),
        FailedAction::CancelFailed => String::from_str("Cancel failed: "),
    };
    s.append(reason);
    s
}

/// Adds the notices of one poll to the UI's list, after those it shows,
/// in the order the bridge handed them over.
pub fn append_notices(list: &mut Vec<String>, polled: Vec<String>)
    ensures
        final(list)@ == old(list)@ + polled@,
{
    let mut polled = polled;
    list.append(&mut polled);
}

} // verus!
