//! What holds of the bridge across calls: commits at most once per frame,
//! the newest book wins, notices reach the UI once, pongs answer one ping,
//! the chart keeps a window of time, and a cancel targets the last order
//! that the engine acknowledged.
use vstd::prelude::*;
use crate::book::{BookModel, spec_midpoint_x2, spec_spread};
use crate::bridge::{
    after_snapshot, applied, cached_ask_of, cached_bid_of, WINDOW_NS, book_decoded, commit_due, committed, is_stale,
    series_high, stale_fills, stale_mids, trimmed, lemma_stale_mids_prefix,
    lemma_stale_fills_prefix, BridgeModel, FillMarker, MidPoint, FRAME_NS,
};
use crate::message::MessageModel;
use crate::orders::{cancel_line_text, spec_cancel_line};

verus! {

/// Whether the midpoints are in time order.
pub open spec fn mids_in_order(m: Seq<MidPoint>) -> bool {
    forall|i: int, j: int| 0 <= i <= j < m.len() ==> m[i].t_ns <= m[j].t_ns
}

/// Whether the fill markers are in time order.
pub open spec fn fills_in_order(f: Seq<FillMarker>) -> bool {
    forall|i: int, j: int| 0 <= i <= j < f.len() ==> f[i].t_ns <= f[j].t_ns
}

/// Whether both series are in time order and no point lies after `now`.
pub open spec fn series_ordered_until(s: BridgeModel, now: u64) -> bool {
    &&& mids_in_order(s.midpoints)
    &&& fills_in_order(s.fills)
    &&& forall|i: int| 0 <= i < s.midpoints.len() ==> s.midpoints[i].t_ns <= now
    &&& forall|i: int| 0 <= i < s.fills.len() ==> s.fills[i].t_ns <= now
}

/// Commits are at least one frame apart: a call that commits at `now`
/// follows the previous commit by `FRAME_NS` or more, and dates the commit
/// `now`; a call that does not commit changes nothing.
pub proof fn lemma_commit_spacing(s: BridgeModel, now: u64)
    ensures
        committed(s, now).last_commit != s.last_commit ==> {
            &&& committed(s, now).last_commit == Some(now)
            &&& s.last_commit matches Some(t) ==> t + FRAME_NS <= now
        },
        !commit_due(s, now) ==> committed(s, now) == s,
{
}

/// A commit takes the waiting book: once nothing waits, another commit, at
/// any time, changes nothing.
pub proof fn lemma_commit_settles(s: BridgeModel, t1: u64, t2: u64)
    requires
        committed(s, t1).pending_book is None,
    ensures
        committed(committed(s, t1), t2) == committed(s, t1),
{
}

/// The newest book wins: of two books decoded one after the other, the
/// commit that is due shows the second.
pub proof fn lemma_latest_book_wins(s: BridgeModel, b1: BookModel, b2: BookModel, now: u64)
    requires
        s.last_commit matches Some(t) ==> now >= t + FRAME_NS,
    ensures
        committed(book_decoded(book_decoded(s, Ok(b1)), Ok(b2)), now).committed_book == Some(b2),
{
    let s2 = book_decoded(book_decoded(s, Ok(b1)), Ok(b2));
    let s3 = BridgeModel {
        pending_book: None,
        committed_book: Some(b2),
        last_commit: Some(now),
        ..s2
    };
    match spec_midpoint_x2(b2.best_bid, b2.best_ask) {
        Some(m) => {
            assert(trimmed(
                BridgeModel {
                    midpoints: s3.midpoints.push(MidPoint { t_ns: now, mid_x2: m as i128 }),
                    ..s3
                },
            ).committed_book == Some(b2));
        },
        None => {},
    }
}

/// Notices reach the UI once and in the order they arose: a commit leaves
/// them as they are, a poll hands over exactly those, and the poll after it
/// hands over none that arose in between.
pub proof fn lemma_notices_handed_once(s: BridgeModel, t1: u64, t2: u64)
    ensures
        committed(s, t1).toasts == s.toasts,
        after_snapshot(s, t1).toasts.len() == 0,
        committed(after_snapshot(s, t1), t2).toasts.len() == 0,
{
}

/// A pong answers the ping in flight once: a second pong, before another
/// ping goes out, changes nothing.
pub proof fn lemma_pong_answers_once(s: BridgeModel, t1: u64, t2: u64)
    ensures
        applied(s, MessageModel::ClientPong, t1).ping_sent_at is None,
        applied(applied(s, MessageModel::ClientPong, t1), MessageModel::ClientPong, t2) == applied(
            s,
            MessageModel::ClientPong,
            t1,
        ),
{
}

/// A quick cancel targets the order that the engine acknowledged last.
pub proof fn lemma_cancel_targets_last_ack(s: BridgeModel, now: u64, id: u64)
    ensures
        applied(s, MessageModel::Ack { order_id: Some(id) }, now).last_order_id == Some(id),
        spec_cancel_line(applied(s, MessageModel::Ack { order_id: Some(id) }, now).last_order_id)
            == Ok::<Seq<char>, Seq<char>>(cancel_line_text(id)),
{
}

/// The chart keeps a window of time: trimming drops from the front of each
/// series exactly the longest run of points that lie more than `WINDOW_NS`
/// before the newest point of the two series, so the first point it keeps
/// is in the window, whatever the order of the series; where a series is in
/// time order, it keeps no point outside the window.
pub proof fn lemma_trim_window(s: BridgeModel)
    ensures
        ({
            let high = series_high(s.midpoints, s.fills);
            let k = stale_mids(s.midpoints, high);
            &&& trimmed(s).midpoints == s.midpoints.skip(k as int)
            &&& forall|i: int| 0 <= i < k ==> is_stale(#[trigger] s.midpoints[i].t_ns, high)
            &&& trimmed(s).midpoints.len() > 0 ==> !is_stale(trimmed(s).midpoints[0].t_ns, high)
            &&& mids_in_order(s.midpoints) ==> forall|i: int|
                0 <= i < trimmed(s).midpoints.len() ==> !is_stale(
                    #[trigger] trimmed(s).midpoints[i].t_ns,
                    high,
                )
        }),
        ({
            let high = series_high(s.midpoints, s.fills);
            let k = stale_fills(s.fills, high);
            &&& trimmed(s).fills == s.fills.skip(k as int)
            &&& forall|i: int| 0 <= i < k ==> is_stale(#[trigger] s.fills[i].t_ns, high)
            &&& trimmed(s).fills.len() > 0 ==> !is_stale(trimmed(s).fills[0].t_ns, high)
            &&& fills_in_order(s.fills) ==> forall|i: int|
                0 <= i < trimmed(s).fills.len() ==> !is_stale(
                    #[trigger] trimmed(s).fills[i].t_ns,
                    high,
                )
        }),
{
    let high = series_high(s.midpoints, s.fills);
    lemma_stale_mids_prefix(s.midpoints, high);
    lemma_stale_fills_prefix(s.fills, high);
    let km = stale_mids(s.midpoints, high) as int;
    let kf = stale_fills(s.fills, high) as int;
    if mids_in_order(s.midpoints) {
        assert forall|i: int| 0 <= i < trimmed(s).midpoints.len() implies !is_stale(
            #[trigger] trimmed(s).midpoints[i].t_ns,
            high,
        ) by {
            assert(trimmed(s).midpoints[i] == s.midpoints[km + i]);
            assert(s.midpoints[km].t_ns <= s.midpoints[km + i].t_ns);
        }
    }
    if fills_in_order(s.fills) {
        assert forall|i: int| 0 <= i < trimmed(s).fills.len() implies !is_stale(
            #[trigger] trimmed(s).fills[i].t_ns,
            high,
        ) by {
            assert(trimmed(s).fills[i] == s.fills[kf + i]);
            assert(s.fills[kf].t_ns <= s.fills[kf + i].t_ns);
        }
    }
}

/// Trimming twice leaves what trimming once leaves: the point that makes
/// the newest time of the two series is never dropped, so the window does
/// not move.
pub proof fn lemma_trim_idempotent(s: BridgeModel)
    ensures
        series_high(trimmed(s).midpoints, trimmed(s).fills) == series_high(s.midpoints, s.fills),
        trimmed(trimmed(s)) == trimmed(s),
{
    let high = series_high(s.midpoints, s.fills);
    lemma_stale_mids_prefix(s.midpoints, high);
    lemma_stale_fills_prefix(s.fills, high);
    lemma_trim_window(s);
    let t = trimmed(s);
    let km = stale_mids(s.midpoints, high) as int;
    let kf = stale_fills(s.fills, high) as int;
    if s.midpoints.len() > 0 {
        let last = s.midpoints.len() - 1;
        if km == s.midpoints.len() {
            assert(is_stale(s.midpoints[last].t_ns, high));
        } else {
            assert(t.midpoints.last() == s.midpoints.last());
        }
    }
    if s.fills.len() > 0 {
        let last = s.fills.len() - 1;
        if kf == s.fills.len() {
            assert(is_stale(s.fills[last].t_ns, high));
        } else {
            assert(t.fills.last() == s.fills.last());
        }
    }
    assert(series_high(t.midpoints, t.fills) == high);
    lemma_stale_mids_prefix(t.midpoints, high);
    lemma_stale_fills_prefix(t.fills, high);
    assert(stale_mids(t.midpoints, high) == 0);
    assert(stale_fills(t.fills, high) == 0);
    assert(t.midpoints.skip(0) =~= t.midpoints);
    assert(t.fills.skip(0) =~= t.fills);
    assert(trimmed(t) =~= t);
}

proof fn lemma_trimmed_keeps_order(s: BridgeModel, now: u64)
    requires
        series_ordered_until(s, now),
    ensures
        series_ordered_until(trimmed(s), now),
        trimmed(s).pending_book == s.pending_book,
{
    let high = series_high(s.midpoints, s.fills);
    lemma_stale_mids_prefix(s.midpoints, high);
    lemma_stale_fills_prefix(s.fills, high);
    let t = trimmed(s);
    let km = stale_mids(s.midpoints, high) as int;
    let kf = stale_fills(s.fills, high) as int;
    assert forall|i: int, j: int| 0 <= i <= j < t.midpoints.len() implies t.midpoints[i].t_ns
        <= t.midpoints[j].t_ns by {
        assert(t.midpoints[i] == s.midpoints[km + i]);
        assert(t.midpoints[j] == s.midpoints[km + j]);
    }
    assert forall|i: int, j: int| 0 <= i <= j < t.fills.len() implies t.fills[i].t_ns
        <= t.fills[j].t_ns by {
        assert(t.fills[i] == s.fills[kf + i]);
        assert(t.fills[j] == s.fills[kf + j]);
    }
    assert forall|i: int| 0 <= i < t.midpoints.len() implies t.midpoints[i].t_ns <= now by {
        assert(t.midpoints[i] == s.midpoints[km + i]);
    }
    assert forall|i: int| 0 <= i < t.fills.len() implies t.fills[i].t_ns <= now by {
        assert(t.fills[i] == s.fills[kf + i]);
    }
}

/// With a clock that does not run backwards, the series stay in time
/// order: a commit and an engine message at `now`, no earlier than every
/// recorded point, leave both series in order and no point after `now`.
pub proof fn lemma_series_stay_ordered(s: BridgeModel, m: MessageModel, now: u64)
    requires
        series_ordered_until(s, now),
    ensures
        series_ordered_until(committed(s, now), now),
        series_ordered_until(applied(s, m, now), now),
{
    if commit_due(s, now) {
        let b = s.pending_book.unwrap();
        let s1 = BridgeModel {
            pending_book: None,
            committed_book: Some(b),
            last_commit: Some(now),
            ..s
        };
        match spec_midpoint_x2(b.best_bid, b.best_ask) {
            Some(m) => {
                let s2 = BridgeModel {
                    midpoints: s1.midpoints.push(MidPoint { t_ns: now, mid_x2: m as i128 }),
                    ..s1
                };
                assert(series_ordered_until(s2, now));
                lemma_trimmed_keeps_order(s2, now);
            },
            None => {},
        }
    }
    match m {
        MessageModel::Fill { price } => {
            let s2 = BridgeModel { fills: s.fills.push(FillMarker { t_ns: now, price }), ..s };
            assert(series_ordered_until(s2, now));
            lemma_trimmed_keeps_order(s2, now);
        },
        _ => {},
    }
}

proof fn lemma_trim_at_newest(s: BridgeModel, now: u64)
    requires
        series_ordered_until(s, now),
        series_high(s.midpoints, s.fills) == now,
    ensures
        forall|i: int|
            0 <= i < trimmed(s).midpoints.len() ==> trimmed(s).midpoints[i].t_ns + WINDOW_NS >= now,
        forall|i: int| 0 <= i < trimmed(s).fills.len() ==> trimmed(s).fills[i].t_ns + WINDOW_NS >= now,
        s.midpoints.len() > 0 && s.midpoints.last().t_ns == now ==> trimmed(s).midpoints.len() > 0
            && trimmed(s).midpoints.last() == s.midpoints.last(),
        s.fills.len() > 0 && s.fills.last().t_ns == now ==> trimmed(s).fills.len() > 0
            && trimmed(s).fills.last() == s.fills.last(),
        trimmed(s).midpoints.len() <= s.midpoints.len(),
        trimmed(s).fills.len() <= s.fills.len(),
        trimmed(s).midpoints == s.midpoints.skip(s.midpoints.len() - trimmed(s).midpoints.len()),
        trimmed(s).fills == s.fills.skip(s.fills.len() - trimmed(s).fills.len()),
{
    lemma_trim_window(s);
    lemma_stale_mids_prefix(s.midpoints, now as int);
    lemma_stale_fills_prefix(s.fills, now as int);
    let t = trimmed(s);
    assert forall|i: int| 0 <= i < t.midpoints.len() implies t.midpoints[i].t_ns + WINDOW_NS
        >= now by {
        assert(!is_stale(t.midpoints[i].t_ns, now as int));
    }
    assert forall|i: int| 0 <= i < t.fills.len() implies t.fills[i].t_ns + WINDOW_NS >= now by {
        assert(!is_stale(t.fills[i].t_ns, now as int));
    }
    if s.midpoints.len() > 0 && s.midpoints.last().t_ns == now {
        assert(!is_stale(s.midpoints[s.midpoints.len() - 1].t_ns, now as int));
    }
    if s.fills.len() > 0 && s.fills.last().t_ns == now {
        assert(!is_stale(s.fills[s.fills.len() - 1].t_ns, now as int));
    }
}

/// Every fill line marks the chart: with a clock that does not run
/// backwards, a fill at `now` ends the fill series with a marker at `now`
/// carrying its price, whatever the markers before it hold; the markers
/// before it are the newest of the old ones, and every marker and midpoint
/// kept lies within `WINDOW_NS` of `now`. Nothing but the series changes.
pub proof fn lemma_fill_marks_every_trade(s: BridgeModel, price: i64, now: u64)
    requires
        series_ordered_until(s, now),
    ensures
        ({
            let r = applied(s, MessageModel::Fill { price }, now);
            &&& r.fills.len() >= 1
            &&& r.fills.last() == (FillMarker { t_ns: now, price })
            &&& r.fills.len() <= s.fills.len() + 1
            &&& r.fills.drop_last() == s.fills.skip(s.fills.len() + 1 - r.fills.len())
            &&& forall|i: int| 0 <= i < r.fills.len() ==> r.fills[i].t_ns + WINDOW_NS >= now
            &&& forall|i: int| 0 <= i < r.midpoints.len() ==> r.midpoints[i].t_ns + WINDOW_NS >= now
            &&& series_ordered_until(r, now)
            &&& r.pending_book == s.pending_book
            &&& r.committed_book == s.committed_book
            &&& r.last_order_id == s.last_order_id
            &&& r.latency_ns == s.latency_ns
            &&& r.toasts == s.toasts
        }),
{
    let s2 = BridgeModel { fills: s.fills.push(FillMarker { t_ns: now, price }), ..s };
    assert(series_ordered_until(s2, now));
    assert(series_high(s2.midpoints, s2.fills) == now);
    lemma_trim_at_newest(s2, now);
    lemma_trimmed_keeps_order(s2, now);
    let r = trimmed(s2);
    assert(r.fills.drop_last() =~= s.fills.skip(s.fills.len() + 1 - r.fills.len()));
}

/// Two trades, even at one price, are two markers: fills at `t1` and then
/// `t2`, within one window of each other, end the fill series with both.
pub proof fn lemma_repeated_fills_both_marked(s: BridgeModel, p1: i64, p2: i64, t1: u64, t2: u64)
    requires
        series_ordered_until(s, t1),
        t1 <= t2,
        t1 + WINDOW_NS >= t2,
    ensures
        ({
            let r = applied(
                applied(s, MessageModel::Fill { price: p1 }, t1),
                MessageModel::Fill { price: p2 },
                t2,
            );
            &&& r.fills.len() >= 2
            &&& r.fills[r.fills.len() - 2] == (FillMarker { t_ns: t1, price: p1 })
            &&& r.fills[r.fills.len() - 1] == (FillMarker { t_ns: t2, price: p2 })
        }),
{
    lemma_fill_marks_every_trade(s, p1, t1);
    let a = applied(s, MessageModel::Fill { price: p1 }, t1);
    assert(series_ordered_until(a, t2));
    lemma_fill_marks_every_trade(a, p2, t2);
    let s2 = BridgeModel { fills: a.fills.push(FillMarker { t_ns: t2, price: p2 }), ..a };
    assert(series_high(s2.midpoints, s2.fills) == t2);
    lemma_stale_fills_prefix(s2.fills, t2 as int);
    let n = a.fills.len();
    assert(s2.fills[n - 1] == a.fills.last());
    assert(!is_stale(s2.fills[n - 1].t_ns, t2 as int));
    let k = stale_fills(s2.fills, t2 as int) as int;
    assert(k <= n - 1);
    let r = trimmed(s2);
    assert(r.fills == s2.fills.skip(k));
    assert(r.fills[r.fills.len() - 2] == s2.fills[n - 1]);
}

/// A commit that records a midpoint keeps the chart to its window: when a
/// book with a positive bid and a real, positive ask is committed at `now`,
/// with a clock that does not run backwards, the midpoint series ends with
/// `(now, bid + ask)` and no kept point of either series lies more than
/// `WINDOW_NS` before `now`.
pub proof fn lemma_commit_trims_to_window(s: BridgeModel, b: BookModel, ask: i64, now: u64)
    requires
        series_ordered_until(s, now),
        s.pending_book == Some(b),
        b.best_ask == Some(ask),
        b.best_bid > 0,
        ask > 0,
        ask != i64::MAX,
        s.last_commit matches Some(t) ==> t + FRAME_NS <= now,
    ensures
        ({
            let r = committed(s, now);
            &&& r.committed_book == Some(b)
            &&& r.pending_book is None
            &&& r.last_commit == Some(now)
            &&& r.midpoints.len() >= 1
            &&& r.midpoints.last() == (MidPoint { t_ns: now, mid_x2: (b.best_bid + ask) as i128 })
            &&& forall|i: int| 0 <= i < r.midpoints.len() ==> r.midpoints[i].t_ns + WINDOW_NS >= now
            &&& forall|i: int| 0 <= i < r.fills.len() ==> r.fills[i].t_ns + WINDOW_NS >= now
            &&& r.midpoints.drop_last() == s.midpoints.skip(s.midpoints.len() + 1 - r.midpoints.len())
            &&& r.fills == s.fills.skip(s.fills.len() - r.fills.len())
        }),
{
    let m = (b.best_bid + ask) as i128;
    let s1 = BridgeModel {
        pending_book: None,
        committed_book: Some(b),
        last_commit: Some(now),
        ..s
    };
    let s2 = BridgeModel { midpoints: s1.midpoints.push(MidPoint { t_ns: now, mid_x2: m }), ..s1 };
    assert(series_ordered_until(s2, now));
    assert(series_high(s2.midpoints, s2.fills) == now);
    lemma_trim_at_newest(s2, now);
    let r = trimmed(s2);
    assert(r.midpoints.drop_last() =~= s.midpoints.skip(s.midpoints.len() + 1 - r.midpoints.len()));
}

/// A pong measures the ping it answers: when a ping went out at `t0` and
/// the pong arrives at `now >= t0`, the latency shown is `now - t0`,
/// whatever latency was shown before, and no ping is in flight after it.
pub proof fn lemma_pong_sets_round_trip(s: BridgeModel, t0: u64, now: u64)
    requires
        s.ping_sent_at == Some(t0),
        t0 <= now,
    ensures
        applied(s, MessageModel::ClientPong, now).latency_ns == now - t0,
        applied(s, MessageModel::ClientPong, now).ping_sent_at is None,
{
}

/// The health panel's cache falls back to the book: a side the engine has
/// not cached shows the book's best price of that side, and a cached side
/// shows the cached price.
pub proof fn lemma_cache_falls_back_to_book(b: BookModel)
    ensures
        b.best_bid_cached is None ==> cached_bid_of(Some(b)) == Some(b.best_bid),
        b.best_ask_cached is None ==> cached_ask_of(Some(b)) == b.best_ask,
        b.best_bid_cached is Some ==> cached_bid_of(Some(b)) == b.best_bid_cached,
        b.best_ask_cached is Some ==> cached_ask_of(Some(b)) == b.best_ask_cached,
        cached_bid_of(None) is None,
        cached_ask_of(None) is None,
{
}

/// The ladder shows a spread only for a positive bid against a real ask:
/// with the engine's no-ask marker `i64::MAX`, no ask, or a bid that is not
/// positive there is none; otherwise it is the ask minus the bid.
pub proof fn lemma_spread_needs_real_ask(best_bid: i64, best_ask: Option<i64>)
    ensures
        best_ask == Some(i64::MAX) ==> spec_spread(best_bid, best_ask) is None,
        best_ask is None ==> spec_spread(best_bid, best_ask) is None,
        best_bid <= 0 ==> spec_spread(best_bid, best_ask) is None,
        forall|a: i64|
            best_bid > 0 && best_ask == Some(a) && a < i64::MAX ==> #[trigger] spec_spread(
                best_bid,
                Some(a),
            ) == Some(a - best_bid),
{
}

/// The midpoint lies between the best bid and the best ask.
pub proof fn lemma_midpoint_between(best_bid: i64, best_ask: i64)
    requires
        best_bid <= best_ask,
    ensures
        spec_midpoint_x2(best_bid, Some(best_ask)) matches Some(m) ==> 2 * best_bid <= m <= 2
            * best_ask,
{
}

} // verus!
