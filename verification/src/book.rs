//! The order book as the engine reports it, and what the price ladder shows of
//! it. Prices are the engine's fixed-point integers (`PRICE_SCALE` units per
//! dollar).
use vstd::prelude::*;

verus! {

/// Fixed-point units per dollar in the engine's `price` fields.
pub const PRICE_SCALE: i64 = 1_000_000;

/// How many levels of each side the ladder shows.
pub const LADDER_DEPTH: usize = 10;

/// One price level of the book: a price and the quantity resting there.
#[derive(Clone, Copy, Debug, PartialEq, Eq, Structural)]
pub struct BookLevel {
    pub price: i64,
    pub qty: i32,
}

impl Default for BookLevel {
    fn default() -> (r: Self)
        ensures
            r.price == 0,
            r.qty == 0,
    {
        BookLevel { price: 0, qty: 0 }
    }
}

/// A `book` message of the engine: top of book, the top levels of each
/// side, the engine's cached best prices and its connection count.
#[derive(Clone, Debug)]
pub struct BookSnapshot {
    pub msg_type: Option<String>,
    pub best_bid: i64,
    pub best_ask: Option<i64>,
    pub best_bid_cached: Option<i64>,
    pub best_ask_cached: Option<i64>,
    pub bids: Vec<BookLevel>,
    pub asks: Vec<BookLevel>,
    pub connections: Option<u32>,
}

/// The value of a `BookSnapshot`, with its text and lists as sequences.
pub struct BookModel {
    pub msg_type: Option<Seq<char>>,
    pub best_bid: i64,
    pub best_ask: Option<i64>,
    pub best_bid_cached: Option<i64>,
    pub best_ask_cached: Option<i64>,
    pub bids: Seq<BookLevel>,
    pub asks: Seq<BookLevel>,
    pub connections: Option<u32>,
}

impl View for BookSnapshot {
    type V = BookModel;

    open spec fn view(&self) -> BookModel {
        BookModel {
            msg_type: match self.msg_type {
                Some(s) => Some(s@),
                None => None,
            },
            best_bid: self.best_bid,
            best_ask: self.best_ask,
            best_bid_cached: self.best_bid_cached,
            best_ask_cached: self.best_ask_cached,
            bids: self.bids@,
            asks: self.asks@,
            connections: self.connections,
        }
    }
}

fn copy_levels(levels: &Vec<BookLevel>) -> (r: Vec<BookLevel>)
    ensures
        r@ == levels@,
{
    let mut r: Vec<BookLevel> = Vec::new();
    let mut i: usize = 0;
    while i < levels.len()
        invariant
            i <= levels@.len(),
            r@ == levels@.take(i as int),
        decreases levels@.len() - i,
    {
        r.push(levels[i]);
        assert(levels@.take(i + 1) =~= levels@.take(i as int).push(levels@[i as int]));
        i = i + 1;
    }
    assert(levels@.take(levels@.len() as int) =~= levels@);
    r
}

impl BookSnapshot {
    /// An empty book: no type, zero best bid, no levels, nothing cached.
    pub fn empty() -> (r: Self)
        ensures
            r@.msg_type is None,
            r@.best_bid == 0,
            r@.best_ask is None,
            r@.best_bid_cached is None,
            r@.best_ask_cached is None,
            r@.bids.len() == 0,
            r@.asks.len() == 0,
            r@.connections is None,
    {
        BookSnapshot {
            msg_type: None,
            best_bid: 0,
            best_ask: None,
            best_bid_cached: None,
            best_ask_cached: None,
            bids: Vec::new(),
            asks: Vec::new(),
            connections: None,
        }
    }

    /// A copy of this snapshot with the same value.
    pub fn duplicate(&self) -> (r: Self)
        ensures
            r@ == self@,
    {
        let msg_type = match &self.msg_type {
            Some(s) => Some(s.clone()),
            None => None,
        };
        BookSnapshot {
            msg_type,
            best_bid: self.best_bid,
            best_ask: self.best_ask,
            best_bid_cached: self.best_bid_cached,
            best_ask_cached: self.best_ask_cached,
            bids: copy_levels(&self.bids),
            asks: copy_levels(&self.asks),
            connections: self.connections,
        }
    }
}

impl Default for BookSnapshot {
    fn default() -> (r: Self)
        ensures
            r@.msg_type is None,
            r@.best_bid == 0,
            r@.best_ask is None,
            r@.best_bid_cached is None,
            r@.best_ask_cached is None,
            r@.bids.len() == 0,
            r@.asks.len() == 0,
            r@.connections is None,
    {
        BookSnapshot::empty()
    }
}

/// Whether a best bid and best ask make a two-sided market whose midpoint
/// is worth plotting: both prices set and positive, the ask not the
/// engine's "no ask" marker `i64::MAX`.
pub open spec fn has_midpoint(best_bid: i64, best_ask: Option<i64>) -> bool {
    match best_ask {
        Some(ask) => best_bid > 0 && ask > 0 && ask != i64::MAX,
        None => false,
    }
}

/// Twice the midpoint `(best bid + best ask) / 2`, in fixed-point units,
/// when the market is two-sided.
pub open spec fn spec_midpoint_x2(best_bid: i64, best_ask: Option<i64>) -> Option<int> {
    if has_midpoint(best_bid, best_ask) {
        Some(best_bid + best_ask.unwrap())
    } else {
        None
    }
}

/// The midpoint of the top of book, given as twice its value in fixed-point
/// units (`best_bid + best_ask`), so that it stays an exact integer; `None`
/// when the book is one-sided or carries a non-positive or marker price.
pub fn midpoint(best_bid: i64, best_ask: Option<i64>) -> (r: Option<i128>)
    ensures
        r matches Some(m) ==> spec_midpoint_x2(best_bid, best_ask) == Some(m as int),
        r is None ==> spec_midpoint_x2(best_bid, best_ask) is None,
{
    match best_ask {
        None => None,
        Some(ask) => {
            if best_bid <= 0 || ask <= 0 || ask == i64::MAX {
                None
            } else {
                Some(best_bid as i128 + ask as i128)
            }
        },
    }
}

/// The midpoint of a book snapshot's top of book, as `midpoint` gives it.
pub fn midpoint_from_book(b: &BookSnapshot) -> (r: Option<i128>)
    ensures
        r matches Some(m) ==> spec_midpoint_x2(b@.best_bid, b@.best_ask) == Some(m as int),
        r is None ==> spec_midpoint_x2(b@.best_bid, b@.best_ask) is None,
{
    midpoint(b.best_bid, b.best_ask)
}

/// The largest quantity among `levels`, and at least 1.
pub open spec fn max_qty_of(levels: Seq<BookLevel>) -> int
    decreases levels.len(),
{
    if levels.len() == 0 {
        1
    } else {
        let rest = max_qty_of(levels.drop_last());
        if levels.last().qty > rest {
            levels.last().qty as int
        } else {
            rest
        }
    }
}

proof fn lemma_max_qty_bounds(levels: Seq<BookLevel>)
    ensures
        1 <= max_qty_of(levels) <= i32::MAX,
        forall|i: int| 0 <= i < levels.len() ==> levels[i].qty <= max_qty_of(levels),
        max_qty_of(levels) == 1 || exists|i: int|
            0 <= i < levels.len() && levels[i].qty == max_qty_of(levels),
    decreases levels.len(),
{
    if levels.len() > 0 {
        let rest = levels.drop_last();
        lemma_max_qty_bounds(rest);
        assert forall|i: int| 0 <= i < levels.len() implies levels[i].qty <= max_qty_of(
            levels,
        ) by {
            if i < levels.len() - 1 {
                assert(levels[i] == rest[i]);
            }
        }
        if max_qty_of(levels) != 1 {
            if levels.last().qty > max_qty_of(rest) {
                assert(levels[levels.len() - 1].qty == max_qty_of(levels));
            } else {
                let i = choose|i: int| 0 <= i < rest.len() && rest[i].qty == max_qty_of(rest);
                assert(levels[i] == rest[i]);
            }
        }
    }
}

/// The largest quantity among the levels, and at least 1: the scale
/// against which the ladder shades each level.
pub fn max_qty(levels: &[BookLevel]) -> (r: i32)
    ensures
        r == max_qty_of(levels@),
        r >= 1,
        forall|i: int| 0 <= i < levels@.len() ==> levels@[i].qty <= r,
        r == 1 || exists|i: int| 0 <= i < levels@.len() && levels@[i].qty == r,
{
    let mut m: i32 = 1;
    let mut i: usize = 0;
    while i < levels.len()
        invariant
            i <= levels@.len(),
            m == max_qty_of(levels@.take(i as int)),
        decreases levels@.len() - i,
    {
        assert(levels@.take(i + 1).drop_last() =~= levels@.take(i as int));
        if levels[i].qty > m {
            m = levels[i].qty;
        }
        i = i + 1;
    }
    assert(levels@.take(levels@.len() as int) =~= levels@);
    proof {
        lemma_max_qty_bounds(levels@);
    }
    m
}

/// The distance from best bid to best ask, in fixed-point units, when the
/// book shows a positive bid and a real ask.
pub open spec fn spec_spread(best_bid: i64, best_ask: Option<i64>) -> Option<int> {
    match best_ask {
        Some(ask) => if best_bid > 0 && ask < i64::MAX {
            Some(ask - best_bid)
        } else {
            None
        },
        None => None,
    }
}

/// What the price ladder shows of a book: the first `LADDER_DEPTH` asks,
/// best last (so that they read top-down towards the spread), the first
/// `LADDER_DEPTH` bids, the quantity that full shading stands for, the
/// spread, and twice the midpoint.
pub struct LadderView {
    pub asks: Vec<BookLevel>,
    pub bids: Vec<BookLevel>,
    pub max_qty: i32,
    pub spread: Option<i128>,
    pub mid_x2: Option<i128>,
}

/// The number of levels of a side that the ladder shows.
pub open spec fn shown_depth(n: nat) -> int {
    if n < LADDER_DEPTH {
        n as int
    } else {
        LADDER_DEPTH as int
    }
}

/// Arranges a book for the price ladder.
pub fn ladder_view(b: &BookSnapshot) -> (r: LadderView)
    ensures
        r.asks@.len() == shown_depth(b@.asks.len()),
        forall|i: int|
            0 <= i < r.asks@.len() ==> #[trigger] r.asks@[i] == b@.asks[r.asks@.len() - 1 - i],
        r.bids@ == b@.bids.take(shown_depth(b@.bids.len())),
        r.max_qty == (if max_qty_of(b@.bids) >= max_qty_of(b@.asks) {
            max_qty_of(b@.bids)
        } else {
            max_qty_of(b@.asks)
        }),
        r.spread matches Some(s) ==> spec_spread(b@.best_bid, b@.best_ask) == Some(s as int),
        r.spread is None ==> spec_spread(b@.best_bid, b@.best_ask) is None,
        b@.best_ask == Some(i64::MAX) ==> r.spread is None,
        r.spread matches Some(sp) ==> b@.best_bid > 0 && b@.best_ask is Some && b@.best_ask.unwrap()
            < i64::MAX && sp == b@.best_ask.unwrap() - b@.best_bid,
        r.mid_x2 matches Some(m) ==> spec_midpoint_x2(b@.best_bid, b@.best_ask) == Some(m as int),
        r.mid_x2 is None ==> spec_midpoint_x2(b@.best_bid, b@.best_ask) is None,
{
    let na: usize = if b.asks.len() < LADDER_DEPTH {
        b.asks.len()
    } else {
        LADDER_DEPTH
    };
    let mut asks: Vec<BookLevel> = Vec::new();
    let mut k: usize = na;
    while k > 0
        invariant
            k <= na <= b.asks@.len(),
            asks@.len() == na - k,
            forall|i: int| 0 <= i < asks@.len() ==> #[trigger] asks@[i] == b.asks@[na - 1 - i],
        decreases k,
    {
        k = k - 1;
        asks.push(b.asks[k]);
    }
    let nb: usize = if b.bids.len() < LADDER_DEPTH {
        b.bids.len()
    } else {
        LADDER_DEPTH
    };
    let mut bids: Vec<BookLevel> = Vec::new();
    let mut j: usize = 0;
    while j < nb
        invariant
            j <= nb <= b.bids@.len(),
            bids@ == b.bids@.take(j as int),
        decreases nb - j,
    {
        bids.push(b.bids[j]);
        assert(b.bids@.take(j + 1) =~= b.bids@.take(j as int).push(b.bids@[j as int]));
        j = j + 1;
    }
    let mb = max_qty(b.bids.as_slice());
    let ma = max_qty(b.asks.as_slice());
    let spread: Option<i128> = match b.best_ask {
        Some(ask) => if b.best_bid > 0 && ask < i64::MAX {
            Some(ask as i128 - b.best_bid as i128)
        } else {
            None
        },
        None => None,
    };
    LadderView {
        asks,
        bids,
        max_qty: if mb >= ma {
            mb
        } else {
            ma
        },
        spread,
        mid_x2: midpoint(b.best_bid, b.best_ask),
    }
}

} // verus!
