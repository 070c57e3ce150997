//! The bridge between the engine's feed and the UI: it takes the engine's
//! JSON lines, keeps the newest book and commits it at most once per frame,
//! records midpoints and fills on a time axis for the chart, and hands the UI
//! one snapshot of all of it per poll.
//!
//! Times are nanoseconds since the bridge started, as the caller reads them
//! from a monotonic clock; prices are the engine's fixed-point integers.
use vstd::prelude::*;
use std::collections::VecDeque;
use crate::book::{BookModel, BookSnapshot, midpoint_from_book, spec_midpoint_x2};
use crate::message::{decode_line, line_message, message_model, EngineMessage, MessageModel};
use crate::orders::{ping_line, ping_line_text};

verus! {

/// The shortest time between two commits of the book: one frame at ~60Hz.
pub const FRAME_NS: u64 = 16_000_000;

/// Where the engine listens for the desktop.
pub const ENGINE_WS_URL: &'static str = "ws://127.0.0.1:8080/ws";

/// How far back the chart's series reach from their newest point.
pub const WINDOW_NS: u64 = 240_000_000_000;

/// A point of the midpoint series: when the book was committed, and twice
/// its midpoint in fixed-point units.
#[derive(Clone, Copy, Debug, PartialEq, Eq, Structural)]
pub struct MidPoint {
    pub t_ns: u64,
    pub mid_x2: i128,
}

/// A fill marker: when the engine reported the fill, and its price.
#[derive(Clone, Copy, Debug, PartialEq, Eq, Structural)]
pub struct FillMarker {
    pub t_ns: u64,
    pub price: i64,
}

/// The bridge's state between the engine feed and the UI.
pub struct BridgeState {
    pending_book: Option<BookSnapshot>,
    committed_book: Option<BookSnapshot>,
    last_commit: Option<u64>,
    midpoint_series: VecDeque<MidPoint>,
    fill_markers: VecDeque<FillMarker>,
    last_order_id: Option<u64>,
    ws_connected: bool,
    latency_ns: u64,
    ping_sent_at: Option<u64>,
    pending_toasts: Vec<String>,
}

/// The value of a `BridgeState`.
#[verifier::ext_equal]
pub struct BridgeModel {
    /// The newest book from the engine, not yet shown.
    pub pending_book: Option<BookModel>,
    /// The book that the UI is shown.
    pub committed_book: Option<BookModel>,
    /// When the book was last committed.
    pub last_commit: Option<u64>,
    pub midpoints: Seq<MidPoint>,
    pub fills: Seq<FillMarker>,
    /// The id of the last order that the engine acknowledged.
    pub last_order_id: Option<u64>,
    pub ws_connected: bool,
    /// The round trip of the last answered ping.
    pub latency_ns: u64,
    /// When the ping that awaits its answer was sent.
    pub ping_sent_at: Option<u64>,
    /// Notices for the user, oldest first, not yet handed to the UI.
    pub toasts: Seq<Seq<char>>,
}

/// An optional book, taken by its value.
pub open spec fn book_model(b: Option<BookSnapshot>) -> Option<BookModel> {
    match b {
        Some(b) => Some(b@),
        None => None,
    }
}

/// A list of strings, taken by their text.
pub open spec fn texts(v: Seq<String>) -> Seq<Seq<char>> {
    v.map_values(|s: String| s@)
}

impl View for BridgeState {
    type V = BridgeModel;

    closed spec fn view(&self) -> BridgeModel {
        BridgeModel {
            pending_book: book_model(self.pending_book),
            committed_book: book_model(self.committed_book),
            last_commit: self.last_commit,
            midpoints: self.midpoint_series@,
            fills: self.fill_markers@,
            last_order_id: self.last_order_id,
            ws_connected: self.ws_connected,
            latency_ns: self.latency_ns,
            ping_sent_at: self.ping_sent_at,
            toasts: texts(self.pending_toasts@),
        }
    }
}

/// The state of a bridge that has just started.
pub open spec fn initial_model() -> BridgeModel {
    BridgeModel {
        pending_book: None,
        committed_book: None,
        last_commit: None,
        midpoints: Seq::empty(),
        fills: Seq::empty(),
        last_order_id: None,
        ws_connected: false,
        latency_ns: 0,
        ping_sent_at: None,
        toasts: Seq::empty(),
    }
}

// ---------------------------------------------------------------------------
// The time series and their window
// ---------------------------------------------------------------------------

/// The newest time on the chart: the later of the last midpoint and the last
/// fill, 0 when both series are empty.
pub open spec fn series_high(mids: Seq<MidPoint>, fills: Seq<FillMarker>) -> int {
    let m: int = if mids.len() > 0 {
        mids.last().t_ns as int
    } else {
        0
    };
    let f: int = if fills.len() > 0 {
        fills.last().t_ns as int
    } else {
        0
    };
    if m >= f {
        m
    } else {
        f
    }
}

/// Whether a point at `t` has fallen out of the window that ends at `high`.
pub open spec fn is_stale(t: u64, high: int) -> bool {
    t + WINDOW_NS < high
}

/// How many points at the front of `mids` have fallen out of the window.
pub open spec fn stale_mids(mids: Seq<MidPoint>, high: int) -> nat
    decreases mids.len(),
{
    if mids.len() > 0 && is_stale(mids[0].t_ns, high) {
        1 + stale_mids(mids.drop_first(), high)
    } else {
        0
    }
}

/// How many markers at the front of `fills` have fallen out of the window.
pub open spec fn stale_fills(fills: Seq<FillMarker>, high: int) -> nat
    decreases fills.len(),
{
    if fills.len() > 0 && is_stale(fills[0].t_ns, high) {
        1 + stale_fills(fills.drop_first(), high)
    } else {
        0
    }
}

/// `s` with the points that fell out of the chart's window dropped from the
/// front of each series.
pub open spec fn trimmed(s: BridgeModel) -> BridgeModel {
    let high = series_high(s.midpoints, s.fills);
    BridgeModel {
        midpoints: s.midpoints.skip(stale_mids(s.midpoints, high) as int),
        fills: s.fills.skip(stale_fills(s.fills, high) as int),
        ..s
    }
}

/// The stale prefix of the midpoints: within the series, all stale, and
/// followed by a point that is not.
pub proof fn lemma_stale_mids_prefix(m: Seq<MidPoint>, high: int)
    ensures
        stale_mids(m, high) <= m.len(),
        forall|i: int| 0 <= i < stale_mids(m, high) ==> is_stale(#[trigger] m[i].t_ns, high),
        stale_mids(m, high) < m.len() ==> !is_stale(m[stale_mids(m, high) as int].t_ns, high),
    decreases m.len(),
{
    if m.len() > 0 && is_stale(m[0].t_ns, high) {
        let rest = m.drop_first();
        lemma_stale_mids_prefix(rest, high);
        assert forall|i: int| 0 <= i < stale_mids(m, high) implies is_stale(
            #[trigger] m[i].t_ns,
            high,
        ) by {
            if i > 0 {
                assert(m[i] == rest[i - 1]);
            }
        }
    }
}

/// The stale prefix of the fill markers: within the series, all stale, and
/// followed by a marker that is not.
pub proof fn lemma_stale_fills_prefix(f: Seq<FillMarker>, high: int)
    ensures
        stale_fills(f, high) <= f.len(),
        forall|i: int| 0 <= i < stale_fills(f, high) ==> is_stale(#[trigger] f[i].t_ns, high),
        stale_fills(f, high) < f.len() ==> !is_stale(f[stale_fills(f, high) as int].t_ns, high),
    decreases f.len(),
{
    if f.len() > 0 && is_stale(f[0].t_ns, high) {
        let rest = f.drop_first();
        lemma_stale_fills_prefix(rest, high);
        assert forall|i: int| 0 <= i < stale_fills(f, high) implies is_stale(
            #[trigger] f[i].t_ns,
            high,
        ) by {
            if i > 0 {
                assert(f[i] == rest[i - 1]);
            }
        }
    }
}

// ---------------------------------------------------------------------------
// Committing the book
// ---------------------------------------------------------------------------

/// Whether a book waits and a frame has passed since the last commit.
pub open spec fn commit_due(s: BridgeModel, now: u64) -> bool {
    &&& s.pending_book is Some
    &&& match s.last_commit {
        Some(t) => now >= t + FRAME_NS,
        None => true,
    }
}

/// The state after a commit at `now`: when one is due, the waiting book is
/// shown from now on, and its midpoint, where it has one, joins the series.
pub open spec fn committed(s: BridgeModel, now: u64) -> BridgeModel {
    if commit_due(s, now) {
        let b = s.pending_book.unwrap();
        let s1 = BridgeModel {
            pending_book: None,
            committed_book: Some(b),
            last_commit: Some(now),
            ..s
        };
        match spec_midpoint_x2(b.best_bid, b.best_ask) {
            Some(m) => trimmed(
                BridgeModel { midpoints: s1.midpoints.push(MidPoint { t_ns: now, mid_x2: m as i128 }), ..s1 },
            ),
            None => s1,
        }
    } else {
        s
    }
}

impl BridgeState {
    /// A bridge with no book, empty series, no connection and no notices.
    pub fn new() -> (r: Self)
        ensures
            r@ == initial_model(),
    {
        let r = BridgeState {
            pending_book: None,
            committed_book: None,
            last_commit: None,
            midpoint_series: VecDeque::new(),
            fill_markers: VecDeque::new(),
            last_order_id: None,
            ws_connected: false,
            latency_ns: 0,
            ping_sent_at: None,
            pending_toasts: Vec::new(),
        };
        assert(texts(r.pending_toasts@) =~= Seq::empty());
        r
    }

    /// Drops, from the front of each series, the points that lie more than
    /// `WINDOW_NS` before the newest point of either series.
    fn trim_time_series(&mut self)
        ensures
            final(self)@ == trimmed(old(self)@),
    {
        let nm = self.midpoint_series.len();
        let nf = self.fill_markers.len();
        let hm: u64 = if nm > 0 {
            self.midpoint_series[nm - 1].t_ns
        } else {
            0
        };
        let hf: u64 = if nf > 0 {
            self.fill_markers[nf - 1].t_ns
        } else {
            0
        };
        let high: u64 = if hm >= hf {
            hm
        } else {
            hf
        };
        let ghost s0 = self@;
        assert(high == series_high(s0.midpoints, s0.fills));
        while self.midpoint_series.len() > 0 && (self.midpoint_series[0].t_ns as u128)
            + (WINDOW_NS as u128) < (high as u128)
            invariant
                high == series_high(s0.midpoints, s0.fills),
                s0.midpoints.skip(stale_mids(s0.midpoints, high as int) as int)
                    == self.midpoint_series@.skip(
                    stale_mids(self.midpoint_series@, high as int) as int,
                ),
                self@ == (BridgeModel { midpoints: self.midpoint_series@, ..s0 }),
            decreases self.midpoint_series@.len(),
        {
            let ghost cur = self.midpoint_series@;
            proof {
                lemma_stale_mids_prefix(cur.drop_first(), high as int);
                assert(cur.drop_first().skip(stale_mids(cur.drop_first(), high as int) as int)
                    =~= cur.skip(stale_mids(cur, high as int) as int));
            }
            self.midpoint_series.pop_front();
        }
        assert(self.midpoint_series@.skip(0) =~= self.midpoint_series@);
        let ghost s1 = self@;
        while self.fill_markers.len() > 0 && (self.fill_markers[0].t_ns as u128) + (
        WINDOW_NS as u128) < (high as u128)
            invariant
                high == series_high(s0.midpoints, s0.fills),
                s0.fills.skip(stale_fills(s0.fills, high as int) as int)
                    == self.fill_markers@.skip(
                    stale_fills(self.fill_markers@, high as int) as int,
                ),
                self@ == (BridgeModel { fills: self.fill_markers@, ..s1 }),
            decreases self.fill_markers@.len(),
        {
            let ghost cur = self.fill_markers@;
            proof {
                lemma_stale_fills_prefix(cur.drop_first(), high as int);
                assert(cur.drop_first().skip(stale_fills(cur.drop_first(), high as int) as int)
                    =~= cur.skip(stale_fills(cur, high as int) as int));
            }
            self.fill_markers.pop_front();
        }
        assert(self.fill_markers@.skip(0) =~= self.fill_markers@);
        assert(self@ =~= trimmed(s0));
    }

    /// Commits the waiting book when a frame has passed since the last
    /// commit: it becomes the book the UI is shown, and its midpoint, where
    /// the book has one, is recorded at `now_ns`.
    pub fn commit_if_ready(&mut self, now_ns: u64)
        ensures
            final(self)@ == committed(old(self)@, now_ns),
    {
        let due = match (&self.pending_book, self.last_commit) {
            (None, _) => false,
            (Some(_), None) => true,
            (Some(_), Some(t)) => now_ns >= t && now_ns - t >= FRAME_NS,
        };
        if !due {
            return;
        }
        let ghost s0 = self@;
        let mut taken: Option<BookSnapshot> = None;
        std::mem::swap(&mut taken, &mut self.pending_book);
        match taken {
            Some(b) => {
                let mid = midpoint_from_book(&b);
                self.committed_book = Some(b);
                self.last_commit = Some(now_ns);
                match mid {
                    Some(m) => {
                        self.midpoint_series.push_back(MidPoint { t_ns: now_ns, mid_x2: m });
                        self.trim_time_series();
                    },
                    None => {},
                }
            },
            None => {},
        }
        assert(self@ =~= committed(s0, now_ns));
    }
}


// ---------------------------------------------------------------------------
// The engine's lines
// ---------------------------------------------------------------------------

/// What the caller does after handing the bridge a line.
pub enum LineAction {
    /// The line is handled.
    Done,
    /// The line is a `book` message: the caller decodes the line into a
    /// `BookSnapshot` and hands the outcome to `ingest_book`.
    DecodeBook,
}

/// `s` with one more notice for the user.
pub open spec fn with_toast(s: BridgeModel, msg: Seq<char>) -> BridgeModel {
    BridgeModel { toasts: s.toasts.push(msg), ..s }
}

/// Whether an engine line is a `book` message.
pub open spec fn is_book_line(text: Seq<char>) -> bool {
    line_message(text) is Book
}

/// The state after the engine message `m` arrived at `now`:
/// - a line that is not JSON leaves a notice;
/// - a fill is recorded at `now` with its price on the fill series;
/// - an ack with an order id records it as the last order;
/// - a cancel that did not succeed leaves a notice;
/// - an error leaves its message as a notice;
/// - a pong answers the ping in flight, if any, and sets the latency;
/// - a book (decoded apart) and every other message change nothing here.
pub open spec fn applied(s: BridgeModel, m: MessageModel, now: u64) -> BridgeModel {
    match m {
        MessageModel::NotJson => with_toast(s, "Non-JSON message from engine"@),
        MessageModel::Fill { price } => trimmed(
            BridgeModel { fills: s.fills.push(FillMarker { t_ns: now, price }), ..s },
        ),
        MessageModel::Ack { order_id } => match order_id {
            Some(id) => BridgeModel { last_order_id: Some(id), ..s },
            None => s,
        },
        MessageModel::CancelResult { success } => if success {
            s
        } else {
            with_toast(s, "Cancel rejected by engine"@)
        },
        MessageModel::Error { message } => with_toast(s, message),
        MessageModel::ClientPong => match s.ping_sent_at {
            Some(t0) => BridgeModel {
                ping_sent_at: None,
                latency_ns: if now >= t0 {
                    (now - t0) as u64
                } else {
                    0
                },
                ..s
            },
            None => s,
        },
        MessageModel::Book => s,
        MessageModel::Other => s,
    }
}

/// The state after the engine line `text` arrived at `now`.
pub open spec fn ingested(s: BridgeModel, text: Seq<char>, now: u64) -> BridgeModel {
    applied(s, line_message(text), now)
}

/// The state after the caller decoded a `book` line: the book waits for the
/// next commit, replacing any older one; a line that does not decode
/// leaves a notice with the decoder's message.
pub open spec fn book_decoded(s: BridgeModel, decoded: Result<BookModel, Seq<char>>) -> BridgeModel {
    match decoded {
        Ok(b) => BridgeModel { pending_book: Some(b), ..s },
        Err(e) => with_toast(s, "book parse: "@ + e),
    }
}

impl BridgeState {
    fn push_toast(&mut self, msg: String)
        ensures
            final(self)@ == with_toast(old(self)@, msg@),
    {
        let ghost s0 = self@;
        let ghost v0 = self.pending_toasts@;
        self.pending_toasts.push(msg);
        assert(texts(self.pending_toasts@) =~= texts(v0).push(msg@));
        assert(self@ =~= with_toast(s0, msg@));
    }

    /// Takes one message of the engine, arrived at `now_ns`.
    pub fn apply_message(&mut self, msg: EngineMessage, now_ns: u64) -> (r: LineAction)
        ensures
            final(self)@ == applied(old(self)@, message_model(msg), now_ns),
            r is DecodeBook <==> msg is Book,
    {
        let ghost s0 = self@;
        match msg {
            EngineMessage::NotJson => {
                self.push_toast(String::from_str("Non-JSON message from engine"));
                LineAction::Done
            },
            EngineMessage::Book => LineAction::DecodeBook,
            EngineMessage::Fill { price } => {
                self.fill_markers.push_back(FillMarker { t_ns: now_ns, price });
                self.trim_time_series();
                LineAction::Done
            },
            EngineMessage::Ack { order_id } => {
                match order_id {
                    Some(id) => {
                        self.last_order_id = Some(id);
                        assert(self@ =~= applied(s0, message_model(msg), now_ns));
                    },
                    None => {},
                }
                LineAction::Done
            },
            EngineMessage::CancelResult { success } => {
                if !success {
                    self.push_toast(String::from_str("Cancel rejected by engine"));
                }
                LineAction::Done
            },
            EngineMessage::Error { message } => {
                self.push_toast(message);
                LineAction::Done
            },
            EngineMessage::ClientPong => {
                match self.ping_sent_at {
                    Some(t0) => {
                        self.ping_sent_at = None;
                        self.latency_ns = if now_ns >= t0 {
                            now_ns - t0
                        } else {
                            0
                        };
                        assert(self@ =~= applied(s0, message_model(msg), now_ns));
                    },
                    None => {},
                }
                LineAction::Done
            },
            EngineMessage::Other => LineAction::Done,
        }
    }

    /// Takes one line of the engine's feed, arrived at `now_ns`.
    pub fn ingest_json_line(&mut self, text: &str, now_ns: u64) -> (r: LineAction)
        ensures
            final(self)@ == ingested(old(self)@, text@, now_ns),
            r is DecodeBook <==> is_book_line(text@),
    {
        let msg = decode_line(text);
        self.apply_message(msg, now_ns)
    }

    /// Takes the outcome of decoding a `book` line into a snapshot: the
    /// decoded book, or the decoder's message.
    pub fn ingest_book(&mut self, decoded: Result<BookSnapshot, String>)
        ensures
            final(self)@ == book_decoded(
                old(self)@,
                match decoded {
                    Ok(b) => Ok(b@),
                    Err(e) => Err(e@),
                },
            ),
    {
        match decoded {
            Ok(b) => {
                let ghost s0 = self@;
                self.pending_book = Some(b);
                assert(self@ =~= book_decoded(s0, Ok(b@)));
            },
            Err(e) => {
                let mut msg = String::from_str("book parse: ");
                msg.append(e.as_str());
                self.push_toast(msg);
            },
        }
    }
}


// ---------------------------------------------------------------------------
// The UI's view of the bridge
// ---------------------------------------------------------------------------

/// Everything the UI shows, taken at one poll.
pub struct UiSnapshot {
    pub book: Option<BookSnapshot>,
    pub ws_connected: bool,
    pub latency_ns: u64,
    pub last_order_id: Option<u64>,
    pub midpoint_series: Vec<MidPoint>,
    pub fill_markers: Vec<FillMarker>,
    pub toasts: Vec<String>,
    pub engine_connections: u32,
    pub best_bid_cached: Option<i64>,
    pub best_ask_cached: Option<i64>,
}

/// The engine's connection count as a book reports it, 0 without one.
pub open spec fn connections_of(b: Option<BookModel>) -> u32 {
    match b {
        Some(b) => match b.connections {
            Some(c) => c,
            None => 0,
        },
        None => 0,
    }
}

/// The engine's cached best bid, or else the book's best bid.
pub open spec fn cached_bid_of(b: Option<BookModel>) -> Option<i64> {
    match b {
        Some(b) => match b.best_bid_cached {
            Some(v) => Some(v),
            None => Some(b.best_bid),
        },
        None => None,
    }
}

/// The engine's cached best ask, or else the book's best ask.
pub open spec fn cached_ask_of(b: Option<BookModel>) -> Option<i64> {
    match b {
        Some(b) => match b.best_ask_cached {
            Some(v) => Some(v),
            None => b.best_ask,
        },
        None => None,
    }
}

/// The state after a poll at `now`: the commit that was due has happened,
/// and the notices have been handed over.
pub open spec fn after_snapshot(s: BridgeModel, now: u64) -> BridgeModel {
    BridgeModel { toasts: Seq::empty(), ..committed(s, now) }
}

/// Whether `r` shows the state `c`, handing over the notices `c` holds.
pub open spec fn shows(r: UiSnapshot, c: BridgeModel) -> bool {
    &&& book_model(r.book) == c.committed_book
    &&& r.ws_connected == c.ws_connected
    &&& r.latency_ns == c.latency_ns
    &&& r.last_order_id == c.last_order_id
    &&& r.midpoint_series@ == c.midpoints
    &&& r.fill_markers@ == c.fills
    &&& texts(r.toasts@) == c.toasts
    &&& r.engine_connections == connections_of(c.committed_book)
    &&& r.best_bid_cached == cached_bid_of(c.committed_book)
    &&& r.best_ask_cached == cached_ask_of(c.committed_book)
}

/// The text of the notice left when the feed closes.
pub open spec fn disconnected_text() -> Seq<char> {
    "WebSocket disconnected \u{2014} reconnecting\u{2026}"@
}

/// The text of the notice left when the engine cannot be reached.
pub open spec fn connect_failed_text() -> Seq<char> {
    "Cannot connect to engine at "@ + ENGINE_WS_URL@ + " (is oes_engine running?)"@
}

/// What arrives on the engine's WebSocket.
pub enum EngineFrame {
    /// A text message: one JSON line.
    Text(String),
    /// A ping, with its payload.
    Ping(Vec<u8>),
    /// A close frame.
    Close,
    /// The end of the stream.
    End,
    /// A transport or protocol error.
    Error,
    /// Any other frame.
    Other,
}

/// What the caller does after the bridge saw a frame.
pub enum FrameAction {
    /// Read on.
    Continue,
    /// Decode this `book` line and hand the outcome to `ingest_book`.
    DecodeBook(String),
    /// Answer with a pong carrying this payload.
    Pong(Vec<u8>),
    /// Leave the read loop: the connection is over.
    Stop,
}

impl BridgeState {
    fn copy_mids(&self) -> (r: Vec<MidPoint>)
        ensures
            r@ == self@.midpoints,
    {
        let mut r: Vec<MidPoint> = Vec::new();
        let n = self.midpoint_series.len();
        let mut i: usize = 0;
        while i < n
            invariant
                n == self.midpoint_series@.len(),
                i <= n,
                r@ == self.midpoint_series@.take(i as int),
            decreases n - i,
        {
            r.push(self.midpoint_series[i]);
            assert(self.midpoint_series@.take(i + 1) =~= self.midpoint_series@.take(i as int).push(
                self.midpoint_series@[i as int],
            ));
            i = i + 1;
        }
        assert(self.midpoint_series@.take(n as int) =~= self.midpoint_series@);
        r
    }

    fn copy_fills(&self) -> (r: Vec<FillMarker>)
        ensures
            r@ == self@.fills,
    {
        let mut r: Vec<FillMarker> = Vec::new();
        let n = self.fill_markers.len();
        let mut i: usize = 0;
        while i < n
            invariant
                n == self.fill_markers@.len(),
                i <= n,
                r@ == self.fill_markers@.take(i as int),
            decreases n - i,
        {
            r.push(self.fill_markers[i]);
            assert(self.fill_markers@.take(i + 1) =~= self.fill_markers@.take(i as int).push(
                self.fill_markers@[i as int],
            ));
            i = i + 1;
        }
        assert(self.fill_markers@.take(n as int) =~= self.fill_markers@);
        r
    }

    /// Commits the book if a commit is due at `now_ns`, then hands the UI
    /// the whole state, with the notices that have piled up since the last
    /// poll; the bridge keeps no notice once it has handed it over.
    pub fn snapshot_ui(&mut self, now_ns: u64) -> (r: UiSnapshot)
        ensures
            final(self)@ == after_snapshot(old(self)@, now_ns),
            shows(r, committed(old(self)@, now_ns)),
            r.book is Some && r.book.unwrap().best_bid_cached is None ==> r.best_bid_cached == Some(
                r.book.unwrap().best_bid,
            ),
            r.book is Some && r.book.unwrap().best_ask_cached is None ==> r.best_ask_cached
                == r.book.unwrap().best_ask,
            r.book is None ==> r.best_bid_cached is None && r.best_ask_cached is None,
    {
        self.commit_if_ready(now_ns);
        let ghost c = self@;
        let book: Option<BookSnapshot> = match &self.committed_book {
            Some(b) => Some(b.duplicate()),
            None => None,
        };
        let engine_connections: u32 = match &book {
            Some(b) => match b.connections {
                Some(c) => c,
                None => 0,
            },
            None => 0,
        };
        let best_bid_cached: Option<i64> = match &book {
            Some(b) => match b.best_bid_cached {
                Some(v) => Some(v),
                None => Some(b.best_bid),
            },
            None => None,
        };
        let best_ask_cached: Option<i64> = match &book {
            Some(b) => match b.best_ask_cached {
                Some(v) => Some(v),
                None => b.best_ask,
            },
            None => None,
        };
        let mut toasts: Vec<String> = Vec::new();
        std::mem::swap(&mut toasts, &mut self.pending_toasts);
        let r = UiSnapshot {
            book,
            ws_connected: self.ws_connected,
            latency_ns: self.latency_ns,
            last_order_id: self.last_order_id,
            midpoint_series: self.copy_mids(),
            fill_markers: self.copy_fills(),
            toasts,
            engine_connections,
            best_bid_cached,
            best_ask_cached,
        };
        assert(texts(self.pending_toasts@) =~= Seq::empty());
        assert(self@ =~= after_snapshot(old(self)@, now_ns));
        r
    }

    /// The feed is open.
    pub fn on_connected(&mut self)
        ensures
            final(self)@ == (BridgeModel { ws_connected: true, ..old(self)@ }),
    {
        let ghost s0 = self@;
        self.ws_connected = true;
        assert(self@ =~= (BridgeModel { ws_connected: true, ..s0 }));
    }

    /// The feed closed: the bridge is offline and says that it reconnects.
    pub fn on_disconnected(&mut self)
        ensures
            final(self)@ == with_toast(
                BridgeModel { ws_connected: false, ..old(self)@ },
                disconnected_text(),
            ),
    {
        let ghost s0 = self@;
        self.ws_connected = false;
        assert(self@ =~= (BridgeModel { ws_connected: false, ..s0 }));
        self.push_toast(String::from_str("WebSocket disconnected \u{2014} reconnecting\u{2026}"));
    }

    /// The engine could not be reached: the bridge is offline and says where
    /// it looked.
    pub fn on_connect_failed(&mut self)
        ensures
            final(self)@ == with_toast(
                BridgeModel { ws_connected: false, ..old(self)@ },
                connect_failed_text(),
            ),
    {
        let ghost s0 = self@;
        self.ws_connected = false;
        assert(self@ =~= (BridgeModel { ws_connected: false, ..s0 }));
        let mut msg = String::from_str("Cannot connect to engine at ");
        msg.append(ENGINE_WS_URL);
        msg.append(" (is oes_engine running?)");
        self.push_toast(msg);
    }

    /// A ping with id `id` goes out at `now_ns`: the bridge remembers when,
    /// so that the pong measures the round trip, and gives the line to send.
    pub fn begin_ping(&mut self, now_ns: u64, id: i64) -> (r: String)
        ensures
            final(self)@ == (BridgeModel { ping_sent_at: Some(now_ns), ..old(self)@ }),
            r@ == ping_line_text(id),
    {
        let ghost s0 = self@;
        self.ping_sent_at = Some(now_ns);
        assert(self@ =~= (BridgeModel { ping_sent_at: Some(now_ns), ..s0 }));
        ping_line(id)
    }

    /// The id of the last order that the engine acknowledged.
    pub fn last_order_id(&self) -> (r: Option<u64>)
        ensures
            r == self@.last_order_id,
    {
        self.last_order_id
    }

    /// Takes one frame of the engine's WebSocket, arrived at `now_ns`, and
    /// says what the read loop does next.
    pub fn on_frame(&mut self, frame: EngineFrame, now_ns: u64) -> (r: FrameAction)
        ensures
            match frame {
                EngineFrame::Text(t) => {
                    &&& final(self)@ == ingested(old(self)@, t@, now_ns)
                    &&& match r {
                        FrameAction::DecodeBook(line) => is_book_line(t@) && line@ == t@,
                        FrameAction::Continue => !is_book_line(t@),
                        _ => false,
                    }
                },
                EngineFrame::Ping(p) => final(self)@ == old(self)@ && r == FrameAction::Pong(p),
                EngineFrame::Other => final(self)@ == old(self)@ && r is Continue,
                _ => final(self)@ == old(self)@ && r is Stop,
            },
    {
        match frame {
            EngineFrame::Text(t) => {
                match self.ingest_json_line(t.as_str(), now_ns) {
                    LineAction::DecodeBook => FrameAction::DecodeBook(t),
                    LineAction::Done => FrameAction::Continue,
                }
            },
            EngineFrame::Ping(p) => FrameAction::Pong(p),
            EngineFrame::Other => FrameAction::Continue,
            _ => FrameAction::Stop,
        }
    }
}

} // verus!
