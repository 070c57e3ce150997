# oes_desktop

The verified core of the OES desktop bridge, which connects the C++ matching
engine's WebSocket feed (`ws://127.0.0.1:8080/ws`) to a desktop UI.

- `src/bridge.rs` — the bridge state: engine lines in, book commits at most
  once per 16 ms frame, the midpoint and fill series kept to a 240 s window,
  latency pings, notices, and the snapshot that the UI polls.
- `src/book.rs` — book levels and snapshots, the midpoint, and what the price
  ladder shows of a book.
- `src/orders.rs` — the JSON lines for new orders, cancels and pings.
- `src/text.rs` — decimal formatting, parsing and trimming.
- `src/display.rs` — the UI's small text fields and the notice list.
- `src/message.rs` — the engine's messages as read from a parsed line.
- `src/json.rs` — the calls into `serde_json`, trusted.
- `src/laws.rs` — properties that span calls, proved.
- `app/` — the desktop shell (Tauri commands, the Tokio WebSocket loop) and
  the Leptos web view, which do the I/O and the floating-point drawing.

Times in the library are integer nanoseconds since the bridge started and
prices are the engine's fixed-point integers; the app converts both to
floating point for display.
