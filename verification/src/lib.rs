//! Verified core of the OES desktop bridge: the state that sits between the
//! matching engine's WebSocket feed and the desktop UI, the book types it
//! carries, the order lines it sends, and the small pieces of display logic
//! that the UI derives from it.
pub mod book;
pub mod bridge;
pub mod display;
pub mod json;
pub mod laws;
pub mod message;
pub mod orders;
pub mod text;
