//! Core logic of a chat-triggered event tracker.
//!
//! A stream of messages is classified against a fixed daily time window and a
//! textual marker; qualifying messages feed a per-channel chain state machine,
//! and each classified outcome is folded into durable per-community and
//! per-participant statistics.  Everything here is pure logic over plain
//! values; transport and storage live outside the library.

pub mod chain;
pub mod classify;
pub mod db;
pub mod emoji;
pub mod localtime;
pub mod text;
pub mod tracker;
