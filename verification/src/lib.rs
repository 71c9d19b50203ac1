//! A minimal real-time text relay.
//!
//! Any number of clients connect over a stream transport, send
//! newline-delimited text messages, and each message is rebroadcast to every
//! other connected client except its sender. A client can address another by
//! an `@name` token; the receiving client highlights the message when its own
//! name appears.
//!
//! The core is the connection fan-out engine: the broadcast hub with bounded
//! buffering and defined behaviour when a slow consumer falls behind, the
//! per-connection handler's state machine, and the client session's line
//! handling. All of it is verified; the surrounding transport and terminal
//! plumbing live outside this crate.

use vstd::prelude::*;

pub mod fanout;
pub mod handler;
pub mod hub;
pub mod session;

verus! {

/// Number of envelopes the hub's shared log buffers before the oldest is
/// overwritten.
pub const HUB_CAPACITY: usize = 16;

} // verus!
