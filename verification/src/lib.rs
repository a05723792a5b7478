//! Core of a small inter-process messaging client: a length-prefixed binary
//! framing codec, a send capability with a one-way closing flag and a
//! self-addressed message queue, and the dispatch state machine that orders
//! handler invocations between received frames, queued internal messages and
//! the final termination notice.
//!
//! The library performs no I/O itself: a thin driver owns the socket, reads
//! and writes raw bytes, and feeds them to the dispatch state machine, which
//! makes every protocol decision and is verified.

use vstd::prelude::*;

pub mod codec;
pub mod dispatch;
pub mod replier;

pub use dispatch::{AppLoad, AppLoadBackend, Event, Phase, ProtocolError};
pub use replier::{BackendReplier, SendError};

verus! {

/// Largest payload, in bytes, that a received frame may declare. A frame
/// declaring more is a fatal protocol violation for the whole session.
pub const MAX_PACKAGE_SIZE: usize = 10485760;

/// Message type of the synthetic termination message, delivered locally by the
/// dispatch loop as the very last handler invocation; never sent on the wire.
pub const MSG_SYSTEM_TERMINATE: u32 = 0xFFFFFFFF;

/// Message type by which the peer announces that a coordinator has registered;
/// generated by the peer side, never by this client.
pub const MSG_SYSTEM_NEW_COORDINATOR: u32 = 0xFFFFFFFE;

/// One application-level message: a tag chosen by the application (except for
/// the two reserved values above) and its text contents, read from the wire by
/// lossy UTF-8 decoding.
#[derive(Debug)]
pub struct Message {
    pub msg_type: u32,
    pub contents: String,
}

} // verus!
