//! The send capability handed to application handlers. A replier carries a
//! one-way closing flag, stages outbound frames for the driver to transmit,
//! and queues self-addressed messages for the dispatch loop to redeliver.

use vstd::prelude::*;

verus! {

use crate::codec::{encode_frame, spec_frame_bytes};
use crate::{Message, MAX_PACKAGE_SIZE};
use vstd::string::StringSliceAdditionalSpecFns;

/// The local, non-fatal error a send can fail with.
#[derive(Clone, Copy, Debug, PartialEq, Eq, Structural)]
pub enum SendError {
    /// The replier's connection is shutting down; nothing was staged or sent.
    AlreadyClosing,
}

/// A send capability bound to one connection. The dispatch loop owns one and
/// hands it to every handler invocation; `AppLoad::create_replier` makes
/// more, and `AppLoad::absorb_replier` merges their pending work back into
/// the loop's own.
pub struct BackendReplier {
    /// One-way closing flag: once true, every `send_message` on this replier
    /// fails without staging anything.
    pub(crate) locked: bool,
    /// Frames staged for transmission, in send order, each already in wire
    /// form. The driver drains this with `take_outgoing` and writes each
    /// frame to the socket.
    pub(crate) outgoing: Vec<Vec<u8>>,
    /// Self-addressed messages awaiting redelivery to the handler, oldest
    /// first. The dispatch loop drains this once per received frame.
    pub(crate) internal_queue: Vec<Message>,
}

impl BackendReplier {
    /// Whether this replier is closing: once true, sends are refused.
    pub open(crate) spec fn spec_locked(&self) -> bool {
        self.locked
    }

    /// The staged frames, in send order, each as its wire bytes.
    pub open(crate) spec fn spec_outgoing(&self) -> Seq<Seq<u8>> {
        self.outgoing.deep_view()
    }

    /// The queued self-addressed messages, oldest first.
    pub open(crate) spec fn spec_queue(&self) -> Seq<Message> {
        self.internal_queue@
    }

    /// A fresh, open replier with nothing staged and nothing queued.
    pub(crate) fn new() -> (r: BackendReplier)
        ensures
            !r.spec_locked(),
            r.spec_outgoing().len() == 0,
            r.spec_queue().len() == 0,
    {
        BackendReplier { locked: false, outgoing: Vec::new(), internal_queue: Vec::new() }
    }

    /// Stages one frame for the peer: the wire encoding of `msg_type` and the
    /// UTF-8 bytes of `contents`. Refused, with nothing staged, when this
    /// replier is already closing — that is the only way it fails. The
    /// payload may not exceed the protocol's hard frame bound, in bytes.
    pub fn send_message(&mut self, msg_type: u32, contents: &str) -> (r: Result<(), SendError>)
        requires
            contents.spec_bytes().len() <= MAX_PACKAGE_SIZE,
        ensures
            old(self).spec_locked() ==> r == Err::<(), SendError>(SendError::AlreadyClosing)
                && *final(self) == *old(self),
            !old(self).spec_locked() ==> r == Ok::<(), SendError>(())
                && final(self).spec_outgoing() == old(self).spec_outgoing().push(
                spec_frame_bytes(msg_type, contents.spec_bytes()),
            ),
            final(self).spec_locked() == old(self).spec_locked(),
            final(self).spec_queue() == old(self).spec_queue(),
    {
        if self.locked {
            return Err(SendError::AlreadyClosing);
        }
        let bytes = contents.as_bytes();
        let frame = encode_frame(msg_type, bytes);
        self.outgoing.push(frame);
        proof {
            assert(self.outgoing.deep_view() =~~= old(self).outgoing.deep_view().push(
                spec_frame_bytes(msg_type, contents.spec_bytes()),
            ));
        }
        Ok(())
    }

    /// Queues a self-addressed message. This always succeeds, whatever the
    /// closing flag says: the queue is unbounded and no I/O is involved. The
    /// dispatch loop redelivers queued messages to the handler, oldest first,
    /// after the current external message's handling completes.
    pub fn send_internal(&mut self, msg_type: u32, contents: String)
        ensures
            final(self).spec_queue() == old(self).spec_queue().push(
                (Message { msg_type, contents }),
            ),
            final(self).spec_locked() == old(self).spec_locked(),
            final(self).spec_outgoing() == old(self).spec_outgoing(),
    {
        self.internal_queue.push(Message { msg_type, contents });
    }

    /// Flips the one-way closing flag. The dispatch loop calls this once,
    /// just before delivering the termination message. Everything already
    /// staged or queued stays exactly as it was: closing is never applied to
    /// sends that completed earlier.
    pub(crate) fn lock(&mut self)
        ensures
            final(self).spec_locked(),
            final(self).spec_outgoing() == old(self).spec_outgoing(),
            final(self).spec_queue() == old(self).spec_queue(),
    {
        self.locked = true;
    }

    /// Hands every staged frame to the caller, in send order, leaving nothing
    /// staged. The driver transmits them and so decides how a transport
    /// failure is surfaced.
    pub fn take_outgoing(&mut self) -> (r: Vec<Vec<u8>>)
        ensures
            r.deep_view() == old(self).spec_outgoing(),
            final(self).spec_outgoing().len() == 0,
            final(self).spec_locked() == old(self).spec_locked(),
            final(self).spec_queue() == old(self).spec_queue(),
    {
        let mut taken: Vec<Vec<u8>> = Vec::new();
        core::mem::swap(&mut taken, &mut self.outgoing);
        taken
    }
}

} // verus!
