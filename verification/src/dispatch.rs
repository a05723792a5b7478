//! The dispatch state machine. A thin, unverified driver owns the socket and
//! performs the raw reads and writes; every protocol decision is made here:
//! the bound on a declared payload length, the construction of each delivered
//! message, the single-pass drain of the self-addressed queue after each
//! received frame, and the one irrevocable termination step.
//!
//! The order of handler invocations is recorded in a ghost trace, so the
//! delivery guarantees — external message first, then exactly the queued
//! messages in queue order, terminal notice exactly once and last — are part
//! of each step's contract.

use vstd::prelude::*;

verus! {

use crate::codec::{
    decode_header, decode_payload, lossy_utf8, spec_header_length, spec_header_msg_type,
    HEADER_SIZE,
};
use crate::replier::BackendReplier;
use crate::{Message, MAX_PACKAGE_SIZE, MSG_SYSTEM_TERMINATE};

/// The fatal protocol violation, distinct from any transport failure the
/// driver may meet: the peer declared a payload longer than
/// `MAX_PACKAGE_SIZE`.
#[derive(Clone, Copy, Debug, PartialEq, Eq, Structural)]
pub enum ProtocolError {
    /// A received header declared a payload length above `MAX_PACKAGE_SIZE`.
    FrameTooLarge,
}

/// Where a run stands between two driver calls.
#[derive(Clone, Copy, Debug, PartialEq, Eq, Structural)]
pub enum Phase {
    /// Ready to take the next event: a frame header, or end of stream.
    Running,
    /// A header was accepted; the driver owes the declared payload bytes.
    ReadingPayload { msg_type: u32, length: u32 },
    /// An external message was delivered; the internal queue must be drained
    /// before the next receive.
    NeedsDrain,
    /// The terminal message has been delivered; nothing further happens.
    Terminated,
    /// A protocol violation was detected; the run is abandoned, with no
    /// terminal delivery — a crash path, not a clean shutdown.
    Failed,
}

/// One handler invocation, as recorded in the ghost trace.
pub enum Event {
    /// Delivery of a message received from the peer.
    External { msg_type: u32, contents: Seq<char> },
    /// Redelivery of a self-addressed message taken from the internal queue.
    Internal { msg_type: u32, contents: Seq<char> },
    /// Delivery of the synthetic termination message; `closing` is the
    /// replier's closing flag at the moment of the call.
    Terminal { closing: bool },
}

/// The trace event recording the redelivery of one queued message.
pub open spec fn internal_event(m: Message) -> Event {
    Event::Internal { msg_type: m.msg_type, contents: m.contents@ }
}

/// The application boundary: the dispatch loop calls this for every message,
/// handing it the loop's replier. Handlers run strictly one after another.
/// During the terminal invocation the replier is already closing, so any
/// `send_message` it issues fails.
pub trait AppLoadBackend {
    fn handle_message(&mut self, functionality: &mut BackendReplier, message: Message);
}

/// One run of the dispatch loop over one connection.
pub struct AppLoad<B> {
    /// The application logic the loop dispatches into.
    pub backend: B,
    /// The loop's own send capability, handed to every handler invocation.
    pub(crate) replier: BackendReplier,
    /// Where the run stands.
    pub phase: Phase,
    /// Every handler invocation made so far, oldest first.
    pub trace: Ghost<Seq<Event>>,
}

impl<B: AppLoadBackend> AppLoad<B> {
    /// Where the run stands.
    pub open(crate) spec fn spec_phase(&self) -> Phase {
        self.phase
    }

    /// The handler invocations made so far, oldest first.
    pub open(crate) spec fn spec_trace(&self) -> Seq<Event> {
        self.trace@
    }

    /// The loop's own replier.
    pub open(crate) spec fn spec_replier(&self) -> BackendReplier {
        self.replier
    }

    /// The application logic the loop dispatches into.
    pub open(crate) spec fn spec_backend(&self) -> B {
        self.backend
    }

    /// A run is well formed when its trace holds a terminal event exactly if
    /// it has terminated, and then only as the last event. Every constructor
    /// establishes this and every step preserves it.
    pub open(crate) spec fn wf(&self) -> bool {
        &&& (self.phase is Terminated <==> (self.trace@.len() > 0 && self.trace@.last()
            is Terminal))
        &&& (forall|i: int|
            0 <= i < self.trace@.len() - 1 ==> !(#[trigger] self.trace@[i] is Terminal))
    }

    /// A new run, ready for its first frame, with nothing delivered yet.
    pub fn new(backend: B) -> (r: AppLoad<B>)
        ensures
            r.wf(),
            r.spec_phase() is Running,
            r.spec_trace().len() == 0,
            !r.spec_replier().spec_locked(),
            r.spec_replier().spec_outgoing().len() == 0,
            r.spec_replier().spec_queue().len() == 0,
    {
        AppLoad {
            backend,
            replier: BackendReplier::new(),
            phase: Phase::Running,
            trace: Ghost(Seq::empty()),
        }
    }

    /// A fresh, open send capability for this run, to hand to background
    /// work. It is a producer end of the same run: what is queued or staged
    /// on it joins the loop's own queue and outbox through `absorb_replier`,
    /// from where the next drain redelivers the messages and the driver
    /// transmits the frames. Its closing flag starts false whatever the
    /// run's state — closing is never inherited.
    pub fn create_replier(&self) -> (r: BackendReplier)
        ensures
            !r.spec_locked(),
            r.spec_outgoing().len() == 0,
            r.spec_queue().len() == 0,
    {
        BackendReplier::new()
    }

    /// Adopts a stashed replier's pending work into the run: its queued
    /// self-addressed messages join the loop's internal queue and its staged
    /// frames join the loop's outbox, each appended in its original order,
    /// leaving the stashed replier empty. This is how every send capability
    /// of a run feeds the one queue the loop consumes and the one connection
    /// the driver writes.
    pub fn absorb_replier(&mut self, r: &mut BackendReplier)
        ensures
            final(self).spec_replier().spec_queue() == old(self).spec_replier().spec_queue() + old(
                r,
            ).spec_queue(),
            final(self).spec_replier().spec_outgoing() == old(self).spec_replier().spec_outgoing()
                + old(r).spec_outgoing(),
            final(self).spec_replier().spec_locked() == old(self).spec_replier().spec_locked(),
            final(r).spec_queue().len() == 0,
            final(r).spec_outgoing().len() == 0,
            final(r).spec_locked() == old(r).spec_locked(),
            final(self).spec_phase() == old(self).spec_phase(),
            final(self).spec_trace() == old(self).spec_trace(),
            final(self).spec_backend() == old(self).spec_backend(),
            old(self).wf() ==> final(self).wf(),
    {
        self.replier.internal_queue.append(&mut r.internal_queue);
        self.replier.outgoing.append(&mut r.outgoing);
        proof {
            assert(self.replier.outgoing.deep_view() =~~= old(self).replier.outgoing.deep_view()
                + old(r).outgoing.deep_view());
        }
    }

    /// Hands the frames staged on the loop's replier to the driver, in send
    /// order, leaving nothing staged.
    pub fn take_outgoing(&mut self) -> (r: Vec<Vec<u8>>)
        ensures
            r.deep_view() == old(self).spec_replier().spec_outgoing(),
            final(self).spec_replier().spec_outgoing().len() == 0,
            final(self).spec_replier().spec_locked() == old(self).spec_replier().spec_locked(),
            final(self).spec_replier().spec_queue() == old(self).spec_replier().spec_queue(),
            final(self).spec_phase() == old(self).spec_phase(),
            final(self).spec_trace() == old(self).spec_trace(),
            final(self).spec_backend() == old(self).spec_backend(),
            old(self).wf() ==> final(self).wf(),
    {
        self.replier.take_outgoing()
    }

    /// Takes the eight raw header bytes of the next frame. A declared length
    /// within bounds is returned, to be read by the driver; one above
    /// `MAX_PACKAGE_SIZE` is the fatal protocol violation, refused before any
    /// payload byte is read and with no handler call.
    pub fn on_header(&mut self, raw: &[u8]) -> (r: Result<u32, ProtocolError>)
        requires
            old(self).wf(),
            old(self).spec_phase() is Running,
            raw@.len() == HEADER_SIZE,
        ensures
            final(self).wf(),
            final(self).spec_trace() == old(self).spec_trace(),
            final(self).spec_replier() == old(self).spec_replier(),
            final(self).spec_backend() == old(self).spec_backend(),
            spec_header_length(raw@) <= MAX_PACKAGE_SIZE ==> r == Ok::<u32, ProtocolError>(
                spec_header_length(raw@),
            ) && final(self).spec_phase() == (Phase::ReadingPayload {
                msg_type: spec_header_msg_type(raw@),
                length: spec_header_length(raw@),
            }),
            spec_header_length(raw@) > MAX_PACKAGE_SIZE ==> r == Err::<u32, ProtocolError>(
                ProtocolError::FrameTooLarge,
            ) && final(self).spec_phase() is Failed,
    {
        let h = decode_header(raw);
        if h.length as usize > MAX_PACKAGE_SIZE {
            self.phase = Phase::Failed;
            Err(ProtocolError::FrameTooLarge)
        } else {
            self.phase = Phase::ReadingPayload { msg_type: h.msg_type, length: h.length };
            Ok(h.length)
        }
    }

    /// Takes the payload of the frame whose header was just accepted, builds
    /// the message by lossy UTF-8 decoding, and delivers it to the handler.
    /// Exactly one delivery is recorded; the internal queue must be drained
    /// next.
    pub fn on_payload(&mut self, payload: &[u8])
        requires
            old(self).wf(),
            old(self).spec_phase() matches Phase::ReadingPayload { msg_type, length }
                && payload@.len() == length,
        ensures
            final(self).wf(),
            final(self).spec_phase() is NeedsDrain,
            old(self).spec_phase() matches Phase::ReadingPayload { msg_type, length }
                ==> final(self).spec_trace() == old(self).spec_trace().push(
                (Event::External { msg_type, contents: lossy_utf8(payload@) }),
            ),
    {
        let msg_type: u32 = match self.phase {
            Phase::ReadingPayload { msg_type, length: _ } => msg_type,
            _ => vstd::pervasive::unreached(),
        };
        let contents = decode_payload(payload);
        self.phase = Phase::NeedsDrain;
        proof {
            self.trace@ = self.trace@.push(
                Event::External { msg_type, contents: lossy_utf8(payload@) },
            );
        }
        self.backend.handle_message(&mut self.replier, Message { msg_type, contents });
    }

    /// Drains the internal queue once: exactly the messages queued at this
    /// moment — those the external message's handling left behind, behind any
    /// absorbed earlier — are redelivered to the handler, oldest first.
    /// Messages queued during these redeliveries stay for the next drain, so
    /// a handler that keeps queuing cannot starve the peer.
    pub fn drain_internal(&mut self)
        requires
            old(self).wf(),
            old(self).spec_phase() is NeedsDrain,
        ensures
            final(self).wf(),
            final(self).spec_phase() is Running,
            final(self).spec_trace() == old(self).spec_trace() + old(
                self,
            ).spec_replier().spec_queue().map_values(|m: Message| internal_event(m)),
    {
        let mut pending: Vec<Message> = Vec::new();
        core::mem::swap(&mut pending, &mut self.replier.internal_queue);
        let ghost snapshot = pending@;
        let ghost trace0 = self.trace@;
        let ghost mut delivered: Seq<Event> = Seq::empty();
        proof {
            assert(self.trace@ =~= trace0 + delivered);
        }
        while pending.len() > 0
            invariant
                pending@.len() <= snapshot.len(),
                pending@ == snapshot.skip(snapshot.len() - pending@.len()),
                delivered.len() == snapshot.len() - pending@.len(),
                self.trace@ == trace0 + delivered,
                forall|i: int|
                    0 <= i < delivered.len() ==> #[trigger] delivered[i] == internal_event(
                        snapshot[i],
                    ),
                forall|i: int| 0 <= i < trace0.len() ==> !(#[trigger] trace0[i] is Terminal),
                forall|i: int|
                    0 <= i < delivered.len() ==> !(#[trigger] delivered[i] is Terminal),
            decreases pending@.len(),
        {
            let ghost k = snapshot.len() - pending@.len();
            let m = pending.remove(0);
            proof {
                assert(m == snapshot[k]);
                let ev = internal_event(m);
                self.trace@ = self.trace@.push(ev);
                delivered = delivered.push(ev);
                assert(self.trace@ =~= trace0 + delivered);
                assert(pending@ =~= snapshot.skip(snapshot.len() - pending@.len()));
            }
            self.backend.handle_message(&mut self.replier, m);
        }
        self.phase = Phase::Running;
        proof {
            assert(delivered =~= snapshot.map_values(|m: Message| internal_event(m)));
        }
    }

    /// The clean shutdown step, taken when the peer closes the stream: flips
    /// the loop replier's closing flag, then delivers the synthetic
    /// termination message — `MSG_SYSTEM_TERMINATE` with empty contents — as
    /// the one and final handler invocation. Any send the handler issues on
    /// that replier fails with the closing error; frames staged before this
    /// point are untouched by the flag.
    pub fn on_end_of_stream(&mut self)
        requires
            old(self).wf(),
            old(self).spec_phase() is Running,
        ensures
            final(self).wf(),
            final(self).spec_phase() is Terminated,
            final(self).spec_trace() == old(self).spec_trace().push(
                (Event::Terminal { closing: true }),
            ),
    {
        self.replier.lock();
        self.phase = Phase::Terminated;
        proof {
            self.trace@ = self.trace@.push(Event::Terminal { closing: self.replier.locked });
        }
        self.backend.handle_message(
            &mut self.replier,
            Message { msg_type: MSG_SYSTEM_TERMINATE, contents: String::new() },
        );
    }
}

/// The terminal notification is delivered exactly once per run: a terminated
/// run's trace ends with its only terminal event, and a run that has not
/// terminated has delivered none.
pub proof fn lemma_terminal_exactly_once<B: AppLoadBackend>(a: &AppLoad<B>)
    requires
        a.wf(),
    ensures
        a.spec_phase() is Terminated ==> a.spec_trace().len() > 0 && a.spec_trace().last()
            is Terminal && (forall|i: int|
            0 <= i < a.spec_trace().len() - 1 ==> !(#[trigger] a.spec_trace()[i] is Terminal)),
        !(a.spec_phase() is Terminated) ==> (forall|i: int|
            0 <= i < a.spec_trace().len() ==> !(#[trigger] a.spec_trace()[i] is Terminal)),
{
}

} // verus!
