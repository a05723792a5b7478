use appload_client::codec::{encode_frame, encode_header};
use appload_client::{
    AppLoad, AppLoadBackend, BackendReplier, Message, Phase, ProtocolError, SendError,
    MAX_PACKAGE_SIZE, MSG_SYSTEM_TERMINATE,
};

/// Remembers every message it is handed.
struct Recorder {
    seen: Vec<(u32, String)>,
}

impl AppLoadBackend for Recorder {
    fn handle_message(&mut self, _functionality: &mut BackendReplier, message: Message) {
        self.seen.push((message.msg_type, message.contents));
    }
}

fn feed_frame<B: AppLoadBackend>(a: &mut AppLoad<B>, msg_type: u32, payload: &[u8]) {
    let header = encode_header(msg_type, payload.len() as u32);
    let declared = a.on_header(&header).expect("frame within bounds");
    assert_eq!(declared as usize, payload.len());
    a.on_payload(payload);
    a.drain_internal();
}

#[test]
fn scenario_ping_then_close() {
    let mut a = AppLoad::new(Recorder { seen: Vec::new() });
    feed_frame(&mut a, 1, b"ping");
    a.on_end_of_stream();
    assert_eq!(a.phase, Phase::Terminated);
    assert_eq!(
        a.backend.seen,
        vec![(1, "ping".to_string()), (MSG_SYSTEM_TERMINATE, String::new())]
    );
}

#[test]
fn scenario_oversize_frame_is_protocol_violation() {
    let mut a = AppLoad::new(Recorder { seen: Vec::new() });
    let header = encode_header(1, (MAX_PACKAGE_SIZE + 1) as u32);
    let r = a.on_header(&header);
    assert_eq!(r, Err(ProtocolError::FrameTooLarge));
    assert_eq!(a.phase, Phase::Failed);
    assert!(a.backend.seen.is_empty());
}

#[test]
fn boundary_length_is_accepted() {
    let mut a = AppLoad::new(Recorder { seen: Vec::new() });
    let header = encode_header(9, MAX_PACKAGE_SIZE as u32);
    let r = a.on_header(&header);
    assert_eq!(r, Ok(MAX_PACKAGE_SIZE as u32));
    assert_eq!(
        a.phase,
        Phase::ReadingPayload { msg_type: 9, length: MAX_PACKAGE_SIZE as u32 }
    );
}

/// On the first external message, queues two messages to itself; records
/// everything it is handed.
struct SelfQueuer {
    seen: Vec<(u32, String)>,
}

impl AppLoadBackend for SelfQueuer {
    fn handle_message(&mut self, functionality: &mut BackendReplier, message: Message) {
        if message.msg_type == 1 {
            functionality.send_internal(2, "y".to_string());
            functionality.send_internal(3, "z".to_string());
        }
        self.seen.push((message.msg_type, message.contents));
    }
}

#[test]
fn scenario_internal_queue_delivered_before_next_receive() {
    let mut a = AppLoad::new(SelfQueuer { seen: Vec::new() });
    feed_frame(&mut a, 1, b"x");
    // Both self-addressed messages were redelivered, in the order they were
    // queued, before the loop becomes ready for the next frame.
    assert_eq!(a.phase, Phase::Running);
    assert_eq!(
        a.backend.seen,
        vec![
            (1, "x".to_string()),
            (2, "y".to_string()),
            (3, "z".to_string())
        ]
    );
}

/// Queues a follow-up while handling a redelivered internal message: the
/// follow-up must wait for the drain after the next external message.
struct ChainQueuer {
    seen: Vec<u32>,
}

impl AppLoadBackend for ChainQueuer {
    fn handle_message(&mut self, functionality: &mut BackendReplier, message: Message) {
        if message.msg_type == 1 {
            functionality.send_internal(2, String::new());
        }
        if message.msg_type == 2 {
            functionality.send_internal(3, String::new());
        }
        self.seen.push(message.msg_type);
    }
}

#[test]
fn messages_queued_during_drain_wait_for_next_tick() {
    let mut a = AppLoad::new(ChainQueuer { seen: Vec::new() });
    feed_frame(&mut a, 1, b"");
    // The message queued while draining (type 3) is not delivered in the same
    // drain pass.
    assert_eq!(a.backend.seen, vec![1, 2]);
    feed_frame(&mut a, 10, b"");
    assert_eq!(a.backend.seen, vec![1, 2, 10, 3]);
}

/// Tries to reply to everything, recording each send's outcome.
struct Echoer {
    outcomes: Vec<Result<(), SendError>>,
}

impl AppLoadBackend for Echoer {
    fn handle_message(&mut self, functionality: &mut BackendReplier, message: Message) {
        self.outcomes
            .push(functionality.send_message(101, &message.contents));
    }
}

#[test]
fn reply_is_staged_in_wire_form() {
    let mut a = AppLoad::new(Echoer { outcomes: Vec::new() });
    feed_frame(&mut a, 1, b"ping");
    let frames = a.take_outgoing();
    assert_eq!(frames, vec![encode_frame(101, b"ping")]);
    // Taking the staged frames leaves nothing behind.
    assert!(a.take_outgoing().is_empty());
}

#[test]
fn replier_send_is_refused_once_locked() {
    let mut a = AppLoad::new(Echoer { outcomes: Vec::new() });
    feed_frame(&mut a, 1, b"one");
    assert_eq!(a.backend.outcomes, vec![Ok(())]);
    a.on_end_of_stream();
    // The send attempted during the terminal invocation fails with the
    // closing error; the earlier send is unaffected.
    assert_eq!(
        a.backend.outcomes,
        vec![Ok(()), Err(SendError::AlreadyClosing)]
    );
    // Only the pre-shutdown reply was ever staged, and closing left it
    // untouched: a send completed before shutdown is never revoked.
    let frames = a.take_outgoing();
    assert_eq!(frames, vec![encode_frame(101, b"one")]);
}

#[test]
fn replier_created_earlier_keeps_its_own_flag() {
    // The closing flag is per replier instance: a capability created before
    // shutdown is not retroactively locked, and its sends still succeed.
    let mut a = AppLoad::new(Recorder { seen: Vec::new() });
    let mut stashed = a.create_replier();
    a.on_end_of_stream();
    assert_eq!(stashed.send_message(4, "late"), Ok(()));
    assert_eq!(stashed.take_outgoing(), vec![encode_frame(4, b"late")]);
}

#[test]
fn absorbed_replier_messages_feed_the_same_drain() {
    // A capability from create_replier is a producer end of the run's one
    // queue: once absorbed, its messages are redelivered by the next drain,
    // in the order they were queued, after the external message.
    let mut a = AppLoad::new(Recorder { seen: Vec::new() });
    let mut stashed = a.create_replier();
    stashed.send_internal(8, "first".to_string());
    stashed.send_internal(9, "second".to_string());
    a.absorb_replier(&mut stashed);
    feed_frame(&mut a, 1, b"ext");
    assert_eq!(
        a.backend.seen,
        vec![
            (1, "ext".to_string()),
            (8, "first".to_string()),
            (9, "second".to_string())
        ]
    );
    // Absorbing emptied the stashed replier: a second absorb adds nothing.
    a.absorb_replier(&mut stashed);
    feed_frame(&mut a, 2, b"next");
    assert_eq!(a.backend.seen.len(), 4);
}

#[test]
fn absorbed_replier_frames_join_the_outbox() {
    // Frames staged on a stashed replier join the loop's outbox on absorb,
    // after anything already staged there, so the driver transmits them on
    // the same connection.
    let mut a = AppLoad::new(Echoer { outcomes: Vec::new() });
    feed_frame(&mut a, 1, b"ping");
    let mut stashed = a.create_replier();
    stashed.send_message(70, "bg").unwrap();
    a.absorb_replier(&mut stashed);
    assert_eq!(
        a.take_outgoing(),
        vec![encode_frame(101, b"ping"), encode_frame(70, b"bg")]
    );
}

#[test]
fn empty_payload_becomes_empty_contents() {
    let mut a = AppLoad::new(Recorder { seen: Vec::new() });
    feed_frame(&mut a, 42, b"");
    assert_eq!(a.backend.seen, vec![(42, String::new())]);
}

#[test]
fn invalid_utf8_payload_is_delivered_lossily() {
    let mut a = AppLoad::new(Recorder { seen: Vec::new() });
    feed_frame(&mut a, 6, &[b'a', 0xFF]);
    assert_eq!(a.backend.seen, vec![(6, "a\u{FFFD}".to_string())]);
}
