use winkey::engine::{
    next_step, read_outcome, settle_reply, settle_shutdown, write_outcome, Framing, IoState, Lane,
    ReadEnd, ReplyWait, RequestQueues, ResponseReader, ShutdownWait, Step, Wake,
};
use winkey::{Error, KeyerEvent, KeyerStatus};

fn status(byte: u8) -> KeyerStatus {
    KeyerStatus::from_status_byte(byte)
}

#[test]
fn breakin_edge_publishes_in_order() {
    let mut state = IoState::new(10);
    let events = state.process_received_bytes(&[0xC0, 0xC2]);
    assert_eq!(
        events,
        vec![
            KeyerEvent::StatusChanged(status(0xC0)),
            KeyerEvent::PaddleBreakIn,
            KeyerEvent::StatusChanged(status(0xC2)),
        ]
    );
    assert!(state.prev_breakin);
    // a held break-in does not fire again
    let again = state.process_received_byte(0xC2);
    assert_eq!(again, vec![KeyerEvent::StatusChanged(status(0xC2))]);
}

#[test]
fn idle_bytes_become_events() {
    let mut state = IoState::new(10);
    assert_eq!(state.process_received_byte(0x8A), vec![KeyerEvent::SpeedPotChanged { wpm: 20 }]);
    assert_eq!(state.process_received_bytes(b"CQ"), vec![
        KeyerEvent::CharacterSent('C'),
        KeyerEvent::CharacterSent('Q'),
    ]);
    assert!(!state.xoff);
    state.process_received_byte(0xC1);
    assert!(state.xoff);
    state.process_received_byte(0xC0);
    assert!(!state.xoff);
    let mut fast = IoState::new(250);
    assert_eq!(fast.process_received_byte(0xBF), vec![KeyerEvent::SpeedPotChanged { wpm: 255 }]);
}

#[test]
fn ascii_reply_skips_unsolicited_bytes() {
    let mut state = IoState::new(10);
    let mut reader = ResponseReader::new(1, Framing::Ascii, &state);
    let mut events = Vec::new();
    for b in [0xC0u8, 0x8A, 0xC4, 0x42] {
        assert!(!reader.is_complete());
        events.extend(reader.accept(&mut state, b));
    }
    assert!(reader.is_complete());
    assert_eq!(reader.into_response(), vec![0x42]);
    assert_eq!(
        events,
        vec![
            KeyerEvent::StatusChanged(status(0xC0)),
            KeyerEvent::SpeedPotChanged { wpm: 20 },
            KeyerEvent::StatusChanged(status(0xC4)),
        ]
    );
}

#[test]
fn echo_round_trip_binary_framing() {
    let mut state = IoState::new(10);
    let mut reader = ResponseReader::new(1, Framing::Binary, &state);
    assert!(reader.accept(&mut state, 0x55).is_empty());
    assert!(reader.is_complete());
    assert_eq!(reader.into_response(), vec![0x55]);

    let mut reader = ResponseReader::new(1, Framing::Binary, &state);
    let events = reader.accept(&mut state, 0x80);
    assert!(events.is_empty(), "no speed-pot event during a binary reply");
    assert_eq!(reader.into_response(), vec![0x80]);
}

#[test]
fn realtime_requests_overtake_background() {
    let mut queues: RequestQueues<&str> = RequestQueues::new();
    queues.push(Lane::Background, "text 1");
    queues.push(Lane::Background, "text 2");
    queues.push(Lane::RealTime, "abort 1");
    queues.push(Lane::RealTime, "abort 2");
    assert_eq!(queues.pop_next(), Some("abort 1"));
    queues.push(Lane::Background, "text 3");
    assert_eq!(queues.pop_next(), Some("abort 2"));
    assert_eq!(queues.pop_next(), Some("text 1"));
    queues.push(Lane::RealTime, "abort 3");
    assert_eq!(queues.pop_next(), Some("abort 3"));
    assert_eq!(queues.pop_next(), Some("text 2"));
    assert_eq!(queues.pop_next(), Some("text 3"));
    assert!(queues.is_empty());
    assert_eq!(queues.waiting(Lane::RealTime), 0);
    assert_eq!(queues.pop_next(), None);
    queues.push(Lane::Background, "text 4");
    assert_eq!(queues.waiting(Lane::Background), 1);
}

#[test]
fn loop_steps() {
    assert_eq!(next_step(Wake::Cancelled), Step::Exit);
    assert_eq!(next_step(Wake::Request { shutdown: true }), Step::AcknowledgeShutdown);
    assert_eq!(next_step(Wake::Request { shutdown: false }), Step::Serve);
    assert_eq!(next_step(Wake::LaneClosed), Step::Exit);
    assert_eq!(next_step(Wake::ReadData), Step::Dispatch);
    assert_eq!(next_step(Wake::ReadEof), Step::ExitDisconnected);
    assert_eq!(next_step(Wake::ReadWouldBlock), Step::PauseAndRetry);
    assert_eq!(next_step(Wake::ReadFailed), Step::ExitDisconnected);
}

#[test]
fn write_and_read_outcomes() {
    let (events, reply) = write_outcome(Ok(()));
    assert!(events.is_empty() && reply.is_ok());
    let failure = std::io::Error::new(std::io::ErrorKind::BrokenPipe, "gone");
    let (events, reply) = write_outcome(Err(failure));
    assert_eq!(events, vec![KeyerEvent::Disconnected]);
    assert!(matches!(reply, Err(Error::Io(_))));

    assert_eq!(read_outcome(ReadEnd::Complete(vec![1, 2])).unwrap(), vec![1, 2]);
    let eof = std::io::Error::new(std::io::ErrorKind::UnexpectedEof, "closed");
    assert!(matches!(read_outcome(ReadEnd::Failed(eof)), Err(Error::Io(_))));
    assert!(matches!(read_outcome(ReadEnd::TimedOut), Err(Error::Timeout)));
}

#[test]
fn reply_and_shutdown_settling() {
    assert_eq!(settle_reply(ReplyWait::Replied(Ok(7u8))).unwrap(), 7);
    assert!(matches!(settle_reply::<()>(ReplyWait::Replied(Err(Error::ConnectionLost))), Err(Error::ConnectionLost)));
    assert!(matches!(settle_reply::<()>(ReplyWait::Dropped), Err(Error::NotConnected)));
    assert!(matches!(settle_reply::<()>(ReplyWait::TimedOut), Err(Error::Timeout)));

    let (cancel, result) = settle_shutdown(ShutdownWait::Replied(Ok(())));
    assert!(!cancel && result.is_ok());
    let (cancel, result) = settle_shutdown(ShutdownWait::NotQueued);
    assert!(cancel && result.is_ok());
    let (cancel, result) = settle_shutdown(ShutdownWait::NoAnswer);
    assert!(cancel && result.is_ok());
}
