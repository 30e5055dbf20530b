//! Decisions of the I/O engine.
//!
//! The engine owns the transport; it serves requests from a real-time lane
//! ahead of a background lane, classifies every inbound byte and publishes
//! the resulting events. The waiting itself happens around this module: it
//! is handed what arrived and says what to do.

use vstd::prelude::*;

use std::collections::VecDeque;

use crate::error::Error;
use crate::event::KeyerEvent;
use crate::protocol::response::{class_of_byte, classify_byte, speed_pot_wpm, ResponseByte};

verus! {

/// State the engine keeps between inbound bytes.
#[derive(Debug, Clone, Copy, PartialEq, Eq, Structural)]
pub struct IoState {
    /// Last XOFF flag reported by a status byte.
    pub xoff: bool,
    /// Break-in flag of the last status byte, for edge detection.
    pub prev_breakin: bool,
    /// Lower end of the speed pot range, in WPM.
    pub min_wpm: u8,
}

impl IoState {
    /// The events one inbound byte publishes, in order: a status byte gives
    /// `PaddleBreakIn` on a 0 to 1 break-in edge, then `StatusChanged`; a
    /// speed-pot byte gives the speed in WPM; an echo byte the character sent.
    pub open spec fn events_for(self, byte: u8) -> Seq<KeyerEvent> {
        match class_of_byte(byte) {
            ResponseByte::Status(s) => if s.breakin && !self.prev_breakin {
                seq![KeyerEvent::PaddleBreakIn, KeyerEvent::StatusChanged(s)]
            } else {
                seq![KeyerEvent::StatusChanged(s)]
            },
            ResponseByte::SpeedPot { .. } => seq![
                KeyerEvent::SpeedPotChanged { wpm: speed_pot_wpm(byte, self.min_wpm) },
            ],
            ResponseByte::Echo(c) => seq![KeyerEvent::CharacterSent(c)],
        }
    }

    /// The state after one inbound byte: a status byte sets the XOFF flag
    /// and the break-in memory, other bytes leave the state alone.
    pub open spec fn after(self, byte: u8) -> IoState {
        match class_of_byte(byte) {
            ResponseByte::Status(s) => IoState { xoff: s.xoff, prev_breakin: s.breakin, ..self },
            _ => self,
        }
    }

    /// The events of a run of inbound bytes, each byte seeing the state the
    /// bytes before it left.
    pub open spec fn events_for_all(self, bytes: Seq<u8>) -> Seq<KeyerEvent>
        decreases bytes.len(),
    {
        if bytes.len() == 0 {
            Seq::empty()
        } else {
            self.events_for_all(bytes.drop_last()) + self.after_all(bytes.drop_last()).events_for(
                bytes.last(),
            )
        }
    }

    /// The state after a run of inbound bytes.
    pub open spec fn after_all(self, bytes: Seq<u8>) -> IoState
        decreases bytes.len(),
    {
        if bytes.len() == 0 {
            self
        } else {
            self.after_all(bytes.drop_last()).after(bytes.last())
        }
    }

    /// A fresh engine state: no XOFF, no break-in seen yet.
    pub fn new(min_wpm: u8) -> (r: IoState)
        ensures
            r == (IoState { xoff: false, prev_breakin: false, min_wpm }),
    {
        IoState { xoff: false, prev_breakin: false, min_wpm }
    }

    /// Process one received byte and return the events it publishes.
    pub fn process_received_byte(&mut self, byte: u8) -> (events: Vec<KeyerEvent>)
        ensures
            events@ == old(self).events_for(byte),
            *final(self) == old(self).after(byte),
    {
        let mut events: Vec<KeyerEvent> = Vec::new();
        match classify_byte(byte) {
            ResponseByte::Status(status) => {
                self.xoff = status.xoff;
                if status.breakin && !self.prev_breakin {
                    events.push(KeyerEvent::PaddleBreakIn);
                }
                self.prev_breakin = status.breakin;
                events.push(KeyerEvent::StatusChanged(status));
            },
            ResponseByte::SpeedPot { value } => {
                let wpm = self.min_wpm.saturating_add(value);
                events.push(KeyerEvent::SpeedPotChanged { wpm });
            },
            ResponseByte::Echo(ch) => {
                events.push(KeyerEvent::CharacterSent(ch));
            },
        }
        events
    }

    /// Process a run of received bytes, in order, and return every event they publish.
    pub fn process_received_bytes(&mut self, bytes: &[u8]) -> (events: Vec<KeyerEvent>)
        ensures
            events@ == old(self).events_for_all(bytes@),
            *final(self) == old(self).after_all(bytes@),
    {
        let ghost start = *self;
        let mut events: Vec<KeyerEvent> = Vec::new();
        let mut i: usize = 0;
        while i < bytes.len()
            invariant
                i <= bytes@.len(),
                events@ == start.events_for_all(bytes@.take(i as int)),
                *self == start.after_all(bytes@.take(i as int)),
            decreases bytes@.len() - i,
        {
            let mut more = self.process_received_byte(bytes[i]);
            events.append(&mut more);
            assert(bytes@.take(i + 1).drop_last() =~= bytes@.take(i as int));
            i = i + 1;
        }
        assert(bytes@.take(i as int) =~= bytes@);
        events
    }
}

/// How the bytes of a synchronous reply are told apart from unsolicited ones.
#[derive(Debug, Clone, Copy, PartialEq, Eq, Structural)]
pub enum Framing {
    /// Bytes with the high bit set are status or speed-pot bytes; the reply
    /// is made of bytes 0x00-0x7F.
    Ascii,
    /// Every byte belongs to the reply, counted by position.
    Binary,
}

/// The reply bytes among `seen` under `framing`.
pub open spec fn framed_response(framing: Framing, seen: Seq<u8>) -> Seq<u8>
    decreases seen.len(),
{
    if seen.len() == 0 {
        Seq::empty()
    } else if framing == Framing::Ascii && seen.last() >= 0x80 {
        framed_response(framing, seen.drop_last())
    } else {
        framed_response(framing, seen.drop_last()) + seq![seen.last()]
    }
}

/// The unsolicited bytes among `seen` under `framing`: those with the high
/// bit set under ASCII framing, none under binary framing.
pub open spec fn unsolicited(framing: Framing, seen: Seq<u8>) -> Seq<u8>
    decreases seen.len(),
{
    if seen.len() == 0 {
        Seq::empty()
    } else if framing == Framing::Ascii && seen.last() >= 0x80 {
        unsolicited(framing, seen.drop_last()) + seq![seen.last()]
    } else {
        unsolicited(framing, seen.drop_last())
    }
}

/// Collects the reply to a write-and-read request, one inbound byte at a time.
pub struct ResponseReader {
    expected: usize,
    framing: Framing,
    response: Vec<u8>,
    seen: Ghost<Seq<u8>>,
    origin: Ghost<IoState>,
    dispatched: Ghost<Seq<KeyerEvent>>,
}

impl ResponseReader {
    pub closed spec fn spec_expected(&self) -> nat {
        self.expected as nat
    }

    pub closed spec fn spec_framing(&self) -> Framing {
        self.framing
    }

    /// Every byte handed to the reader so far.
    pub closed spec fn spec_seen(&self) -> Seq<u8> {
        self.seen@
    }

    /// The reply collected so far.
    pub closed spec fn spec_response(&self) -> Seq<u8> {
        self.response@
    }

    /// The engine state when the read began.
    pub closed spec fn spec_origin(&self) -> IoState {
        self.origin@
    }

    /// Every event handed back so far, in order.
    pub closed spec fn spec_dispatched(&self) -> Seq<KeyerEvent> {
        self.dispatched@
    }

    pub closed spec fn wf(&self) -> bool {
        &&& self.response@ == framed_response(self.framing, self.seen@)
        &&& self.response@.len() <= self.expected
    }

    /// `state` is the engine state after the unsolicited bytes seen so far,
    /// and the events handed back are exactly those bytes' events, in
    /// arrival order, as on the idle path.
    pub open spec fn tracks(&self, state: IoState) -> bool {
        let unsolicited_bytes = unsolicited(self.spec_framing(), self.spec_seen());
        &&& state == self.spec_origin().after_all(unsolicited_bytes)
        &&& self.spec_dispatched() == self.spec_origin().events_for_all(unsolicited_bytes)
    }

    /// A reader waiting for `expected` reply bytes, starting from the
    /// engine state `state`.
    pub fn new(expected: usize, framing: Framing, state: &IoState) -> (r: ResponseReader)
        ensures
            r.wf(),
            r.tracks(*state),
            r.spec_expected() == expected,
            r.spec_framing() == framing,
            r.spec_origin() == *state,
            r.spec_seen() == Seq::<u8>::empty(),
            r.spec_response() == Seq::<u8>::empty(),
    {
        ResponseReader {
            expected,
            framing,
            response: Vec::new(),
            seen: Ghost(Seq::empty()),
            origin: Ghost(*state),
            dispatched: Ghost(Seq::empty()),
        }
    }

    /// Whether all expected reply bytes have arrived.
    pub fn is_complete(&self) -> (r: bool)
        requires
            self.wf(),
        ensures
            r == (self.spec_response().len() == self.spec_expected()),
    {
        self.response.len() == self.expected
    }

    /// Take one inbound byte. An unsolicited byte goes through the engine
    /// state as on the idle path and its events are returned; a reply byte
    /// is kept.
    pub fn accept(&mut self, state: &mut IoState, byte: u8) -> (events: Vec<KeyerEvent>)
        requires
            old(self).wf(),
            old(self).tracks(*old(state)),
            old(self).spec_response().len() < old(self).spec_expected(),
        ensures
            final(self).wf(),
            final(self).tracks(*final(state)),
            final(self).spec_expected() == old(self).spec_expected(),
            final(self).spec_framing() == old(self).spec_framing(),
            final(self).spec_origin() == old(self).spec_origin(),
            final(self).spec_seen() == old(self).spec_seen().push(byte),
            final(self).spec_dispatched() == old(self).spec_dispatched() + events@,
            (old(self).spec_framing() == Framing::Ascii && byte >= 0x80) ==> {
                &&& events@ == old(state).events_for(byte)
                &&& *final(state) == old(state).after(byte)
            },
            !(old(self).spec_framing() == Framing::Ascii && byte >= 0x80) ==> {
                &&& events@ == Seq::<KeyerEvent>::empty()
                &&& *final(state) == *old(state)
            },
    {
        let ghost seen_before = self.seen@;
        let ghost u = unsolicited(self.framing, seen_before);
        self.seen = Ghost(self.seen@.push(byte));
        assert(self.seen@.drop_last() =~= seen_before);
        assert(self.seen@.last() == byte);
        if self.framing == Framing::Ascii && byte >= 0x80 {
            assert(framed_response(self.framing, self.seen@) == framed_response(self.framing, seen_before));
            assert(unsolicited(self.framing, self.seen@) == u.push(byte));
            assert(u.push(byte).drop_last() =~= u);
            let events = state.process_received_byte(byte);
            self.dispatched = Ghost(self.dispatched@ + events@);
            events
        } else {
            assert(framed_response(self.framing, self.seen@) == framed_response(self.framing, seen_before).push(byte));
            assert(unsolicited(self.framing, self.seen@) == u);
            self.response.push(byte);
            let events: Vec<KeyerEvent> = Vec::new();
            assert(self.dispatched@ + events@ =~= self.dispatched@);
            events
        }
    }

    /// The complete reply: exactly the expected number of bytes, the reply
    /// bytes among those seen, in arrival order.
    pub fn into_response(self) -> (r: Vec<u8>)
        requires
            self.wf(),
            self.spec_response().len() == self.spec_expected(),
        ensures
            r@ == self.spec_response(),
            r@.len() == self.spec_expected(),
            r@ == framed_response(self.spec_framing(), self.spec_seen()),
    {
        self.response
    }
}

/// What a write-and-read reply holds: under ASCII framing only bytes below
/// 0x80, each unsolicited byte being set aside (and published on its own);
/// under binary framing every byte, in the order it came. Reply and
/// unsolicited bytes together account for every byte seen.
pub proof fn lemma_response_framing(framing: Framing, seen: Seq<u8>)
    ensures
        framing == Framing::Ascii ==> forall|i: int|
            0 <= i < framed_response(framing, seen).len() ==> #[trigger] framed_response(
                framing,
                seen,
            )[i] < 0x80,
        framing == Framing::Ascii ==> forall|i: int|
            0 <= i < unsolicited(framing, seen).len() ==> #[trigger] unsolicited(
                framing,
                seen,
            )[i] >= 0x80,
        framing == Framing::Binary ==> framed_response(framing, seen) == seen,
        framed_response(framing, seen).len() + unsolicited(framing, seen).len() == seen.len(),
    decreases seen.len(),
{
    if seen.len() > 0 {
        lemma_response_framing(framing, seen.drop_last());
        if framing == Framing::Binary {
            assert(seen.drop_last() + seq![seen.last()] =~= seen);
        }
    }
}

/// A complete write-and-read reply has exactly the expected number of
/// bytes; under ASCII framing none has the high bit set and they are the
/// low bytes seen, in arrival order, while every high byte seen was
/// dispatched as on the idle path, in arrival order; under binary framing
/// the reply is every byte seen, by position.
pub proof fn lemma_complete_reply(reader: ResponseReader, state: IoState)
    requires
        reader.wf(),
        reader.tracks(state),
        reader.spec_response().len() == reader.spec_expected(),
    ensures
        reader.spec_response().len() == reader.spec_expected(),
        reader.spec_response() == framed_response(reader.spec_framing(), reader.spec_seen()),
        reader.spec_framing() == Framing::Ascii ==> forall|i: int|
            0 <= i < reader.spec_response().len() ==> #[trigger] reader.spec_response()[i] < 0x80,
        reader.spec_framing() == Framing::Binary ==> reader.spec_response() == reader.spec_seen(),
        reader.spec_dispatched() == reader.spec_origin().events_for_all(
            unsolicited(reader.spec_framing(), reader.spec_seen()),
        ),
        state == reader.spec_origin().after_all(unsolicited(reader.spec_framing(), reader.spec_seen())),
{
    lemma_response_framing(reader.spec_framing(), reader.spec_seen());
}

/// What woke the engine on one turn of its loop.
#[derive(Debug, Clone, Copy, PartialEq, Eq, Structural)]
pub enum Wake {
    /// The cancellation flag was raised.
    Cancelled,
    /// A request arrived on a lane; `shutdown` tells a shutdown request.
    Request { shutdown: bool },
    /// A request lane was closed by every producer.
    LaneClosed,
    /// The transport delivered bytes.
    ReadData,
    /// The transport reached end of stream.
    ReadEof,
    /// The transport had nothing yet and asked to be polled again.
    ReadWouldBlock,
    /// The transport failed.
    ReadFailed,
}

/// What the engine does next.
#[derive(Debug, Clone, Copy, PartialEq, Eq, Structural)]
pub enum Step {
    /// Leave the loop without a word.
    Exit,
    /// Publish `Disconnected`, then leave the loop.
    ExitDisconnected,
    /// Acknowledge the shutdown request, then leave the loop.
    AcknowledgeShutdown,
    /// Serve the request.
    Serve,
    /// Classify the bytes read and publish their events.
    Dispatch,
    /// Pause briefly and take another turn.
    PauseAndRetry,
}

/// The step for each wake: voluntary exits are silent, end of stream and
/// transport failures publish `Disconnected`.
pub open spec fn step_for(wake: Wake) -> Step {
    match wake {
        Wake::Cancelled => Step::Exit,
        Wake::Request { shutdown } => if shutdown {
            Step::AcknowledgeShutdown
        } else {
            Step::Serve
        },
        Wake::LaneClosed => Step::Exit,
        Wake::ReadData => Step::Dispatch,
        Wake::ReadEof => Step::ExitDisconnected,
        Wake::ReadWouldBlock => Step::PauseAndRetry,
        Wake::ReadFailed => Step::ExitDisconnected,
    }
}

/// Decide the engine's next step from what woke it.
pub fn next_step(wake: Wake) -> (r: Step)
    ensures
        r == step_for(wake),
{
    match wake {
        Wake::Cancelled => Step::Exit,
        Wake::Request { shutdown } => if shutdown {
            Step::AcknowledgeShutdown
        } else {
            Step::Serve
        },
        Wake::LaneClosed => Step::Exit,
        Wake::ReadData => Step::Dispatch,
        Wake::ReadEof => Step::ExitDisconnected,
        Wake::ReadWouldBlock => Step::PauseAndRetry,
        Wake::ReadFailed => Step::ExitDisconnected,
    }
}

/// The outcome of a write: success, or the transport's error passed
/// through as `Io` with `Disconnected` published.
pub fn write_outcome(result: Result<(), std::io::Error>) -> (r: (Vec<KeyerEvent>, Result<(), Error>))
    ensures
        result is Ok ==> r.0@ == Seq::<KeyerEvent>::empty() && r.1 is Ok,
        result is Err ==> r.0@ == seq![KeyerEvent::Disconnected] && r.1 is Err && r.1->Err_0 is Io,
{
    match result {
        Ok(()) => (Vec::new(), Ok(())),
        Err(e) => {
            let mut events: Vec<KeyerEvent> = Vec::new();
            events.push(KeyerEvent::Disconnected);
            (events, Err(Error::Io(e)))
        },
    }
}

/// How the read phase of a write-and-read ended.
pub enum ReadEnd {
    /// All expected reply bytes arrived.
    Complete(Vec<u8>),
    /// The transport failed or ended mid-read.
    Failed(std::io::Error),
    /// The read deadline passed.
    TimedOut,
}

/// The reply to a write-and-read request from how its read phase ended.
pub fn read_outcome(end: ReadEnd) -> (r: Result<Vec<u8>, Error>)
    ensures
        end is Complete ==> r is Ok && r->Ok_0@ == end->Complete_0@,
        end is Failed ==> r is Err && r->Err_0 is Io,
        end is TimedOut ==> r is Err && r->Err_0 is Timeout,
{
    match end {
        ReadEnd::Complete(bytes) => Ok(bytes),
        ReadEnd::Failed(e) => Err(Error::Io(e)),
        ReadEnd::TimedOut => Err(Error::Timeout),
    }
}

/// How waiting for the engine's reply to a request ended.
pub enum ReplyWait<T> {
    /// The engine replied.
    Replied(Result<T, Error>),
    /// The engine dropped the reply channel: it is gone.
    Dropped,
    /// No reply came before the deadline.
    TimedOut,
}

/// The result a requester sees: the engine's reply, `NotConnected` when the
/// engine is gone, `Timeout` when it did not answer in time.
pub fn settle_reply<T>(wait: ReplyWait<T>) -> (r: Result<T, Error>)
    ensures
        wait is Replied ==> r == wait->Replied_0,
        wait is Dropped ==> r is Err && r->Err_0 is NotConnected,
        wait is TimedOut ==> r is Err && r->Err_0 is Timeout,
{
    match wait {
        ReplyWait::Replied(r) => r,
        ReplyWait::Dropped => Err(Error::NotConnected),
        ReplyWait::TimedOut => Err(Error::Timeout),
    }
}

/// How a shutdown request went.
pub enum ShutdownWait {
    /// The request could not be queued: the engine is gone.
    NotQueued,
    /// The engine answered.
    Replied(Result<(), Error>),
    /// The engine dropped the reply or did not answer in time.
    NoAnswer,
}

/// Whether to raise the cancellation flag, and what `shutdown` returns:
/// the engine's own answer, or success after cancelling when it gave none.
pub fn settle_shutdown(wait: ShutdownWait) -> (r: (bool, Result<(), Error>))
    ensures
        wait is Replied ==> !r.0 && r.1 == wait->Replied_0,
        !(wait is Replied) ==> r.0 && r.1 is Ok,
{
    match wait {
        ShutdownWait::NotQueued => (true, Ok(())),
        ShutdownWait::Replied(r) => (false, r),
        ShutdownWait::NoAnswer => (true, Ok(())),
    }
}

/// The two request lanes the engine serves: real-time ahead of background.
#[derive(Debug, Clone, Copy, PartialEq, Eq, Structural)]
pub enum Lane {
    RealTime,
    Background,
}

/// Requests waiting to be served, one FIFO queue per lane.
pub struct RequestQueues<T> {
    rt: VecDeque<T>,
    bg: VecDeque<T>,
}

impl<T> RequestQueues<T> {
    pub closed spec fn rt_view(&self) -> Seq<T> {
        self.rt@
    }

    pub closed spec fn bg_view(&self) -> Seq<T> {
        self.bg@
    }

    pub fn new() -> (r: RequestQueues<T>)
        ensures
            r.rt_view() == Seq::<T>::empty(),
            r.bg_view() == Seq::<T>::empty(),
    {
        RequestQueues { rt: VecDeque::new(), bg: VecDeque::new() }
    }

    /// Queue a request at the back of its lane.
    pub fn push(&mut self, lane: Lane, request: T)
        ensures
            lane is RealTime ==> final(self).rt_view() == old(self).rt_view().push(request)
                && final(self).bg_view() == old(self).bg_view(),
            lane is Background ==> final(self).bg_view() == old(self).bg_view().push(request)
                && final(self).rt_view() == old(self).rt_view(),
    {
        match lane {
            Lane::RealTime => self.rt.push_back(request),
            Lane::Background => self.bg.push_back(request),
        }
    }

    /// How many requests wait on `lane`.
    pub fn waiting(&self, lane: Lane) -> (r: usize)
        ensures
            lane is RealTime ==> r == self.rt_view().len(),
            lane is Background ==> r == self.bg_view().len(),
    {
        match lane {
            Lane::RealTime => self.rt.len(),
            Lane::Background => self.bg.len(),
        }
    }

    /// Whether no request waits.
    pub fn is_empty(&self) -> (r: bool)
        ensures
            r == (self.rt_view().len() == 0 && self.bg_view().len() == 0),
    {
        self.rt.len() == 0 && self.bg.len() == 0
    }

    /// The next request to serve: the oldest real-time request while any
    /// waits, otherwise the oldest background request.
    pub fn pop_next(&mut self) -> (r: Option<T>)
        ensures
            (final(self).rt_view(), final(self).bg_view(), r) == serve_next(
                old(self).rt_view(),
                old(self).bg_view(),
            ),
    {
        if self.rt.len() > 0 {
            self.rt.pop_front()
        } else {
            self.bg.pop_front()
        }
    }
}

/// One serving step over the two lanes: the head of the real-time lane
/// while it holds anything, else the head of the background lane.
pub open spec fn serve_next<T>(rt: Seq<T>, bg: Seq<T>) -> (Seq<T>, Seq<T>, Option<T>) {
    if rt.len() > 0 {
        (rt.drop_first(), bg, Some(rt[0]))
    } else if bg.len() > 0 {
        (rt, bg.drop_first(), Some(bg[0]))
    } else {
        (rt, bg, None)
    }
}

/// One event in the life of the request queues.
pub enum QueueOp {
    /// A request is submitted on a lane.
    Submit(Lane),
    /// The engine serves the next request.
    Serve,
}

/// The queues after a run of events. Requests are named by the index of
/// the event that submitted them; `served` lists them in the order served.
pub struct QueueRun {
    pub rt: Seq<int>,
    pub bg: Seq<int>,
    pub served: Seq<int>,
}

pub open spec fn run_queues(ops: Seq<QueueOp>) -> QueueRun
    decreases ops.len(),
{
    if ops.len() == 0 {
        QueueRun { rt: Seq::empty(), bg: Seq::empty(), served: Seq::empty() }
    } else {
        let prev = run_queues(ops.drop_last());
        let i = ops.len() - 1;
        match ops.last() {
            QueueOp::Submit(Lane::RealTime) => QueueRun { rt: prev.rt.push(i), ..prev },
            QueueOp::Submit(Lane::Background) => QueueRun { bg: prev.bg.push(i), ..prev },
            QueueOp::Serve => {
                let step = serve_next(prev.rt, prev.bg);
                QueueRun {
                    rt: step.0,
                    bg: step.1,
                    served: match step.2 {
                        Some(x) => prev.served.push(x),
                        None => prev.served,
                    },
                }
            },
        }
    }
}

pub open spec fn is_rt_submit(ops: Seq<QueueOp>, a: int) -> bool {
    0 <= a < ops.len() && ops[a] matches QueueOp::Submit(Lane::RealTime)
}

pub open spec fn is_bg_submit(ops: Seq<QueueOp>, b: int) -> bool {
    0 <= b < ops.len() && ops[b] matches QueueOp::Submit(Lane::Background)
}

/// What holds after every run: each real-time request submitted is still
/// queued or already served, and every background request served came
/// after every real-time request submitted before it.
pub open spec fn run_invariant(ops: Seq<QueueOp>) -> bool {
    let q = run_queues(ops);
    &&& forall|i: int| 0 <= i < q.rt.len() ==> is_rt_submit(ops, #[trigger] q.rt[i])
    &&& forall|i: int| 0 <= i < q.bg.len() ==> is_bg_submit(ops, #[trigger] q.bg[i])
    &&& forall|i: int|
        0 <= i < q.served.len() ==> 0 <= #[trigger] q.served[i] < ops.len()
    &&& forall|a: int| is_rt_submit(ops, a) ==> q.rt.contains(a) || q.served.contains(a)
    &&& forall|j: int, a: int|
        0 <= j < q.served.len() && is_bg_submit(ops, #[trigger] q.served[j]) && #[trigger] is_rt_submit(ops, a)
            && a < q.served[j] ==> exists|p: int| 0 <= p < j && q.served[p] == a
}

proof fn lemma_run_invariant(ops: Seq<QueueOp>)
    ensures
        run_invariant(ops),
    decreases ops.len(),
{
    if ops.len() > 0 {
        let prev_ops = ops.drop_last();
        lemma_run_invariant(prev_ops);
        let prev = run_queues(prev_ops);
        let q = run_queues(ops);
        let n = ops.len() - 1;
        assert forall|x: int| 0 <= x < n implies #[trigger] ops[x] == prev_ops[x] by {}
        assert forall|x: int| is_rt_submit(prev_ops, x) <==> #[trigger] is_rt_submit(ops, x) && x < n by {}
        assert forall|x: int| is_bg_submit(prev_ops, x) <==> #[trigger] is_bg_submit(ops, x) && x < n by {}
        match ops.last() {
            QueueOp::Submit(Lane::RealTime) => {
                assert(q.served == prev.served);
                assert forall|a: int| is_rt_submit(ops, a) implies q.rt.contains(a) || q.served.contains(a) by {
                    if a == n {
                        assert(q.rt[q.rt.len() - 1] == a);
                    } else if prev.rt.contains(a) {
                        let i = choose|i: int| 0 <= i < prev.rt.len() && prev.rt[i] == a;
                        assert(q.rt[i] == a);
                    }
                }
                assert forall|i: int| 0 <= i < q.rt.len() implies is_rt_submit(ops, #[trigger] q.rt[i]) by {
                    if i < prev.rt.len() {
                        assert(q.rt[i] == prev.rt[i]);
                    }
                }
            },
            QueueOp::Submit(Lane::Background) => {
                assert(q.served == prev.served);
                assert forall|i: int| 0 <= i < q.bg.len() implies is_bg_submit(ops, #[trigger] q.bg[i]) by {
                    if i < prev.bg.len() {
                        assert(q.bg[i] == prev.bg[i]);
                    }
                }
            },
            QueueOp::Serve => {
                if prev.rt.len() > 0 {
                    let x = prev.rt[0];
                    assert(q.served == prev.served.push(x));
                    assert forall|i: int| 0 <= i < q.rt.len() implies is_rt_submit(ops, #[trigger] q.rt[i]) by {
                        assert(q.rt[i] == prev.rt[i + 1]);
                    }
                    assert forall|a: int| is_rt_submit(ops, a) implies q.rt.contains(a) || q.served.contains(a) by {
                        if prev.rt.contains(a) {
                            let i = choose|i: int| 0 <= i < prev.rt.len() && prev.rt[i] == a;
                            if i == 0 {
                                assert(q.served[q.served.len() - 1] == a);
                            } else {
                                assert(q.rt[i - 1] == a);
                            }
                        } else {
                            let i = choose|i: int| 0 <= i < prev.served.len() && prev.served[i] == a;
                            assert(q.served[i] == a);
                        }
                    }
                    assert forall|j: int, a: int|
                        0 <= j < q.served.len() && is_bg_submit(ops, #[trigger] q.served[j]) && #[trigger] is_rt_submit(ops, a)
                            && a < q.served[j] implies exists|p: int| 0 <= p < j && q.served[p] == a by {
                        if j < prev.served.len() {
                            assert(q.served[j] == prev.served[j]);
                            assert(is_bg_submit(prev_ops, prev.served[j]));
                            assert(is_rt_submit(prev_ops, a));
                            let p = choose|p: int| 0 <= p < j && prev.served[p] == a;
                            assert(q.served[p] == a);
                        } else {
                            assert(q.served[j] == x);
                            assert(is_rt_submit(prev_ops, x));
                        }
                    }
                } else if prev.bg.len() > 0 {
                    let x = prev.bg[0];
                    assert(q.served == prev.served.push(x));
                    assert forall|i: int| 0 <= i < q.bg.len() implies is_bg_submit(ops, #[trigger] q.bg[i]) by {
                        assert(q.bg[i] == prev.bg[i + 1]);
                    }
                    assert forall|a: int| is_rt_submit(ops, a) implies q.rt.contains(a) || q.served.contains(a) by {
                        assert(is_rt_submit(prev_ops, a));
                        assert(!prev.rt.contains(a));
                        let i = choose|i: int| 0 <= i < prev.served.len() && prev.served[i] == a;
                        assert(q.served[i] == a);
                    }
                    assert forall|j: int, a: int|
                        0 <= j < q.served.len() && is_bg_submit(ops, #[trigger] q.served[j]) && #[trigger] is_rt_submit(ops, a)
                            && a < q.served[j] implies exists|p: int| 0 <= p < j && q.served[p] == a by {
                        assert(is_rt_submit(prev_ops, a));
                        if j < prev.served.len() {
                            assert(q.served[j] == prev.served[j]);
                            assert(is_bg_submit(prev_ops, prev.served[j]));
                            let p = choose|p: int| 0 <= p < j && prev.served[p] == a;
                            assert(q.served[p] == a);
                        } else {
                            assert(!prev.rt.contains(a));
                            let p = choose|p: int| 0 <= p < prev.served.len() && prev.served[p] == a;
                            assert(q.served[p] == a);
                        }
                    }
                } else {
                    assert(q.served == prev.served);
                }
            },
        }
    }
}

/// Order within each lane: both queues hold requests in submission order,
/// every background request submitted is still queued or already served,
/// and a request served on a lane came after every request submitted
/// earlier on the same lane.
pub open spec fn lane_order_invariant(ops: Seq<QueueOp>) -> bool {
    let q = run_queues(ops);
    &&& forall|i: int, k: int| 0 <= i < k < q.rt.len() ==> #[trigger] q.rt[i] < #[trigger] q.rt[k]
    &&& forall|i: int, k: int| 0 <= i < k < q.bg.len() ==> #[trigger] q.bg[i] < #[trigger] q.bg[k]
    &&& forall|b: int| is_bg_submit(ops, b) ==> q.bg.contains(b) || q.served.contains(b)
    &&& forall|j: int, a: int|
        0 <= j < q.served.len() && is_rt_submit(ops, #[trigger] q.served[j]) && #[trigger] is_rt_submit(ops, a)
            && a < q.served[j] ==> exists|p: int| 0 <= p < j && q.served[p] == a
    &&& forall|j: int, a: int|
        0 <= j < q.served.len() && is_bg_submit(ops, #[trigger] q.served[j]) && #[trigger] is_bg_submit(ops, a)
            && a < q.served[j] ==> exists|p: int| 0 <= p < j && q.served[p] == a
}

proof fn lemma_lane_order_invariant(ops: Seq<QueueOp>)
    ensures
        lane_order_invariant(ops),
    decreases ops.len(),
{
    if ops.len() > 0 {
        let prev_ops = ops.drop_last();
        lemma_lane_order_invariant(prev_ops);
        lemma_run_invariant(prev_ops);
        let prev = run_queues(prev_ops);
        let q = run_queues(ops);
        let n = ops.len() - 1;
        assert forall|x: int| 0 <= x < n implies #[trigger] ops[x] == prev_ops[x] by {}
        assert forall|x: int| is_rt_submit(prev_ops, x) <==> #[trigger] is_rt_submit(ops, x) && x < n by {}
        assert forall|x: int| is_bg_submit(prev_ops, x) <==> #[trigger] is_bg_submit(ops, x) && x < n by {}
        match ops.last() {
            QueueOp::Submit(Lane::RealTime) => {
                assert(q.served == prev.served);
                assert(q.bg == prev.bg);
                assert forall|i: int, k: int| 0 <= i < k < q.rt.len() implies #[trigger] q.rt[i] < #[trigger] q.rt[k] by {
                    assert(is_rt_submit(prev_ops, prev.rt[i]));
                }
            },
            QueueOp::Submit(Lane::Background) => {
                assert(q.served == prev.served);
                assert(q.rt == prev.rt);
                assert forall|i: int, k: int| 0 <= i < k < q.bg.len() implies #[trigger] q.bg[i] < #[trigger] q.bg[k] by {
                    assert(is_bg_submit(prev_ops, prev.bg[i]));
                }
                assert forall|b: int| is_bg_submit(ops, b) implies q.bg.contains(b) || q.served.contains(b) by {
                    if b == n {
                        assert(q.bg[q.bg.len() - 1] == b);
                    } else if prev.bg.contains(b) {
                        let i = choose|i: int| 0 <= i < prev.bg.len() && prev.bg[i] == b;
                        assert(q.bg[i] == b);
                    }
                }
            },
            QueueOp::Serve => {
                if prev.rt.len() > 0 {
                    let x = prev.rt[0];
                    assert(q.served == prev.served.push(x));
                    assert(q.bg == prev.bg);
                    assert forall|i: int, k: int| 0 <= i < k < q.rt.len() implies #[trigger] q.rt[i] < #[trigger] q.rt[k] by {
                        assert(q.rt[i] == prev.rt[i + 1] && q.rt[k] == prev.rt[k + 1]);
                    }
                    assert forall|b: int| is_bg_submit(ops, b) implies q.bg.contains(b) || q.served.contains(b) by {
                        if !prev.bg.contains(b) {
                            let i = choose|i: int| 0 <= i < prev.served.len() && prev.served[i] == b;
                            assert(q.served[i] == b);
                        }
                    }
                    assert forall|j: int, a: int|
                        0 <= j < q.served.len() && is_rt_submit(ops, #[trigger] q.served[j]) && #[trigger] is_rt_submit(ops, a)
                            && a < q.served[j] implies exists|p: int| 0 <= p < j && q.served[p] == a by {
                        assert(is_rt_submit(prev_ops, a));
                        if j < prev.served.len() {
                            assert(q.served[j] == prev.served[j]);
                            assert(is_rt_submit(prev_ops, prev.served[j]));
                            let p = choose|p: int| 0 <= p < j && prev.served[p] == a;
                            assert(q.served[p] == a);
                        } else {
                            assert(q.served[j] == x);
                            if prev.rt.contains(a) {
                                let i = choose|i: int| 0 <= i < prev.rt.len() && prev.rt[i] == a;
                                if i > 0 {
                                    assert(prev.rt[0] < prev.rt[i]);
                                }
                                assert(false);
                            }
                            let p = choose|p: int| 0 <= p < prev.served.len() && prev.served[p] == a;
                            assert(q.served[p] == a);
                        }
                    }
                    assert forall|j: int, a: int|
                        0 <= j < q.served.len() && is_bg_submit(ops, #[trigger] q.served[j]) && #[trigger] is_bg_submit(ops, a)
                            && a < q.served[j] implies exists|p: int| 0 <= p < j && q.served[p] == a by {
                        assert(is_bg_submit(prev_ops, a));
                        if j < prev.served.len() {
                            assert(q.served[j] == prev.served[j]);
                            assert(is_bg_submit(prev_ops, prev.served[j]));
                            let p = choose|p: int| 0 <= p < j && prev.served[p] == a;
                            assert(q.served[p] == a);
                        } else {
                            assert(q.served[j] == x);
                            assert(is_rt_submit(prev_ops, x));
                        }
                    }
                } else if prev.bg.len() > 0 {
                    let x = prev.bg[0];
                    assert(q.served == prev.served.push(x));
                    assert(q.rt == prev.rt);
                    assert forall|i: int, k: int| 0 <= i < k < q.bg.len() implies #[trigger] q.bg[i] < #[trigger] q.bg[k] by {
                        assert(q.bg[i] == prev.bg[i + 1] && q.bg[k] == prev.bg[k + 1]);
                    }
                    assert forall|b: int| is_bg_submit(ops, b) implies q.bg.contains(b) || q.served.contains(b) by {
                        assert(is_bg_submit(prev_ops, b));
                        if prev.bg.contains(b) {
                            let i = choose|i: int| 0 <= i < prev.bg.len() && prev.bg[i] == b;
                            if i == 0 {
                                assert(q.served[q.served.len() - 1] == b);
                            } else {
                                assert(q.bg[i - 1] == b);
                            }
                        } else {
                            let i = choose|i: int| 0 <= i < prev.served.len() && prev.served[i] == b;
                            assert(q.served[i] == b);
                        }
                    }
                    assert forall|j: int, a: int|
                        0 <= j < q.served.len() && is_rt_submit(ops, #[trigger] q.served[j]) && #[trigger] is_rt_submit(ops, a)
                            && a < q.served[j] implies exists|p: int| 0 <= p < j && q.served[p] == a by {
                        assert(is_rt_submit(prev_ops, a));
                        if j < prev.served.len() {
                            assert(q.served[j] == prev.served[j]);
                            assert(is_rt_submit(prev_ops, prev.served[j]));
                            let p = choose|p: int| 0 <= p < j && prev.served[p] == a;
                            assert(q.served[p] == a);
                        } else {
                            assert(q.served[j] == x);
                            assert(is_bg_submit(prev_ops, x));
                        }
                    }
                    assert forall|j: int, a: int|
                        0 <= j < q.served.len() && is_bg_submit(ops, #[trigger] q.served[j]) && #[trigger] is_bg_submit(ops, a)
                            && a < q.served[j] implies exists|p: int| 0 <= p < j && q.served[p] == a by {
                        assert(is_bg_submit(prev_ops, a));
                        if j < prev.served.len() {
                            assert(q.served[j] == prev.served[j]);
                            assert(is_bg_submit(prev_ops, prev.served[j]));
                            let p = choose|p: int| 0 <= p < j && prev.served[p] == a;
                            assert(q.served[p] == a);
                        } else {
                            assert(q.served[j] == x);
                            if prev.bg.contains(a) {
                                let i = choose|i: int| 0 <= i < prev.bg.len() && prev.bg[i] == a;
                                if i > 0 {
                                    assert(prev.bg[0] < prev.bg[i]);
                                }
                                assert(false);
                            }
                            let p = choose|p: int| 0 <= p < prev.served.len() && prev.served[p] == a;
                            assert(q.served[p] == a);
                        }
                    }
                } else {
                    assert(q == prev);
                }
            },
        }
    }
}

/// Each lane is first in, first out: of two requests submitted on the same
/// lane, when the later one is served the earlier one has already been served.
pub proof fn lemma_lanes_first_in_first_out(ops: Seq<QueueOp>, a: int, b: int, j: int)
    requires
        (is_rt_submit(ops, a) && is_rt_submit(ops, b)) || (is_bg_submit(ops, a) && is_bg_submit(ops, b)),
        a < b,
        0 <= j < run_queues(ops).served.len(),
        run_queues(ops).served[j] == b,
    ensures
        exists|p: int| 0 <= p < j && run_queues(ops).served[p] == a,
{
    lemma_lane_order_invariant(ops);
    let q = run_queues(ops);
    if is_rt_submit(ops, a) && is_rt_submit(ops, b) {
        assert(is_rt_submit(ops, q.served[j]) && is_rt_submit(ops, a));
    } else {
        assert(is_bg_submit(ops, q.served[j]) && is_bg_submit(ops, a));
    }
}

/// Real-time requests overtake background ones: in any run of submissions
/// and serving turns, a real-time request submitted before a background
/// request that gets served has itself been served earlier.
pub proof fn lemma_realtime_served_first(ops: Seq<QueueOp>, a: int, b: int, j: int)
    requires
        is_rt_submit(ops, a),
        is_bg_submit(ops, b),
        a < b,
        0 <= j < run_queues(ops).served.len(),
        run_queues(ops).served[j] == b,
    ensures
        exists|p: int| 0 <= p < j && run_queues(ops).served[p] == a,
{
    lemma_run_invariant(ops);
    let q = run_queues(ops);
    assert(is_bg_submit(ops, q.served[j]) && is_rt_submit(ops, a));
}

} // verus!
