//! One direction of a pump: bytes are read from a source and written to a
//! sink, chunk by chunk, until the source ends or an operation fails.
//!
//! The relay performs no I/O. It is a state machine: the caller performs the
//! action that the relay asks for and reports what happened with
//! [`Relay::on_event`], which answers with the next action.

use vstd::prelude::*;

verus! {

/// The size of the buffer that a read fills, in bytes.
pub const BUFFER_SIZE: usize = 2048;

/// Why a relay stopped.
#[derive(Clone, Copy, Debug, PartialEq, Eq, Structural)]
pub enum StopReason {
    /// The source reported the end of the stream.
    EndOfStream,
    /// A read on the source failed.
    ReadFailed,
    /// A write to the sink failed.
    WriteFailed,
    /// Flushing the sink failed.
    FlushFailed,
    /// The other direction of the pump ended first.
    Abandoned,
}

/// Where a relay stands.
#[derive(Clone, Copy, Debug, PartialEq, Eq, Structural)]
pub enum RelayState {
    /// A read on the source is due or under way.
    Reading,
    /// A chunk was handed out to be written.
    Writing,
    /// A flush of the sink is due or under way.
    Flushing,
    /// The relay has ended; it asks for no further I/O.
    Stopped(StopReason),
}

/// What a read on the source gave.
#[derive(Clone, Copy, Debug, PartialEq, Eq)]
pub enum ReadOutcome<'a> {
    /// No data for now; the stream is still open.
    Pending,
    /// The bytes that were read.
    Data(&'a [u8]),
    /// The peer closed the stream.
    EndOfStream,
    /// The read failed.
    Failed,
}

/// What the caller reports to a relay.
#[derive(Clone, Copy, Debug, PartialEq, Eq)]
pub enum RelayEvent<'a> {
    /// The outcome of the read that was asked for.
    Read(ReadOutcome<'a>),
    /// The write that was asked for ended; `true` when all bytes were written.
    Written(bool),
    /// The flush that was asked for ended; `true` when it succeeded.
    Flushed(bool),
}

/// What a relay asks its caller to do next.
#[derive(Clone, Copy, Debug, PartialEq, Eq)]
pub enum RelayAction<'a> {
    /// Read at most `max` bytes from the source.
    Read { max: usize },
    /// Write all of these bytes to the sink.
    WriteAll(&'a [u8]),
    /// Flush the sink.
    Flush,
    /// Do nothing more for this direction.
    Stop(StopReason),
}

/// An event as a mathematical value.
pub ghost enum EventView {
    Pending,
    Data(Seq<u8>),
    EndOfStream,
    ReadFailed,
    Written,
    WriteFailed,
    Flushed,
    FlushFailed,
}

/// An action as a mathematical value.
pub ghost enum ActionView {
    Read,
    Write(Seq<u8>),
    Flush,
    Stop(StopReason),
}

impl<'a> View for RelayEvent<'a> {
    type V = EventView;

    open spec fn view(&self) -> EventView {
        match *self {
            RelayEvent::Read(ReadOutcome::Pending) => EventView::Pending,
            RelayEvent::Read(ReadOutcome::Data(bytes)) => EventView::Data(bytes@),
            RelayEvent::Read(ReadOutcome::EndOfStream) => EventView::EndOfStream,
            RelayEvent::Read(ReadOutcome::Failed) => EventView::ReadFailed,
            RelayEvent::Written(true) => EventView::Written,
            RelayEvent::Written(false) => EventView::WriteFailed,
            RelayEvent::Flushed(true) => EventView::Flushed,
            RelayEvent::Flushed(false) => EventView::FlushFailed,
        }
    }
}

impl<'a> View for RelayAction<'a> {
    type V = ActionView;

    open spec fn view(&self) -> ActionView {
        match *self {
            RelayAction::Read { .. } => ActionView::Read,
            RelayAction::WriteAll(bytes) => ActionView::Write(bytes@),
            RelayAction::Flush => ActionView::Flush,
            RelayAction::Stop(reason) => ActionView::Stop(reason),
        }
    }
}

/// Whether the event answers the action that a relay in `state` is waiting
/// on: a read outcome while reading, the end of a write while writing, the
/// end of a flush while flushing. A stopped relay waits on nothing.
pub open spec fn in_turn(state: RelayState, event: EventView) -> bool {
    match state {
        RelayState::Reading => event is Pending || event is Data || event is EndOfStream
            || event is ReadFailed,
        RelayState::Writing => event is Written || event is WriteFailed,
        RelayState::Flushing => event is Flushed || event is FlushFailed,
        RelayState::Stopped(_) => false,
    }
}

/// Whether the event ends a running relay: the end of the stream, or a
/// failed read, write or flush.
pub open spec fn is_terminal(event: EventView) -> bool {
    event is EndOfStream || event is ReadFailed || event is WriteFailed || event is FlushFailed
}

/// The reason with which a terminal event stops a relay.
pub open spec fn reason_of(event: EventView) -> StopReason {
    match event {
        EventView::ReadFailed => StopReason::ReadFailed,
        EventView::WriteFailed => StopReason::WriteFailed,
        EventView::FlushFailed => StopReason::FlushFailed,
        _ => StopReason::EndOfStream,
    }
}

/// The transition of a relay: the state it moves to and the action it asks
/// for.
///
/// * A stopped relay stays as it is and asks for nothing.
/// * A terminal event stops the relay, with the event's reason.
/// * While reading, no data (or an empty chunk) means another read; a chunk
///   is handed out to be written, whole and unchanged.
/// * After a write, a buffered sink is flushed; then the next read is due.
pub open spec fn step(state: RelayState, buffered: bool, event: EventView) -> (
    RelayState,
    ActionView,
) {
    match state {
        RelayState::Stopped(reason) => (state, ActionView::Stop(reason)),
        _ => if is_terminal(event) {
            (RelayState::Stopped(reason_of(event)), ActionView::Stop(reason_of(event)))
        } else {
            match event {
                EventView::Data(bytes) if bytes.len() > 0 => (
                    RelayState::Writing,
                    ActionView::Write(bytes),
                ),
                EventView::Written if buffered => (RelayState::Flushing, ActionView::Flush),
                _ => (RelayState::Reading, ActionView::Read),
            }
        },
    }
}

/// One direction of a pump.
#[derive(Clone, Copy, Debug, PartialEq, Eq)]
pub struct Relay {
    state: RelayState,
    buffered: bool,
}

impl Relay {
    /// Where the relay stands.
    pub closed spec fn spec_state(&self) -> RelayState {
        self.state
    }

    /// Whether the sink is buffered and is flushed after every write.
    pub closed spec fn spec_buffered(&self) -> bool {
        self.buffered
    }

    /// Whether the relay has ended.
    pub open spec fn spec_is_stopped(&self) -> bool {
        self.spec_state() is Stopped
    }

    /// Whether the relay takes the event: it is in turn, or the relay has
    /// stopped, in which case every event is taken and answered with `Stop`.
    pub open spec fn accepts(&self, event: EventView) -> bool {
        self.spec_is_stopped() || in_turn(self.spec_state(), event)
    }

    /// A relay that is about to read. `buffered` says whether the sink holds
    /// bytes back until it is flushed.
    pub fn new(buffered: bool) -> (r: Relay)
        ensures
            r.spec_state() == RelayState::Reading,
            r.spec_buffered() == buffered,
    {
        Relay { state: RelayState::Reading, buffered }
    }

    /// Where the relay stands.
    #[verifier::when_used_as_spec(spec_state)]
    pub fn state(&self) -> (r: RelayState)
        ensures
            r == self.spec_state(),
    {
        self.state
    }

    /// Whether the sink is flushed after every write.
    #[verifier::when_used_as_spec(spec_buffered)]
    pub fn buffered(&self) -> (r: bool)
        ensures
            r == self.spec_buffered(),
    {
        self.buffered
    }

    /// Whether the relay has ended.
    #[verifier::when_used_as_spec(spec_is_stopped)]
    pub fn is_stopped(&self) -> (r: bool)
        ensures
            r == self.spec_is_stopped(),
    {
        match self.state {
            RelayState::Stopped(_) => true,
            _ => false,
        }
    }

    /// The first action of a relay: a read of at most [`BUFFER_SIZE`] bytes,
    /// or `Stop` if the relay has ended already.
    pub fn start<'a>(&self) -> (action: RelayAction<'a>)
        ensures
            match self.spec_state() {
                RelayState::Stopped(reason) => action@ == ActionView::Stop(reason),
                _ => action matches RelayAction::Read { max } && max == BUFFER_SIZE,
            },
    {
        match self.state {
            RelayState::Stopped(reason) => RelayAction::Stop(reason),
            _ => RelayAction::Read { max: BUFFER_SIZE },
        }
    }

    /// Whether the relay takes the event.
    pub fn expects(&self, event: &RelayEvent) -> (r: bool)
        ensures
            r == self.accepts(event@),
    {
        match self.state {
            RelayState::Stopped(_) => true,
            RelayState::Reading => match event {
                RelayEvent::Read(_) => true,
                _ => false,
            },
            RelayState::Writing => match event {
                RelayEvent::Written(_) => true,
                _ => false,
            },
            RelayState::Flushing => match event {
                RelayEvent::Flushed(_) => true,
                _ => false,
            },
        }
    }

    /// Takes what happened and answers with what to do next, as [`step`]
    /// says. A chunk that was read is handed out to be written as it came;
    /// every read that is asked for is of at most [`BUFFER_SIZE`] bytes.
    pub fn on_event<'a>(&mut self, event: RelayEvent<'a>) -> (action: RelayAction<'a>)
        requires
            old(self).accepts(event@),
        ensures
            (final(self).spec_state(), action@) == step(
                old(self).spec_state(),
                old(self).spec_buffered(),
                event@,
            ),
            final(self).spec_buffered() == old(self).spec_buffered(),
            action matches RelayAction::Read { max } ==> max == BUFFER_SIZE,
    {
        match self.state {
            RelayState::Stopped(reason) => RelayAction::Stop(reason),
            _ => match event {
                RelayEvent::Read(ReadOutcome::Pending) => self.read_next(),
                RelayEvent::Read(ReadOutcome::Data(bytes)) => {
                    if bytes.len() > 0 {
                        self.state = RelayState::Writing;
                        RelayAction::WriteAll(bytes)
                    } else {
                        self.read_next()
                    }
                },
                RelayEvent::Read(ReadOutcome::EndOfStream) => self.stop(StopReason::EndOfStream),
                RelayEvent::Read(ReadOutcome::Failed) => self.stop(StopReason::ReadFailed),
                RelayEvent::Written(true) => {
                    if self.buffered {
                        self.state = RelayState::Flushing;
                        RelayAction::Flush
                    } else {
                        self.read_next()
                    }
                },
                RelayEvent::Written(false) => self.stop(StopReason::WriteFailed),
                RelayEvent::Flushed(true) => self.read_next(),
                RelayEvent::Flushed(false) => self.stop(StopReason::FlushFailed),
            },
        }
    }

    /// Ends a running relay because the other direction of its pump has
    /// ended. A relay that has stopped keeps its reason.
    pub fn abandon(&mut self)
        ensures
            final(self).spec_state() == match old(self).spec_state() {
                RelayState::Stopped(reason) => RelayState::Stopped(reason),
                _ => RelayState::Stopped(StopReason::Abandoned),
            },
            final(self).spec_buffered() == old(self).spec_buffered(),
    {
        match self.state {
            RelayState::Stopped(_) => {},
            _ => {
                self.state = RelayState::Stopped(StopReason::Abandoned);
            },
        }
    }

    fn read_next<'a>(&mut self) -> (action: RelayAction<'a>)
        ensures
            final(self).state == RelayState::Reading,
            final(self).buffered == old(self).buffered,
            action matches RelayAction::Read { max } && max == BUFFER_SIZE,
    {
        self.state = RelayState::Reading;
        RelayAction::Read { max: BUFFER_SIZE }
    }

    fn stop<'a>(&mut self, reason: StopReason) -> (action: RelayAction<'a>)
        ensures
            final(self).state == RelayState::Stopped(reason),
            final(self).buffered == old(self).buffered,
            action@ == ActionView::Stop(reason),
    {
        self.state = RelayState::Stopped(reason);
        RelayAction::Stop(reason)
    }
}

/// The state of a relay that started in `state` and took `events` in order.
pub open spec fn run_state(state: RelayState, buffered: bool, events: Seq<EventView>) -> RelayState
    decreases events.len(),
{
    if events.len() == 0 {
        state
    } else {
        step(run_state(state, buffered, events.drop_last()), buffered, events.last()).0
    }
}

/// The actions that a relay asked for while it took `events` in order, one
/// for each event.
pub open spec fn run_actions(state: RelayState, buffered: bool, events: Seq<EventView>) -> Seq<
    ActionView,
>
    decreases events.len(),
{
    if events.len() == 0 {
        Seq::empty()
    } else {
        run_actions(state, buffered, events.drop_last()).push(
            step(run_state(state, buffered, events.drop_last()), buffered, events.last()).1,
        )
    }
}

/// Whether every event of the run came in turn: each one answers the action
/// that the relay asked for last, and none comes after the relay stopped.
pub open spec fn driven(state: RelayState, buffered: bool, events: Seq<EventView>) -> bool
    decreases events.len(),
{
    events.len() == 0 || (driven(state, buffered, events.drop_last()) && in_turn(
        run_state(state, buffered, events.drop_last()),
        events.last(),
    ))
}

/// The chunks that the source gave, in order: the data of every read that
/// returned at least one byte.
pub open spec fn chunks_read(events: Seq<EventView>) -> Seq<Seq<u8>>
    decreases events.len(),
{
    if events.len() == 0 {
        Seq::empty()
    } else {
        match events.last() {
            EventView::Data(bytes) if bytes.len() > 0 => chunks_read(events.drop_last()).push(
                bytes,
            ),
            _ => chunks_read(events.drop_last()),
        }
    }
}

/// The chunks that the relay handed out to be written, in order.
pub open spec fn chunks_written(actions: Seq<ActionView>) -> Seq<Seq<u8>>
    decreases actions.len(),
{
    if actions.len() == 0 {
        Seq::empty()
    } else {
        match actions.last() {
            ActionView::Write(bytes) => chunks_written(actions.drop_last()).push(bytes),
            _ => chunks_written(actions.drop_last()),
        }
    }
}

/// The bytes of the chunks, one after the other.
pub open spec fn bytes_of(chunks: Seq<Seq<u8>>) -> Seq<u8>
    decreases chunks.len(),
{
    if chunks.len() == 0 {
        Seq::empty()
    } else {
        bytes_of(chunks.drop_last()) + chunks.last()
    }
}

/// A relay hands on what it reads exactly once and in order. In every run
/// whose events come in turn, the chunks handed out to be written are the
/// chunks that were read: as many, in the same order, each with the same
/// bytes, none split and none merged. So the bytes written are the bytes
/// read.
pub proof fn lemma_relay_preserves_chunks(
    state: RelayState,
    buffered: bool,
    events: Seq<EventView>,
)
    requires
        driven(state, buffered, events),
    ensures
        run_actions(state, buffered, events).len() == events.len(),
        chunks_written(run_actions(state, buffered, events)) == chunks_read(events),
        bytes_of(chunks_written(run_actions(state, buffered, events))) == bytes_of(
            chunks_read(events),
        ),
    decreases events.len(),
{
    if events.len() > 0 {
        let before = events.drop_last();
        lemma_relay_preserves_chunks(state, buffered, before);
        let actions = run_actions(state, buffered, events);
        assert(actions.drop_last() == run_actions(state, buffered, before));
    }
}

/// A relay ends in the very step in which the end of the stream or a failure
/// is reported to it: it is stopped, with the reason of that event, and asks
/// for nothing.
pub proof fn lemma_terminal_event_stops(state: RelayState, buffered: bool, event: EventView)
    requires
        in_turn(state, event),
        is_terminal(event),
    ensures
        step(state, buffered, event).0 == RelayState::Stopped(reason_of(event)),
        step(state, buffered, event).1 == ActionView::Stop(reason_of(event)),
{
}

/// A relay that has stopped stays stopped and asks for no I/O again:
/// whatever is reported to it afterwards, its state and its reason stay, and
/// every answer is `Stop`.
pub proof fn lemma_stopped_relay_is_silent(
    reason: StopReason,
    buffered: bool,
    events: Seq<EventView>,
)
    ensures
        run_state(RelayState::Stopped(reason), buffered, events) == RelayState::Stopped(reason),
        run_actions(RelayState::Stopped(reason), buffered, events).len() == events.len(),
        forall|i: int|
            0 <= i < events.len() ==> #[trigger] run_actions(
                RelayState::Stopped(reason),
                buffered,
                events,
            )[i] == ActionView::Stop(reason),
    decreases events.len(),
{
    if events.len() > 0 {
        lemma_stopped_relay_is_silent(reason, buffered, events.drop_last());
    }
}

} // verus!
