//! The decisions of the server: what the accept loop does with each outcome
//! of an accept, and how one session goes from dialing its backend to the
//! end of its pump.
//!
//! The accept loop has one state, listening, which it never leaves: no
//! outcome of an accept and no failure of a session ends it. Each session is
//! a state machine of its own and shares nothing with the others but the
//! routing table, which is only read.

use crate::addr::SocketAddress;
use crate::pump::{Pump, PumpView};
use crate::relay::RelayState;
use crate::routing::{spec_routing_key, RoutingTable, TableView};
use vstd::prelude::*;

verus! {

/// What the accept loop learned.
#[derive(Clone, Copy, Debug, PartialEq, Eq)]
pub enum AcceptEvent<'a> {
    /// No session for now.
    NotReady,
    /// The handshake of an incoming session failed.
    HandshakeFailed,
    /// A session was established. `peer_name` is the name that the peer
    /// declared in the handshake, if it declared one; `remote` is the peer's
    /// address as text.
    Established { peer_name: Option<&'a str>, remote: &'a str },
}

/// What the accept loop does next. After each of them it goes on listening.
#[derive(Clone, Copy, Debug, PartialEq, Eq, Structural)]
pub enum AcceptAction {
    /// Nothing to serve: wait for the next session.
    Listen,
    /// Start a task of its own for the session, towards this backend, and
    /// wait for the next session without waiting for that task.
    Serve { backend: SocketAddress },
}

/// An accept event as a mathematical value.
pub ghost enum AcceptEventView {
    NotReady,
    HandshakeFailed,
    Established { peer_name: Option<Seq<char>>, remote: Seq<char> },
}

impl<'a> View for AcceptEvent<'a> {
    type V = AcceptEventView;

    open spec fn view(&self) -> AcceptEventView {
        match *self {
            AcceptEvent::NotReady => AcceptEventView::NotReady,
            AcceptEvent::HandshakeFailed => AcceptEventView::HandshakeFailed,
            AcceptEvent::Established { peer_name, remote } => AcceptEventView::Established {
                peer_name: match peer_name {
                    Some(name) => Some(name@),
                    None => None,
                },
                remote: remote@,
            },
        }
    }
}

/// What the accept loop does on an event: an established session is served
/// by the backend that the table gives for its routing key; anything else
/// is passed over.
pub open spec fn accept_step(table: TableView, event: AcceptEventView) -> AcceptAction {
    match event {
        AcceptEventView::Established { peer_name, remote } => AcceptAction::Serve {
            backend: table.lookup(spec_routing_key(peer_name, remote)),
        },
        _ => AcceptAction::Listen,
    }
}

/// What the accept loop does on an event, as [`accept_step`] says.
pub fn on_accept(table: &RoutingTable, event: AcceptEvent) -> (action: AcceptAction)
    ensures
        action == accept_step(table@, event@),
{
    match event {
        AcceptEvent::Established { peer_name, remote } => AcceptAction::Serve {
            backend: table.route(peer_name, remote),
        },
        _ => AcceptAction::Listen,
    }
}

/// How a session ended.
#[derive(Clone, Copy, Debug, PartialEq, Eq, Structural)]
pub enum SessionEnd {
    /// The backend could not be reached.
    DialFailed,
    /// The stream of the session could not be accepted.
    StreamFailed,
    /// The pump of the session is over.
    PumpFinished,
}

/// Where a session stands.
#[derive(Clone, Copy, Debug, PartialEq, Eq, Structural)]
pub enum SessionPhase {
    /// The connection to the backend is being made.
    Dialing,
    /// The backend is connected; the stream that the peer opens is awaited.
    AwaitingStream,
    /// The pump between the stream and the backend runs.
    Relaying,
    /// The session is over.
    Ended(SessionEnd),
}

/// What the task of a session reports.
#[derive(Clone, Copy, Debug, PartialEq, Eq, Structural)]
pub enum SessionEvent {
    /// The dial ended; `true` when the backend is connected.
    Dialed(bool),
    /// The accept of the stream ended; `true` when there is a stream.
    StreamAccepted(bool),
    /// The pump is over: one of its directions ended.
    PumpFinished,
}

/// What the task of a session does next.
#[derive(Clone, Copy, Debug, PartialEq, Eq, Structural)]
pub enum SessionAction {
    /// Connect to the backend.
    Dial(SocketAddress),
    /// Accept the one stream that the peer opens.
    AcceptStream,
    /// Run a pump between the stream and the backend.
    RunPump,
    /// Drop the session and what belongs to it.
    Close(SessionEnd),
}

/// Whether the event answers the action that a session in `phase` is
/// waiting on. A session that is over waits on nothing.
pub open spec fn session_in_turn(phase: SessionPhase, event: SessionEvent) -> bool {
    match phase {
        SessionPhase::Dialing => event is Dialed,
        SessionPhase::AwaitingStream => event is StreamAccepted,
        SessionPhase::Relaying => event is PumpFinished,
        SessionPhase::Ended(_) => false,
    }
}

/// The transition of a session: the phase it moves to and the action it
/// asks for.
///
/// * A session that is over stays as it is.
/// * A failed dial or a failed accept of the stream ends the session.
/// * After the dial comes the accept of the stream, after that the pump; the
///   session ends when the pump is over.
pub open spec fn session_step(phase: SessionPhase, event: SessionEvent) -> (
    SessionPhase,
    SessionAction,
) {
    match phase {
        SessionPhase::Ended(end) => (phase, SessionAction::Close(end)),
        _ => match event {
            SessionEvent::Dialed(true) => (
                SessionPhase::AwaitingStream,
                SessionAction::AcceptStream,
            ),
            SessionEvent::Dialed(false) => (
                SessionPhase::Ended(SessionEnd::DialFailed),
                SessionAction::Close(SessionEnd::DialFailed),
            ),
            SessionEvent::StreamAccepted(true) => (SessionPhase::Relaying, SessionAction::RunPump),
            SessionEvent::StreamAccepted(false) => (
                SessionPhase::Ended(SessionEnd::StreamFailed),
                SessionAction::Close(SessionEnd::StreamFailed),
            ),
            SessionEvent::PumpFinished => (
                SessionPhase::Ended(SessionEnd::PumpFinished),
                SessionAction::Close(SessionEnd::PumpFinished),
            ),
        },
    }
}

/// One session of the server, from the dial of its backend to its end.
#[derive(Clone, Copy, Debug, PartialEq, Eq)]
pub struct Session {
    backend: SocketAddress,
    phase: SessionPhase,
}

impl Session {
    /// The backend of the session.
    pub closed spec fn spec_backend(&self) -> SocketAddress {
        self.backend
    }

    /// Where the session stands.
    pub closed spec fn spec_phase(&self) -> SessionPhase {
        self.phase
    }

    /// Whether the session takes the event: it is in turn, or the session
    /// is over, in which case every event is answered with `Close`.
    pub open spec fn accepts(&self, event: SessionEvent) -> bool {
        self.spec_phase() is Ended || session_in_turn(self.spec_phase(), event)
    }

    /// A session that is about to dial its backend.
    pub fn new(backend: SocketAddress) -> (r: Session)
        ensures
            r.spec_backend() == backend,
            r.spec_phase() == SessionPhase::Dialing,
    {
        Session { backend, phase: SessionPhase::Dialing }
    }

    /// The backend of the session.
    #[verifier::when_used_as_spec(spec_backend)]
    pub fn backend(&self) -> (r: SocketAddress)
        ensures
            r == self.spec_backend(),
    {
        self.backend
    }

    /// Where the session stands.
    #[verifier::when_used_as_spec(spec_phase)]
    pub fn phase(&self) -> (r: SessionPhase)
        ensures
            r == self.spec_phase(),
    {
        self.phase
    }

    /// The first action of a session: the dial of its backend, or `Close`
    /// if the session is over already.
    pub fn start(&self) -> (action: SessionAction)
        ensures
            action == match self.spec_phase() {
                SessionPhase::Ended(end) => SessionAction::Close(end),
                _ => SessionAction::Dial(self.spec_backend()),
            },
    {
        match self.phase {
            SessionPhase::Ended(end) => SessionAction::Close(end),
            _ => SessionAction::Dial(self.backend),
        }
    }

    /// Whether the session takes the event.
    pub fn expects(&self, event: SessionEvent) -> (r: bool)
        ensures
            r == self.accepts(event),
    {
        match self.phase {
            SessionPhase::Ended(_) => true,
            SessionPhase::Dialing => match event {
                SessionEvent::Dialed(_) => true,
                _ => false,
            },
            SessionPhase::AwaitingStream => match event {
                SessionEvent::StreamAccepted(_) => true,
                _ => false,
            },
            SessionPhase::Relaying => match event {
                SessionEvent::PumpFinished => true,
                _ => false,
            },
        }
    }

    /// Takes what happened and answers with what to do next, as
    /// [`session_step`] says. The backend stays the same.
    pub fn on_event(&mut self, event: SessionEvent) -> (action: SessionAction)
        requires
            old(self).accepts(event),
        ensures
            (final(self).spec_phase(), action) == session_step(old(self).spec_phase(), event),
            final(self).spec_backend() == old(self).spec_backend(),
    {
        match self.phase {
            SessionPhase::Ended(end) => SessionAction::Close(end),
            _ => match event {
                SessionEvent::Dialed(true) => {
                    self.phase = SessionPhase::AwaitingStream;
                    SessionAction::AcceptStream
                },
                SessionEvent::Dialed(false) => self.end(SessionEnd::DialFailed),
                SessionEvent::StreamAccepted(true) => {
                    self.phase = SessionPhase::Relaying;
                    SessionAction::RunPump
                },
                SessionEvent::StreamAccepted(false) => self.end(SessionEnd::StreamFailed),
                SessionEvent::PumpFinished => self.end(SessionEnd::PumpFinished),
            },
        }
    }

    fn end(&mut self, end: SessionEnd) -> (action: SessionAction)
        ensures
            final(self).phase == SessionPhase::Ended(end),
            final(self).backend == old(self).backend,
            action == SessionAction::Close(end),
    {
        self.phase = SessionPhase::Ended(end);
        SessionAction::Close(end)
    }
}

/// The pump of a session. Forward goes from the stream to the backend,
/// backward from the backend to the stream; neither sink is buffered.
pub fn session_pump() -> (r: Pump)
    ensures
        r@ == (PumpView {
            forward: RelayState::Reading,
            backward: RelayState::Reading,
            forward_buffered: false,
            backward_buffered: false,
        }),
        r@.wf(),
{
    Pump::new(false, false)
}

/// The phase of a session that started in `phase` and took `events` in
/// order.
pub open spec fn session_run(phase: SessionPhase, events: Seq<SessionEvent>) -> SessionPhase
    decreases events.len(),
{
    if events.len() == 0 {
        phase
    } else {
        session_step(session_run(phase, events.drop_last()), events.last()).0
    }
}

/// A session that is over stays over, with the end it had, whatever is
/// reported to it afterwards.
pub proof fn lemma_ended_session_stays_ended(end: SessionEnd, events: Seq<SessionEvent>)
    ensures
        session_run(SessionPhase::Ended(end), events) == SessionPhase::Ended(end),
    decreases events.len(),
{
    if events.len() > 0 {
        lemma_ended_session_stays_ended(end, events.drop_last());
    }
}

} // verus!
