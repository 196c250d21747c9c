//! The decisions of the client: where a locator points, which address of
//! the host is taken, which local socket is made, in which order the
//! session is set up, and what the client does when the first of its tasks
//! is over.
//!
//! Whatever fails before the relays run ends the client with a
//! [`SetupError`]. Once they run, a failure ends only the relay it happened
//! in, and the client leaves as it does after any first completion.

use crate::addr::{IpAddrKind, SocketAddress};
use crate::error::SetupError;
use crate::pump::{Pump, PumpView};
use crate::relay::RelayState;
use vstd::prelude::*;

verus! {

/// The port of a locator that names none.
pub const DEFAULT_PORT: u16 = 4433;

/// The scheme of the tunnel.
pub open spec fn tunnel_scheme() -> Seq<char> {
    "quic"@
}

/// The parts of the URL that a text holds, as the URL parser gives them:
/// the scheme, the host if the URL has one, and the port if the URL gives
/// one that is not the default of its scheme. `None` where the text is not
/// an absolute URL.
pub uninterp spec fn url_parts(text: Seq<char>) -> Option<
    (Seq<char>, Option<Seq<char>>, Option<u16>),
>;

/// What the client reads of a URL.
#[derive(Clone, Debug, PartialEq, Eq)]
pub struct Locator {
    pub scheme: String,
    pub host: Option<String>,
    pub port: Option<u16>,
}

impl Locator {
    /// The locator as a mathematical value: scheme, host and port.
    pub open spec fn parts(&self) -> (Seq<char>, Option<Seq<char>>, Option<u16>) {
        (
            self.scheme@,
            match self.host {
                Some(host) => Some(host@),
                None => None,
            },
            self.port,
        )
    }
}

/// The host and the port that a client connects to.
#[derive(Clone, Debug, PartialEq, Eq)]
pub struct Target {
    pub host: String,
    pub port: u16,
}

/// The target of a locator with these parts, or the error that it is
/// refused with: the scheme must be the tunnel's, and there must be a host;
/// a locator without a port means [`DEFAULT_PORT`].
pub open spec fn spec_target(parts: (Seq<char>, Option<Seq<char>>, Option<u16>)) -> Result<
    (Seq<char>, u16),
    SetupError,
> {
    if parts.0 != tunnel_scheme() {
        Err(SetupError::UnsupportedScheme)
    } else {
        match parts.1 {
            None => Err(SetupError::MissingHost),
            Some(host) => Ok(
                (
                    host,
                    match parts.2 {
                        Some(port) => port,
                        None => DEFAULT_PORT,
                    },
                ),
            ),
        }
    }
}

/// The target of a text, or the error that it is refused with: a text that
/// is no URL is malformed; a URL is judged by its parts.
pub open spec fn spec_parse_target(text: Seq<char>) -> Result<(Seq<char>, u16), SetupError> {
    match url_parts(text) {
        None => Err(SetupError::MalformedLocator),
        Some(parts) => spec_target(parts),
    }
}

/// Whether a result is the expected one: the same error, or a target with
/// the expected host, character by character, and the expected port.
pub open spec fn target_matches(
    r: Result<Target, SetupError>,
    expected: Result<(Seq<char>, u16), SetupError>,
) -> bool {
    match r {
        Ok(target) => expected == Ok::<(Seq<char>, u16), SetupError>((target.host@, target.port)),
        Err(e) => expected == Err::<(Seq<char>, u16), SetupError>(e),
    }
}

/// Parses a text with `url::Url::parse` and reads the URL's `scheme`,
/// `host_str` and `port`. The contract claims only that what comes back is
/// a function of the text: the same text gives the same parts, and `None`
/// stands for the parser's error.
#[verifier::external_body]
fn parse_locator(text: &str) -> (r: Option<Locator>)
    ensures
        match r {
            Some(locator) => url_parts(text@) == Some(locator.parts()),
            None => url_parts(text@) is None,
        },
{
    match url::Url::parse(text) {
        Ok(parsed) => Some(
            Locator {
                scheme: parsed.scheme().to_owned(),
                host: parsed.host_str().map(str::to_owned),
                port: parsed.port(),
            },
        ),
        Err(_) => None,
    }
}

/// The target of a locator, as [`spec_target`] says.
pub fn target_of(locator: Locator) -> (r: Result<Target, SetupError>)
    ensures
        target_matches(r, spec_target(locator.parts())),
{
    let Locator { scheme, host, port } = locator;
    let expected: String = "quic".to_owned();
    if scheme != expected {
        return Err(SetupError::UnsupportedScheme);
    }
    match host {
        None => Err(SetupError::MissingHost),
        Some(host) => Ok(
            Target {
                host,
                port: match port {
                    Some(port) => port,
                    None => DEFAULT_PORT,
                },
            },
        ),
    }
}

/// The target that a text points to, as [`spec_parse_target`] says.
pub fn parse_target(text: &str) -> (r: Result<Target, SetupError>)
    ensures
        target_matches(r, spec_parse_target(text@)),
{
    match parse_locator(text) {
        None => Err(SetupError::MalformedLocator),
        Some(locator) => target_of(locator),
    }
}

/// The address that the client connects to: the first that the resolver
/// gave. Without one, the client cannot be set up.
pub fn pick_remote(candidates: &[SocketAddress]) -> (r: Result<SocketAddress, SetupError>)
    ensures
        r == if candidates@.len() > 0 {
            Ok::<SocketAddress, SetupError>(candidates@[0])
        } else {
            Err::<SocketAddress, SetupError>(SetupError::Unresolved)
        },
{
    if candidates.len() > 0 {
        Ok(candidates[0])
    } else {
        Err(SetupError::Unresolved)
    }
}

/// The socket that the client's endpoint is made on.
#[derive(Clone, Copy, Debug, PartialEq, Eq, Structural)]
pub enum LocalSocket {
    /// A socket bound to the address that was asked for.
    Bound(SocketAddress),
    /// A socket of this family that is bound to no address.
    Unbound(IpAddrKind),
}

/// The local socket of a client. With an address to bind to, a socket
/// bound to it; without one, an unbound socket of the family of the remote
/// address.
pub open spec fn spec_local_socket(bind: Option<SocketAddress>, remote: SocketAddress) -> LocalSocket {
    match bind {
        Some(local) => LocalSocket::Bound(local),
        None => LocalSocket::Unbound(remote.spec_family()),
    }
}

/// The local socket of a client, as [`spec_local_socket`] says.
pub fn choose_local_socket(bind: Option<SocketAddress>, remote: SocketAddress) -> (r: LocalSocket)
    ensures
        r == spec_local_socket(bind, remote),
{
    match bind {
        Some(local) => LocalSocket::Bound(local),
        None => LocalSocket::Unbound(remote.family()),
    }
}

/// The pump of a client. Forward goes from standard input to the stream,
/// whose writes are not buffered; backward goes from the stream to standard
/// output, which is buffered and is flushed after every write.
pub fn client_pump() -> (r: Pump)
    ensures
        r@ == (PumpView {
            forward: RelayState::Reading,
            backward: RelayState::Reading,
            forward_buffered: false,
            backward_buffered: true,
        }),
        r@.wf(),
{
    Pump::new(false, true)
}

/// The application code with which the client closes its session on a
/// hang-up.
pub const HANGUP_CODE: u32 = 0;

/// The reason that the client gives when it closes its session on a
/// hang-up: the bytes of `signal HUP`.
pub open spec fn hangup_reason() -> Seq<u8> {
    seq![0x73u8, 0x69, 0x67, 0x6e, 0x61, 0x6c, 0x20, 0x48, 0x55, 0x50]
}

/// Which of the client's three tasks was over first.
#[derive(Clone, Copy, Debug, PartialEq, Eq, Structural)]
pub enum ClientEvent {
    /// The relay from the stream to standard output ended.
    ReceiveEnded,
    /// The relay from standard input to the stream ended.
    SendEnded,
    /// The hang-up signal arrived.
    HangUp,
}

/// How a session is closed: an application code and a reason.
#[derive(Clone, Debug, PartialEq, Eq)]
pub struct CloseFrame {
    pub code: u32,
    pub reason: Vec<u8>,
}

/// What the client does when the first of its tasks is over. In every case
/// it leaves: the pump is ended, so that neither relay asks for I/O again.
/// On a hang-up the session is closed first, with [`HANGUP_CODE`] and
/// [`hangup_reason`]; `None` means that the session is not closed
/// explicitly.
pub fn on_first_completion(event: ClientEvent, pump: &mut Pump) -> (r: Option<CloseFrame>)
    ensures
        event is HangUp <==> r is Some,
        match r {
            Some(frame) => frame.code == HANGUP_CODE && frame.reason@ == hangup_reason(),
            None => true,
        },
        final(pump)@ == old(pump)@.abandon(),
        final(pump)@.finished(),
{
    pump.abandon();
    match event {
        ClientEvent::HangUp => {
            let reason: Vec<u8> = vec![0x73u8, 0x69, 0x67, 0x6e, 0x61, 0x6c, 0x20, 0x48, 0x55, 0x50];
            Some(CloseFrame { code: HANGUP_CODE, reason })
        },
        _ => None,
    }
}

/// How a client ended.
#[derive(Clone, Copy, Debug, PartialEq, Eq, Structural)]
pub enum ClientEnd {
    /// The client could not be set up; nothing was relayed.
    Failed(SetupError),
    /// The client relayed until the first of its tasks was over.
    Finished(ClientEvent),
}

/// Where a client stands.
#[derive(Clone, Copy, Debug, PartialEq, Eq, Structural)]
pub enum ClientPhase {
    /// The host of the target is being resolved.
    Resolving,
    /// The session to the server is being established.
    Connecting,
    /// The stream of the session is being opened.
    OpeningStream,
    /// The two relays and the listener for the hang-up run.
    Relaying,
    /// The client is over.
    Ended(ClientEnd),
}

/// What the client reports.
#[derive(Clone, Copy, Debug, PartialEq, Eq)]
pub enum ClientReport<'a> {
    /// The addresses that the host resolved to, in the resolver's order.
    Resolved(&'a [SocketAddress]),
    /// The attempt to establish the session ended; `true` when there is a
    /// session.
    Connected(bool),
    /// The attempt to open the stream ended; `true` when there is a stream.
    StreamOpened(bool),
    /// The first of the three tasks is over.
    TaskEnded(ClientEvent),
}

/// What the client does next.
#[derive(Clone, Copy, Debug, PartialEq, Eq, Structural)]
pub enum ClientAction {
    /// Resolve the host and the port of the target.
    Resolve,
    /// Make the local socket and establish the session to `remote`,
    /// declaring the host of the target as the name of the server.
    Connect { remote: SocketAddress, local: LocalSocket },
    /// Open one bidirectional stream on the session.
    OpenStream,
    /// Run the two relays and the listener for the hang-up at once, and
    /// report the first that is over.
    RunTasks,
    /// Leave.
    Leave(ClientEnd),
}

/// A report as a mathematical value.
pub ghost enum ClientReportView {
    Resolved(Seq<SocketAddress>),
    Connected(bool),
    StreamOpened(bool),
    TaskEnded(ClientEvent),
}

impl<'a> View for ClientReport<'a> {
    type V = ClientReportView;

    open spec fn view(&self) -> ClientReportView {
        match *self {
            ClientReport::Resolved(candidates) => ClientReportView::Resolved(candidates@),
            ClientReport::Connected(ok) => ClientReportView::Connected(ok),
            ClientReport::StreamOpened(ok) => ClientReportView::StreamOpened(ok),
            ClientReport::TaskEnded(first) => ClientReportView::TaskEnded(first),
        }
    }
}

/// Whether the report answers the action that a client in `phase` is
/// waiting on. A client that is over waits on nothing.
pub open spec fn client_in_turn(phase: ClientPhase, report: ClientReportView) -> bool {
    match phase {
        ClientPhase::Resolving => report is Resolved,
        ClientPhase::Connecting => report is Connected,
        ClientPhase::OpeningStream => report is StreamOpened,
        ClientPhase::Relaying => report is TaskEnded,
        ClientPhase::Ended(_) => false,
    }
}

/// The end of a client that could not be set up.
pub open spec fn client_failure(error: SetupError) -> (ClientPhase, ClientAction) {
    (ClientPhase::Ended(ClientEnd::Failed(error)), ClientAction::Leave(ClientEnd::Failed(error)))
}

/// The transition of a client: the phase it moves to and the action it asks
/// for.
///
/// * A client that is over stays as it is.
/// * The first address that the host resolved to is connected to, from the
///   socket that [`spec_local_socket`] gives; without an address the client
///   fails.
/// * A session that cannot be established and a stream that cannot be
///   opened fail the client.
/// * Once the stream is open the tasks run, and the client leaves when the
///   first of them is over.
pub open spec fn client_step(
    bind: Option<SocketAddress>,
    phase: ClientPhase,
    report: ClientReportView,
) -> (ClientPhase, ClientAction) {
    match phase {
        ClientPhase::Ended(end) => (phase, ClientAction::Leave(end)),
        _ => match report {
            ClientReportView::Resolved(candidates) => if candidates.len() > 0 {
                (
                    ClientPhase::Connecting,
                    ClientAction::Connect {
                        remote: candidates[0],
                        local: spec_local_socket(bind, candidates[0]),
                    },
                )
            } else {
                client_failure(SetupError::Unresolved)
            },
            ClientReportView::Connected(true) => (
                ClientPhase::OpeningStream,
                ClientAction::OpenStream,
            ),
            ClientReportView::Connected(false) => client_failure(SetupError::ConnectFailed),
            ClientReportView::StreamOpened(true) => (ClientPhase::Relaying, ClientAction::RunTasks),
            ClientReportView::StreamOpened(false) => client_failure(SetupError::StreamFailed),
            ClientReportView::TaskEnded(first) => (
                ClientPhase::Ended(ClientEnd::Finished(first)),
                ClientAction::Leave(ClientEnd::Finished(first)),
            ),
        },
    }
}

/// One run of the client, from the resolution of its target to its end.
#[derive(Clone, Debug, PartialEq, Eq)]
pub struct ClientSession {
    target: Target,
    bind: Option<SocketAddress>,
    phase: ClientPhase,
}

impl ClientSession {
    /// The host of the target.
    pub closed spec fn spec_host(&self) -> Seq<char> {
        self.target.host@
    }

    /// The port of the target.
    pub closed spec fn spec_port(&self) -> u16 {
        self.target.port
    }

    /// The address to bind to, if one was asked for.
    pub closed spec fn spec_bind(&self) -> Option<SocketAddress> {
        self.bind
    }

    /// Where the client stands.
    pub closed spec fn spec_phase(&self) -> ClientPhase {
        self.phase
    }

    /// Whether the client takes the report: it is in turn, or the client is
    /// over, in which case every report is answered with `Leave`.
    pub open spec fn accepts(&self, report: ClientReportView) -> bool {
        self.spec_phase() is Ended || client_in_turn(self.spec_phase(), report)
    }

    /// A client that is about to resolve its target. `bind` is the local
    /// address to bind to, if one was asked for.
    pub fn new(target: Target, bind: Option<SocketAddress>) -> (r: ClientSession)
        ensures
            r.spec_host() == target.host@,
            r.spec_port() == target.port,
            r.spec_bind() == bind,
            r.spec_phase() == ClientPhase::Resolving,
    {
        ClientSession { target, bind, phase: ClientPhase::Resolving }
    }

    /// The host of the target: what is resolved, and the name that the
    /// client declares to the server.
    pub fn host(&self) -> (r: &str)
        ensures
            r@ == self.spec_host(),
    {
        self.target.host.as_str()
    }

    /// The port of the target.
    #[verifier::when_used_as_spec(spec_port)]
    pub fn port(&self) -> (r: u16)
        ensures
            r == self.spec_port(),
    {
        self.target.port
    }

    /// Where the client stands.
    #[verifier::when_used_as_spec(spec_phase)]
    pub fn phase(&self) -> (r: ClientPhase)
        ensures
            r == self.spec_phase(),
    {
        self.phase
    }

    /// The first action of a client: the resolution of its target, or
    /// `Leave` if the client is over already.
    pub fn start(&self) -> (action: ClientAction)
        ensures
            action == match self.spec_phase() {
                ClientPhase::Ended(end) => ClientAction::Leave(end),
                _ => ClientAction::Resolve,
            },
    {
        match self.phase {
            ClientPhase::Ended(end) => ClientAction::Leave(end),
            _ => ClientAction::Resolve,
        }
    }

    /// Whether the client takes the report.
    pub fn expects(&self, report: &ClientReport) -> (r: bool)
        ensures
            r == self.accepts(report@),
    {
        match self.phase {
            ClientPhase::Ended(_) => true,
            ClientPhase::Resolving => match report {
                ClientReport::Resolved(_) => true,
                _ => false,
            },
            ClientPhase::Connecting => match report {
                ClientReport::Connected(_) => true,
                _ => false,
            },
            ClientPhase::OpeningStream => match report {
                ClientReport::StreamOpened(_) => true,
                _ => false,
            },
            ClientPhase::Relaying => match report {
                ClientReport::TaskEnded(_) => true,
                _ => false,
            },
        }
    }

    /// Takes what happened and answers with what to do next, as
    /// [`client_step`] says. Target and bind address stay the same.
    pub fn on_event(&mut self, report: ClientReport) -> (action: ClientAction)
        requires
            old(self).accepts(report@),
        ensures
            (final(self).spec_phase(), action) == client_step(
                old(self).spec_bind(),
                old(self).spec_phase(),
                report@,
            ),
            final(self).spec_host() == old(self).spec_host(),
            final(self).spec_port() == old(self).spec_port(),
            final(self).spec_bind() == old(self).spec_bind(),
    {
        match self.phase {
            ClientPhase::Ended(end) => ClientAction::Leave(end),
            _ => match report {
                ClientReport::Resolved(candidates) => match pick_remote(candidates) {
                    Ok(remote) => {
                        self.phase = ClientPhase::Connecting;
                        ClientAction::Connect {
                            remote,
                            local: choose_local_socket(self.bind, remote),
                        }
                    },
                    Err(error) => self.end(ClientEnd::Failed(error)),
                },
                ClientReport::Connected(true) => {
                    self.phase = ClientPhase::OpeningStream;
                    ClientAction::OpenStream
                },
                ClientReport::Connected(false) => self.end(
                    ClientEnd::Failed(SetupError::ConnectFailed),
                ),
                ClientReport::StreamOpened(true) => {
                    self.phase = ClientPhase::Relaying;
                    ClientAction::RunTasks
                },
                ClientReport::StreamOpened(false) => self.end(
                    ClientEnd::Failed(SetupError::StreamFailed),
                ),
                ClientReport::TaskEnded(first) => self.end(ClientEnd::Finished(first)),
            },
        }
    }

    fn end(&mut self, end: ClientEnd) -> (action: ClientAction)
        ensures
            final(self).phase == ClientPhase::Ended(end),
            final(self).target == old(self).target,
            final(self).bind == old(self).bind,
            action == ClientAction::Leave(end),
    {
        self.phase = ClientPhase::Ended(end);
        ClientAction::Leave(end)
    }
}

/// The phase of a client that started in `phase` and took `reports` in
/// order.
pub open spec fn client_run(
    bind: Option<SocketAddress>,
    phase: ClientPhase,
    reports: Seq<ClientReportView>,
) -> ClientPhase
    decreases reports.len(),
{
    if reports.len() == 0 {
        phase
    } else {
        client_step(bind, client_run(bind, phase, reports.drop_last()), reports.last()).0
    }
}

/// The actions that a client asked for while it took `reports` in order,
/// one for each report.
pub open spec fn client_actions(
    bind: Option<SocketAddress>,
    phase: ClientPhase,
    reports: Seq<ClientReportView>,
) -> Seq<ClientAction>
    decreases reports.len(),
{
    if reports.len() == 0 {
        Seq::empty()
    } else {
        client_actions(bind, phase, reports.drop_last()).push(
            client_step(bind, client_run(bind, phase, reports.drop_last()), reports.last()).1,
        )
    }
}

/// Whether every report of the run came in turn.
pub open spec fn client_driven(
    bind: Option<SocketAddress>,
    phase: ClientPhase,
    reports: Seq<ClientReportView>,
) -> bool
    decreases reports.len(),
{
    reports.len() == 0 || (client_driven(bind, phase, reports.drop_last()) && client_in_turn(
        client_run(bind, phase, reports.drop_last()),
        reports.last(),
    ))
}

/// Whether one of the actions asks for the tasks to run.
pub open spec fn tasks_asked(actions: Seq<ClientAction>) -> bool {
    exists|i: int| 0 <= i < actions.len() && (#[trigger] actions[i]) == ClientAction::RunTasks
}

/// A client that cannot be set up leaves before anything is relayed, and a
/// client that relays does not fail. In a run from the start whose reports
/// come in turn, the tasks were asked for exactly if the client stands in
/// the relay phase or has finished; so they were never asked for where the
/// run ended in a failure.
pub proof fn lemma_failed_client_relays_nothing(
    bind: Option<SocketAddress>,
    reports: Seq<ClientReportView>,
)
    requires
        client_driven(bind, ClientPhase::Resolving, reports),
    ensures
        client_actions(bind, ClientPhase::Resolving, reports).len() == reports.len(),
        tasks_asked(client_actions(bind, ClientPhase::Resolving, reports)) <==> (client_run(
            bind,
            ClientPhase::Resolving,
            reports,
        ) is Relaying || client_run(bind, ClientPhase::Resolving, reports) matches ClientPhase::Ended(
            ClientEnd::Finished(_),
        )),
        client_run(bind, ClientPhase::Resolving, reports) matches ClientPhase::Ended(
            ClientEnd::Failed(_),
        ) ==> !tasks_asked(client_actions(bind, ClientPhase::Resolving, reports)),
    decreases reports.len(),
{
    if reports.len() > 0 {
        let before = reports.drop_last();
        lemma_failed_client_relays_nothing(bind, before);
        let actions = client_actions(bind, ClientPhase::Resolving, reports);
        let earlier = client_actions(bind, ClientPhase::Resolving, before);
        assert(actions.drop_last() == earlier);
        assert forall|i: int| 0 <= i < before.len() implies actions[i] == earlier[i] by {}
        let last = reports.len() - 1;
        if tasks_asked(earlier) {
            let i = choose|i: int|
                0 <= i < earlier.len() && (#[trigger] earlier[i]) == ClientAction::RunTasks;
            assert(actions[i] == ClientAction::RunTasks);
        }
        if actions[last] == ClientAction::RunTasks {
            assert(0 <= last < actions.len());
        }
    }
}

/// Without an address to bind to, the socket of a client is unbound and of
/// the family of the address that it connects to: an IPv4 socket for an
/// IPv4 address, an IPv6 socket for an IPv6 address.
pub proof fn lemma_unbound_socket_matches_remote_family(remote: SocketAddress)
    ensures
        remote is V4 ==> spec_local_socket(None, remote) == LocalSocket::Unbound(IpAddrKind::V4),
        remote is V6 ==> spec_local_socket(None, remote) == LocalSocket::Unbound(IpAddrKind::V6),
{
}

} // verus!
