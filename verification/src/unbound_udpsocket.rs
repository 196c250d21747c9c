//! How a datagram socket is made that is bound to no local address, on a
//! Unix-like platform.
//!
//! The socket is made by one to three system calls, depending on what the
//! platform offers. None of them binds the socket. The calls themselves are
//! the caller's: [`SocketSetup`] says which call is due, takes what the call
//! returned, and says what is due next. A call reports its failure the Unix
//! way, by returning -1.

use crate::addr::IpAddrKind;
use crate::error::{SetupError, SetupStage};
use vstd::prelude::*;

verus! {

/// The error type of `std::io`.
#[verifier::external_type_specification]
#[verifier::external_body]
pub struct ExIoError(std::io::Error);

/// What the platform offers for the setup of a socket.
#[derive(Clone, Copy, Debug, PartialEq, Eq, Structural)]
pub struct Capabilities {
    /// A socket can be created and marked close-on-exec in one call.
    pub atomic_close_on_exec: bool,
    /// A write to a socket whose peer reset the connection raises a signal
    /// unless an option of the socket switches that off.
    pub needs_sigpipe_option: bool,
}

/// The three ways to make the socket.
#[derive(Clone, Copy, Debug, PartialEq, Eq, Structural)]
pub enum Strategy {
    /// One call creates the socket and marks it close-on-exec.
    Combined,
    /// The socket is created, then marked close-on-exec.
    CreateThenFlag,
    /// The socket is created, marked close-on-exec, and then has the signal
    /// on a write to a reset peer switched off.
    CreateFlagSuppress,
}

/// The strategy for a platform. The combined call is taken where there is
/// one; elsewhere the signal is switched off where the platform needs the
/// option for it.
pub open spec fn spec_select_strategy(caps: Capabilities) -> Strategy {
    if caps.atomic_close_on_exec {
        Strategy::Combined
    } else if caps.needs_sigpipe_option {
        Strategy::CreateFlagSuppress
    } else {
        Strategy::CreateThenFlag
    }
}

/// The strategy for a platform, as [`spec_select_strategy`] says. It is
/// chosen once, not for each socket.
pub fn select_strategy(caps: Capabilities) -> (r: Strategy)
    ensures
        r == spec_select_strategy(caps),
{
    if caps.atomic_close_on_exec {
        Strategy::Combined
    } else if caps.needs_sigpipe_option {
        Strategy::CreateFlagSuppress
    } else {
        Strategy::CreateThenFlag
    }
}

/// A system call of the setup. There is none that binds the socket.
#[derive(Clone, Copy, Debug, PartialEq, Eq, Structural)]
pub enum SocketCall {
    /// Create a datagram socket of the family, with protocol 0; with
    /// `close_on_exec`, mark it close-on-exec in the same call.
    Create { family: IpAddrKind, close_on_exec: bool },
    /// Mark the socket close-on-exec.
    SetCloseOnExec { fd: i32 },
    /// Switch off the signal on a write to a reset peer.
    SuppressSigpipe { fd: i32 },
}

/// A socket that was set up.
#[derive(Clone, Copy, Debug, PartialEq, Eq, Structural)]
pub struct SocketHandle {
    /// The descriptor of the socket.
    pub fd: i32,
    /// The family that the socket was created for.
    pub family: IpAddrKind,
    /// The socket is not inherited by a process image that replaces this
    /// one.
    pub close_on_exec: bool,
    /// The signal on a write to a reset peer was switched off by a call of
    /// its own.
    pub sigpipe_suppressed: bool,
}

/// Where a setup stands.
#[derive(Clone, Copy, Debug, PartialEq, Eq, Structural)]
pub enum SetupState {
    /// The call that creates the socket is due or under way.
    Creating,
    /// The socket exists; the call that marks it close-on-exec is due or
    /// under way.
    Flagging { fd: i32 },
    /// The socket is marked; the call that switches the signal off is due
    /// or under way.
    Suppressing { fd: i32 },
    /// The socket is ready.
    Ready(SocketHandle),
    /// A call failed.
    Failed(SetupError),
}

/// What a setup asks its caller to do next.
#[derive(Clone, Copy, Debug, PartialEq, Eq, Structural)]
pub enum SetupAction {
    /// Make this call and report what it returned.
    Call(SocketCall),
    /// Nothing more: the socket is ready.
    Done(SocketHandle),
    /// Nothing more: the setup failed.
    Fail(SetupError),
}

/// What a system call gave: the value it returned, or with a return of -1
/// the error that the operating system recorded for it, by its number where
/// it has one.
pub ghost enum CallOutcome {
    Returned(i32),
    Failed(Option<i32>),
}

/// The stage of the call that a setup in `state` waits on.
pub open spec fn stage_of(state: SetupState) -> SetupStage {
    match state {
        SetupState::Flagging { .. } => SetupStage::SetCloseOnExec,
        SetupState::Suppressing { .. } => SetupStage::SuppressSigpipe,
        _ => SetupStage::Create,
    }
}

/// The ready socket of a setup.
pub open spec fn ready(fd: i32, family: IpAddrKind, strategy: Strategy) -> SocketHandle {
    SocketHandle {
        fd,
        family,
        close_on_exec: true,
        sigpipe_suppressed: strategy is CreateFlagSuppress,
    }
}

/// The first call of a setup: the creation of the socket, which marks it
/// close-on-exec at once under the combined strategy.
pub open spec fn first_call(family: IpAddrKind, strategy: Strategy) -> SocketCall {
    SocketCall::Create { family, close_on_exec: strategy is Combined }
}

/// The transition of a setup: the state it moves to and the action it asks
/// for.
///
/// * A setup that is ready or has failed stays as it is.
/// * A failed call ends the setup with the stage of that call.
/// * The descriptor is what the creating call returned. Where the strategy
///   has a further call, that call is next; after the last one the socket
///   is ready.
pub open spec fn setup_step(
    family: IpAddrKind,
    strategy: Strategy,
    state: SetupState,
    outcome: CallOutcome,
) -> (SetupState, SetupAction) {
    match state {
        SetupState::Ready(handle) => (state, SetupAction::Done(handle)),
        SetupState::Failed(error) => (state, SetupAction::Fail(error)),
        _ => match outcome {
            CallOutcome::Failed(code) => {
                let error = SetupError::Socket { stage: stage_of(state), code };
                (SetupState::Failed(error), SetupAction::Fail(error))
            },
            CallOutcome::Returned(value) => match state {
                SetupState::Creating => if strategy is Combined {
                    (
                        SetupState::Ready(ready(value, family, strategy)),
                        SetupAction::Done(ready(value, family, strategy)),
                    )
                } else {
                    (
                        SetupState::Flagging { fd: value },
                        SetupAction::Call(SocketCall::SetCloseOnExec { fd: value }),
                    )
                },
                SetupState::Flagging { fd } => if strategy is CreateFlagSuppress {
                    (
                        SetupState::Suppressing { fd },
                        SetupAction::Call(SocketCall::SuppressSigpipe { fd }),
                    )
                } else {
                    (
                        SetupState::Ready(ready(fd, family, strategy)),
                        SetupAction::Done(ready(fd, family, strategy)),
                    )
                },
                SetupState::Suppressing { fd } => (
                    SetupState::Ready(ready(fd, family, strategy)),
                    SetupAction::Done(ready(fd, family, strategy)),
                ),
                _ => (state, SetupAction::Call(first_call(family, strategy))),
            },
        },
    }
}

/// `cvt::cvt`, which turns the return value of a system call into a
/// `Result`. On Unix, a return of -1 gives the error that the operating
/// system recorded last; any other value is handed back as it is.
#[verifier::external_body]
fn cvt_status(value: i32) -> (r: Result<i32, std::io::Error>)
    ensures
        match r {
            Ok(returned) => value != -1 && returned == value,
            Err(_) => value == -1,
        },
{
    cvt::cvt(value)
}

/// `std::io::Error::raw_os_error`: the number of the operating system's
/// error, where the error has one. Nothing is claimed of it.
#[verifier::external_body]
fn os_error_code(error: &std::io::Error) -> (r: Option<i32>) {
    error.raw_os_error()
}

/// The setup of one socket.
#[derive(Clone, Copy, Debug, PartialEq, Eq)]
pub struct SocketSetup {
    family: IpAddrKind,
    strategy: Strategy,
    state: SetupState,
}

impl SocketSetup {
    /// The family of the socket.
    pub closed spec fn spec_family(&self) -> IpAddrKind {
        self.family
    }

    /// The strategy of the setup.
    pub closed spec fn spec_strategy(&self) -> Strategy {
        self.strategy
    }

    /// Where the setup stands.
    pub closed spec fn spec_state(&self) -> SetupState {
        self.state
    }

    /// A setup that is about to create its socket.
    pub fn new(family: IpAddrKind, strategy: Strategy) -> (r: SocketSetup)
        ensures
            r.spec_family() == family,
            r.spec_strategy() == strategy,
            r.spec_state() == SetupState::Creating,
    {
        SocketSetup { family, strategy, state: SetupState::Creating }
    }

    /// The family of the socket.
    #[verifier::when_used_as_spec(spec_family)]
    pub fn family(&self) -> (r: IpAddrKind)
        ensures
            r == self.spec_family(),
    {
        self.family
    }

    /// The strategy of the setup.
    #[verifier::when_used_as_spec(spec_strategy)]
    pub fn strategy(&self) -> (r: Strategy)
        ensures
            r == self.spec_strategy(),
    {
        self.strategy
    }

    /// Where the setup stands.
    #[verifier::when_used_as_spec(spec_state)]
    pub fn state(&self) -> (r: SetupState)
        ensures
            r == self.spec_state(),
    {
        self.state
    }

    /// The call that creates the socket.
    pub fn start(&self) -> (call: SocketCall)
        ensures
            call == first_call(self.spec_family(), self.spec_strategy()),
    {
        let close_on_exec = match self.strategy {
            Strategy::Combined => true,
            _ => false,
        };
        SocketCall::Create { family: self.family, close_on_exec }
    }

    /// Takes the value that the call returned and answers with what to do
    /// next, as [`setup_step`] says. It must be called right after the
    /// system call, on the same thread: with a return of -1 it reads the
    /// error that the operating system recorded for the call.
    pub fn on_return(&mut self, value: i32) -> (action: SetupAction)
        ensures
            final(self).spec_family() == old(self).spec_family(),
            final(self).spec_strategy() == old(self).spec_strategy(),
            value != -1 ==> (final(self).spec_state(), action) == setup_step(
                old(self).spec_family(),
                old(self).spec_strategy(),
                old(self).spec_state(),
                CallOutcome::Returned(value),
            ),
            value == -1 ==> exists|code: Option<i32>|
                (final(self).spec_state(), action) == #[trigger] setup_step(
                    old(self).spec_family(),
                    old(self).spec_strategy(),
                    old(self).spec_state(),
                    CallOutcome::Failed(code),
                ),
    {
        let ghost before = self.state;
        let ghost family = self.family;
        let ghost strategy = self.strategy;
        match self.state {
            SetupState::Ready(handle) => {
                assert((self.state, SetupAction::Done(handle)) == setup_step(
                    family,
                    strategy,
                    before,
                    CallOutcome::Failed(None),
                ));
                SetupAction::Done(handle)
            },
            SetupState::Failed(error) => {
                assert((self.state, SetupAction::Fail(error)) == setup_step(
                    family,
                    strategy,
                    before,
                    CallOutcome::Failed(None),
                ));
                SetupAction::Fail(error)
            },
            _ => match cvt_status(value) {
                Err(e) => {
                    let code = os_error_code(&e);
                    let error = SetupError::Socket { stage: self.stage(), code };
                    self.state = SetupState::Failed(error);
                    assert((self.state, SetupAction::Fail(error)) == setup_step(
                        family,
                        strategy,
                        before,
                        CallOutcome::Failed(code),
                    ));
                    SetupAction::Fail(error)
                },
                Ok(returned) => self.advance(returned),
            },
        }
    }

    fn stage(&self) -> (r: SetupStage)
        ensures
            r == stage_of(self.state),
    {
        match self.state {
            SetupState::Flagging { .. } => SetupStage::SetCloseOnExec,
            SetupState::Suppressing { .. } => SetupStage::SuppressSigpipe,
            _ => SetupStage::Create,
        }
    }

    fn finish(&mut self, fd: i32) -> (action: SetupAction)
        ensures
            final(self).family == old(self).family,
            final(self).strategy == old(self).strategy,
            final(self).state == SetupState::Ready(ready(fd, old(self).family, old(self).strategy)),
            action == SetupAction::Done(ready(fd, old(self).family, old(self).strategy)),
    {
        let sigpipe_suppressed = match self.strategy {
            Strategy::CreateFlagSuppress => true,
            _ => false,
        };
        let handle = SocketHandle {
            fd,
            family: self.family,
            close_on_exec: true,
            sigpipe_suppressed,
        };
        self.state = SetupState::Ready(handle);
        SetupAction::Done(handle)
    }

    fn advance(&mut self, value: i32) -> (action: SetupAction)
        requires
            !(old(self).state is Ready),
            !(old(self).state is Failed),
        ensures
            final(self).family == old(self).family,
            final(self).strategy == old(self).strategy,
            (final(self).state, action) == setup_step(
                old(self).family,
                old(self).strategy,
                old(self).state,
                CallOutcome::Returned(value),
            ),
    {
        match self.state {
            SetupState::Creating => match self.strategy {
                Strategy::Combined => self.finish(value),
                _ => {
                    self.state = SetupState::Flagging { fd: value };
                    SetupAction::Call(SocketCall::SetCloseOnExec { fd: value })
                },
            },
            SetupState::Flagging { fd } => match self.strategy {
                Strategy::CreateFlagSuppress => {
                    self.state = SetupState::Suppressing { fd };
                    SetupAction::Call(SocketCall::SuppressSigpipe { fd })
                },
                _ => self.finish(fd),
            },
            SetupState::Suppressing { fd } => self.finish(fd),
            _ => SetupAction::Call(self.start()),
        }
    }
}

/// The calls of a setup in which no call fails, in order: the creation,
/// then the mark unless the creation made it, then the switch if the
/// strategy has one.
pub open spec fn planned_calls(family: IpAddrKind, strategy: Strategy, fd: i32) -> Seq<SocketCall> {
    match strategy {
        Strategy::Combined => seq![SocketCall::Create { family, close_on_exec: true }],
        Strategy::CreateThenFlag => seq![
            SocketCall::Create { family, close_on_exec: false },
            SocketCall::SetCloseOnExec { fd },
        ],
        Strategy::CreateFlagSuppress => seq![
            SocketCall::Create { family, close_on_exec: false },
            SocketCall::SetCloseOnExec { fd },
            SocketCall::SuppressSigpipe { fd },
        ],
    }
}

/// The state of a setup after its calls returned `values`, none of which
/// reports a failure.
pub open spec fn setup_run(family: IpAddrKind, strategy: Strategy, values: Seq<i32>) -> SetupState
    decreases values.len(),
{
    if values.len() == 0 {
        SetupState::Creating
    } else {
        setup_step(
            family,
            strategy,
            setup_run(family, strategy, values.drop_last()),
            CallOutcome::Returned(values.last()),
        ).0
    }
}

/// The calls that a setup asked for up to the return of `values`: the first
/// call, and after each return the call that was asked for next, if any.
pub open spec fn calls_made(family: IpAddrKind, strategy: Strategy, values: Seq<i32>) -> Seq<
    SocketCall,
>
    decreases values.len(),
{
    if values.len() == 0 {
        seq![first_call(family, strategy)]
    } else {
        let before = calls_made(family, strategy, values.drop_last());
        match setup_step(
            family,
            strategy,
            setup_run(family, strategy, values.drop_last()),
            CallOutcome::Returned(values.last()),
        ).1 {
            SetupAction::Call(call) => before.push(call),
            _ => before,
        }
    }
}

/// For every family and every strategy, a setup in which no call fails
/// makes exactly the planned calls, none of which binds the socket, and
/// ends with a socket of that family that is marked close-on-exec: by the
/// creating call under the combined strategy, by a call of its own under
/// the others. The signal is switched off exactly under the strategy that
/// has a call for it. The descriptor is the one that the creation returned.
pub proof fn lemma_successful_setup_is_unbound_and_close_on_exec(
    family: IpAddrKind,
    strategy: Strategy,
    values: Seq<i32>,
)
    requires
        values.len() == planned_calls(family, strategy, values[0]).len(),
        forall|i: int| 0 <= i < values.len() ==> values[i] != -1,
    ensures
        calls_made(family, strategy, values) == planned_calls(family, strategy, values[0]),
        setup_run(family, strategy, values) == SetupState::Ready(
            SocketHandle {
                fd: values[0],
                family,
                close_on_exec: true,
                sigpipe_suppressed: strategy is CreateFlagSuppress,
            },
        ),
        calls_made(family, strategy, values)[0] matches SocketCall::Create { close_on_exec, .. }
            && (close_on_exec <==> strategy is Combined),
{
    let fd = values[0];
    let one = values.take(1);
    let two = values.take(2);
    assert(one.drop_last() == Seq::<i32>::empty());
    assert(setup_run(family, strategy, one.drop_last()) == SetupState::Creating);
    assert(calls_made(family, strategy, one.drop_last()) == seq![first_call(family, strategy)]);
    match strategy {
        Strategy::Combined => {
            assert(values == one);
            assert(calls_made(family, strategy, values) == planned_calls(family, strategy, fd));
        },
        Strategy::CreateThenFlag => {
            assert(values == two);
            assert(two.drop_last() == one);
            assert(calls_made(family, strategy, one) == seq![
                first_call(family, strategy),
                SocketCall::SetCloseOnExec { fd },
            ]);
            assert(calls_made(family, strategy, values) == planned_calls(family, strategy, fd));
        },
        Strategy::CreateFlagSuppress => {
            assert(values.drop_last() == two);
            assert(two.drop_last() == one);
            assert(calls_made(family, strategy, one) == seq![
                first_call(family, strategy),
                SocketCall::SetCloseOnExec { fd },
            ]);
            assert(calls_made(family, strategy, two) == seq![
                first_call(family, strategy),
                SocketCall::SetCloseOnExec { fd },
                SocketCall::SuppressSigpipe { fd },
            ]);
            assert(calls_made(family, strategy, values) == planned_calls(family, strategy, fd));
        },
    }
}

/// Whatever the platform offers, the strategy chosen for it gives the same
/// socket where no call fails: of the family asked for, marked
/// close-on-exec, with the descriptor that the creation returned; and on a
/// platform without the combined call that needs the option against the
/// signal, with the signal switched off.
pub proof fn lemma_chosen_strategy_gives_the_same_socket(
    caps: Capabilities,
    family: IpAddrKind,
    values: Seq<i32>,
)
    requires
        values.len() == planned_calls(family, spec_select_strategy(caps), values[0]).len(),
        forall|i: int| 0 <= i < values.len() ==> values[i] != -1,
    ensures
        setup_run(family, spec_select_strategy(caps), values) matches SetupState::Ready(handle)
            && handle.fd == values[0] && handle.family == family && handle.close_on_exec && (
        !caps.atomic_close_on_exec && caps.needs_sigpipe_option ==> handle.sigpipe_suppressed),
{
    lemma_successful_setup_is_unbound_and_close_on_exec(
        family,
        spec_select_strategy(caps),
        values,
    );
}

/// A call that fails ends the setup at once, with the stage of that call,
/// and no further call is asked for.
pub proof fn lemma_failed_call_ends_setup(
    family: IpAddrKind,
    strategy: Strategy,
    state: SetupState,
    code: Option<i32>,
)
    requires
        !(state is Ready),
        !(state is Failed),
    ensures
        setup_step(family, strategy, state, CallOutcome::Failed(code)) == (
            SetupState::Failed(SetupError::Socket { stage: stage_of(state), code }),
            SetupAction::Fail(SetupError::Socket { stage: stage_of(state), code }),
        ),
        forall|outcome: CallOutcome|
            (#[trigger] setup_step(
                family,
                strategy,
                SetupState::Failed(SetupError::Socket { stage: stage_of(state), code }),
                outcome,
            )).1 is Fail,
{
}

} // verus!
