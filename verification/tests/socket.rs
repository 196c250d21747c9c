use quic_tunnel::addr::IpAddrKind;
use quic_tunnel::error::{SetupError, SetupStage};
use quic_tunnel::unbound_udpsocket::{
    select_strategy, Capabilities, SetupAction, SetupState, SocketCall, SocketHandle, SocketSetup,
    Strategy,
};

#[test]
fn strategy_follows_what_the_platform_offers() {
    let caps = |atomic_close_on_exec, needs_sigpipe_option| Capabilities {
        atomic_close_on_exec,
        needs_sigpipe_option,
    };
    assert_eq!(select_strategy(caps(true, false)), Strategy::Combined);
    assert_eq!(select_strategy(caps(true, true)), Strategy::Combined);
    assert_eq!(select_strategy(caps(false, false)), Strategy::CreateThenFlag);
    assert_eq!(select_strategy(caps(false, true)), Strategy::CreateFlagSuppress);
}

#[test]
fn combined_strategy_needs_one_call() {
    for family in [IpAddrKind::V4, IpAddrKind::V6] {
        let mut setup = SocketSetup::new(family, Strategy::Combined);
        assert_eq!(setup.family(), family);
        assert_eq!(setup.strategy(), Strategy::Combined);
        assert_eq!(setup.state(), SetupState::Creating);
        assert_eq!(setup.start(), SocketCall::Create { family, close_on_exec: true });
        let handle = SocketHandle { fd: 7, family, close_on_exec: true, sigpipe_suppressed: false };
        assert_eq!(setup.on_return(7), SetupAction::Done(handle));
        assert_eq!(setup.state(), SetupState::Ready(handle));
    }
}

#[test]
fn create_then_flag_needs_two_calls() {
    for family in [IpAddrKind::V4, IpAddrKind::V6] {
        let mut setup = SocketSetup::new(family, Strategy::CreateThenFlag);
        assert_eq!(setup.start(), SocketCall::Create { family, close_on_exec: false });
        assert_eq!(setup.on_return(5), SetupAction::Call(SocketCall::SetCloseOnExec { fd: 5 }));
        assert_eq!(setup.state(), SetupState::Flagging { fd: 5 });
        let handle = SocketHandle { fd: 5, family, close_on_exec: true, sigpipe_suppressed: false };
        assert_eq!(setup.on_return(0), SetupAction::Done(handle));
        assert_eq!(setup.state(), SetupState::Ready(handle));
    }
}

#[test]
fn create_flag_suppress_needs_three_calls() {
    for family in [IpAddrKind::V4, IpAddrKind::V6] {
        let mut setup = SocketSetup::new(family, Strategy::CreateFlagSuppress);
        assert_eq!(setup.start(), SocketCall::Create { family, close_on_exec: false });
        assert_eq!(setup.on_return(0), SetupAction::Call(SocketCall::SetCloseOnExec { fd: 0 }));
        assert_eq!(setup.on_return(0), SetupAction::Call(SocketCall::SuppressSigpipe { fd: 0 }));
        assert_eq!(setup.state(), SetupState::Suppressing { fd: 0 });
        let handle = SocketHandle { fd: 0, family, close_on_exec: true, sigpipe_suppressed: true };
        assert_eq!(setup.on_return(0), SetupAction::Done(handle));
        assert_eq!(setup.state(), SetupState::Ready(handle));
    }
}

#[test]
fn failed_creation_ends_the_setup() {
    let mut setup = SocketSetup::new(IpAddrKind::V4, Strategy::Combined);
    match setup.on_return(-1) {
        SetupAction::Fail(SetupError::Socket { stage, .. }) => assert_eq!(stage, SetupStage::Create),
        other => panic!("unexpected action: {:?}", other),
    }
    assert!(matches!(
        setup.state(),
        SetupState::Failed(SetupError::Socket { stage: SetupStage::Create, .. })
    ));
}

#[test]
fn failed_mark_ends_the_setup() {
    let mut setup = SocketSetup::new(IpAddrKind::V6, Strategy::CreateThenFlag);
    setup.on_return(3);
    assert!(matches!(
        setup.on_return(-1),
        SetupAction::Fail(SetupError::Socket { stage: SetupStage::SetCloseOnExec, .. })
    ));
}

#[test]
fn failed_switch_ends_the_setup() {
    let mut setup = SocketSetup::new(IpAddrKind::V6, Strategy::CreateFlagSuppress);
    setup.on_return(3);
    setup.on_return(0);
    assert!(matches!(
        setup.on_return(-1),
        SetupAction::Fail(SetupError::Socket { stage: SetupStage::SuppressSigpipe, .. })
    ));
}

#[test]
fn other_negative_value_is_no_failure() {
    let mut setup = SocketSetup::new(IpAddrKind::V4, Strategy::CreateThenFlag);
    assert_eq!(setup.on_return(-2), SetupAction::Call(SocketCall::SetCloseOnExec { fd: -2 }));
}

#[test]
fn settled_setup_stays_as_it_is() {
    let mut ready = SocketSetup::new(IpAddrKind::V4, Strategy::Combined);
    let done = ready.on_return(4);
    assert_eq!(ready.on_return(9), done);
    assert_eq!(ready.on_return(-1), done);
    let mut failed = SocketSetup::new(IpAddrKind::V4, Strategy::Combined);
    let fail = failed.on_return(-1);
    assert_eq!(failed.on_return(4), fail);
    assert_eq!(failed.on_return(-1), fail);
    assert!(matches!(fail, SetupAction::Fail(_)));
}
