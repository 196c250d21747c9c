use quic_tunnel::addr::{IpAddrKind, SocketAddress};
use quic_tunnel::client::{
    choose_local_socket, client_pump, on_first_completion, parse_target, pick_remote, target_of,
    ClientAction, ClientEnd, ClientEvent, ClientPhase, ClientReport, ClientSession, CloseFrame,
    LocalSocket, Locator, Target, DEFAULT_PORT, HANGUP_CODE,
};
use quic_tunnel::error::{SetupError, SetupStage};
use quic_tunnel::pump::Direction;
use quic_tunnel::relay::{ReadOutcome, RelayAction, RelayEvent, RelayState, StopReason};
use quic_tunnel::routing::{RoutingTable, ServerConf};
use quic_tunnel::server::{on_accept, AcceptAction, AcceptEvent};

#[test]
fn default_port_is_4433() {
    assert_eq!(DEFAULT_PORT, 4433);
}

#[test]
fn locator_with_port_gives_host_and_port() {
    assert_eq!(
        parse_target("quic://example.net:2222"),
        Ok(Target { host: "example.net".to_string(), port: 2222 })
    );
}

#[test]
fn locator_without_port_means_4433() {
    assert_eq!(
        parse_target("quic://example.net"),
        Ok(Target { host: "example.net".to_string(), port: 4433 })
    );
}

#[test]
fn scheme_is_compared_in_lower_case() {
    assert_eq!(
        parse_target("QUIC://example.net:22"),
        Ok(Target { host: "example.net".to_string(), port: 22 })
    );
}

#[test]
fn user_and_path_of_a_locator_are_ignored() {
    assert_eq!(
        parse_target("quic://git@example.net:7/some/path?x=1"),
        Ok(Target { host: "example.net".to_string(), port: 7 })
    );
}

#[test]
fn ipv6_host_keeps_its_brackets() {
    assert_eq!(
        parse_target("quic://[::1]:4433"),
        Ok(Target { host: "[::1]".to_string(), port: 4433 })
    );
}

#[test]
fn other_scheme_is_refused() {
    assert_eq!(parse_target("https://example.net"), Err(SetupError::UnsupportedScheme));
    assert_eq!(parse_target("ssh://example.net:22"), Err(SetupError::UnsupportedScheme));
    assert_eq!(parse_target("quics://example.net"), Err(SetupError::UnsupportedScheme));
}

#[test]
fn text_that_is_no_url_is_malformed() {
    assert_eq!(parse_target("example.net:4433"), Err(SetupError::UnsupportedScheme));
    assert_eq!(parse_target("example.net"), Err(SetupError::MalformedLocator));
    assert_eq!(parse_target(""), Err(SetupError::MalformedLocator));
    assert_eq!(parse_target("quic://example.net:99999"), Err(SetupError::MalformedLocator));
}

#[test]
fn locator_without_host_is_refused() {
    assert_eq!(parse_target("quic:example"), Err(SetupError::MissingHost));
}

#[test]
fn target_of_judges_the_parts() {
    let ok = Locator { scheme: "quic".to_string(), host: Some("h".to_string()), port: Some(1) };
    assert_eq!(target_of(ok), Ok(Target { host: "h".to_string(), port: 1 }));
    let no_port = Locator { scheme: "quic".to_string(), host: Some("h".to_string()), port: None };
    assert_eq!(target_of(no_port), Ok(Target { host: "h".to_string(), port: 4433 }));
    let no_host = Locator { scheme: "quic".to_string(), host: None, port: Some(1) };
    assert_eq!(target_of(no_host), Err(SetupError::MissingHost));
    let wrong = Locator { scheme: "QUIC".to_string(), host: None, port: None };
    assert_eq!(target_of(wrong), Err(SetupError::UnsupportedScheme));
    let empty = Locator { scheme: String::new(), host: Some("h".to_string()), port: None };
    assert_eq!(target_of(empty), Err(SetupError::UnsupportedScheme));
}

#[test]
fn first_resolved_address_is_taken() {
    let a = SocketAddress::v4(192, 0, 2, 1, 4433);
    let b = SocketAddress::V6 { bits: 1, port: 4433, flowinfo: 0, scope_id: 0 };
    assert_eq!(pick_remote(&[a, b]), Ok(a));
    assert_eq!(pick_remote(&[b, a]), Ok(b));
    assert_eq!(pick_remote(&[]), Err(SetupError::Unresolved));
}

#[test]
fn unbound_socket_has_the_family_of_the_remote() {
    let v4 = SocketAddress::v4(192, 0, 2, 1, 4433);
    let v6 = SocketAddress::V6 { bits: 1, port: 4433, flowinfo: 0, scope_id: 0 };
    assert_eq!(choose_local_socket(None, v4), LocalSocket::Unbound(IpAddrKind::V4));
    assert_eq!(choose_local_socket(None, v6), LocalSocket::Unbound(IpAddrKind::V6));
}

#[test]
fn explicit_bind_is_kept_whatever_the_remote() {
    let v4 = SocketAddress::v4(192, 0, 2, 1, 4433);
    let v6 = SocketAddress::V6 { bits: 1, port: 4433, flowinfo: 0, scope_id: 0 };
    let local = SocketAddress::v4(0, 0, 0, 0, 5000);
    assert_eq!(choose_local_socket(Some(local), v4), LocalSocket::Bound(local));
    assert_eq!(choose_local_socket(Some(local), v6), LocalSocket::Bound(local));
}

#[test]
fn client_without_a_resolved_address_fails() {
    let target = Target { host: "example.net".to_string(), port: 4433 };
    let mut session = ClientSession::new(target, None);
    assert_eq!(session.phase(), ClientPhase::Resolving);
    assert_eq!(session.start(), ClientAction::Resolve);
    let action = session.on_event(ClientReport::Resolved(&[]));
    assert_eq!(action, ClientAction::Leave(ClientEnd::Failed(SetupError::Unresolved)));
    assert_eq!(session.phase(), ClientPhase::Ended(ClientEnd::Failed(SetupError::Unresolved)));
}

#[test]
fn client_connects_opens_relays_and_leaves() {
    let target = Target { host: "example.net".to_string(), port: 2222 };
    let mut session = ClientSession::new(target, None);
    assert_eq!(session.host(), "example.net");
    assert_eq!(session.port(), 2222);
    let first = SocketAddress::V6 { bits: 1, port: 2222, flowinfo: 0, scope_id: 0 };
    let second = SocketAddress::v4(192, 0, 2, 1, 2222);
    assert_eq!(
        session.on_event(ClientReport::Resolved(&[first, second])),
        ClientAction::Connect { remote: first, local: LocalSocket::Unbound(IpAddrKind::V6) }
    );
    assert_eq!(session.phase(), ClientPhase::Connecting);
    assert_eq!(session.on_event(ClientReport::Connected(true)), ClientAction::OpenStream);
    assert_eq!(session.phase(), ClientPhase::OpeningStream);
    assert_eq!(session.on_event(ClientReport::StreamOpened(true)), ClientAction::RunTasks);
    assert_eq!(session.phase(), ClientPhase::Relaying);
    assert_eq!(
        session.on_event(ClientReport::TaskEnded(ClientEvent::SendEnded)),
        ClientAction::Leave(ClientEnd::Finished(ClientEvent::SendEnded))
    );
    assert_eq!(session.phase(), ClientPhase::Ended(ClientEnd::Finished(ClientEvent::SendEnded)));
    assert_eq!(session.host(), "example.net");
}

#[test]
fn client_with_a_bind_address_connects_from_it() {
    let target = Target { host: "example.net".to_string(), port: 4433 };
    let local = SocketAddress::v4(10, 0, 0, 5, 0);
    let mut session = ClientSession::new(target, Some(local));
    let remote = SocketAddress::v4(192, 0, 2, 1, 4433);
    assert_eq!(
        session.on_event(ClientReport::Resolved(&[remote])),
        ClientAction::Connect { remote, local: LocalSocket::Bound(local) }
    );
}

#[test]
fn client_that_cannot_connect_fails() {
    let target = Target { host: "example.net".to_string(), port: 4433 };
    let mut session = ClientSession::new(target, None);
    session.on_event(ClientReport::Resolved(&[SocketAddress::v4(192, 0, 2, 1, 4433)]));
    assert_eq!(
        session.on_event(ClientReport::Connected(false)),
        ClientAction::Leave(ClientEnd::Failed(SetupError::ConnectFailed))
    );
}

#[test]
fn client_that_cannot_open_its_stream_fails() {
    let target = Target { host: "example.net".to_string(), port: 4433 };
    let mut session = ClientSession::new(target, None);
    session.on_event(ClientReport::Resolved(&[SocketAddress::v4(192, 0, 2, 1, 4433)]));
    session.on_event(ClientReport::Connected(true));
    assert_eq!(
        session.on_event(ClientReport::StreamOpened(false)),
        ClientAction::Leave(ClientEnd::Failed(SetupError::StreamFailed))
    );
}

#[test]
fn client_that_is_over_stays_over() {
    let target = Target { host: "example.net".to_string(), port: 4433 };
    let mut session = ClientSession::new(target, None);
    session.on_event(ClientReport::Resolved(&[]));
    let end = ClientEnd::Failed(SetupError::Unresolved);
    let remote = [SocketAddress::v4(192, 0, 2, 1, 4433)];
    for report in [
        ClientReport::Resolved(&remote),
        ClientReport::Connected(true),
        ClientReport::StreamOpened(true),
        ClientReport::TaskEnded(ClientEvent::HangUp),
    ] {
        assert!(session.expects(&report));
        assert_eq!(session.on_event(report), ClientAction::Leave(end));
        assert_eq!(session.phase(), ClientPhase::Ended(end));
    }
    assert_eq!(session.start(), ClientAction::Leave(end));
}

#[test]
fn client_takes_only_the_report_that_is_due() {
    let target = Target { host: "example.net".to_string(), port: 4433 };
    let mut session = ClientSession::new(target, None);
    let remote = [SocketAddress::v4(192, 0, 2, 1, 4433)];
    assert!(session.expects(&ClientReport::Resolved(&remote)));
    assert!(!session.expects(&ClientReport::Connected(true)));
    assert!(!session.expects(&ClientReport::StreamOpened(true)));
    assert!(!session.expects(&ClientReport::TaskEnded(ClientEvent::HangUp)));
    session.on_event(ClientReport::Resolved(&remote));
    assert!(session.expects(&ClientReport::Connected(false)));
    assert!(!session.expects(&ClientReport::Resolved(&remote)));
    session.on_event(ClientReport::Connected(true));
    assert!(session.expects(&ClientReport::StreamOpened(false)));
    assert!(!session.expects(&ClientReport::Connected(true)));
    session.on_event(ClientReport::StreamOpened(true));
    assert!(session.expects(&ClientReport::TaskEnded(ClientEvent::ReceiveEnded)));
    assert!(!session.expects(&ClientReport::StreamOpened(true)));
}

#[test]
fn client_on_default_port_reaches_the_default_backend() {
    let target = parse_target("quic://tunnel.example:4433").unwrap();
    assert_eq!(target.port, 4433);
    let mut session = ClientSession::new(target, None);
    let resolved = [SocketAddress::v4(198, 51, 100, 4, session.port())];
    assert_eq!(
        session.on_event(ClientReport::Resolved(&resolved)),
        ClientAction::Connect {
            remote: SocketAddress::v4(198, 51, 100, 4, 4433),
            local: LocalSocket::Unbound(IpAddrKind::V4),
        }
    );
    assert_eq!(session.host(), "tunnel.example");

    let table = RoutingTable::new(ServerConf::new(), None);
    let action = on_accept(
        &table,
        AcceptEvent::Established { peer_name: Some(session.host()), remote: "203.0.113.9" },
    );
    assert_eq!(action, AcceptAction::Serve { backend: SocketAddress::v4(127, 0, 0, 1, 22) });
}

#[test]
fn client_named_in_the_configuration_reaches_its_backend() {
    let target = parse_target("quic://foo.example").unwrap();
    let mut session = ClientSession::new(target, None);
    let remote = SocketAddress::V6 { bits: 0x2001_0db8 << 96, port: 4433, flowinfo: 0, scope_id: 0 };
    assert_eq!(
        session.on_event(ClientReport::Resolved(&[remote])),
        ClientAction::Connect { remote, local: LocalSocket::Unbound(IpAddrKind::V6) }
    );

    let mut conf = ServerConf::new();
    conf.insert("foo.example".to_string(), SocketAddress::v4(127, 0, 0, 1, 2200));
    let table = RoutingTable::new(conf, None);
    let action = on_accept(
        &table,
        AcceptEvent::Established { peer_name: Some(session.host()), remote: "2001:db8::9" },
    );
    assert_eq!(action, AcceptAction::Serve { backend: SocketAddress::v4(127, 0, 0, 1, 2200) });
}

#[test]
fn hang_up_closes_the_session_with_code_and_reason() {
    assert_eq!(HANGUP_CODE, 0);
    let mut pump = client_pump();
    assert_eq!(
        on_first_completion(ClientEvent::HangUp, &mut pump),
        Some(CloseFrame { code: 0, reason: b"signal HUP".to_vec() })
    );
    assert!(pump.finished());
}

#[test]
fn ended_relay_leaves_without_closing() {
    let mut pump = client_pump();
    pump.on_event(Direction::Backward, RelayEvent::Read(ReadOutcome::EndOfStream));
    assert_eq!(on_first_completion(ClientEvent::ReceiveEnded, &mut pump), None);
    assert_eq!(pump.state(Direction::Backward), RelayState::Stopped(StopReason::EndOfStream));
    assert_eq!(pump.state(Direction::Forward), RelayState::Stopped(StopReason::Abandoned));
    let mut other = client_pump();
    assert_eq!(on_first_completion(ClientEvent::SendEnded, &mut other), None);
    assert!(other.finished());
}

#[test]
fn both_relays_end_once_the_session_is_closed() {
    let mut pump = client_pump();
    let chunk = [1u8, 2, 3];
    pump.on_event(Direction::Forward, RelayEvent::Read(ReadOutcome::Data(&chunk)));
    let frame = on_first_completion(ClientEvent::HangUp, &mut pump).unwrap();
    assert_eq!(frame.code, 0);
    assert_eq!(frame.reason, b"signal HUP");
    assert!(pump.finished());
    assert_eq!(pump.state(Direction::Forward), RelayState::Stopped(StopReason::Abandoned));
    assert_eq!(pump.state(Direction::Backward), RelayState::Stopped(StopReason::Abandoned));
    let action = pump.on_event(Direction::Backward, RelayEvent::Read(ReadOutcome::Failed));
    assert_eq!(action, RelayAction::Stop(StopReason::Abandoned));
    let action = pump.on_event(Direction::Forward, RelayEvent::Written(false));
    assert_eq!(action, RelayAction::Stop(StopReason::Abandoned));
    assert_eq!(pump.start(Direction::Forward), RelayAction::Stop(StopReason::Abandoned));
}

#[test]
fn client_pump_flushes_standard_output_only() {
    let mut pump = client_pump();
    let chunk = [1u8, 2, 3];
    pump.on_event(Direction::Forward, RelayEvent::Read(ReadOutcome::Data(&chunk)));
    assert_eq!(pump.on_event(Direction::Forward, RelayEvent::Written(true)), RelayAction::Read { max: 2048 });
    pump.on_event(Direction::Backward, RelayEvent::Read(ReadOutcome::Data(&chunk)));
    assert_eq!(pump.on_event(Direction::Backward, RelayEvent::Written(true)), RelayAction::Flush);
}

#[test]
fn every_setup_error_has_its_message() {
    assert_eq!(SetupError::MalformedLocator.message(), "URL is malformed");
    assert_eq!(SetupError::UnsupportedScheme.message(), "URL scheme must be quic");
    assert_eq!(SetupError::MissingHost.message(), "URL has no host");
    assert_eq!(SetupError::Unresolved.message(), "couldn't resolve to an address");
    assert_eq!(SetupError::ConnectFailed.message(), "failed to establish the session");
    assert_eq!(SetupError::StreamFailed.message(), "failed to open stream");
    assert_eq!(
        SetupError::Socket { stage: SetupStage::Create, code: Some(24) }.message(),
        "couldn't create the socket"
    );
    assert_eq!(
        SetupError::Socket { stage: SetupStage::SetCloseOnExec, code: None }.message(),
        "couldn't mark the socket close-on-exec"
    );
    assert_eq!(
        SetupError::Socket { stage: SetupStage::SuppressSigpipe, code: None }.message(),
        "couldn't switch off SIGPIPE on the socket"
    );
    assert_eq!(SetupError::Identity.message(), "couldn't generate the server's identity");
}
