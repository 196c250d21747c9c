use quic_tunnel::pump::{Direction, Pump};
use quic_tunnel::relay::{ReadOutcome, RelayAction, RelayEvent, RelayState, StopReason};

#[test]
fn new_pump_reads_in_both_directions() {
    let pump = Pump::new(false, true);
    assert!(!pump.finished());
    assert_eq!(pump.state(Direction::Forward), RelayState::Reading);
    assert_eq!(pump.state(Direction::Backward), RelayState::Reading);
    assert_eq!(pump.start(Direction::Forward), RelayAction::Read { max: 2048 });
    assert_eq!(pump.start(Direction::Backward), RelayAction::Read { max: 2048 });
}

#[test]
fn directions_of_a_pump_relay_independently() {
    let mut pump = Pump::new(false, true);
    let up = [1u8, 2, 3];
    let down = [4u8, 5];
    assert_eq!(
        pump.on_event(Direction::Forward, RelayEvent::Read(ReadOutcome::Data(&up))),
        RelayAction::WriteAll(&up)
    );
    assert_eq!(
        pump.on_event(Direction::Backward, RelayEvent::Read(ReadOutcome::Data(&down))),
        RelayAction::WriteAll(&down)
    );
    assert_eq!(pump.on_event(Direction::Forward, RelayEvent::Written(true)), RelayAction::Read { max: 2048 });
    assert_eq!(pump.on_event(Direction::Backward, RelayEvent::Written(true)), RelayAction::Flush);
    assert_eq!(pump.on_event(Direction::Backward, RelayEvent::Flushed(true)), RelayAction::Read { max: 2048 });
    assert!(!pump.finished());
}

#[test]
fn pump_is_over_when_either_direction_ends() {
    let mut pump = Pump::new(false, false);
    let chunk = [1u8];
    pump.on_event(Direction::Backward, RelayEvent::Read(ReadOutcome::Data(&chunk)));
    let action = pump.on_event(Direction::Forward, RelayEvent::Read(ReadOutcome::EndOfStream));
    assert_eq!(action, RelayAction::Stop(StopReason::EndOfStream));
    assert!(pump.finished());
    assert_eq!(pump.state(Direction::Forward), RelayState::Stopped(StopReason::EndOfStream));
    assert_eq!(pump.state(Direction::Backward), RelayState::Stopped(StopReason::Abandoned));
}

#[test]
fn abandoned_direction_has_no_further_effect() {
    let mut pump = Pump::new(true, true);
    let chunk = [1u8, 2];
    pump.on_event(Direction::Backward, RelayEvent::Read(ReadOutcome::Data(&chunk)));
    pump.on_event(Direction::Forward, RelayEvent::Read(ReadOutcome::Failed));
    assert!(pump.expects(Direction::Backward, &RelayEvent::Written(true)));
    let action = pump.on_event(Direction::Backward, RelayEvent::Written(true));
    assert_eq!(action, RelayAction::Stop(StopReason::Abandoned));
    let action = pump.on_event(Direction::Backward, RelayEvent::Read(ReadOutcome::Data(&chunk)));
    assert_eq!(action, RelayAction::Stop(StopReason::Abandoned));
    let action = pump.on_event(Direction::Forward, RelayEvent::Read(ReadOutcome::Data(&chunk)));
    assert_eq!(action, RelayAction::Stop(StopReason::ReadFailed));
    assert_eq!(pump.start(Direction::Backward), RelayAction::Stop(StopReason::Abandoned));
    assert!(pump.finished());
}

#[test]
fn pump_takes_in_each_direction_what_is_due_there() {
    let mut pump = Pump::new(false, false);
    let chunk = [1u8];
    pump.on_event(Direction::Forward, RelayEvent::Read(ReadOutcome::Data(&chunk)));
    assert!(pump.expects(Direction::Forward, &RelayEvent::Written(true)));
    assert!(!pump.expects(Direction::Forward, &RelayEvent::Read(ReadOutcome::Pending)));
    assert!(pump.expects(Direction::Backward, &RelayEvent::Read(ReadOutcome::Pending)));
    assert!(!pump.expects(Direction::Backward, &RelayEvent::Written(true)));
}

#[test]
fn abandoned_pump_is_over_in_both_directions() {
    let mut pump = Pump::new(true, false);
    pump.abandon();
    assert!(pump.finished());
    assert_eq!(pump.state(Direction::Forward), RelayState::Stopped(StopReason::Abandoned));
    assert_eq!(pump.state(Direction::Backward), RelayState::Stopped(StopReason::Abandoned));
    let mut ended = Pump::new(true, false);
    ended.on_event(Direction::Backward, RelayEvent::Read(ReadOutcome::Failed));
    ended.abandon();
    assert_eq!(ended.state(Direction::Backward), RelayState::Stopped(StopReason::ReadFailed));
    assert_eq!(ended.state(Direction::Forward), RelayState::Stopped(StopReason::Abandoned));
}
