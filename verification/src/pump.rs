//! A pump: two relays between the same pair of endpoints, one for each
//! direction. The pump is over as soon as either direction ends; the other
//! direction is then abandoned and asks for no further I/O.

use crate::relay::{
    in_turn, is_terminal, reason_of, step, ActionView, EventView, Relay, RelayAction, RelayEvent,
    RelayState, StopReason,
};
use vstd::prelude::*;

verus! {

/// One of the two directions of a pump.
#[derive(Clone, Copy, Debug, PartialEq, Eq, Structural)]
pub enum Direction {
    Forward,
    Backward,
}

/// A pump as a mathematical value: where each direction stands, and whether
/// its sink is buffered.
pub ghost struct PumpView {
    pub forward: RelayState,
    pub backward: RelayState,
    pub forward_buffered: bool,
    pub backward_buffered: bool,
}

impl PumpView {
    /// Where the relay of the direction stands.
    pub open spec fn state(self, dir: Direction) -> RelayState {
        match dir {
            Direction::Forward => self.forward,
            Direction::Backward => self.backward,
        }
    }

    /// Whether the sink of the direction is buffered.
    pub open spec fn buffered(self, dir: Direction) -> bool {
        match dir {
            Direction::Forward => self.forward_buffered,
            Direction::Backward => self.backward_buffered,
        }
    }

    /// Whether the pump is over: a direction has ended.
    pub open spec fn finished(self) -> bool {
        self.forward is Stopped || self.backward is Stopped
    }

    /// The directions of a pump end together: both run, or both have
    /// stopped.
    pub open spec fn wf(self) -> bool {
        self.forward is Stopped <==> self.backward is Stopped
    }

    /// The pump once it was ended from outside: both directions have
    /// stopped.
    pub open spec fn abandon(self) -> PumpView {
        PumpView { forward: abandoned(self.forward), backward: abandoned(self.backward), ..self }
    }

    /// The pump with the relay of one direction in another state.
    pub open spec fn with_state(self, dir: Direction, state: RelayState) -> PumpView {
        match dir {
            Direction::Forward => PumpView { forward: state, ..self },
            Direction::Backward => PumpView { backward: state, ..self },
        }
    }
}

/// The other direction.
pub open spec fn opposite(dir: Direction) -> Direction {
    match dir {
        Direction::Forward => Direction::Backward,
        Direction::Backward => Direction::Forward,
    }
}

/// The state of a relay once the other direction of its pump has ended: a
/// running relay is abandoned, a stopped one keeps its reason.
pub open spec fn abandoned(state: RelayState) -> RelayState {
    match state {
        RelayState::Stopped(reason) => RelayState::Stopped(reason),
        _ => RelayState::Stopped(StopReason::Abandoned),
    }
}

/// The transition of a pump on an event of one direction. The relay of that
/// direction takes its step; if that ends it, the other direction is
/// abandoned in the same step.
pub open spec fn pump_step(pump: PumpView, dir: Direction, event: EventView) -> (
    PumpView,
    ActionView,
) {
    let (next, action) = step(pump.state(dir), pump.buffered(dir), event);
    let moved = pump.with_state(dir, next);
    if next is Stopped {
        (moved.with_state(opposite(dir), abandoned(pump.state(opposite(dir)))), action)
    } else {
        (moved, action)
    }
}

/// Two relays that end together.
#[derive(Clone, Copy, Debug, PartialEq, Eq)]
pub struct Pump {
    forward: Relay,
    backward: Relay,
}

impl View for Pump {
    type V = PumpView;

    closed spec fn view(&self) -> PumpView {
        PumpView {
            forward: self.forward.spec_state(),
            backward: self.backward.spec_state(),
            forward_buffered: self.forward.spec_buffered(),
            backward_buffered: self.backward.spec_buffered(),
        }
    }
}

impl Pump {
    /// The directions of a pump end together.
    #[verifier::type_invariant]
    spec fn together(&self) -> bool {
        self.forward.spec_is_stopped() <==> self.backward.spec_is_stopped()
    }

    /// A pump whose two directions are about to read. Each flag says whether
    /// the sink of that direction is buffered.
    pub fn new(forward_buffered: bool, backward_buffered: bool) -> (r: Pump)
        ensures
            r@ == (PumpView {
                forward: RelayState::Reading,
                backward: RelayState::Reading,
                forward_buffered,
                backward_buffered,
            }),
            r@.wf(),
    {
        Pump { forward: Relay::new(forward_buffered), backward: Relay::new(backward_buffered) }
    }

    /// Where the relay of the direction stands.
    pub fn state(&self, dir: Direction) -> (r: RelayState)
        ensures
            r == self@.state(dir),
    {
        match dir {
            Direction::Forward => self.forward.state(),
            Direction::Backward => self.backward.state(),
        }
    }

    /// Whether the pump is over.
    pub fn finished(&self) -> (r: bool)
        ensures
            r == self@.finished(),
    {
        self.forward.is_stopped() || self.backward.is_stopped()
    }

    /// The first action of a direction: a read, or `Stop` if the pump is
    /// over.
    pub fn start<'a>(&self, dir: Direction) -> (action: RelayAction<'a>)
        ensures
            match self@.state(dir) {
                RelayState::Stopped(reason) => action@ == ActionView::Stop(reason),
                _ => action matches RelayAction::Read { max } && max == crate::relay::BUFFER_SIZE,
            },
    {
        match dir {
            Direction::Forward => self.forward.start(),
            Direction::Backward => self.backward.start(),
        }
    }

    /// Whether the direction takes the event: it is in turn there, or that
    /// relay has stopped.
    pub fn expects(&self, dir: Direction, event: &RelayEvent) -> (r: bool)
        ensures
            r == (self@.state(dir) is Stopped || in_turn(self@.state(dir), event@)),
    {
        match dir {
            Direction::Forward => self.forward.expects(event),
            Direction::Backward => self.backward.expects(event),
        }
    }

    /// Ends the pump from outside, as when its session is closed: each
    /// direction that still runs is abandoned, and a direction that has
    /// stopped keeps its reason.
    pub fn abandon(&mut self)
        ensures
            final(self)@ == old(self)@.abandon(),
            final(self)@.finished(),
            final(self)@.wf(),
    {
        let mut forward = self.forward;
        let mut backward = self.backward;
        forward.abandon();
        backward.abandon();
        *self = Pump { forward, backward };
    }

    /// Takes what happened in one direction and answers with what that
    /// direction does next, as [`pump_step`] says.
    pub fn on_event<'a>(&mut self, dir: Direction, event: RelayEvent<'a>) -> (action: RelayAction<
        'a,
    >)
        requires
            old(self)@.state(dir) is Stopped || in_turn(old(self)@.state(dir), event@),
        ensures
            (final(self)@, action@) == pump_step(old(self)@, dir, event@),
            old(self)@.wf(),
            final(self)@.wf(),
            action matches RelayAction::Read { max } ==> max == crate::relay::BUFFER_SIZE,
    {
        proof {
            use_type_invariant(&*self);
        }
        let mut forward = self.forward;
        let mut backward = self.backward;
        let action = match dir {
            Direction::Forward => {
                let action = forward.on_event(event);
                if forward.is_stopped() {
                    backward.abandon();
                }
                action
            },
            Direction::Backward => {
                let action = backward.on_event(event);
                if backward.is_stopped() {
                    forward.abandon();
                }
                action
            },
        };
        *self = Pump { forward, backward };
        action
    }
}

/// An event together with the direction in which it happened.
pub ghost struct PumpEvent {
    pub dir: Direction,
    pub event: EventView,
}

/// The pump after it took `events` in order.
pub open spec fn pump_run(pump: PumpView, events: Seq<PumpEvent>) -> PumpView
    decreases events.len(),
{
    if events.len() == 0 {
        pump
    } else {
        pump_step(pump_run(pump, events.drop_last()), events.last().dir, events.last().event).0
    }
}

/// The actions that the pump asked for while it took `events` in order, one
/// for each event.
pub open spec fn pump_actions(pump: PumpView, events: Seq<PumpEvent>) -> Seq<ActionView>
    decreases events.len(),
{
    if events.len() == 0 {
        Seq::empty()
    } else {
        pump_actions(pump, events.drop_last()).push(
            pump_step(pump_run(pump, events.drop_last()), events.last().dir, events.last().event).1,
        )
    }
}

/// A pump is over in the very step in which either direction reports the end
/// of its stream or a failure: that direction stops with the reason of the
/// event and is told to stop, and the other direction has stopped too.
pub proof fn lemma_pump_ends_with_either_direction(
    pump: PumpView,
    dir: Direction,
    event: EventView,
)
    requires
        pump.wf(),
        in_turn(pump.state(dir), event),
        is_terminal(event),
    ensures
        pump_step(pump, dir, event).0.finished(),
        pump_step(pump, dir, event).0.state(dir) == RelayState::Stopped(reason_of(event)),
        pump_step(pump, dir, event).0.state(opposite(dir)) == RelayState::Stopped(
            StopReason::Abandoned,
        ),
        pump_step(pump, dir, event).1 == ActionView::Stop(reason_of(event)),
{
}

/// A step keeps the two directions of a pump together, and the pump is over
/// after it exactly if it was over before or the event was terminal.
pub proof fn lemma_pump_step_keeps_directions_together(
    pump: PumpView,
    dir: Direction,
    event: EventView,
)
    requires
        pump.wf(),
    ensures
        pump_step(pump, dir, event).0.wf(),
        pump_step(pump, dir, event).0.finished() <==> pump.finished() || is_terminal(event),
{
}

/// Once a pump is over, neither direction has any further effect: whatever
/// is reported to it afterwards, in either direction, the pump stays as it
/// is and every answer is `Stop`.
pub proof fn lemma_finished_pump_is_silent(pump: PumpView, events: Seq<PumpEvent>)
    requires
        pump.wf(),
        pump.finished(),
    ensures
        pump_run(pump, events) == pump,
        pump_actions(pump, events).len() == events.len(),
        forall|i: int|
            0 <= i < events.len() ==> (#[trigger] pump_actions(pump, events)[i]) is Stop,
    decreases events.len(),
{
    if events.len() > 0 {
        lemma_finished_pump_is_silent(pump, events.drop_last());
        let last = events.last();
        let (after, action) = pump_step(pump, last.dir, last.event);
        assert(after == pump);
    }
}

} // verus!
