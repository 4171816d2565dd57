use vstd::prelude::*;

use crate::events::{transition_events, ActionEvents};
use crate::state::ActionState;

verus! {

/// Sent when an action leaves `Idle`; comes before its `Ongoing` or `Fired`.
#[derive(Clone, Copy, Debug, PartialEq, Eq, Structural)]
pub struct Started {
    pub value: bool,
    pub state: ActionState,
}

/// Sent on every tick that ends in `Ongoing`.
#[derive(Clone, Copy, Debug, PartialEq, Eq, Structural)]
pub struct Ongoing {
    pub value: bool,
    pub state: ActionState,
    /// Time the action has been active, in nanoseconds.
    pub elapsed_nanos: u64,
}

/// Sent on every tick that ends in `Fired`.
#[derive(Clone, Copy, Debug, PartialEq, Eq, Structural)]
pub struct Fired {
    pub value: bool,
    pub state: ActionState,
    /// Time the action has been in `Fired`, in nanoseconds.
    pub fired_nanos: u64,
    /// Time the action has been active, in nanoseconds.
    pub elapsed_nanos: u64,
}

/// Sent when an action goes from `Ongoing` back to `Idle`.
#[derive(Clone, Copy, Debug, PartialEq, Eq, Structural)]
pub struct Canceled {
    pub value: bool,
    pub state: ActionState,
    /// Time the action had been active, in nanoseconds.
    pub elapsed_nanos: u64,
}

/// Sent when an action goes from `Fired` back to `Idle`.
#[derive(Clone, Copy, Debug, PartialEq, Eq, Structural)]
pub struct Completed {
    pub value: bool,
    pub state: ActionState,
    /// Time the action had been in `Fired`, in nanoseconds.
    pub fired_nanos: u64,
    /// Time the action had been active, in nanoseconds.
    pub elapsed_nanos: u64,
}

/// One lifecycle event, as handed to listeners.
#[derive(Clone, Copy, Debug, PartialEq, Eq, Structural)]
pub enum ActionEvent {
    Started(Started),
    Ongoing(Ongoing),
    Fired(Fired),
    Canceled(Canceled),
    Completed(Completed),
}

/// One bound action: its state, value and timers after the last tick, and
/// the events of that tick.
#[derive(Clone, Copy, Debug, PartialEq, Eq, Structural)]
pub struct Action {
    pub state: ActionState,
    /// Whether the action's input was actuated on the last tick.
    pub value: bool,
    /// Time since the action left `Idle`, in nanoseconds (saturating).
    pub elapsed_nanos: u64,
    /// Time since the action entered `Fired`, in nanoseconds (saturating).
    pub fired_nanos: u64,
    pub events: ActionEvents,
    /// Whether an events-only blocker withholds this tick's events.
    pub events_blocked: bool,
}

/// The action after a tick of `delta_nanos` whose conditions resolved to
/// `state`: the timers advance by the time spent in the state the action is
/// leaving (and restart from zero when it was `Idle`), and the events are
/// those of the transition.
pub open spec fn updated(
    a: Action,
    delta_nanos: u64,
    state: ActionState,
    value: bool,
    events_blocked: bool,
) -> Action {
    Action {
        state,
        value,
        elapsed_nanos: match a.state {
            ActionState::Idle => 0,
            _ => a.elapsed_nanos.saturating_add(delta_nanos),
        },
        fired_nanos: match a.state {
            ActionState::Fired => a.fired_nanos.saturating_add(delta_nanos),
            _ => 0,
        },
        events: transition_events(a.state, state),
        events_blocked,
    }
}

/// The events handed to listeners for the action's last tick, in the order
/// started, ongoing, fired, canceled, completed; none while they are withheld.
pub open spec fn dispatched(a: Action) -> Seq<ActionEvent> {
    if a.events_blocked {
        seq![]
    } else {
        let e = a.events;
        (if e.started {
            seq![ActionEvent::Started(Started { value: a.value, state: a.state })]
        } else {
            seq![]
        }) + (if e.ongoing {
            seq![
                ActionEvent::Ongoing(
                    Ongoing { value: a.value, state: a.state, elapsed_nanos: a.elapsed_nanos },
                ),
            ]
        } else {
            seq![]
        }) + (if e.fired {
            seq![
                ActionEvent::Fired(
                    Fired {
                        value: a.value,
                        state: a.state,
                        fired_nanos: a.fired_nanos,
                        elapsed_nanos: a.elapsed_nanos,
                    },
                ),
            ]
        } else {
            seq![]
        }) + (if e.canceled {
            seq![
                ActionEvent::Canceled(
                    Canceled { value: a.value, state: a.state, elapsed_nanos: a.elapsed_nanos },
                ),
            ]
        } else {
            seq![]
        }) + (if e.completed {
            seq![
                ActionEvent::Completed(
                    Completed {
                        value: a.value,
                        state: a.state,
                        fired_nanos: a.fired_nanos,
                        elapsed_nanos: a.elapsed_nanos,
                    },
                ),
            ]
        } else {
            seq![]
        })
    }
}

impl Action {
    pub open spec fn initial() -> Action {
        Action {
            state: ActionState::Idle,
            value: false,
            elapsed_nanos: 0,
            fired_nanos: 0,
            events: transition_events(ActionState::Idle, ActionState::Idle),
            events_blocked: false,
        }
    }

    /// An idle action with no events.
    pub fn new() -> (r: Action)
        ensures
            r == Action::initial(),
    {
        Action {
            state: ActionState::Idle,
            value: false,
            elapsed_nanos: 0,
            fired_nanos: 0,
            events: ActionEvents::new(ActionState::Idle, ActionState::Idle),
            events_blocked: false,
        }
    }

    /// Moves the action to `state` after a tick of `delta_nanos`.
    pub fn update(&mut self, delta_nanos: u64, state: ActionState, value: bool, events_blocked: bool)
        ensures
            *final(self) == updated(*old(self), delta_nanos, state, value, events_blocked),
    {
        match self.state {
            ActionState::Idle => {
                self.elapsed_nanos = 0;
                self.fired_nanos = 0;
            },
            ActionState::Ongoing => {
                self.elapsed_nanos = self.elapsed_nanos.saturating_add(delta_nanos);
                self.fired_nanos = 0;
            },
            ActionState::Fired => {
                self.elapsed_nanos = self.elapsed_nanos.saturating_add(delta_nanos);
                self.fired_nanos = self.fired_nanos.saturating_add(delta_nanos);
            },
        }
        self.events = ActionEvents::new(self.state, state);
        self.state = state;
        self.value = value;
        self.events_blocked = events_blocked;
    }

    /// The events to hand to listeners for the last tick, in dispatch order.
    pub fn trigger_events(&self) -> (r: Vec<ActionEvent>)
        ensures
            r@ == dispatched(*self),
    {
        let mut r: Vec<ActionEvent> = Vec::new();
        if self.events_blocked {
            return r;
        }
        let e = self.events;
        if e.started {
            r.push(ActionEvent::Started(Started { value: self.value, state: self.state }));
        }
        if e.ongoing {
            r.push(
                ActionEvent::Ongoing(
                    Ongoing {
                        value: self.value,
                        state: self.state,
                        elapsed_nanos: self.elapsed_nanos,
                    },
                ),
            );
        }
        if e.fired {
            r.push(
                ActionEvent::Fired(
                    Fired {
                        value: self.value,
                        state: self.state,
                        fired_nanos: self.fired_nanos,
                        elapsed_nanos: self.elapsed_nanos,
                    },
                ),
            );
        }
        if e.canceled {
            r.push(
                ActionEvent::Canceled(
                    Canceled {
                        value: self.value,
                        state: self.state,
                        elapsed_nanos: self.elapsed_nanos,
                    },
                ),
            );
        }
        if e.completed {
            r.push(
                ActionEvent::Completed(
                    Completed {
                        value: self.value,
                        state: self.state,
                        fired_nanos: self.fired_nanos,
                        elapsed_nanos: self.elapsed_nanos,
                    },
                ),
            );
        }
        assert(r@ =~= dispatched(*self));
        r
    }

    pub fn state(&self) -> (r: ActionState)
        ensures
            r == self.state,
    {
        self.state
    }

    pub fn value(&self) -> (r: bool)
        ensures
            r == self.value,
    {
        self.value
    }

    pub fn events(&self) -> (r: ActionEvents)
        ensures
            r == self.events,
    {
        self.events
    }
}

} // verus!
