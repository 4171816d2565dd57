use vstd::prelude::*;

use crate::state::ActionState;

verus! {

/// Set of lifecycle events produced by one state transition of an action.
///
/// | Last state | New state | Events            |
/// | ---------- | --------- | ----------------- |
/// | Idle       | Idle      | no events         |
/// | Idle       | Ongoing   | Started + Ongoing |
/// | Idle       | Fired     | Started + Fired   |
/// | Ongoing    | Idle      | Canceled          |
/// | Ongoing    | Ongoing   | Ongoing           |
/// | Ongoing    | Fired     | Fired             |
/// | Fired      | Fired     | Fired             |
/// | Fired      | Ongoing   | Ongoing           |
/// | Fired      | Idle      | Completed         |
#[derive(Clone, Copy, Debug, PartialEq, Eq, Structural)]
pub struct ActionEvents {
    pub started: bool,
    pub ongoing: bool,
    pub fired: bool,
    pub canceled: bool,
    pub completed: bool,
}

/// Bit of the event sent when an action leaves `Idle`.
pub const STARTED: u8 = 1;

/// Bit of the event sent on every tick that ends in `Ongoing`.
pub const ONGOING: u8 = 2;

/// Bit of the event sent on every tick that ends in `Fired`.
pub const FIRED: u8 = 4;

/// Bit of the event sent when an action goes from `Ongoing` back to `Idle`.
pub const CANCELED: u8 = 8;

/// Bit of the event sent when an action goes from `Fired` back to `Idle`.
pub const COMPLETED: u8 = 16;

/// The events of the transition from `previous` to `current`.
pub open spec fn transition_events(previous: ActionState, current: ActionState) -> ActionEvents {
    ActionEvents {
        started: previous == ActionState::Idle && current != ActionState::Idle,
        ongoing: current == ActionState::Ongoing,
        fired: current == ActionState::Fired,
        canceled: previous == ActionState::Ongoing && current == ActionState::Idle,
        completed: previous == ActionState::Fired && current == ActionState::Idle,
    }
}

impl ActionEvents {
    /// The bit pattern: started, ongoing, fired, canceled and completed from
    /// the lowest bit up.
    pub open spec fn bits_spec(self) -> u8 {
        ((if self.started { 1u8 } else { 0u8 }) + (if self.ongoing { 2u8 } else { 0u8 }) + (
        if self.fired { 4u8 } else { 0u8 }) + (if self.canceled { 8u8 } else { 0u8 }) + (
        if self.completed { 16u8 } else { 0u8 })) as u8
    }

    /// The set with no events.
    pub fn empty() -> (r: ActionEvents)
        ensures
            r.bits_spec() == 0,
            !r.started && !r.ongoing && !r.fired && !r.canceled
                && !r.completed,
    {
        ActionEvents {
            started: false,
            ongoing: false,
            fired: false,
            canceled: false,
            completed: false,
        }
    }

    /// Creates the set of events for the transition from `previous` to `current`.
    pub fn new(previous: ActionState, current: ActionState) -> (r: ActionEvents)
        ensures
            r == transition_events(previous, current),
    {
        ActionEvents {
            started: matches!(previous, ActionState::Idle) && !matches!(current, ActionState::Idle),
            ongoing: matches!(current, ActionState::Ongoing),
            fired: matches!(current, ActionState::Fired),
            canceled: matches!(previous, ActionState::Ongoing) && matches!(current, ActionState::Idle),
            completed: matches!(previous, ActionState::Fired) && matches!(current, ActionState::Idle),
        }
    }

    /// The set whose events are the bits of `bits` that name one; other bits are dropped.
    pub fn from_bits_truncate(bits: u8) -> (r: ActionEvents)
        ensures
            r.started == (bits & STARTED != 0),
            r.ongoing == (bits & ONGOING != 0),
            r.fired == (bits & FIRED != 0),
            r.canceled == (bits & CANCELED != 0),
            r.completed == (bits & COMPLETED != 0),
            r.bits_spec() == bits & 31,
    {
        let r = ActionEvents {
            started: bits & STARTED != 0,
            ongoing: bits & ONGOING != 0,
            fired: bits & FIRED != 0,
            canceled: bits & CANCELED != 0,
            completed: bits & COMPLETED != 0,
        };
        proof {
            lemma_bits_of_flags(bits);
        }
        r
    }

    pub fn started(self) -> (r: bool)
        ensures
            r == self.started,
    {
        self.started
    }

    pub fn ongoing(self) -> (r: bool)
        ensures
            r == self.ongoing,
    {
        self.ongoing
    }

    pub fn fired(self) -> (r: bool)
        ensures
            r == self.fired,
    {
        self.fired
    }

    pub fn canceled(self) -> (r: bool)
        ensures
            r == self.canceled,
    {
        self.canceled
    }

    pub fn completed(self) -> (r: bool)
        ensures
            r == self.completed,
    {
        self.completed
    }

    /// The events that are in `self` or in `other`.
    pub fn union(self, other: ActionEvents) -> (r: ActionEvents)
        ensures
            r.started == (self.started || other.started),
            r.ongoing == (self.ongoing || other.ongoing),
            r.fired == (self.fired || other.fired),
            r.canceled == (self.canceled || other.canceled),
            r.completed == (self.completed || other.completed),
    {
        ActionEvents {
            started: self.started || other.started,
            ongoing: self.ongoing || other.ongoing,
            fired: self.fired || other.fired,
            canceled: self.canceled || other.canceled,
            completed: self.completed || other.completed,
        }
    }

    /// Whether every event of `other` is in `self`.
    pub fn contains(self, other: ActionEvents) -> (r: bool)
        ensures
            r == ((other.started ==> self.started) && (other.ongoing ==> self.ongoing) && (
            other.fired ==> self.fired) && (other.canceled ==> self.canceled) && (other.completed
                ==> self.completed)),
    {
        (!other.started || self.started) && (!other.ongoing || self.ongoing) && (!other.fired
            || self.fired) && (!other.canceled || self.canceled) && (!other.completed
            || self.completed)
    }

    /// Whether the set holds no event.
    pub fn is_empty(self) -> (r: bool)
        ensures
            r == (!self.started && !self.ongoing && !self.fired && !self.canceled
                && !self.completed),
    {
        !self.started && !self.ongoing && !self.fired && !self.canceled && !self.completed
    }

    /// The bit pattern of the set.
    pub fn bits(self) -> (r: u8)
        ensures
            r == self.bits_spec(),
    {
        let mut b: u8 = 0;
        if self.started {
            b = b + 1;
        }
        if self.ongoing {
            b = b + 2;
        }
        if self.fired {
            b = b + 4;
        }
        if self.canceled {
            b = b + 8;
        }
        if self.completed {
            b = b + 16;
        }
        b
    }
}

/// The transition table, row by row, as bit patterns: every pair of states
/// gives exactly the events of its row, and `Idle` to `Idle` gives none.
pub proof fn lemma_transition_table()
    ensures
        transition_events(ActionState::Idle, ActionState::Idle).bits_spec() == 0,
        transition_events(ActionState::Idle, ActionState::Ongoing).bits_spec() == STARTED | ONGOING,
        transition_events(ActionState::Idle, ActionState::Fired).bits_spec() == STARTED | FIRED,
        transition_events(ActionState::Ongoing, ActionState::Idle).bits_spec() == CANCELED,
        transition_events(ActionState::Ongoing, ActionState::Ongoing).bits_spec() == ONGOING,
        transition_events(ActionState::Ongoing, ActionState::Fired).bits_spec() == FIRED,
        transition_events(ActionState::Fired, ActionState::Idle).bits_spec() == COMPLETED,
        transition_events(ActionState::Fired, ActionState::Ongoing).bits_spec() == ONGOING,
        transition_events(ActionState::Fired, ActionState::Fired).bits_spec() == FIRED,
{
    assert(STARTED | ONGOING == 3u8) by (bit_vector);
    assert(STARTED | FIRED == 5u8) by (bit_vector);
}

/// Summing the flag bits of `bits` gives back its low five bits.
proof fn lemma_bits_of_flags(bits: u8)
    ensures
        (((if bits & 1 != 0 { 1u8 } else { 0u8 }) + (if bits & 2 != 0 { 2u8 } else { 0u8 }) + (
        if bits & 4 != 0 { 4u8 } else { 0u8 }) + (if bits & 8 != 0 { 8u8 } else { 0u8 }) + (
        if bits & 16 != 0 { 16u8 } else { 0u8 })) as u8) == bits & 31,
{
    assert((((if bits & 1 != 0 { 1u8 } else { 0u8 }) + (if bits & 2 != 0 { 2u8 } else { 0u8 })
        + (if bits & 4 != 0 { 4u8 } else { 0u8 }) + (if bits & 8 != 0 { 8u8 } else { 0u8 }) + (
    if bits & 16 != 0 { 16u8 } else { 0u8 })) as u8) == bits & 31) by (bit_vector);
}

} // verus!
