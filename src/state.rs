use vstd::prelude::*;

verus! {

/// The lifecycle state of an action for one tick.
#[derive(Clone, Copy, Debug, PartialEq, Eq, Structural)]
pub enum ActionState {
    /// The action is idle.
    Idle,
    /// The action is building up towards firing (for example, a hold in progress).
    Ongoing,
    /// The action has fired.
    Fired,
}

impl ActionState {
    /// Whether the action is active, that is, not idle.
    pub fn is_active(self) -> (r: bool)
        ensures
            r == (self != ActionState::Idle),
    {
        !matches!(self, ActionState::Idle)
    }
}

} // verus!
