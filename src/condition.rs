use vstd::prelude::*;

use crate::state::ActionState;

verus! {

/// How the state that a condition returns takes part in the action's state.
#[derive(Clone, Copy, Debug, PartialEq, Eq, Structural)]
pub enum ConditionKind {
    /// The action fires when any explicit condition fires.
    Explicit,
    /// The action fires only when every implicit condition fires.
    Implicit,
    /// `Idle` from the condition blocks the action: its state, or with
    /// `events_only` its events alone.
    Blocker { events_only: bool },
}

/// A condition of an action, with the state it keeps between ticks.
///
/// Conditions that refer to another action name it by its index in the
/// context, and read the state that action has when this one is evaluated:
/// this tick's state for actions bound earlier, the last tick's for the others.
#[derive(Clone, Copy, Debug, PartialEq, Eq, Structural)]
pub enum InputCondition {
    /// Fires on every tick on which the input is actuated.
    Down,
    /// Fires on the tick on which the input becomes actuated.
    Press { actuated: bool },
    /// Ongoing while the input is actuated; fires on the tick on which it is released.
    Release { actuated: bool },
    /// Ongoing while the input is held; fires once it has been held for
    /// `hold_nanos` (on every tick after that, or only the first with `one_shot`).
    Hold { hold_nanos: u64, one_shot: bool, held_nanos: u64, fired: bool },
    /// Takes the state of another action (a chord of actions).
    Chord { action: usize },
    /// Blocks this action while another one is active (`events_only`: only
    /// its events, and only while the other one has fired).
    BlockBy { action: usize, events_only: bool },
}

/// What one condition returned on one tick.
#[derive(Clone, Copy, Debug, PartialEq, Eq, Structural)]
pub struct ConditionOutcome {
    pub kind: ConditionKind,
    pub state: ActionState,
}

/// The state of the action at `index` among `peers`; `Idle` where there is none.
pub open spec fn peer_state(peers: Seq<ActionState>, index: usize) -> ActionState {
    if index < peers.len() {
        peers[index as int]
    } else {
        ActionState::Idle
    }
}

impl InputCondition {
    pub open spec fn kind_spec(self) -> ConditionKind {
        match self {
            InputCondition::Chord { .. } => ConditionKind::Implicit,
            InputCondition::BlockBy { events_only, .. } => ConditionKind::Blocker { events_only },
            _ => ConditionKind::Explicit,
        }
    }

    /// The condition after one tick, and the state it returns on that tick.
    pub open spec fn step(self, peers: Seq<ActionState>, actuated: bool, delta_nanos: u64) -> (
        InputCondition,
        ActionState,
    ) {
        match self {
            InputCondition::Down => (
                self,
                if actuated {
                    ActionState::Fired
                } else {
                    ActionState::Idle
                },
            ),
            InputCondition::Press { actuated: was } => (
                InputCondition::Press { actuated },
                if actuated && !was {
                    ActionState::Fired
                } else {
                    ActionState::Idle
                },
            ),
            InputCondition::Release { actuated: was } => (
                InputCondition::Release { actuated },
                if actuated {
                    ActionState::Ongoing
                } else if was {
                    ActionState::Fired
                } else {
                    ActionState::Idle
                },
            ),
            InputCondition::Hold { hold_nanos, one_shot, held_nanos, fired } => {
                let held = if actuated {
                    held_nanos.saturating_add(delta_nanos)
                } else {
                    0u64
                };
                let now_fired = held >= hold_nanos;
                (
                    InputCondition::Hold { hold_nanos, one_shot, held_nanos: held, fired: now_fired },
                    if now_fired {
                        if !fired || !one_shot {
                            ActionState::Fired
                        } else {
                            ActionState::Idle
                        }
                    } else if actuated {
                        ActionState::Ongoing
                    } else {
                        ActionState::Idle
                    },
                )
            },
            InputCondition::Chord { action } => (self, peer_state(peers, action)),
            InputCondition::BlockBy { action, events_only } => {
                let other = peer_state(peers, action);
                let blocking = if events_only {
                    other == ActionState::Fired
                } else {
                    other != ActionState::Idle
                };
                (
                    self,
                    if blocking {
                        ActionState::Idle
                    } else {
                        ActionState::Fired
                    },
                )
            },
        }
    }

    /// Fires while the input is actuated.
    pub fn down() -> (r: InputCondition)
        ensures
            r == InputCondition::Down,
    {
        InputCondition::Down
    }

    /// Fires once per press.
    pub fn press() -> (r: InputCondition)
        ensures
            r == (InputCondition::Press { actuated: false }),
    {
        InputCondition::Press { actuated: false }
    }

    /// Fires once per release.
    pub fn release() -> (r: InputCondition)
        ensures
            r == (InputCondition::Release { actuated: false }),
    {
        InputCondition::Release { actuated: false }
    }

    /// Fires once the input has been held for `hold_nanos`.
    pub fn hold(hold_nanos: u64, one_shot: bool) -> (r: InputCondition)
        ensures
            r == (InputCondition::Hold { hold_nanos, one_shot, held_nanos: 0, fired: false }),
    {
        InputCondition::Hold { hold_nanos, one_shot, held_nanos: 0, fired: false }
    }

    /// Takes the state of the action at index `action`.
    pub fn chord(action: usize) -> (r: InputCondition)
        ensures
            r == (InputCondition::Chord { action }),
    {
        InputCondition::Chord { action }
    }

    /// Keeps the action idle while the action at index `action` is active.
    pub fn block_by(action: usize) -> (r: InputCondition)
        ensures
            r == (InputCondition::BlockBy { action, events_only: false }),
    {
        InputCondition::BlockBy { action, events_only: false }
    }

    /// Withholds the action's events while the action at index `action` has fired.
    pub fn block_events_by(action: usize) -> (r: InputCondition)
        ensures
            r == (InputCondition::BlockBy { action, events_only: true }),
    {
        InputCondition::BlockBy { action, events_only: true }
    }

    pub fn kind(&self) -> (r: ConditionKind)
        ensures
            r == self.kind_spec(),
    {
        match self {
            InputCondition::Chord { .. } => ConditionKind::Implicit,
            InputCondition::BlockBy { events_only, .. } => ConditionKind::Blocker {
                events_only: *events_only,
            },
            _ => ConditionKind::Explicit,
        }
    }

    /// Evaluates the condition for one tick: `peers` are the states of the
    /// context's actions, `actuated` whether the action's input is actuated.
    pub fn evaluate(&mut self, peers: &Vec<ActionState>, actuated: bool, delta_nanos: u64) -> (r:
        ActionState)
        ensures
            (*final(self), r) == old(self).step(peers@, actuated, delta_nanos),
    {
        match *self {
            InputCondition::Down => {
                if actuated {
                    ActionState::Fired
                } else {
                    ActionState::Idle
                }
            },
            InputCondition::Press { actuated: was } => {
                *self = InputCondition::Press { actuated };
                if actuated && !was {
                    ActionState::Fired
                } else {
                    ActionState::Idle
                }
            },
            InputCondition::Release { actuated: was } => {
                *self = InputCondition::Release { actuated };
                if actuated {
                    ActionState::Ongoing
                } else if was {
                    ActionState::Fired
                } else {
                    ActionState::Idle
                }
            },
            InputCondition::Hold { hold_nanos, one_shot, held_nanos, fired } => {
                let held = if actuated {
                    held_nanos.saturating_add(delta_nanos)
                } else {
                    0u64
                };
                let now_fired = held >= hold_nanos;
                *self = InputCondition::Hold { hold_nanos, one_shot, held_nanos: held, fired: now_fired };
                if now_fired {
                    if !fired || !one_shot {
                        ActionState::Fired
                    } else {
                        ActionState::Idle
                    }
                } else if actuated {
                    ActionState::Ongoing
                } else {
                    ActionState::Idle
                }
            },
            InputCondition::Chord { action } => read_peer(peers, action),
            InputCondition::BlockBy { action, events_only } => {
                let other = read_peer(peers, action);
                let blocking = if events_only {
                    matches!(other, ActionState::Fired)
                } else {
                    !matches!(other, ActionState::Idle)
                };
                if blocking {
                    ActionState::Idle
                } else {
                    ActionState::Fired
                }
            },
        }
    }
}

fn read_peer(peers: &Vec<ActionState>, index: usize) -> (r: ActionState)
    ensures
        r == peer_state(peers@, index),
{
    if index < peers.len() {
        peers[index]
    } else {
        ActionState::Idle
    }
}

/// The state an action takes on a tick, and whether its events are withheld.
#[derive(Clone, Copy, Debug, PartialEq, Eq, Structural)]
pub struct Resolution {
    pub state: ActionState,
    pub events_blocked: bool,
}

pub open spec fn is_explicit(o: ConditionOutcome) -> bool {
    o.kind == ConditionKind::Explicit
}

pub open spec fn is_implicit(o: ConditionOutcome) -> bool {
    o.kind == ConditionKind::Implicit
}

/// A full blocker that returned `Idle`.
pub open spec fn blocks_state(o: ConditionOutcome) -> bool {
    o.kind == (ConditionKind::Blocker { events_only: false }) && o.state == ActionState::Idle
}

/// An events-only blocker that returned `Idle`.
pub open spec fn blocks_events(o: ConditionOutcome) -> bool {
    o.kind == (ConditionKind::Blocker { events_only: true }) && o.state == ActionState::Idle
}

/// An explicit or implicit condition that returned something other than `Idle`.
pub open spec fn is_active_outcome(o: ConditionOutcome) -> bool {
    (is_explicit(o) || is_implicit(o)) && o.state != ActionState::Idle
}

/// The action's state from what its conditions returned: `Idle` when a full
/// blocker blocks; with neither explicit nor implicit conditions, `Fired` when
/// the input is actuated; `Fired` when some explicit condition fired (or there
/// is none) and every implicit one fired; else `Ongoing` when some explicit or
/// implicit condition is not idle; else `Idle`.
pub open spec fn resolved_state(outs: Seq<ConditionOutcome>, actuated: bool) -> ActionState {
    let found_explicit = exists|i: int| 0 <= i < outs.len() && is_explicit(#[trigger] outs[i]);
    let found_implicit = exists|i: int| 0 <= i < outs.len() && is_implicit(#[trigger] outs[i]);
    let any_explicit_fired = exists|i: int|
        0 <= i < outs.len() && is_explicit(#[trigger] outs[i]) && outs[i].state
            == ActionState::Fired;
    let all_implicits_fired = forall|i: int|
        0 <= i < outs.len() && is_implicit(#[trigger] outs[i]) ==> outs[i].state
            == ActionState::Fired;
    let found_active = exists|i: int| 0 <= i < outs.len() && is_active_outcome(#[trigger] outs[i]);
    if exists|i: int| 0 <= i < outs.len() && blocks_state(#[trigger] outs[i]) {
        ActionState::Idle
    } else if !found_explicit && !found_implicit {
        if actuated {
            ActionState::Fired
        } else {
            ActionState::Idle
        }
    } else if (!found_explicit || any_explicit_fired) && all_implicits_fired {
        ActionState::Fired
    } else if found_active {
        ActionState::Ongoing
    } else {
        ActionState::Idle
    }
}

/// Whether an events-only blocker withholds the action's events.
pub open spec fn resolved_events_blocked(outs: Seq<ConditionOutcome>) -> bool {
    exists|i: int| 0 <= i < outs.len() && blocks_events(#[trigger] outs[i])
}

/// A blocker outcome that plays no part in the action's state: one that did
/// not block, or one that only withholds events.
pub open spec fn neutral_for_state(o: ConditionOutcome) -> bool {
    match o.kind {
        ConditionKind::Blocker { events_only } => events_only || o.state != ActionState::Idle,
        _ => false,
    }
}

/// A neutral outcome can be dropped: the action's state is the same without it.
pub proof fn lemma_neutral_outcome_can_be_dropped(
    outs: Seq<ConditionOutcome>,
    k: int,
    actuated: bool,
)
    requires
        0 <= k < outs.len(),
        neutral_for_state(outs[k]),
    ensures
        resolved_state(outs, actuated) == resolved_state(outs.remove(k), actuated),
{
    let r = outs.remove(k);
    assert forall|i: int| 0 <= i < r.len() implies #[trigger] r[i] == outs[if i < k {
        i
    } else {
        i + 1
    }] by {}
    assert forall|i: int| 0 <= i < outs.len() && i != k implies #[trigger] outs[i] == r[if i < k {
        i
    } else {
        i - 1
    }] by {}
    assert((exists|i: int| 0 <= i < outs.len() && is_explicit(#[trigger] outs[i])) == (exists|i: int|
        0 <= i < r.len() && is_explicit(#[trigger] r[i])));
    assert((exists|i: int| 0 <= i < outs.len() && is_implicit(#[trigger] outs[i])) == (exists|i: int|
        0 <= i < r.len() && is_implicit(#[trigger] r[i])));
    assert((exists|i: int|
        0 <= i < outs.len() && is_explicit(#[trigger] outs[i]) && outs[i].state
            == ActionState::Fired) == (exists|i: int|
        0 <= i < r.len() && is_explicit(#[trigger] r[i]) && r[i].state == ActionState::Fired));
    assert((exists|i: int|
        0 <= i < outs.len() && is_implicit(#[trigger] outs[i]) && outs[i].state
            != ActionState::Fired) == (exists|i: int|
        0 <= i < r.len() && is_implicit(#[trigger] r[i]) && r[i].state != ActionState::Fired));
    assert((exists|i: int| 0 <= i < outs.len() && is_active_outcome(#[trigger] outs[i])) == (exists|
        i: int,
    | 0 <= i < r.len() && is_active_outcome(#[trigger] r[i])));
    assert((exists|i: int| 0 <= i < outs.len() && blocks_state(#[trigger] outs[i])) == (exists|i: int|
        0 <= i < r.len() && blocks_state(#[trigger] r[i])));
}

/// The conditions after one tick, each stepped on the same readings.
pub open spec fn stepped_conditions(
    conds: Seq<InputCondition>,
    peers: Seq<ActionState>,
    actuated: bool,
    delta_nanos: u64,
) -> Seq<InputCondition> {
    Seq::new(conds.len(), |i: int| conds[i].step(peers, actuated, delta_nanos).0)
}

/// What each condition returns on one tick.
pub open spec fn condition_outcomes(
    conds: Seq<InputCondition>,
    peers: Seq<ActionState>,
    actuated: bool,
    delta_nanos: u64,
) -> Seq<ConditionOutcome> {
    Seq::new(
        conds.len(),
        |i: int|
            ConditionOutcome {
                kind: conds[i].kind_spec(),
                state: conds[i].step(peers, actuated, delta_nanos).1,
            },
    )
}

/// Evaluates every condition, in order and with no early exit, so that each
/// one keeps its own state up to date.
pub fn evaluate_conditions(
    conditions: &mut Vec<InputCondition>,
    peers: &Vec<ActionState>,
    actuated: bool,
    delta_nanos: u64,
) -> (r: Vec<ConditionOutcome>)
    ensures
        final(conditions)@ == stepped_conditions(old(conditions)@, peers@, actuated, delta_nanos),
        r@ == condition_outcomes(old(conditions)@, peers@, actuated, delta_nanos),
{
    let ghost start = conditions@;
    let mut outs: Vec<ConditionOutcome> = Vec::new();
    let n = conditions.len();
    let mut i: usize = 0;
    while i < n
        invariant
            n == start.len(),
            conditions@.len() == n,
            i <= n,
            outs@.len() == i,
            forall|j: int| 0 <= j < i ==> #[trigger] conditions@[j] == start[j].step(peers@, actuated, delta_nanos).0,
            forall|j: int| i <= j < n ==> #[trigger] conditions@[j] == start[j],
            forall|j: int|
                0 <= j < i ==> #[trigger] outs@[j] == (ConditionOutcome {
                    kind: start[j].kind_spec(),
                    state: start[j].step(peers@, actuated, delta_nanos).1,
                }),
        decreases n - i,
    {
        let kind = conditions[i].kind();
        let state = conditions[i].evaluate(peers, actuated, delta_nanos);
        outs.push(ConditionOutcome { kind, state });
        i = i + 1;
    }
    assert(conditions@ =~= stepped_conditions(start, peers@, actuated, delta_nanos));
    assert(outs@ =~= condition_outcomes(start, peers@, actuated, delta_nanos));
    outs
}

/// Combines what the conditions returned into the action's state for the tick.
pub fn resolve(outs: &Vec<ConditionOutcome>, actuated: bool) -> (r: Resolution)
    ensures
        r.state == resolved_state(outs@, actuated),
        r.events_blocked == resolved_events_blocked(outs@),
{
    let mut blocked = false;
    let mut events_blocked = false;
    let mut found_explicit = false;
    let mut found_implicit = false;
    let mut any_explicit_fired = false;
    let mut all_implicits_fired = true;
    let mut found_active = false;
    let mut i: usize = 0;
    while i < outs.len()
        invariant
            i <= outs@.len(),
            blocked == exists|j: int| 0 <= j < i && blocks_state(#[trigger] outs@[j]),
            events_blocked == exists|j: int| 0 <= j < i && blocks_events(#[trigger] outs@[j]),
            found_explicit == exists|j: int| 0 <= j < i && is_explicit(#[trigger] outs@[j]),
            found_implicit == exists|j: int| 0 <= j < i && is_implicit(#[trigger] outs@[j]),
            any_explicit_fired == exists|j: int|
                0 <= j < i && is_explicit(#[trigger] outs@[j]) && outs@[j].state
                    == ActionState::Fired,
            all_implicits_fired == forall|j: int|
                0 <= j < i && is_implicit(#[trigger] outs@[j]) ==> outs@[j].state
                    == ActionState::Fired,
            found_active == exists|j: int| 0 <= j < i && is_active_outcome(#[trigger] outs@[j]),
        decreases outs@.len() - i,
    {
        let o = outs[i];
        match o.kind {
            ConditionKind::Explicit => {
                found_explicit = true;
                if matches!(o.state, ActionState::Fired) {
                    any_explicit_fired = true;
                }
                if !matches!(o.state, ActionState::Idle) {
                    found_active = true;
                }
            },
            ConditionKind::Implicit => {
                found_implicit = true;
                if !matches!(o.state, ActionState::Fired) {
                    all_implicits_fired = false;
                }
                if !matches!(o.state, ActionState::Idle) {
                    found_active = true;
                }
            },
            ConditionKind::Blocker { events_only } => {
                if matches!(o.state, ActionState::Idle) {
                    if events_only {
                        events_blocked = true;
                    } else {
                        blocked = true;
                    }
                }
            },
        }
        i = i + 1;
    }
    let state = if blocked {
        ActionState::Idle
    } else if !found_explicit && !found_implicit {
        if actuated {
            ActionState::Fired
        } else {
            ActionState::Idle
        }
    } else if (!found_explicit || any_explicit_fired) && all_implicits_fired {
        ActionState::Fired
    } else if found_active {
        ActionState::Ongoing
    } else {
        ActionState::Idle
    };
    Resolution { state, events_blocked }
}

} // verus!
