use vstd::prelude::*;

use crate::action::{dispatched, updated, Action};
use crate::condition::{
    blocks_events, blocks_state, condition_outcomes, evaluate_conditions,
    lemma_neutral_outcome_can_be_dropped, peer_state, resolve, resolved_events_blocked,
    resolved_state, stepped_conditions, InputCondition,
};
use crate::input::{any_available, consumed_by, InputReader};
use crate::state::ActionState;

verus! {

/// One action bound in a context: the input sources it reads, whether it
/// consumes them, its conditions in order, and the action itself.
pub struct ActionBinding {
    pub inputs: Vec<usize>,
    pub consume_input: bool,
    pub conditions: Vec<InputCondition>,
    pub action: Action,
}

/// What a binding holds, as plain values.
pub struct BindingView {
    pub inputs: Seq<usize>,
    pub consume_input: bool,
    pub conditions: Seq<InputCondition>,
    pub action: Action,
}

impl View for ActionBinding {
    type V = BindingView;

    open spec fn view(&self) -> BindingView {
        BindingView {
            inputs: self.inputs@,
            consume_input: self.consume_input,
            conditions: self.conditions@,
            action: self.action,
        }
    }
}

/// The binding after one tick. Its value is whether one of its sources reads
/// as actuated; its conditions see `peers`, the states of the context's
/// actions; the action takes the state they resolve to.
pub open spec fn binding_after(
    b: BindingView,
    peers: Seq<ActionState>,
    pressed: Seq<bool>,
    consumed: Seq<bool>,
    delta_nanos: u64,
) -> BindingView {
    let actuated = any_available(pressed, consumed, b.inputs);
    let outs = condition_outcomes(b.conditions, peers, actuated, delta_nanos);
    BindingView {
        inputs: b.inputs,
        consume_input: b.consume_input,
        conditions: stepped_conditions(b.conditions, peers, actuated, delta_nanos),
        action: updated(
            b.action,
            delta_nanos,
            resolved_state(outs, actuated),
            actuated,
            resolved_events_blocked(outs),
        ),
    }
}

/// The consumed flags after the binding has been evaluated: a consuming
/// binding consumes its sources that are pressed, a passthrough one nothing.
pub open spec fn consumed_after(b: BindingView, pressed: Seq<bool>, consumed: Seq<bool>) -> Seq<
    bool,
> {
    if b.consume_input {
        consumed_by(pressed, consumed, b.inputs)
    } else {
        consumed
    }
}

/// The state of each binding's action.
pub open spec fn states_of(bs: Seq<BindingView>) -> Seq<ActionState> {
    Seq::new(bs.len(), |i: int| bs[i].action.state)
}

/// The bindings and consumed flags after the first `n` bindings have been
/// evaluated in order; each sees the states and flags its predecessors left.
pub open spec fn tick_prefix(
    bs: Seq<BindingView>,
    pressed: Seq<bool>,
    consumed: Seq<bool>,
    delta_nanos: u64,
    n: nat,
) -> (Seq<BindingView>, Seq<bool>)
    decreases n,
{
    if n == 0 {
        (bs, consumed)
    } else {
        let (prev, c) = tick_prefix(bs, pressed, consumed, delta_nanos, (n - 1) as nat);
        let i = n - 1;
        if i < prev.len() {
            (
                prev.update(i, binding_after(prev[i], states_of(prev), pressed, c, delta_nanos)),
                consumed_after(prev[i], pressed, c),
            )
        } else {
            (prev, c)
        }
    }
}

/// The bindings and consumed flags after one tick of the whole context.
pub open spec fn context_tick(
    bs: Seq<BindingView>,
    pressed: Seq<bool>,
    consumed: Seq<bool>,
    delta_nanos: u64,
) -> (Seq<BindingView>, Seq<bool>) {
    tick_prefix(bs, pressed, consumed, delta_nanos, bs.len())
}

pub proof fn lemma_tick_prefix_len(
    bs: Seq<BindingView>,
    pressed: Seq<bool>,
    consumed: Seq<bool>,
    delta_nanos: u64,
    n: nat,
)
    ensures
        tick_prefix(bs, pressed, consumed, delta_nanos, n).0.len() == bs.len(),
        tick_prefix(bs, pressed, consumed, delta_nanos, n).1.len() == consumed.len(),
    decreases n,
{
    if n > 0 {
        lemma_tick_prefix_len(bs, pressed, consumed, delta_nanos, (n - 1) as nat);
    }
}

/// A tick of zero length grows no timer: each action's `elapsed_nanos` and
/// `fired_nanos` either stay as they were or restart from zero.
pub proof fn lemma_zero_delta_timers_do_not_grow(
    bs: Seq<BindingView>,
    pressed: Seq<bool>,
    consumed: Seq<bool>,
)
    ensures
        context_tick(bs, pressed, consumed, 0).0.len() == bs.len(),
        forall|j: int|
            0 <= j < bs.len() ==> {
                let a = #[trigger] context_tick(bs, pressed, consumed, 0).0[j].action;
                &&& a.elapsed_nanos == 0 || a.elapsed_nanos == bs[j].action.elapsed_nanos
                &&& a.fired_nanos == 0 || a.fired_nanos == bs[j].action.fired_nanos
            },
{
    lemma_zero_delta_prefix(bs, pressed, consumed, bs.len());
}

proof fn lemma_zero_delta_prefix(
    bs: Seq<BindingView>,
    pressed: Seq<bool>,
    consumed: Seq<bool>,
    n: nat,
)
    ensures
        tick_prefix(bs, pressed, consumed, 0, n).0.len() == bs.len(),
        forall|j: int|
            0 <= j < bs.len() ==> {
                let a = #[trigger] tick_prefix(bs, pressed, consumed, 0, n).0[j].action;
                &&& a.elapsed_nanos == 0 || a.elapsed_nanos == bs[j].action.elapsed_nanos
                &&& a.fired_nanos == 0 || a.fired_nanos == bs[j].action.fired_nanos
            },
    decreases n,
{
    lemma_tick_prefix_len(bs, pressed, consumed, 0, n);
    if n > 0 {
        lemma_zero_delta_prefix(bs, pressed, consumed, (n - 1) as nat);
    }
}

/// Two actions bound to the same source `s`, with no conditions: when the
/// first consumes input and `s` is pressed and not yet consumed, a tick fires
/// the first and leaves the second idle, and `s` ends consumed.
pub proof fn lemma_consumer_first_takes_source(
    bs: Seq<BindingView>,
    pressed: Seq<bool>,
    consumed: Seq<bool>,
    s: usize,
    delta_nanos: u64,
)
    requires
        bs.len() == 2,
        bs[0].inputs == seq![s],
        bs[1].inputs == seq![s],
        bs[0].consume_input,
        bs[0].conditions.len() == 0,
        bs[1].conditions.len() == 0,
        consumed.len() == pressed.len(),
        s < pressed.len(),
        pressed[s as int],
        !consumed[s as int],
    ensures
        context_tick(bs, pressed, consumed, delta_nanos).0[0].action.state == ActionState::Fired,
        context_tick(bs, pressed, consumed, delta_nanos).0[1].action.state == ActionState::Idle,
        context_tick(bs, pressed, consumed, delta_nanos).1[s as int],
{
    let (p1, c1) = tick_prefix(bs, pressed, consumed, delta_nanos, 1);
    assert(tick_prefix(bs, pressed, consumed, delta_nanos, 0) == (bs, consumed));
    assert(any_available(pressed, consumed, bs[0].inputs)) by {
        assert(bs[0].inputs[0] == s);
    }
    assert(c1[s as int]) by {
        assert(bs[0].inputs[0] == s);
    }
    assert(!any_available(pressed, c1, p1[1].inputs));
    assert(condition_outcomes(p1[1].conditions, states_of(p1), false, delta_nanos) =~= seq![]);
    assert(condition_outcomes(bs[0].conditions, states_of(bs), true, delta_nanos) =~= seq![]);
}

/// Two actions bound to the same source `s`, with no conditions: when the
/// first passes input through and `s` is pressed and not yet consumed, a tick
/// fires both, whether or not the second consumes input.
pub proof fn lemma_passthrough_first_shares_source(
    bs: Seq<BindingView>,
    pressed: Seq<bool>,
    consumed: Seq<bool>,
    s: usize,
    delta_nanos: u64,
)
    requires
        bs.len() == 2,
        bs[0].inputs == seq![s],
        bs[1].inputs == seq![s],
        !bs[0].consume_input,
        bs[0].conditions.len() == 0,
        bs[1].conditions.len() == 0,
        consumed.len() == pressed.len(),
        s < pressed.len(),
        pressed[s as int],
        !consumed[s as int],
    ensures
        context_tick(bs, pressed, consumed, delta_nanos).0[0].action.state == ActionState::Fired,
        context_tick(bs, pressed, consumed, delta_nanos).0[1].action.state == ActionState::Fired,
{
    let (p1, c1) = tick_prefix(bs, pressed, consumed, delta_nanos, 1);
    assert(tick_prefix(bs, pressed, consumed, delta_nanos, 0) == (bs, consumed));
    assert(any_available(pressed, consumed, bs[0].inputs)) by {
        assert(bs[0].inputs[0] == s);
    }
    assert(any_available(pressed, c1, p1[1].inputs)) by {
        assert(p1[1].inputs[0] == s);
    }
    assert(condition_outcomes(p1[1].conditions, states_of(p1), true, delta_nanos) =~= seq![]);
    assert(condition_outcomes(bs[0].conditions, states_of(bs), true, delta_nanos) =~= seq![]);
}

/// A full blocker whose action is active keeps the bound action idle.
pub proof fn lemma_full_block_keeps_action_idle(
    b: BindingView,
    peers: Seq<ActionState>,
    pressed: Seq<bool>,
    consumed: Seq<bool>,
    delta_nanos: u64,
    k: int,
    blocker: usize,
)
    requires
        0 <= k < b.conditions.len(),
        b.conditions[k] == (InputCondition::BlockBy { action: blocker, events_only: false }),
        peer_state(peers, blocker) != ActionState::Idle,
    ensures
        binding_after(b, peers, pressed, consumed, delta_nanos).action.state == ActionState::Idle,
{
    let actuated = any_available(pressed, consumed, b.inputs);
    let outs = condition_outcomes(b.conditions, peers, actuated, delta_nanos);
    assert(blocks_state(outs[k]));
}

/// A full blocker whose action is idle, and any events-only blocker, leave
/// the bound action's state as it would be without that condition.
pub proof fn lemma_idle_blocker_changes_no_state(
    b: BindingView,
    peers: Seq<ActionState>,
    pressed: Seq<bool>,
    consumed: Seq<bool>,
    delta_nanos: u64,
    k: int,
    blocker: usize,
    events_only: bool,
)
    requires
        0 <= k < b.conditions.len(),
        b.conditions[k] == (InputCondition::BlockBy { action: blocker, events_only }),
        events_only || peer_state(peers, blocker) == ActionState::Idle,
    ensures
        binding_after(b, peers, pressed, consumed, delta_nanos).action.state == binding_after(
            BindingView { conditions: b.conditions.remove(k), ..b },
            peers,
            pressed,
            consumed,
            delta_nanos,
        ).action.state,
{
    let actuated = any_available(pressed, consumed, b.inputs);
    let outs = condition_outcomes(b.conditions, peers, actuated, delta_nanos);
    assert(condition_outcomes(b.conditions.remove(k), peers, actuated, delta_nanos) =~= outs.remove(k));
    lemma_neutral_outcome_can_be_dropped(outs, k, actuated);
}

/// Whether condition `c` is an events-only blocker whose action has fired.
pub open spec fn withholds_events(c: InputCondition, peers: Seq<ActionState>) -> bool {
    match c {
        InputCondition::BlockBy { action, events_only } => events_only && peer_state(peers, action)
            == ActionState::Fired,
        _ => false,
    }
}

/// The bound action's events are withheld exactly while one of its
/// events-only blockers names an action that has fired; then none is dispatched.
pub proof fn lemma_events_withheld_while_blocker_fired(
    b: BindingView,
    peers: Seq<ActionState>,
    pressed: Seq<bool>,
    consumed: Seq<bool>,
    delta_nanos: u64,
)
    ensures
        binding_after(b, peers, pressed, consumed, delta_nanos).action.events_blocked == exists|
            k: int,
        | 0 <= k < b.conditions.len() && withholds_events(#[trigger] b.conditions[k], peers),
        binding_after(b, peers, pressed, consumed, delta_nanos).action.events_blocked ==> dispatched(
            binding_after(b, peers, pressed, consumed, delta_nanos).action,
        ) == Seq::<crate::action::ActionEvent>::empty(),
{
    let actuated = any_available(pressed, consumed, b.inputs);
    let outs = condition_outcomes(b.conditions, peers, actuated, delta_nanos);
    assert forall|k: int| 0 <= k < b.conditions.len() implies #[trigger] blocks_events(outs[k])
        == withholds_events(b.conditions[k], peers) by {}
    if exists|k: int| 0 <= k < b.conditions.len() && withholds_events(#[trigger] b.conditions[k], peers) {
        let k = choose|k: int| 0 <= k < b.conditions.len() && withholds_events(#[trigger] b.conditions[k], peers);
        assert(blocks_events(outs[k]));
    }
}

impl ActionBinding {
    /// Evaluates the binding for one tick and consumes its sources if it
    /// consumes input.
    pub fn update(&mut self, peers: &Vec<ActionState>, reader: &mut InputReader, delta_nanos: u64)
        requires
            old(reader).wf(),
        ensures
            final(reader).wf(),
            final(reader).pressed@ == old(reader).pressed@,
            final(self)@ == binding_after(
                old(self)@,
                peers@,
                old(reader).pressed@,
                old(reader).consumed@,
                delta_nanos,
            ),
            final(reader).consumed@ == consumed_after(
                old(self)@,
                old(reader).pressed@,
                old(reader).consumed@,
            ),
    {
        let actuated = reader.any_available(&self.inputs);
        let outs = evaluate_conditions(&mut self.conditions, peers, actuated, delta_nanos);
        let res = resolve(&outs, actuated);
        self.action.update(delta_nanos, res.state, actuated, res.events_blocked);
        if self.consume_input {
            reader.consume_pressed(&self.inputs);
        }
    }
}

/// The bound actions of one consumer, evaluated together in binding order.
pub struct ContextInstance {
    pub bindings: Vec<ActionBinding>,
}

impl View for ContextInstance {
    type V = Seq<BindingView>;

    open spec fn view(&self) -> Seq<BindingView> {
        self.bindings@.map_values(|b: ActionBinding| b@)
    }
}

impl ContextInstance {
    /// A context with no actions.
    pub fn new() -> (r: ContextInstance)
        ensures
            r@ == Seq::<BindingView>::empty(),
    {
        let r = ContextInstance { bindings: Vec::new() };
        assert(r@ =~= Seq::<BindingView>::empty());
        r
    }

    /// Binds a new idle action to `inputs` with `conditions`, after the
    /// actions bound so far; returns its index, by which it is looked up.
    pub fn bind(
        &mut self,
        inputs: Vec<usize>,
        consume_input: bool,
        conditions: Vec<InputCondition>,
    ) -> (id: usize)
        requires
            old(self)@.len() < usize::MAX,
        ensures
            id == old(self)@.len(),
            final(self)@ == old(self)@.push(
                BindingView {
                    inputs: inputs@,
                    consume_input,
                    conditions: conditions@,
                    action: Action::initial(),
                },
            ),
    {
        let id = self.bindings.len();
        let action = Action::new();
        self.bindings.push(ActionBinding { inputs, consume_input, conditions, action });
        assert(self@ =~= old(self)@.push(
            BindingView {
                inputs: self.bindings@[id as int].inputs@,
                consume_input,
                conditions: self.bindings@[id as int].conditions@,
                action: Action::initial(),
            },
        ));
        id
    }

    /// The action at index `id`; `None` where no action has that index.
    pub fn action(&self, id: usize) -> (r: Option<Action>)
        ensures
            id < self@.len() ==> r == Some(self@[id as int].action),
            id >= self@.len() ==> r is None,
    {
        if id < self.bindings.len() {
            Some(self.bindings[id].action)
        } else {
            None
        }
    }

    /// The state of each action, in binding order.
    pub fn states(&self) -> (r: Vec<ActionState>)
        ensures
            r@ == states_of(self@),
    {
        let mut r: Vec<ActionState> = Vec::new();
        let mut i: usize = 0;
        while i < self.bindings.len()
            invariant
                i <= self@.len(),
                r@.len() == i,
                forall|j: int| 0 <= j < i ==> #[trigger] r@[j] == self@[j].action.state,
            decreases self@.len() - i,
        {
            r.push(self.bindings[i].action.state);
            i = i + 1;
        }
        assert(r@ =~= states_of(self@));
        r
    }

    /// Evaluates every action once, in binding order, against `reader`:
    /// an action bound later sees the sources that earlier ones consumed, and
    /// the states they took on this tick.
    pub fn update(&mut self, reader: &mut InputReader, delta_nanos: u64)
        requires
            old(reader).wf(),
        ensures
            final(reader).wf(),
            final(reader).pressed@ == old(reader).pressed@,
            (final(self)@, final(reader).consumed@) == context_tick(
                old(self)@,
                old(reader).pressed@,
                old(reader).consumed@,
                delta_nanos,
            ),
    {
        let ghost start = self@;
        let ghost pressed = reader.pressed@;
        let ghost consumed = reader.consumed@;
        let mut peers = self.states();
        let n = self.bindings.len();
        let mut i: usize = 0;
        while i < n
            invariant
                n == start.len(),
                i <= n,
                reader.wf(),
                reader.pressed@ == pressed,
                (self@, reader.consumed@) == tick_prefix(start, pressed, consumed, delta_nanos, i as nat),
                peers@ == states_of(self@),
            decreases n - i,
        {
            proof {
                lemma_tick_prefix_len(start, pressed, consumed, delta_nanos, i as nat);
            }
            let ghost before = self@;
            self.bindings[i].update(&peers, reader, delta_nanos);
            let s = self.bindings[i].action.state;
            peers.set(i, s);
            assert(self@ =~= before.update(
                i as int,
                binding_after(before[i as int], states_of(before), pressed, tick_prefix(start, pressed, consumed, delta_nanos, i as nat).1, delta_nanos),
            ));
            assert(peers@ =~= states_of(self@));
            i = i + 1;
        }
        proof {
            lemma_tick_prefix_len(start, pressed, consumed, delta_nanos, i as nat);
        }
    }
}

} // verus!
