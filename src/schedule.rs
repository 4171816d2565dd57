use vstd::prelude::*;

use crate::condition::condition_outcomes;
use crate::context::{
    context_tick, lemma_tick_prefix_len, states_of, tick_prefix, BindingView, ContextInstance,
};
use crate::input::any_available;
use crate::state::ActionState;
use crate::input::InputReader;

verus! {

/// Consumed flags with nothing consumed, for `n` sources.
pub open spec fn none_consumed(n: nat) -> Seq<bool> {
    Seq::new(n, |s: int| false)
}

/// The contexts and consumed flags after the first `n` contexts have been
/// ticked in order; consumption is shared from one context to the next.
pub open spec fn contexts_prefix(
    cs: Seq<Seq<BindingView>>,
    pressed: Seq<bool>,
    consumed: Seq<bool>,
    delta_nanos: u64,
    n: nat,
) -> (Seq<Seq<BindingView>>, Seq<bool>)
    decreases n,
{
    if n == 0 {
        (cs, consumed)
    } else {
        let (prev, c) = contexts_prefix(cs, pressed, consumed, delta_nanos, (n - 1) as nat);
        let i = n - 1;
        if i < prev.len() {
            let (ctx, c2) = context_tick(prev[i], pressed, c, delta_nanos);
            (prev.update(i, ctx), c2)
        } else {
            (prev, c)
        }
    }
}

/// One tick of every context: all sources are made available again, then the
/// contexts are evaluated in order.
pub open spec fn tick_all(cs: Seq<Seq<BindingView>>, pressed: Seq<bool>, delta_nanos: u64) -> (
    Seq<Seq<BindingView>>,
    Seq<bool>,
) {
    contexts_prefix(cs, pressed, none_consumed(pressed.len()), delta_nanos, cs.len())
}

/// `n` ticks of every context on the same readings.
pub open spec fn ticks_repeated(
    cs: Seq<Seq<BindingView>>,
    pressed: Seq<bool>,
    consumed: Seq<bool>,
    delta_nanos: u64,
    n: nat,
) -> (Seq<Seq<BindingView>>, Seq<bool>)
    decreases n,
{
    if n == 0 {
        (cs, consumed)
    } else {
        let (prev, _c) = ticks_repeated(cs, pressed, consumed, delta_nanos, (n - 1) as nat);
        tick_all(prev, pressed, delta_nanos)
    }
}

pub open spec fn views_of(cs: Seq<ContextInstance>) -> Seq<Seq<BindingView>> {
    cs.map_values(|c: ContextInstance| c@)
}

proof fn lemma_contexts_prefix_len(
    cs: Seq<Seq<BindingView>>,
    pressed: Seq<bool>,
    consumed: Seq<bool>,
    delta_nanos: u64,
    n: nat,
)
    ensures
        contexts_prefix(cs, pressed, consumed, delta_nanos, n).0.len() == cs.len(),
        contexts_prefix(cs, pressed, consumed, delta_nanos, n).1.len() == consumed.len(),
    decreases n,
{
    if n > 0 {
        lemma_contexts_prefix_len(cs, pressed, consumed, delta_nanos, (n - 1) as nat);
        let (prev, c) = contexts_prefix(cs, pressed, consumed, delta_nanos, (n - 1) as nat);
        if n - 1 < prev.len() {
            lemma_tick_prefix_len(prev[n - 1], pressed, c, delta_nanos, prev[n - 1].len());
        }
    }
}

/// Runs one tick of every context against `reader`, in order: the consumed
/// flags are cleared first, then shared from each context to the next.
pub fn tick(contexts: &mut Vec<ContextInstance>, reader: &mut InputReader, delta_nanos: u64)
    requires
        old(reader).wf(),
    ensures
        final(reader).wf(),
        final(reader).pressed@ == old(reader).pressed@,
        (views_of(final(contexts)@), final(reader).consumed@) == tick_all(
            views_of(old(contexts)@),
            old(reader).pressed@,
            delta_nanos,
        ),
{
    reader.reset_consumed();
    assert(reader.consumed@ =~= none_consumed(reader.pressed@.len()));
    let ghost start = views_of(contexts@);
    let ghost pressed = reader.pressed@;
    let ghost consumed = reader.consumed@;
    let n = contexts.len();
    let mut i: usize = 0;
    while i < n
        invariant
            n == start.len(),
            i <= n,
            reader.wf(),
            reader.pressed@ == pressed,
            contexts@.len() == n,
            (views_of(contexts@), reader.consumed@) == contexts_prefix(
                start,
                pressed,
                consumed,
                delta_nanos,
                i as nat,
            ),
        decreases n - i,
    {
        proof {
            lemma_contexts_prefix_len(start, pressed, consumed, delta_nanos, i as nat);
        }
        let ghost before = views_of(contexts@);
        contexts[i].update(reader, delta_nanos);
        assert(views_of(contexts@) =~= before.update(i as int, contexts@[i as int]@));
        i = i + 1;
    }
}

/// Two contexts, each with one action bound to source `s` and no conditions:
/// when the first context's action consumes input and `s` is pressed, a tick
/// fires it and leaves the second context's action idle, whatever that one
/// does with input.
pub proof fn lemma_consuming_context_first_takes_source(
    cs: Seq<Seq<BindingView>>,
    pressed: Seq<bool>,
    s: usize,
    delta_nanos: u64,
)
    requires
        cs.len() == 2,
        cs[0].len() == 1,
        cs[1].len() == 1,
        cs[0][0].inputs == seq![s],
        cs[1][0].inputs == seq![s],
        cs[0][0].consume_input,
        cs[0][0].conditions.len() == 0,
        cs[1][0].conditions.len() == 0,
        s < pressed.len(),
        pressed[s as int],
    ensures
        tick_all(cs, pressed, delta_nanos).0[0][0].action.state == ActionState::Fired,
        tick_all(cs, pressed, delta_nanos).0[1][0].action.state == ActionState::Idle,
{
    let c0 = none_consumed(pressed.len());
    assert(contexts_prefix(cs, pressed, c0, delta_nanos, 0) == (cs, c0));
    let b0 = cs[0][0];
    assert(tick_prefix(cs[0], pressed, c0, delta_nanos, 0) == (cs[0], c0));
    assert(any_available(pressed, c0, b0.inputs)) by {
        assert(b0.inputs[0] == s);
    }
    assert(condition_outcomes(b0.conditions, states_of(cs[0]), true, delta_nanos) =~= seq![]);
    let (after0, c1) = context_tick(cs[0], pressed, c0, delta_nanos);
    assert(c1[s as int]) by {
        assert(b0.inputs[0] == s);
    }
    let (p1, _c) = contexts_prefix(cs, pressed, c0, delta_nanos, 1);
    assert(p1[1] == cs[1]);
    assert(tick_prefix(p1[1], pressed, c1, delta_nanos, 0) == (p1[1], c1));
    assert(!any_available(pressed, c1, p1[1][0].inputs));
    assert(condition_outcomes(p1[1][0].conditions, states_of(p1[1]), false, delta_nanos) =~= seq![]);
}

/// A fixed-rate clock: time is banked and spent in whole steps.
#[derive(Clone, Copy, Debug, PartialEq, Eq, Structural)]
pub struct FixedClock {
    pub timestep_nanos: u64,
    /// Banked time that does not make a whole step yet.
    pub overstep_nanos: u64,
}

impl FixedClock {
    pub open spec fn wf(&self) -> bool {
        self.timestep_nanos > 0 && self.overstep_nanos < self.timestep_nanos
    }

    /// A clock with steps of `timestep_nanos` and nothing banked.
    pub fn new(timestep_nanos: u64) -> (r: FixedClock)
        requires
            timestep_nanos > 0,
        ensures
            r.wf(),
            r.timestep_nanos == timestep_nanos,
            r.overstep_nanos == 0,
    {
        FixedClock { timestep_nanos, overstep_nanos: 0 }
    }

    /// Banks `delta_nanos` and returns how many whole steps can now be run;
    /// what is left stays banked.
    pub fn advance(&mut self, delta_nanos: u64) -> (steps: u64)
        requires
            old(self).wf(),
        ensures
            final(self).wf(),
            final(self).timestep_nanos == old(self).timestep_nanos,
            steps as int == (old(self).overstep_nanos + delta_nanos) / (
            old(self).timestep_nanos as int),
            final(self).overstep_nanos as int == (old(self).overstep_nanos + delta_nanos) % (
            old(self).timestep_nanos as int),
    {
        let t = self.timestep_nanos;
        let o = self.overstep_nanos;
        let q = delta_nanos / t;
        let r = delta_nanos % t;
        let room = t - o;
        let steps: u64;
        if r >= room {
            proof {
                assert(t >= 2);
                assert(q * t <= delta_nanos) by (nonlinear_arith)
                    requires
                        q == (delta_nanos as int) / (t as int),
                        t > 0,
                ;
                assert(q < u64::MAX) by (nonlinear_arith)
                    requires
                        q * t <= delta_nanos,
                        t >= 2,
                        delta_nanos <= u64::MAX,
                ;
            }
            steps = q + 1;
            self.overstep_nanos = r - room;
        } else {
            steps = q;
            self.overstep_nanos = o + r;
        }
        proof {
            let total = o + delta_nanos;
            assert(delta_nanos == q * t + r) by (nonlinear_arith)
                requires
                    q == (delta_nanos as int) / (t as int),
                    r == (delta_nanos as int) % (t as int),
                    t > 0,
            ;
            if r >= room {
                assert(total == (q + 1) * t + (r - room)) by (nonlinear_arith)
                    requires
                        delta_nanos == q * t + r,
                        total == o + delta_nanos,
                        room == t - o,
                ;
                vstd::arithmetic::div_mod::lemma_fundamental_div_mod_converse(
                    total as int,
                    t as int,
                    (q + 1) as int,
                    (r - room) as int,
                );
            } else {
                assert(total == q * t + (o + r)) by (nonlinear_arith)
                    requires
                        delta_nanos == q * t + r,
                        total == o + delta_nanos,
                ;
                vstd::arithmetic::div_mod::lemma_fundamental_div_mod_converse(
                    total as int,
                    t as int,
                    q as int,
                    (o + r) as int,
                );
            }
        }
        steps
    }
}

/// A frame that does not complete a step runs no tick under a fixed step:
/// every action keeps its state, value, timers and events.
pub proof fn lemma_short_frame_runs_no_tick(
    cs: Seq<Seq<BindingView>>,
    pressed: Seq<bool>,
    consumed: Seq<bool>,
    clock: FixedClock,
    frame_nanos: u64,
)
    requires
        clock.wf(),
        clock.overstep_nanos + frame_nanos < clock.timestep_nanos,
    ensures
        (clock.overstep_nanos + frame_nanos) / (clock.timestep_nanos as int) == 0,
        ticks_repeated(cs, pressed, consumed, clock.timestep_nanos, 0) == (cs, consumed),
{
    vstd::arithmetic::div_mod::lemma_basic_div(
        clock.overstep_nanos + frame_nanos,
        clock.timestep_nanos as int,
    );
}

/// How the driver turns frames into ticks.
#[derive(Clone, Copy, Debug, PartialEq, Eq, Structural)]
pub enum Schedule {
    /// One tick per frame, of the frame's length.
    Variable,
    /// As many ticks of one fixed step as the banked time holds.
    Fixed(FixedClock),
}

/// Drives the contexts from frame to frame.
pub struct InputDriver {
    pub schedule: Schedule,
    pub contexts: Vec<ContextInstance>,
}

impl InputDriver {
    pub open spec fn wf(&self) -> bool {
        match self.schedule {
            Schedule::Fixed(clock) => clock.wf(),
            Schedule::Variable => true,
        }
    }

    /// Runs the ticks of one frame of `frame_nanos` on the readings of `reader`,
    /// and returns how many ran. With a fixed step, every tick lasts one step
    /// and none runs while the banked time is short of a step: the actions
    /// then keep their state, timers and events.
    pub fn run_frame(&mut self, reader: &mut InputReader, frame_nanos: u64) -> (ticks: u64)
        requires
            old(self).wf(),
            old(reader).wf(),
        ensures
            final(self).wf(),
            final(reader).wf(),
            final(reader).pressed@ == old(reader).pressed@,
            match old(self).schedule {
                Schedule::Variable => {
                    &&& ticks == 1
                    &&& final(self).schedule == Schedule::Variable
                    &&& (views_of(final(self).contexts@), final(reader).consumed@) == tick_all(
                        views_of(old(self).contexts@),
                        old(reader).pressed@,
                        frame_nanos,
                    )
                },
                Schedule::Fixed(clock) => {
                    &&& ticks as int == (clock.overstep_nanos + frame_nanos) / (
                    clock.timestep_nanos as int)
                    &&& final(self).schedule == Schedule::Fixed(
                        FixedClock {
                            timestep_nanos: clock.timestep_nanos,
                            overstep_nanos: ((clock.overstep_nanos + frame_nanos) % (
                            clock.timestep_nanos as int)) as u64,
                        },
                    )
                    &&& (views_of(final(self).contexts@), final(reader).consumed@)
                        == ticks_repeated(
                        views_of(old(self).contexts@),
                        old(reader).pressed@,
                        old(reader).consumed@,
                        clock.timestep_nanos,
                        ticks as nat,
                    )
                },
            },
    {
        match self.schedule {
            Schedule::Variable => {
                tick(&mut self.contexts, reader, frame_nanos);
                1
            },
            Schedule::Fixed(c) => {
                let mut clock = c;
                let steps = clock.advance(frame_nanos);
                self.schedule = Schedule::Fixed(clock);
                let step = clock.timestep_nanos;
                let mut k: u64 = 0;
                while k < steps
                    invariant
                        k <= steps,
                        self.schedule == Schedule::Fixed(clock),
                        clock.wf(),
                        step == clock.timestep_nanos,
                        reader.wf(),
                        reader.pressed@ == old(reader).pressed@,
                        (views_of(self.contexts@), reader.consumed@) == ticks_repeated(
                            views_of(old(self).contexts@),
                            old(reader).pressed@,
                            old(reader).consumed@,
                            step,
                            k as nat,
                        ),
                    decreases steps - k,
                {
                    tick(&mut self.contexts, reader, step);
                    k = k + 1;
                }
                steps
            },
        }
    }
}

} // verus!
