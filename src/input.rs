use vstd::prelude::*;

verus! {

/// The raw readings of one tick, by input source, and which sources an
/// earlier binding has consumed on this tick.
pub struct InputReader {
    pub pressed: Vec<bool>,
    pub consumed: Vec<bool>,
}

/// Whether source `s` reads as actuated: it is pressed and not consumed.
pub open spec fn available(pressed: Seq<bool>, consumed: Seq<bool>, s: usize) -> bool {
    s < pressed.len() && pressed[s as int] && !consumed[s as int]
}

/// Whether some source of `inputs` reads as actuated.
pub open spec fn any_available(pressed: Seq<bool>, consumed: Seq<bool>, inputs: Seq<usize>) -> bool {
    exists|k: int| 0 <= k < inputs.len() && available(pressed, consumed, #[trigger] inputs[k])
}

/// The consumed flags after a consuming binding on `inputs` has read them:
/// each of its sources that is pressed is consumed.
pub open spec fn consumed_by(pressed: Seq<bool>, consumed: Seq<bool>, inputs: Seq<usize>) -> Seq<
    bool,
> {
    Seq::new(
        consumed.len(),
        |s: int|
            consumed[s] || (pressed[s] && exists|k: int| 0 <= k < inputs.len() && inputs[k] as int == s),
    )
}

impl InputReader {
    pub open spec fn wf(&self) -> bool {
        self.pressed@.len() == self.consumed@.len()
    }

    /// A reader over the given readings, with nothing consumed.
    pub fn new(pressed: Vec<bool>) -> (r: InputReader)
        ensures
            r.wf(),
            r.pressed@ == pressed@,
            forall|s: int| 0 <= s < r.consumed@.len() ==> !r.consumed@[s],
    {
        let mut consumed: Vec<bool> = Vec::new();
        let n = pressed.len();
        let mut i: usize = 0;
        while i < n
            invariant
                i <= n,
                n == pressed@.len(),
                consumed@.len() == i,
                forall|s: int| 0 <= s < i ==> !consumed@[s],
            decreases n - i,
        {
            consumed.push(false);
            i = i + 1;
        }
        InputReader { pressed, consumed }
    }

    /// Sets the reading of source `s`; a source past the table is ignored.
    pub fn set_pressed(&mut self, s: usize, pressed: bool)
        requires
            old(self).wf(),
        ensures
            final(self).wf(),
            final(self).consumed@ == old(self).consumed@,
            final(self).pressed@ == if s < old(self).pressed@.len() {
                old(self).pressed@.update(s as int, pressed)
            } else {
                old(self).pressed@
            },
    {
        if s < self.pressed.len() {
            self.pressed.set(s, pressed);
        }
    }

    /// Makes every source available again, at the start of a tick.
    pub fn reset_consumed(&mut self)
        requires
            old(self).wf(),
        ensures
            final(self).wf(),
            final(self).pressed@ == old(self).pressed@,
            final(self).consumed@.len() == old(self).consumed@.len(),
            forall|s: int| 0 <= s < final(self).consumed@.len() ==> !final(self).consumed@[s],
    {
        let n = self.consumed.len();
        let mut i: usize = 0;
        while i < n
            invariant
                i <= n,
                n == self.consumed@.len(),
                self.wf(),
                self.pressed@ == old(self).pressed@,
                forall|s: int| 0 <= s < i ==> !self.consumed@[s],
            decreases n - i,
        {
            self.consumed.set(i, false);
            i = i + 1;
        }
    }

    /// Whether source `s` reads as actuated.
    pub fn is_available(&self, s: usize) -> (r: bool)
        requires
            self.wf(),
        ensures
            r == available(self.pressed@, self.consumed@, s),
    {
        s < self.pressed.len() && self.pressed[s] && !self.consumed[s]
    }

    /// Whether some source of `inputs` reads as actuated.
    pub fn any_available(&self, inputs: &Vec<usize>) -> (r: bool)
        requires
            self.wf(),
        ensures
            r == any_available(self.pressed@, self.consumed@, inputs@),
    {
        let mut i: usize = 0;
        while i < inputs.len()
            invariant
                self.wf(),
                i <= inputs@.len(),
                forall|k: int| 0 <= k < i ==> !available(self.pressed@, self.consumed@, #[trigger] inputs@[k]),
            decreases inputs@.len() - i,
        {
            if self.is_available(inputs[i]) {
                return true;
            }
            i = i + 1;
        }
        false
    }

    /// Consumes each source of `inputs` that is pressed.
    pub fn consume_pressed(&mut self, inputs: &Vec<usize>)
        requires
            old(self).wf(),
        ensures
            final(self).wf(),
            final(self).pressed@ == old(self).pressed@,
            final(self).consumed@ == consumed_by(old(self).pressed@, old(self).consumed@, inputs@),
    {
        let ghost start = self.consumed@;
        let mut i: usize = 0;
        while i < inputs.len()
            invariant
                self.wf(),
                self.pressed@ == old(self).pressed@,
                start == old(self).consumed@,
                i <= inputs@.len(),
                self.consumed@.len() == start.len(),
                forall|s: int|
                    0 <= s < start.len() ==> #[trigger] self.consumed@[s] == (start[s] || (
                    self.pressed@[s] && exists|k: int| 0 <= k < i && inputs@[k] as int == s)),
            decreases inputs@.len() - i,
        {
            let s = inputs[i];
            if s < self.pressed.len() && self.pressed[s] {
                self.consumed.set(s, true);
            }
            i = i + 1;
        }
        assert(self.consumed@ =~= consumed_by(old(self).pressed@, start, inputs@));
    }
}

} // verus!
