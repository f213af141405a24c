//! Numbered checkpoints at which an operator may inspect the browser.

use vstd::prelude::*;
use std::collections::HashSet;

verus! {

broadcast use vstd::std_specs::hash::group_hash_axioms;

/// What to do at a checkpoint.
#[derive(Debug, Clone, Copy, PartialEq, Eq, Structural)]
pub enum Handling {
    /// Stepping is off: go on without a word.
    Pass,
    /// The checkpoint's number is to be skipped: say so and go on.
    Skip,
    /// Show the checkpoint and wait for the operator's acknowledgment.
    Block,
}

/// One checkpoint: its number and how it is handled.
#[derive(Debug, Clone, Copy, PartialEq, Eq, Structural)]
pub struct Checkpoint {
    pub number: usize,
    pub handling: Handling,
}

/// The mathematical content of a controller.
pub struct StepModel {
    pub enabled: bool,
    pub counter: nat,
    pub skips: Set<usize>,
}

/// How checkpoint `number` is handled.
pub open spec fn handling_of(enabled: bool, skips: Set<usize>, number: usize) -> Handling {
    if !enabled {
        Handling::Pass
    } else if skips.contains(number) {
        Handling::Skip
    } else {
        Handling::Block
    }
}

impl StepModel {
    /// The controller after one more checkpoint.
    pub open spec fn advanced(self) -> StepModel {
        StepModel { counter: self.counter + 1, ..self }
    }

    /// The controller after `n` more checkpoints.
    pub open spec fn advanced_by(self, n: nat) -> StepModel
        decreases n,
    {
        if n == 0 {
            self
        } else {
            self.advanced().advanced_by((n - 1) as nat)
        }
    }

    /// The checkpoint that the next call of `pause` reports.
    pub open spec fn next_checkpoint(self) -> Checkpoint {
        Checkpoint {
            number: (self.counter + 1) as usize,
            handling: handling_of(self.enabled, self.skips, (self.counter + 1) as usize),
        }
    }
}

/// Hands out checkpoint numbers in call order, starting at 1, and decides for
/// each whether the operator is asked.
#[derive(Debug)]
pub struct StepController {
    enabled: bool,
    counter: usize,
    skip_steps: HashSet<usize>,
}

/// Whether `x` is one of the entries of `s`.
pub open spec fn listed(s: Seq<usize>, x: usize) -> bool {
    exists|j: int| 0 <= j < s.len() && s[j] == x
}

impl StepController {
    /// The controller's content.
    pub closed spec fn model(&self) -> StepModel {
        StepModel { enabled: self.enabled, counter: self.counter as nat, skips: self.skip_steps@ }
    }

    /// A controller that has handed out no number yet and skips exactly the
    /// numbers listed in `skip_steps`.
    pub fn new(enabled: bool, skip_steps: &[usize]) -> (c: Self)
        ensures
            c.model().enabled == enabled,
            c.model().counter == 0,
            forall|x: usize| c.model().skips.contains(x) <==> listed(skip_steps@, x),
    {
        let mut set: HashSet<usize> = HashSet::new();
        let mut i: usize = 0;
        while i < skip_steps.len()
            invariant
                i <= skip_steps.len(),
                forall|x: usize| set@.contains(x) <==> listed(skip_steps@.take(i as int), x),
            decreases skip_steps.len() - i,
        {
            let ghost before = set@;
            set.insert(skip_steps[i]);
            proof {
                let a = skip_steps@.take(i as int);
                let b = skip_steps@.take(i as int + 1);
                assert forall|x: usize| set@.contains(x) <==> listed(b, x) by {
                    if listed(b, x) {
                        let j = choose|j: int| 0 <= j < b.len() && b[j] == x;
                        if j < i {
                            assert(a[j] == x);
                        }
                    }
                    if before.contains(x) {
                        let j = choose|j: int| 0 <= j < a.len() && a[j] == x;
                        assert(b[j] == x);
                    }
                    if x == skip_steps@[i as int] {
                        assert(b[i as int] == x);
                    }
                }
            }
            i += 1;
        }
        assert(skip_steps@.take(i as int) =~= skip_steps@);
        StepController { enabled, counter: 0, skip_steps: set }
    }

    /// Whether the operator is asked at checkpoints at all.
    pub fn enabled(&self) -> (r: bool)
        ensures
            r == self.model().enabled,
    {
        self.enabled
    }

    /// How many checkpoints have been numbered so far.
    pub fn steps_taken(&self) -> (r: usize)
        ensures
            r == self.model().counter,
    {
        self.counter
    }

    /// Whether one more checkpoint can be numbered.
    pub fn can_pause(&self) -> (r: bool)
        ensures
            r == (self.model().counter < usize::MAX),
    {
        self.counter < usize::MAX
    }

    /// Numbers the next checkpoint as `pause` does, where the counter has room
    /// for one more number; else nothing changes and the answer is `None`.
    pub fn try_pause(&mut self) -> (r: Option<Checkpoint>)
        ensures
            match r {
                Some(checkpoint) => {
                    &&& old(self).model().counter < usize::MAX
                    &&& final(self).model() == old(self).model().advanced()
                    &&& checkpoint == old(self).model().next_checkpoint()
                },
                None => {
                    &&& old(self).model().counter == usize::MAX
                    &&& final(self).model() == old(self).model()
                },
            },
    {
        if self.can_pause() {
            let checkpoint = self.pause();
            Some(checkpoint)
        } else {
            None
        }
    }

    /// Numbers the next checkpoint and decides how it is handled. The counter
    /// goes up by one whether or not stepping is enabled.
    pub fn pause(&mut self) -> (checkpoint: Checkpoint)
        requires
            old(self).model().counter < usize::MAX,
        ensures
            final(self).model() == old(self).model().advanced(),
            checkpoint == old(self).model().next_checkpoint(),
    {
        let number = self.counter + 1;
        self.counter = number;
        let handling = if !self.enabled {
            Handling::Pass
        } else if self.skip_steps.contains(&number) {
            Handling::Skip
        } else {
            Handling::Block
        };
        Checkpoint { number, handling }
    }
}

/// After `n` checkpoints the counter has gone up by `n`; nothing else changed.
pub proof fn lemma_advanced_by(m: StepModel, n: nat)
    ensures
        m.advanced_by(n).counter == m.counter + n,
        m.advanced_by(n).enabled == m.enabled,
        m.advanced_by(n).skips == m.skips,
    decreases n,
{
    if n > 0 {
        lemma_advanced_by(m.advanced(), (n - 1) as nat);
    }
}

/// Numbering does not depend on whether stepping is enabled: two controllers
/// that have numbered equally many checkpoints give the same number to each
/// later one, the first being one more than the count so far. A disabled
/// controller lets every checkpoint pass.
pub proof fn lemma_numbering_ignores_enabled(a: StepModel, b: StepModel, n: nat)
    requires
        a.counter == b.counter,
        a.counter + n < usize::MAX,
    ensures
        a.advanced_by(n).next_checkpoint().number == b.advanced_by(n).next_checkpoint().number,
        a.advanced_by(n).next_checkpoint().number == a.counter + n + 1,
        !a.enabled ==> a.advanced_by(n).next_checkpoint().handling == Handling::Pass,
{
    lemma_advanced_by(a, n);
    lemma_advanced_by(b, n);
}

/// An enabled controller blocks at exactly the checkpoints whose number is not
/// in the skip set, and announces the others as skipped.
pub proof fn lemma_skip_set_decides(m: StepModel, n: nat)
    requires
        m.enabled,
        m.counter + n < usize::MAX,
    ensures
        ({
            let c = m.advanced_by(n).next_checkpoint();
            &&& c.number == m.counter + n + 1
            &&& (c.handling == Handling::Skip <==> m.skips.contains(c.number))
            &&& (c.handling == Handling::Block <==> !m.skips.contains(c.number))
        }),
{
    lemma_advanced_by(m, n);
}

} // verus!
