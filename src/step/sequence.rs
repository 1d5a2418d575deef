//! A series of batches of steps that run one batch after the other.

use crate::step::{Step, StepId};
use vstd::prelude::*;

verus! {

/// The number of steps in a list of batches.
pub open spec fn step_count<T>(batches: Seq<Seq<Step<T>>>) -> nat
    decreases batches.len(),
{
    if batches.len() == 0 {
        0
    } else {
        batches[0].len() + step_count(batches.drop_first())
    }
}

/// A count as a `usize`, the largest `usize` where it does not fit.
pub open spec fn saturate(n: nat) -> usize {
    if n <= usize::MAX {
        n as usize
    } else {
        usize::MAX
    }
}

/// A series of batches that run one after the other; the steps of one batch run
/// concurrently. Each step can itself be a work item or another sequence.
pub struct StepSequence<T> {
    /// Index of the next batch to run.
    pub cur: usize,
    /// What is expected to happen within this sequence.
    pub description: String,
    pub step_id: StepId,
    /// The batches, in order; those before the cursor have been taken.
    pub steps: Vec<Vec<Step<T>>>,
    /// A unique name for the sequence.
    pub title: String,
}

impl<T> StepSequence<T> {
    /// Index of the next batch to run.
    pub open spec fn cursor(&self) -> nat {
        self.cur as nat
    }

    /// All batches, the ones already taken included.
    pub open spec fn all_batches(&self) -> Seq<Seq<Step<T>>> {
        self.steps@.map_values(|b: Vec<Step<T>>| b@)
    }

    /// The batches not yet taken, in order.
    pub open spec fn remaining(&self) -> Seq<Seq<Step<T>>> {
        self.all_batches().subrange(self.cursor() as int, self.all_batches().len() as int)
    }

    pub open spec fn wf(&self) -> bool {
        self.cur <= self.steps@.len()
    }

    /// True while batches remain.
    pub open spec fn spec_has_next(&self) -> bool {
        self.remaining().len() > 0
    }

    pub fn new(title: &str, description: &str) -> (r: StepSequence<T>)
        ensures
            r.wf(),
            r.cursor() == 0,
            r.remaining() == Seq::<Seq<Step<T>>>::empty(),
            r.title@ == title@,
            r.description@ == description@,
    {
        let r = StepSequence {
            cur: 0,
            description: description.to_owned(),
            step_id: StepId::new_random(),
            steps: Vec::new(),
            title: title.to_owned(),
        };
        assert(r.all_batches() =~= Seq::<Seq<Step<T>>>::empty());
        r
    }

    /// Returns the id of the sequence.
    pub fn get_id(&self) -> (r: StepId)
        ensures
            r == self.step_id,
    {
        self.step_id
    }

    /// Whether any batch remains to be taken.
    pub fn has_next(&self) -> (r: bool)
        requires
            self.wf(),
        ensures
            r == self.spec_has_next(),
    {
        self.cur < self.steps.len()
    }

    /// The number of steps in the batches that remain, the largest `usize` where that does
    /// not fit.
    pub fn num_steps(&self) -> (r: usize)
        requires
            self.wf(),
        ensures
            r == saturate(step_count(self.remaining())),
    {
        let mut total: usize = 0;
        let mut i: usize = self.cur;
        while i < self.steps.len()
            invariant
                self.wf(),
                self.cur <= i <= self.steps@.len(),
                total == saturate(
                    step_count(self.all_batches().subrange(self.cur as int, i as int)),
                ),
            decreases self.steps@.len() - i,
        {
            proof {
                let all = self.all_batches();
                lemma_step_count_push(all.subrange(self.cur as int, i as int), all[i as int]);
                assert(all.subrange(self.cur as int, i as int).push(all[i as int])
                    =~= all.subrange(self.cur as int, i + 1));
            }
            total = total.saturating_add(self.steps[i].len());
            i = i + 1;
        }
        assert(self.all_batches().subrange(self.cur as int, i as int) =~= self.remaining());
        total
    }

    /// Takes the next batch and moves the cursor past it.
    pub fn get_next(&mut self) -> (r: Vec<Step<T>>)
        requires
            old(self).wf(),
            old(self).spec_has_next(),
        ensures
            final(self).wf(),
            r@ == old(self).remaining()[0],
            final(self).remaining() == old(self).remaining().drop_first(),
            final(self).cursor() == old(self).cursor() + 1,
            final(self).title == old(self).title,
            final(self).description == old(self).description,
            final(self).step_id == old(self).step_id,
    {
        let ghost before = self.all_batches();
        let mut taken: Vec<Step<T>> = Vec::new();
        let cur = self.cur;
        let n = self.steps.len();
        assert(cur < n);
        std::mem::swap(&mut self.steps[cur], &mut taken);
        self.cur = cur + 1;
        proof {
            let after = self.all_batches();
            assert(after.len() == before.len());
            assert forall|i: int| cur < i < after.len() implies after[i] == before[i] by {}
            assert(self.remaining() =~= before.subrange(cur as int, before.len() as int).drop_first());
        }
        taken
    }

    /// Replaces all batches by a single batch.
    pub fn set_steps(self, steps: Vec<Step<T>>) -> (r: StepSequence<T>)
        requires
            self.wf(),
        ensures
            r.wf(),
            r.cursor() == 0,
            r.remaining() == seq![steps@],
            r.title == self.title,
            r.description == self.description,
            r.step_id == self.step_id,
    {
        let mut s = self;
        s.steps = vec![steps];
        s.cur = 0;
        assert(s.remaining() =~= seq![steps@]);
        s
    }

    /// Adds a step to run after all batches so far.
    pub fn then_run(self, step: Step<T>) -> (r: StepSequence<T>)
        requires
            self.wf(),
        ensures
            r.wf(),
            r.cursor() == self.cursor(),
            r.remaining() == self.remaining().push(seq![step]),
            r.title == self.title,
            r.description == self.description,
            r.step_id == self.step_id,
    {
        let batch = vec![step];
        assert(batch@ =~= seq![step]);
        self.then_run_parallel(batch)
    }

    /// Adds a batch of steps to run concurrently after all batches so far.
    pub fn then_run_parallel(self, steps: Vec<Step<T>>) -> (r: StepSequence<T>)
        requires
            self.wf(),
        ensures
            r.wf(),
            r.cursor() == self.cursor(),
            r.remaining() == self.remaining().push(steps@),
            r.title == self.title,
            r.description == self.description,
            r.step_id == self.step_id,
    {
        let mut s = self;
        let ghost before = s.all_batches();
        let ghost added = steps@;
        s.steps.push(steps);
        assert(s.all_batches() =~= before.push(added));
        assert(s.remaining() =~= self.remaining().push(added));
        s
    }
}

/// Counting one more batch adds its length.
pub proof fn lemma_step_count_push<T>(batches: Seq<Seq<Step<T>>>, b: Seq<Step<T>>)
    ensures
        step_count(batches.push(b)) == step_count(batches) + b.len(),
    decreases batches.len(),
{
    if batches.len() == 0 {
        assert(batches.push(b).drop_first() =~= Seq::<Seq<Step<T>>>::empty());
        assert(step_count(Seq::<Seq<Step<T>>>::empty()) == 0);
    } else {
        lemma_step_count_push(batches.drop_first(), b);
        assert(batches.push(b).drop_first() =~= batches.drop_first().push(b));
    }
}

} // verus!
