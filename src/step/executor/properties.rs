//! The run plan: an ordered list of batches, built before the run starts.

use crate::step::Step;
use vstd::prelude::*;

verus! {

/// Describes which steps are executed and in which order, and which run concurrently.
pub struct ExecutorProperties<T> {
    steps: Vec<Vec<Step<T>>>,
}

impl<T> ExecutorProperties<T> {
    /// The batches of the plan, in order.
    pub closed spec fn batches(&self) -> Seq<Seq<Step<T>>> {
        self.steps@.map_values(|b: Vec<Step<T>>| b@)
    }

    pub fn new() -> (r: ExecutorProperties<T>)
        ensures
            r.batches() == Seq::<Seq<Step<T>>>::empty(),
    {
        let r = ExecutorProperties { steps: Vec::new() };
        assert(r.batches() =~= Seq::<Seq<Step<T>>>::empty());
        r
    }

    /// Adds a step to run after the batches so far have completed.
    pub fn run(self, step: Step<T>) -> (r: ExecutorProperties<T>)
        ensures
            r.batches() == self.batches().push(seq![step]),
    {
        let batch = vec![step];
        assert(batch@ =~= seq![step]);
        self.run_parallel(batch)
    }

    /// Adds several steps to run concurrently after the batches so far have completed.
    pub fn run_parallel(self, steps: Vec<Step<T>>) -> (r: ExecutorProperties<T>)
        ensures
            r.batches() == self.batches().push(steps@),
    {
        self.then_run_parallel(steps)
    }

    /// Adds a step to run after the batches so far have completed.
    pub fn then_run(self, step: Step<T>) -> (r: ExecutorProperties<T>)
        ensures
            r.batches() == self.batches().push(seq![step]),
    {
        let batch = vec![step];
        assert(batch@ =~= seq![step]);
        self.then_run_parallel(batch)
    }

    /// Adds several steps to run concurrently after the batches so far have completed.
    pub fn then_run_parallel(self, steps: Vec<Step<T>>) -> (r: ExecutorProperties<T>)
        ensures
            r.batches() == self.batches().push(steps@),
    {
        let mut r = self;
        let ghost added = steps@;
        r.steps.push(steps);
        assert(r.batches() =~= self.batches().push(added));
        r
    }

    /// Consumes the properties and returns the batches.
    pub fn get_steps(self) -> (r: Vec<Vec<Step<T>>>)
        ensures
            r@.map_values(|b: Vec<Step<T>>| b@) == self.batches(),
    {
        self.steps
    }
}

} // verus!
