//! The scheduler. It holds a queue of batches and decides, batch by batch, what runs next,
//! which sequence events are published, and when the run ends. The caller performs the work
//! of each batch concurrently and reports one result per step of the batch.
//!
//! A step's result is either the list of continuations it leaves behind (sequences with
//! batches still to run) or the message of a fatal failure.

pub mod guarantees;
pub mod properties;
pub mod state;

pub use properties::ExecutorProperties;
pub use state::{StepState, StepStatus};


use crate::step::event::{
    is_end_sequence, is_new_sequence, EventData, NewSequenceEvent, StepEvent,
};
use crate::step::sequence::{saturate, step_count, StepSequence};
use crate::step::{Step, StepItem};
use vstd::prelude::*;

verus! {

/// The name of the sequence that the top-level steps of a run belong to.
pub open spec fn main_name() -> Seq<char> {
    "main"@
}

/// One unit's result combined with the combined results of the units after it.
pub open spec fn combine<T>(
    first: Result<Vec<Step<T>>, String>,
    rest: Result<Seq<Step<T>>, String>,
) -> Result<Seq<Step<T>>, String> {
    match first {
        Err(m) => Err(m),
        Ok(c) => match rest {
            Err(m) => Err(m),
            Ok(r) => Ok(c@ + r),
        },
    }
}

/// The results of the units of one batch, combined: the first failure in order, or else all
/// continuations in order.
pub open spec fn merged<T>(results: Seq<Result<Vec<Step<T>>, String>>) -> Result<
    Seq<Step<T>>,
    String,
>
    decreases results.len(),
{
    if results.len() == 0 {
        Ok(Seq::empty())
    } else {
        combine(results[0], merged(results.drop_first()))
    }
}

/// An executable result matches a combined one.
pub open spec fn same_result<T>(r: Result<Vec<Step<T>>, String>, m: Result<Seq<Step<T>>, String>) -> bool {
    match (r, m) {
        (Ok(v), Ok(s)) => v@ == s,
        (Err(a), Err(b)) => a == b,
        _ => false,
    }
}

/// Combines the results of the units of one batch.
pub fn merge_results<T>(results: Vec<Result<Vec<Step<T>>, String>>) -> (r: Result<
    Vec<Step<T>>,
    String,
>)
    ensures
        same_result(r, merged(results@)),
{
    let ghost all = results@;
    let mut rest = results;
    let mut acc: Result<Vec<Step<T>>, String> = Ok(Vec::new());
    assert(all.subrange(all.len() as int, all.len() as int) =~= Seq::<
        Result<Vec<Step<T>>, String>,
    >::empty());
    while rest.len() > 0
        invariant
            rest@ == all.subrange(0, rest@.len() as int),
            rest@.len() <= all.len(),
            same_result(acc, merged(all.subrange(rest@.len() as int, all.len() as int))),
        decreases rest@.len(),
    {
        let ghost k = rest@.len() as int;
        let last = rest.pop().unwrap();
        assert(all.subrange(k - 1, all.len() as int).drop_first() =~= all.subrange(
            k,
            all.len() as int,
        ));
        acc = match last {
            Err(m) => Err(m),
            Ok(mut c) => match acc {
                Err(m) => Err(m),
                Ok(mut tail) => {
                    c.append(&mut tail);
                    Ok(c)
                },
            },
        };
        assert(rest@ =~= all.subrange(0, rest@.len() as int));
    }
    assert(all.subrange(0, all.len() as int) =~= all);
    acc
}

/// A step handed out for evaluation, with the name of the sequence it belongs to: `main`
/// for the top-level steps, the sequence's title for the steps of a sequence's batch. The
/// events of a work item carry that name.
pub struct Unit<T> {
    pub step: Step<T>,
    pub sequence_name: String,
}

/// The steps of a list of units.
pub open spec fn steps_of<T>(units: Seq<Unit<T>>) -> Seq<Step<T>> {
    units.map_values(|u: Unit<T>| u.step)
}

/// Every unit belongs to the sequence `name`.
pub open spec fn all_named<T>(units: Seq<Unit<T>>, name: Seq<char>) -> bool {
    forall|i: int| 0 <= i < units.len() ==> (#[trigger] units[i]).sequence_name@ == name
}

/// Pairs each step of a batch with the name of its sequence.
pub fn into_units<T>(batch: Vec<Step<T>>, name: &str) -> (r: Vec<Unit<T>>)
    ensures
        steps_of(r@) == batch@,
        all_named(r@, name@),
{
    let ghost all = batch@;
    let mut rest = batch;
    let mut units: Vec<Unit<T>> = Vec::new();
    while rest.len() > 0
        invariant
            units@.len() + rest@.len() == all.len(),
            rest@ == all.subrange(units@.len() as int, all.len() as int),
            steps_of(units@) == all.subrange(0, units@.len() as int),
            all_named(units@, name@),
        decreases rest@.len(),
    {
        let ghost k = units@.len() as int;
        let step = rest.remove(0);
        units.push(Unit { step, sequence_name: name.to_owned() });
        assert(steps_of(units@) =~= all.subrange(0, k + 1));
        assert(rest@ =~= all.subrange(k + 1, all.len() as int));
    }
    assert(all.subrange(0, all.len() as int) =~= all);
    units
}

/// What a unit opens into: a work item with its lifecycle state, or a sequence to enter.
pub enum Opened<T> {
    Item(T, StepState),
    Sequence(StepSequence<T>),
}

/// Opens a unit. A work item gets a fresh lifecycle state with the item's details and the
/// unit's sequence name, which every event of the item then carries.
pub fn open_unit<T: StepItem>(unit: Unit<T>) -> (r: Opened<T>)
    ensures
        unit.step is Step ==> {
            &&& r is Item
            &&& r->Item_0 == unit.step->Step_0
            &&& r->Item_1.sequence_name@ == unit.sequence_name@
            &&& r->Item_1.details.title@ == unit.step->Step_0.title_view()
            &&& r->Item_1.details.description@ == unit.step->Step_0.description_view()
            &&& r->Item_1.status is NotStarted
        },
        unit.step is Sequence ==> r is Sequence && r->Sequence_0 == unit.step->Sequence_0,
{
    match unit.step {
        Step::Step(item) => {
            let details = item.get_step_details();
            let state = StepState::new(details, unit.sequence_name.as_str());
            Opened::Item(item, state)
        },
        Step::Sequence(s) => Opened::Sequence(s),
    }
}

/// What entering a sequence for one of its batches yields.
pub struct SequenceVisit<T> {
    /// The `NewSequence` event, on the first entry only.
    pub opening: Option<StepEvent>,
    /// The steps to evaluate now, concurrently, each named after the sequence.
    pub batch: Vec<Unit<T>>,
    /// The number of those steps: finishing the visit takes one result for each.
    pub width: usize,
    /// The sequence, its cursor past that batch.
    pub sequence: StepSequence<T>,
}

/// `v` is what entering `s` yields.
pub open spec fn entered<T>(s: StepSequence<T>, v: SequenceVisit<T>) -> bool {
    &&& v.sequence.wf()
    &&& v.sequence.title == s.title
    &&& v.sequence.description == s.description
    &&& v.sequence.step_id == s.step_id
    &&& v.width == v.batch@.len()
    &&& all_named(v.batch@, s.title@)
    &&& s.cursor() == 0 ==> v.opening is Some && is_new_sequence(
        v.opening->Some_0,
        saturate(step_count(s.remaining())),
        s.title@,
    )
    &&& s.cursor() != 0 ==> v.opening is None
    &&& s.spec_has_next() ==> {
        &&& steps_of(v.batch@) == s.remaining()[0]
        &&& v.sequence.remaining() == s.remaining().drop_first()
        &&& v.sequence.cursor() == s.cursor() + 1
    }
    &&& !s.spec_has_next() ==> v.batch@.len() == 0 && v.sequence == s
}

/// Enters a sequence: announces it the first time, and takes its next batch.
pub fn enter_sequence<T>(sequence: StepSequence<T>) -> (r: SequenceVisit<T>)
    requires
        sequence.wf(),
    ensures
        entered(sequence, r),
{
    let mut sequence = sequence;
    let opening = if sequence.cur == 0 {
        let length = sequence.num_steps();
        Some(StepEvent::NewSequence(NewSequenceEvent::new(length, sequence.title.as_str())))
    } else {
        None
    };
    if sequence.has_next() {
        let steps = sequence.get_next();
        let batch = into_units(steps, sequence.title.as_str());
        let width = batch.len();
        SequenceVisit { opening, batch, width, sequence }
    } else {
        let batch: Vec<Unit<T>> = Vec::new();
        assert(all_named(batch@, sequence.title@));
        SequenceVisit { opening, batch, width: 0, sequence }
    }
}

/// `r` is what finishing the visit of `s` yields, given the results of its batch's steps.
pub open spec fn finished<T>(
    s: StepSequence<T>,
    results: Seq<Result<Vec<Step<T>>, String>>,
    r: (Option<StepEvent>, Result<Vec<Step<T>>, String>),
) -> bool {
    match merged(results) {
        Err(m) => r.0 is None && r.1 == Err::<Vec<Step<T>>, String>(m),
        Ok(c) => {
            &&& r.1 is Ok
            &&& if s.spec_has_next() {
                r.0 is None && r.1->Ok_0@ == c.push(Step::Sequence(s))
            } else {
                r.0 is Some && is_end_sequence(r.0->Some_0, s.title@) && r.1->Ok_0@ == c
            }
        },
    }
}

/// Finishes the visit of a sequence once every step of its batch has a result: `width`
/// is the visit's number of steps, and no step is left out. A failure is passed on. Otherwise the sequence is a continuation while batches remain, and it ends
/// with an `EndSequence` event when none does.
pub fn finish_sequence<T>(
    sequence: StepSequence<T>,
    width: usize,
    results: Vec<Result<Vec<Step<T>>, String>>,
) -> (r: (Option<StepEvent>, Result<Vec<Step<T>>, String>))
    requires
        sequence.wf(),
        results@.len() == width,
    ensures
        finished(sequence, results@, r),
{
    match merge_results(results) {
        Err(m) => (None, Err(m)),
        Ok(mut c) => {
            if sequence.has_next() {
                c.push(Step::Sequence(sequence));
                (None, Ok(c))
            } else {
                let end = StepEvent::EndSequence(
                    EventData::new(sequence.title.as_str(), sequence.title.as_str()),
                );
                (Some(end), Ok(c))
            }
        },
    }
}

/// Where a run stands.
pub enum Phase {
    /// Built, not started.
    Pending,
    /// Between two batches.
    Between,
    /// A batch of this many steps has been handed out and awaits its results.
    InFlight(usize),
    /// The run is over, with this result.
    Done(Result<(), String>),
}

/// What the scheduler asks of the caller next.
pub enum Dispatch<T> {
    /// Evaluate these steps concurrently and report one result for each.
    Batch(Vec<Unit<T>>),
    /// The run is over: publish the event, if any, and return the result.
    Done(Option<StepEvent>, Result<(), String>),
}

/// Processor for taking a set of steps and executing them in the order that the executor
/// properties describe.
pub struct StepExecutor<T> {
    /// The queue of batches; the head is the next to run.
    pub steps: Vec<Vec<Step<T>>>,
    pub phase: Phase,
}

impl<T> StepExecutor<T> {
    /// The queue of batches, head first.
    pub open spec fn queue(&self) -> Seq<Seq<Step<T>>> {
        self.steps@.map_values(|b: Vec<Step<T>>| b@)
    }

    pub fn new() -> (r: StepExecutor<T>)
        ensures
            r.phase is Pending,
            r.queue() == Seq::<Seq<Step<T>>>::empty(),
    {
        let r = StepExecutor { steps: Vec::new(), phase: Phase::Pending };
        assert(r.queue() =~= Seq::<Seq<Step<T>>>::empty());
        r
    }

    /// Takes the batches of the run plan.
    pub fn build_steps(self, properties: ExecutorProperties<T>) -> (r: StepExecutor<T>)
        ensures
            r.phase == self.phase,
            r.queue() == properties.batches(),
    {
        StepExecutor { steps: properties.get_steps(), phase: self.phase }
    }

    /// Starts the run and announces its top-level sequence.
    pub fn start(&mut self) -> (r: StepEvent)
        requires
            old(self).phase is Pending,
        ensures
            is_new_sequence(r, saturate(step_count(old(self).queue())), main_name()),
            final(self).phase is Between,
            final(self).queue() == old(self).queue(),
    {
        let length = count_steps(&self.steps);
        self.phase = Phase::Between;
        StepEvent::NewSequence(NewSequenceEvent::new(length, "main"))
    }

    /// Hands out the next batch, or ends the run: with success once the queue is empty,
    /// with the failure that stopped it otherwise.
    pub fn next_batch(&mut self) -> (r: Dispatch<T>)
        requires
            old(self).phase is Between || old(self).phase is Done,
        ensures
            dispatched(*old(self), *final(self), r),
    {
        match &self.phase {
            Phase::Done(Ok(u)) => {
                let r: Result<(), String> = Ok(*u);
                assert(r == old(self).phase->Done_0);
                Dispatch::Done(None, r)
            },
            Phase::Done(Err(m)) => Dispatch::Done(None, Err(m.clone())),
            _ => {
                if self.steps.len() == 0 {
                    assert(self.queue().len() == 0);
                    self.phase = Phase::Done(Ok(()));
                    let end = StepEvent::EndSequence(EventData::new("main", "main"));
                    Dispatch::Done(Some(end), Ok(()))
                } else {
                    let ghost q = old(self).queue();
                    let batch = self.steps.remove(0);
                    assert(batch@ == q[0]);
                    self.phase = Phase::InFlight(batch.len());
                    proof {
                        assert(final(self).queue() =~= old(self).queue().drop_first());
                    }
                    Dispatch::Batch(into_units(batch, "main"))
                }
            },
        }
    }

    /// Takes the results of the batch handed out, one for each of its steps. A failure ends
    /// the run; otherwise the continuations, if any, form a new batch at the head of the
    /// queue, so that sequences begun drain before the batches queued after them.
    pub fn complete_batch(&mut self, results: Vec<Result<Vec<Step<T>>, String>>)
        requires
            old(self).phase == Phase::InFlight(results@.len() as usize),
        ensures
            completed(*old(self), results@, *final(self)),
    {
        match merge_results(results) {
            Err(m) => {
                self.phase = Phase::Done(Err(m));
            },
            Ok(c) => {
                if c.len() > 0 {
                    let ghost cv = c@;
                    self.steps.insert(0, c);
                    assert(self.queue() =~= old(self).queue().insert(0, cv));
                }
                self.phase = Phase::Between;
            },
        }
    }
}

/// `r` is what `next_batch` hands out from `before`, leaving `after`.
pub open spec fn dispatched<T>(before: StepExecutor<T>, after: StepExecutor<T>, r: Dispatch<T>) -> bool {
    match before.phase {
        Phase::Done(res) => after == before && r == Dispatch::<T>::Done(None, res),
        _ => if before.queue().len() == 0 {
            &&& after.phase == Phase::Done(Ok(()))
            &&& after.queue() == before.queue()
            &&& r is Done
            &&& r->Done_1 == Ok::<(), String>(())
            &&& r->Done_0 is Some
            &&& is_end_sequence(r->Done_0->Some_0, main_name())
        } else {
            &&& r is Batch
            &&& steps_of(r->Batch_0@) == before.queue()[0]
            &&& all_named(r->Batch_0@, main_name())
            &&& after.phase == Phase::InFlight(before.queue()[0].len() as usize)
            &&& after.queue() == before.queue().drop_first()
        },
    }
}

/// `after` is the executor once `before` has taken `results`.
pub open spec fn completed<T>(
    before: StepExecutor<T>,
    results: Seq<Result<Vec<Step<T>>, String>>,
    after: StepExecutor<T>,
) -> bool {
    match merged(results) {
        Err(m) => after.phase == Phase::Done(Err(m)) && after.queue() == before.queue(),
        Ok(c) => {
            &&& after.phase is Between
            &&& after.queue() == if c.len() > 0 {
                before.queue().insert(0, c)
            } else {
                before.queue()
            }
        },
    }
}

/// The number of steps in a list of batches, the largest `usize` where that does not fit.
pub fn count_steps<T>(batches: &Vec<Vec<Step<T>>>) -> (r: usize)
    ensures
        r == saturate(step_count(batches@.map_values(|b: Vec<Step<T>>| b@))),
{
    let ghost all = batches@.map_values(|b: Vec<Step<T>>| b@);
    let mut total: usize = 0;
    let mut i: usize = 0;
    while i < batches.len()
        invariant
            i <= batches@.len(),
            all == batches@.map_values(|b: Vec<Step<T>>| b@),
            total == saturate(step_count(all.subrange(0, i as int))),
        decreases batches@.len() - i,
    {
        proof {
            crate::step::sequence::lemma_step_count_push(all.subrange(0, i as int), all[i as int]);
            assert(all.subrange(0, i as int).push(all[i as int]) =~= all.subrange(0, i + 1));
        }
        total = total.saturating_add(batches[i].len());
        i = i + 1;
    }
    assert(all.subrange(0, i as int) =~= all);
    total
}

} // verus!
