//! What a run guarantees, stated over the transitions of the scheduler and of a work item.

use crate::step::event::{is_end_sequence, is_new_sequence, StepEvent};
use crate::step::executor::state::{checks, is_terminal, StepState};
use crate::step::executor::{
    all_named, completed, dispatched, entered, finished, merged, steps_of, Dispatch, Phase,
    SequenceVisit, StepExecutor,
};
use crate::step::sequence::{saturate, step_count, StepSequence};
use crate::step::{ShouldRunResult, Step};
use vstd::prelude::*;

verus! {

/// Every result succeeded and left nothing to continue.
pub open spec fn all_done<T>(results: Seq<Result<Vec<Step<T>>, String>>) -> bool {
    forall|i: int| 0 <= i < results.len() ==> #[trigger] results[i] is Ok && results[i]->Ok_0@.len() == 0
}

/// Every result succeeded.
pub open spec fn all_ok<T>(results: Seq<Result<Vec<Step<T>>, String>>) -> bool {
    forall|i: int| 0 <= i < results.len() ==> #[trigger] results[i] is Ok
}

/// The run has not ended in failure.
pub open spec fn not_failed<T>(e: StepExecutor<T>) -> bool {
    !(e.phase is Done && e.phase->Done_0 is Err)
}

proof fn lemma_merged_all_done<T>(results: Seq<Result<Vec<Step<T>>, String>>)
    requires
        all_done(results),
    ensures
        merged(results) == Ok::<Seq<Step<T>>, String>(Seq::empty()),
    decreases results.len(),
{
    if results.len() > 0 {
        let rest = results.drop_first();
        assert forall|i: int| 0 <= i < rest.len() implies #[trigger] rest[i] is Ok
            && rest[i]->Ok_0@.len() == 0 by {
            assert(rest[i] == results[i + 1]);
        }
        lemma_merged_all_done(rest);
        assert(results[0] is Ok);
        assert(results[0]->Ok_0@ + Seq::<Step<T>>::empty() =~= Seq::<Step<T>>::empty());
    }
}

proof fn lemma_merged_all_ok<T>(results: Seq<Result<Vec<Step<T>>, String>>)
    requires
        all_ok(results),
    ensures
        merged(results) is Ok,
    decreases results.len(),
{
    if results.len() > 0 {
        let rest = results.drop_first();
        assert forall|i: int| 0 <= i < rest.len() implies #[trigger] rest[i] is Ok by {
            assert(rest[i] == results[i + 1]);
        }
        lemma_merged_all_ok(rest);
        assert(results[0] is Ok);
    }
}

proof fn lemma_merged_one_failure<T>(results: Seq<Result<Vec<Step<T>>, String>>, k: int)
    requires
        0 <= k < results.len(),
        results[k] is Err,
        forall|i: int| 0 <= i < results.len() && i != k ==> #[trigger] results[i] is Ok,
    ensures
        merged(results) == Err::<Seq<Step<T>>, String>(results[k]->Err_0),
    decreases results.len(),
{
    let rest = results.drop_first();
    if k == 0 {
    } else {
        assert forall|i: int| 0 <= i < rest.len() && i != k - 1 implies #[trigger] rest[i] is Ok by {
            assert(rest[i] == results[i + 1]);
        }
        lemma_merged_one_failure(rest, k - 1);
        assert(results[0] is Ok);
    }
}

proof fn lemma_merged_single<T>(r: Result<Vec<Step<T>>, String>)
    ensures
        same_merged(r, merged(seq![r])),
{
    let s = seq![r];
    assert(s.drop_first() =~= Seq::<Result<Vec<Step<T>>, String>>::empty());
    assert(merged(s.drop_first()) == Ok::<Seq<Step<T>>, String>(Seq::empty()));
    if r is Ok {
        assert(r->Ok_0@ + Seq::<Step<T>>::empty() =~= r->Ok_0@);
    }
}

spec fn same_merged<T>(r: Result<Vec<Step<T>>, String>, m: Result<Seq<Step<T>>, String>) -> bool {
    match r {
        Ok(v) => m == Ok::<Seq<Step<T>>, String>(v@),
        Err(e) => m == Err::<Seq<Step<T>>, String>(e),
    }
}

/// A check that reports `Skip` leaves the item skipped. That state is final: starting, checking and executing each require another
/// state, so the item is never executed.
pub proof fn lemma_skip_is_never_executed(before: StepState, after: StepState, r: Option<StepEvent>)
    requires
        checks(before, ShouldRunResult::Skip, after, r),
    ensures
        after.status is Skipped,
        is_terminal(after.status),
        !(after.status is NotStarted),
        !(after.status is Checking),
        !(after.status is ShouldRun),
{
}

/// A batch whose results all succeeded never ends the run with a failure; so a run in
/// which every check reports `Skip` executes nothing and succeeds.
pub proof fn lemma_successes_never_fail<T>(
    before: StepExecutor<T>,
    results: Seq<Result<Vec<Step<T>>, String>>,
    after: StepExecutor<T>,
)
    requires
        completed(before, results, after),
        all_ok(results),
    ensures
        after.phase is Between,
        not_failed(after),
{
    lemma_merged_all_ok(results);
}

/// A run ends in failure only once a batch has reported that failure: handing out the next
/// batch never turns a run that has not failed into a failed one.
pub proof fn lemma_failure_needs_a_failed_result<T>(
    before: StepExecutor<T>,
    after: StepExecutor<T>,
    d: Dispatch<T>,
)
    requires
        dispatched(before, after, d),
        not_failed(before),
    ensures
        not_failed(after),
        d is Done ==> d->Done_1 is Ok,
{
}

/// With a queue `[b0, b1]` whose steps leave no continuation, `b0` is
/// handed out first; the scheduler then waits for one result per step of `b0`, and only
/// after those hands out `b1`.
pub proof fn lemma_batch_order<T>(
    b0: Seq<Step<T>>,
    b1: Seq<Step<T>>,
    e0: StepExecutor<T>,
    e1: StepExecutor<T>,
    d1: Dispatch<T>,
    results: Seq<Result<Vec<Step<T>>, String>>,
    e2: StepExecutor<T>,
    e3: StepExecutor<T>,
    d3: Dispatch<T>,
)
    requires
        e0.phase is Between,
        e0.queue() == seq![b0, b1],
        dispatched(e0, e1, d1),
        results.len() == b0.len(),
        all_done(results),
        completed(e1, results, e2),
        dispatched(e2, e3, d3),
    ensures
        d1 is Batch,
        steps_of(d1->Batch_0@) == b0,
        e1.phase == Phase::InFlight(b0.len() as usize),
        e2.phase is Between,
        e2.queue() == seq![b1],
        d3 is Batch,
        steps_of(d3->Batch_0@) == b1,
{
    assert(e0.queue().drop_first() =~= seq![b1]);
    lemma_merged_all_done(results);
}

/// With a queue `[[S], b1]` where `S` is a sequence not yet entered with
/// two batches, the first batch of `S` is handed out, then the second with `S`'s
/// `EndSequence`, and only then `b1`.
pub proof fn lemma_depth_first_drain<T>(
    s: StepSequence<T>,
    b1: Seq<Step<T>>,
    e0: StepExecutor<T>,
    e1: StepExecutor<T>,
    d1: Dispatch<T>,
    v1: SequenceVisit<T>,
    r1: Seq<Result<Vec<Step<T>>, String>>,
    f1: (Option<StepEvent>, Result<Vec<Step<T>>, String>),
    e2: StepExecutor<T>,
    e3: StepExecutor<T>,
    d3: Dispatch<T>,
    v2: SequenceVisit<T>,
    r2: Seq<Result<Vec<Step<T>>, String>>,
    f2: (Option<StepEvent>, Result<Vec<Step<T>>, String>),
    e4: StepExecutor<T>,
    e5: StepExecutor<T>,
    d5: Dispatch<T>,
)
    requires
        s.wf(),
        s.cursor() == 0,
        s.remaining().len() == 2,
        e0.phase is Between,
        e0.queue() == seq![seq![Step::Sequence(s)], b1],
        dispatched(e0, e1, d1),
        entered(s, v1),
        r1.len() == v1.width,
        all_done(r1),
        finished(v1.sequence, r1, f1),
        completed(e1, seq![f1.1], e2),
        dispatched(e2, e3, d3),
        entered(v1.sequence, v2),
        r2.len() == v2.width,
        all_done(r2),
        finished(v2.sequence, r2, f2),
        completed(e3, seq![f2.1], e4),
        dispatched(e4, e5, d5),
    ensures
        d1 is Batch,
        steps_of(d1->Batch_0@) == seq![Step::Sequence(s)],
        v1.opening is Some,
        is_new_sequence(v1.opening->Some_0, saturate(step_count(s.remaining())), s.title@),
        steps_of(v1.batch@) == s.remaining()[0],
        all_named(v1.batch@, s.title@),
        f1.0 is None,
        d3 is Batch,
        steps_of(d3->Batch_0@) == seq![Step::Sequence(v1.sequence)],
        v2.opening is None,
        steps_of(v2.batch@) == s.remaining()[1],
        all_named(v2.batch@, s.title@),
        f2.0 is Some,
        is_end_sequence(f2.0->Some_0, s.title@),
        d5 is Batch,
        steps_of(d5->Batch_0@) == b1,
{
    assert(e0.queue().drop_first() =~= seq![b1]);
    lemma_merged_all_done(r1);
    assert(v1.sequence.remaining().len() == 1);
    assert(Seq::<Step<T>>::empty().push(Step::Sequence(v1.sequence)) =~= seq![Step::Sequence(v1.sequence)]);
    lemma_merged_single(f1.1);
    assert(seq![b1].insert(0, seq![Step::Sequence(v1.sequence)]) =~= seq![seq![Step::Sequence(v1.sequence)], b1]);
    assert(seq![seq![Step::Sequence(v1.sequence)], b1].drop_first() =~= seq![b1]);
    lemma_merged_all_done(r2);
    assert(v2.sequence.remaining().len() == 0);
    lemma_merged_single(f2.1);
}

/// With a queue `[b0, b1]`, when exactly one step of `b0` fails, the
/// scheduler still waits for a result from every step of `b0` (so siblings that succeed run
/// to completion and publish their events), then ends the run with that failure and never
/// hands out `b1`.
pub proof fn lemma_fatal_abort<T>(
    b0: Seq<Step<T>>,
    b1: Seq<Step<T>>,
    e0: StepExecutor<T>,
    e1: StepExecutor<T>,
    d1: Dispatch<T>,
    results: Seq<Result<Vec<Step<T>>, String>>,
    k: int,
    e2: StepExecutor<T>,
    e3: StepExecutor<T>,
    d3: Dispatch<T>,
)
    requires
        e0.phase is Between,
        e0.queue() == seq![b0, b1],
        dispatched(e0, e1, d1),
        results.len() == b0.len(),
        0 <= k < results.len(),
        results[k] is Err,
        forall|i: int| 0 <= i < results.len() && i != k ==> #[trigger] results[i] is Ok,
        completed(e1, results, e2),
        dispatched(e2, e3, d3),
    ensures
        d1 is Batch,
        steps_of(d1->Batch_0@) == b0,
        e1.phase == Phase::InFlight(b0.len() as usize),
        e2.phase == Phase::Done(Err(results[k]->Err_0)),
        d3 == Dispatch::<T>::Done(None, Err(results[k]->Err_0)),
        e3 == e2,
{
    lemma_merged_one_failure(results, k);
}

/// Over the visits of a sequence, from its first entry until it
/// has no batch left (one visit per batch, one for a sequence with no batch), it is announced
/// by a `NewSequence` at the first visit only, is handed back as a continuation after each
/// visit but the last, and ends with exactly one `EndSequence`, at the last visit, after
/// which it is not handed back.
pub proof fn lemma_sequence_events_pair<T>(
    s: StepSequence<T>,
    visits: Seq<SequenceVisit<T>>,
    results: Seq<Seq<Result<Vec<Step<T>>, String>>>,
    ends: Seq<(Option<StepEvent>, Result<Vec<Step<T>>, String>)>,
)
    requires
        s.wf(),
        s.cursor() == 0,
        visits.len() == if s.remaining().len() == 0 {
            1
        } else {
            s.remaining().len()
        },
        results.len() == visits.len(),
        ends.len() == visits.len(),
        entered(s, visits[0]),
        forall|i: int| 0 < i < visits.len() ==> entered(#[trigger] visits[i - 1].sequence, visits[i]),
        forall|i: int| 0 <= i < visits.len() ==> all_ok(#[trigger] results[i]),
        forall|i: int| 0 <= i < visits.len() ==> finished(#[trigger] visits[i].sequence, results[i], ends[i]),
    ensures
        visits[0].opening is Some,
        is_new_sequence(visits[0].opening->Some_0, saturate(step_count(s.remaining())), s.title@),
        forall|i: int| 0 < i < visits.len() ==> (#[trigger] visits[i]).opening is None,
        forall|i: int| 0 <= i < visits.len() - 1 ==> {
            &&& (#[trigger] ends[i]).0 is None
            &&& ends[i].1 is Ok
            &&& ends[i].1->Ok_0@.last() == Step::Sequence(visits[i].sequence)
        },
        ends.last().0 is Some,
        is_end_sequence(ends.last().0->Some_0, s.title@),
        ends.last().1 is Ok,
        ends.last().1->Ok_0@ == merged(results.last())->Ok_0,
{
    let n = s.remaining().len();
    let last = visits.len() - 1;
    if n == 0 {
        lemma_merged_all_ok(results[0]);
    } else {
        lemma_visits(s, visits, last);
        assert forall|i: int| 0 < i < visits.len() implies (#[trigger] visits[i]).opening is None by {
            lemma_visits(s, visits, i - 1);
        }
        assert forall|i: int| 0 <= i < visits.len() - 1 implies {
            &&& (#[trigger] ends[i]).0 is None
            &&& ends[i].1 is Ok
            &&& ends[i].1->Ok_0@.last() == Step::Sequence(visits[i].sequence)
        } by {
            lemma_visits(s, visits, i);
            lemma_merged_all_ok(results[i]);
        }
        lemma_merged_all_ok(results[last]);
    }
}

/// After visit `i` of a sequence with batches, `i + 1` batches have been taken.
proof fn lemma_visits<T>(s: StepSequence<T>, visits: Seq<SequenceVisit<T>>, i: int)
    requires
        s.wf(),
        s.remaining().len() > 0,
        0 <= i < visits.len() <= s.remaining().len(),
        entered(s, visits[0]),
        forall|j: int| 0 < j < visits.len() ==> entered(#[trigger] visits[j - 1].sequence, visits[j]),
    ensures
        visits[i].sequence.cursor() == s.cursor() + i + 1,
        visits[i].sequence.remaining() == s.remaining().subrange(i + 1, s.remaining().len() as int),
        visits[i].sequence.title == s.title,
        visits[i].sequence.wf(),
    decreases i,
{
    if i == 0 {
        assert(s.remaining().drop_first() =~= s.remaining().subrange(1, s.remaining().len() as int));
    } else {
        lemma_visits(s, visits, i - 1);
        let prev = visits[i - 1].sequence;
        assert(entered(prev, visits[i]));
        assert(prev.remaining().drop_first() =~= s.remaining().subrange(i + 1, s.remaining().len() as int));
    }
}

/// `states` is a run of the scheduler: each state follows the one before by one call of
/// `next_batch`, which handed out `dispatches[k]`, or, where `dispatches[k]` is `None`, by one
/// call of `complete_batch` with `results[k]`. Each call is made in a phase that allows it.
pub open spec fn is_run<T>(
    states: Seq<StepExecutor<T>>,
    dispatches: Seq<Option<Dispatch<T>>>,
    results: Seq<Seq<Result<Vec<Step<T>>, String>>>,
) -> bool {
    &&& states.len() == dispatches.len() + 1
    &&& results.len() == dispatches.len()
    &&& forall|k: int|
        0 <= k < dispatches.len() ==> match #[trigger] dispatches[k] {
            Some(d) => {
                &&& (states[k].phase is Between || states[k].phase is Done)
                &&& dispatched(states[k], states[k + 1], d)
            },
            None => {
                &&& states[k].phase == Phase::InFlight(results[k].len() as usize)
                &&& completed(states[k], results[k], states[k + 1])
            },
        }
}

/// A run that starts unfailed and is never given a failed result never fails: every state
/// is unfailed, and where it ends, it ends with success. So a run in which every check
/// reports `Skip` (every item then reports a success, and so does every sequence) ends with
/// success, and no item of it is executed.
pub proof fn lemma_run_without_failures_succeeds<T>(
    states: Seq<StepExecutor<T>>,
    dispatches: Seq<Option<Dispatch<T>>>,
    results: Seq<Seq<Result<Vec<Step<T>>, String>>>,
)
    requires
        is_run(states, dispatches, results),
        not_failed(states[0]),
        forall|k: int| 0 <= k < dispatches.len() && dispatches[k] is None ==> all_ok(#[trigger] results[k]),
    ensures
        forall|k: int| 0 <= k < states.len() ==> not_failed(#[trigger] states[k]),
        forall|k: int|
            0 <= k < dispatches.len() && dispatches[k] is Some && (#[trigger] dispatches[k])->Some_0 is Done
                ==> dispatches[k]->Some_0->Done_1 is Ok,
    decreases dispatches.len(),
{
    let n = dispatches.len() as int;
    if n > 0 {
        let s2 = states.drop_last();
        let d2 = dispatches.drop_last();
        let r2 = results.drop_last();
        assert forall|k: int| 0 <= k < d2.len() implies match #[trigger] d2[k] {
            Some(d) => {
                &&& (s2[k].phase is Between || s2[k].phase is Done)
                &&& dispatched(s2[k], s2[k + 1], d)
            },
            None => {
                &&& s2[k].phase == Phase::InFlight(r2[k].len() as usize)
                &&& completed(s2[k], r2[k], s2[k + 1])
            },
        } by {
            assert(dispatches[k] == d2[k]);
        }
        assert forall|k: int| 0 <= k < d2.len() && d2[k] is None implies all_ok(#[trigger] r2[k]) by {
            assert(dispatches[k] == d2[k]);
        }
        lemma_run_without_failures_succeeds(s2, d2, r2);
        let last = n - 1;
        assert(not_failed(s2[last]));
        assert(dispatches[last] == dispatches[last]);
        match dispatches[last] {
            Some(d) => {
                lemma_failure_needs_a_failed_result(states[last], states[n], d);
            },
            None => {
                assert(all_ok(results[last]));
                lemma_successes_never_fail(states[last], results[last], states[n]);
            },
        }
        assert forall|k: int| 0 <= k < states.len() implies not_failed(#[trigger] states[k]) by {
            if k < n {
                assert(states[k] == s2[k]);
            }
        }
        assert forall|k: int|
            0 <= k < dispatches.len() && dispatches[k] is Some && (#[trigger] dispatches[k])->Some_0 is Done
            implies dispatches[k]->Some_0->Done_1 is Ok by {
            if k < last {
                assert(d2[k] == dispatches[k]);
            }
        }
    }
}

/// A failure is final: once a run has failed with `m`, every later call of `next_batch`
/// reports the failure `m` and hands out nothing, and the scheduler stays as it is.
pub proof fn lemma_failure_is_final<T>(
    states: Seq<StepExecutor<T>>,
    dispatches: Seq<Option<Dispatch<T>>>,
    results: Seq<Seq<Result<Vec<Step<T>>, String>>>,
    m: String,
)
    requires
        is_run(states, dispatches, results),
        states[0].phase == Phase::Done(Err(m)),
    ensures
        forall|k: int| 0 <= k < states.len() ==> #[trigger] states[k] == states[0],
        forall|k: int|
            0 <= k < dispatches.len() ==> #[trigger] dispatches[k] == Some(
                Dispatch::<T>::Done(None, Err(m)),
            ),
    decreases dispatches.len(),
{
    let n = dispatches.len() as int;
    if n > 0 {
        let s2 = states.drop_last();
        let d2 = dispatches.drop_last();
        let r2 = results.drop_last();
        assert forall|k: int| 0 <= k < d2.len() implies match #[trigger] d2[k] {
            Some(d) => {
                &&& (s2[k].phase is Between || s2[k].phase is Done)
                &&& dispatched(s2[k], s2[k + 1], d)
            },
            None => {
                &&& s2[k].phase == Phase::InFlight(r2[k].len() as usize)
                &&& completed(s2[k], r2[k], s2[k + 1])
            },
        } by {
            assert(dispatches[k] == d2[k]);
        }
        lemma_failure_is_final(s2, d2, r2, m);
        let last = n - 1;
        assert(states[last] == s2[last]);
        assert(dispatches[last] == dispatches[last]);
        assert forall|k: int| 0 <= k < states.len() implies #[trigger] states[k] == states[0] by {
            if k < n {
                assert(states[k] == s2[k]);
            }
        }
        assert forall|k: int| 0 <= k < dispatches.len() implies #[trigger] dispatches[k] == Some(
            Dispatch::<T>::Done(None, Err(m)),
        ) by {
            if k < last {
                assert(d2[k] == dispatches[k]);
            }
        }
    }
}

} // verus!
