use oecli::step::event::StepEvent;
use oecli::step::executor::{
    enter_sequence, finish_sequence, merge_results, Dispatch, Phase, StepState, StepStatus,
};
use oecli::step::{
    ExecutorProperties, ShouldRunResult, Step, StepDetails, StepExecutor, StepProcessError,
    StepSequence,
};

#[derive(Clone)]
enum Check {
    Run,
    Skip,
    Fail(&'static str),
}

struct Fake {
    title: &'static str,
    check: Check,
    result: Result<&'static str, &'static str>,
}

fn run_item(name: &'static str) -> Step<Fake> {
    Step::Step(Fake { title: name, check: Check::Run, result: Ok("done") })
}

fn skip_item(name: &'static str) -> Step<Fake> {
    Step::Step(Fake { title: name, check: Check::Skip, result: Ok("done") })
}

fn failing_item(name: &'static str, msg: &'static str) -> Step<Fake> {
    Step::Step(Fake { title: name, check: Check::Run, result: Err(msg) })
}

#[derive(Default)]
struct Log {
    events: Vec<String>,
    executed: Vec<String>,
}

impl Log {
    fn record(&mut self, title: &str, e: &StepEvent) {
        let line = match e {
            StepEvent::Start(d) => format!("Start {} @{}", title, d.sequence_name),
            StepEvent::End(d) => format!("End {} @{}: {}", title, d.sequence_name, d.msg),
            StepEvent::Skip(d) => format!("Skip {} @{}: {}", title, d.sequence_name, d.msg),
            StepEvent::Error(d) => format!("Error {} @{}: {}", title, d.sequence_name, d.msg),
            StepEvent::NewSequence(n) => format!("NewSequence {} {}", n.sequence_name, n.length),
            StepEvent::EndSequence(d) => format!("EndSequence {}", d.sequence_name),
        };
        self.events.push(line);
    }

    fn position(&self, line: &str) -> usize {
        self.events.iter().position(|e| e == line).unwrap_or_else(|| panic!("no event {}", line))
    }

    fn count(&self, line: &str) -> usize {
        self.events.iter().filter(|e| *e == line).count()
    }
}

fn evaluate_item(item: Fake, sequence_name: &str, log: &mut Log) -> Result<Vec<Step<Fake>>, String> {
    let details = StepDetails { title: item.title.to_string(), description: String::new() };
    let mut state = StepState::new(details, sequence_name);
    let start = state.start();
    log.record(item.title, &start);
    let check = match item.check.clone() {
        Check::Run => ShouldRunResult::Run,
        Check::Skip => ShouldRunResult::Skip,
        Check::Fail(m) => ShouldRunResult::Error(StepProcessError::new(m)),
    };
    if let Some(e) = state.checked(check) {
        log.record(item.title, &e);
    }
    if matches!(state.status, StepStatus::ShouldRun) {
        log.executed.push(item.title.to_string());
        let result = item.result.map(|s| s.to_string()).map_err(|s| s.to_string());
        let e = state.executed(result);
        log.record(item.title, &e);
    }
    assert!(state.is_finished());
    state.outcome()
}

fn evaluate(step: Step<Fake>, sequence_name: &str, log: &mut Log) -> Result<Vec<Step<Fake>>, String> {
    match step {
        Step::Step(item) => evaluate_item(item, sequence_name, log),
        Step::Sequence(s) => {
            let visit = enter_sequence(s);
            if let Some(e) = &visit.opening {
                log.record("", e);
            }
            let mut results = Vec::new();
            for unit in visit.batch {
                assert_eq!(unit.sequence_name, visit.sequence.title);
                results.push(evaluate(unit.step, &unit.sequence_name, log));
            }
            let (end, r) = finish_sequence(visit.sequence, visit.width, results);
            if let Some(e) = &end {
                log.record("", e);
            }
            r
        }
    }
}

fn run(props: ExecutorProperties<Fake>) -> (Result<(), String>, Log) {
    let mut log = Log::default();
    let mut exec = StepExecutor::new().build_steps(props);
    let first = exec.start();
    log.record("", &first);
    loop {
        match exec.next_batch() {
            Dispatch::Batch(batch) => {
                let mut results = Vec::new();
                for unit in batch {
                    results.push(evaluate(unit.step, &unit.sequence_name, &mut log));
                }
                exec.complete_batch(results);
            }
            Dispatch::Done(end, result) => {
                if let Some(e) = &end {
                    log.record("", e);
                }
                return (result, log);
            }
        }
    }
}

fn sequence(title: &str, batches: Vec<Vec<Step<Fake>>>) -> StepSequence<Fake> {
    let mut s = StepSequence::new(title, "");
    for b in batches {
        s = s.then_run_parallel(b);
    }
    s
}

#[test]
fn batch_order_finishes_first_batch_before_second() {
    let props = ExecutorProperties::new()
        .run_parallel(vec![run_item("a"), run_item("b")])
        .then_run(run_item("c"));
    let (result, log) = run(props);
    assert_eq!(result, Ok(()));
    let start_c = log.position("Start c @main");
    assert!(log.position("End a @main: done") < start_c);
    assert!(log.position("End b @main: done") < start_c);
    assert_eq!(log.events.first().unwrap(), "NewSequence main 3");
    assert_eq!(log.events.last().unwrap(), "EndSequence main");
}

#[test]
fn depth_first_sequence_drain() {
    let s = sequence("S", vec![vec![run_item("x")], vec![skip_item("y")]]);
    let props = ExecutorProperties::new()
        .run(Step::Sequence(s))
        .then_run(run_item("z"));
    let (result, log) = run(props);
    assert_eq!(result, Ok(()));
    let start_z = log.position("Start z @main");
    assert!(log.position("End x @S: done") < start_z);
    assert!(log.position("Skip y @S: Skipped. Already completed.") < start_z);
    assert!(log.position("EndSequence S") < start_z);
    assert_eq!(log.position("NewSequence S 2"), 1);
}

#[test]
fn fatal_abort_keeps_sibling_and_stops_later_batches() {
    let props = ExecutorProperties::new()
        .run_parallel(vec![failing_item("bad", "boom"), run_item("good")])
        .then_run(run_item("later"));
    let (result, log) = run(props);
    assert_eq!(result, Err("boom".to_string()));
    assert_eq!(log.count("Error bad @main: boom"), 1);
    assert_eq!(log.count("End good @main: done"), 1);
    assert_eq!(log.count("Start later @main"), 0);
    assert_eq!(log.count("EndSequence main"), 0);
}

#[test]
fn failed_check_is_fatal_with_its_message() {
    let props = ExecutorProperties::new()
        .run(Step::Step(Fake { title: "auth", check: Check::Fail("no login"), result: Ok("x") }))
        .then_run(run_item("after"));
    let (result, log) = run(props);
    assert_eq!(result, Err("no login".to_string()));
    assert_eq!(
        log.count("Error auth @main: Unexpected error processing step.\nno login"),
        1
    );
    assert!(log.executed.is_empty());
    assert_eq!(log.count("Start after @main"), 0);
}

#[test]
fn idempotent_resume_executes_nothing() {
    let inner = sequence("inner", vec![vec![skip_item("i1")], vec![skip_item("i2")]]);
    let props = ExecutorProperties::new()
        .run_parallel(vec![skip_item("a"), Step::Sequence(inner)])
        .then_run(skip_item("b"));
    let (result, log) = run(props);
    assert_eq!(result, Ok(()));
    assert!(log.executed.is_empty());
    assert_eq!(log.count("Skip a @main: Skipped. Already completed."), 1);
    assert_eq!(log.count("Skip i2 @inner: Skipped. Already completed."), 1);
}

#[test]
fn sequence_events_pair_for_nested_sequences() {
    let two = sequence("two", vec![vec![run_item("t5")], vec![run_item("t6")], vec![run_item("t7")]]);
    let one = sequence(
        "one",
        vec![
            vec![run_item("t3")],
            vec![run_item("t9"), Step::Sequence(two)],
            vec![run_item("t10")],
        ],
    );
    let empty = sequence("empty", vec![]);
    let props = ExecutorProperties::new()
        .run_parallel(vec![run_item("t1"), run_item("t2")])
        .then_run_parallel(vec![Step::Sequence(one), Step::Sequence(empty)]);
    let (result, log) = run(props);
    assert_eq!(result, Ok(()));
    for (name, length) in [("one", 4), ("two", 3), ("empty", 0), ("main", 4)] {
        let opening = format!("NewSequence {} {}", name, length);
        let ending = format!("EndSequence {}", name);
        assert_eq!(log.count(&opening), 1, "{}", name);
        assert_eq!(log.count(&ending), 1, "{}", name);
        assert!(log.position(&opening) < log.position(&ending));
    }
    assert!(log.position("End t7 @two: done") < log.position("EndSequence two"));
    assert!(log.position("Start t3 @one") > log.position("End t2 @main: done"));
    assert_eq!(log.executed.len(), 8);
}

#[test]
fn empty_plan_succeeds_at_once() {
    let (result, log) = run(ExecutorProperties::new());
    assert_eq!(result, Ok(()));
    assert_eq!(log.events, vec!["NewSequence main 0".to_string(), "EndSequence main".to_string()]);
}

#[test]
fn finished_run_keeps_reporting_its_failure() {
    let mut exec = StepExecutor::new().build_steps(
        ExecutorProperties::new().run(failing_item("f", "bad")).then_run(run_item("g")),
    );
    exec.start();
    let batch = match exec.next_batch() {
        Dispatch::Batch(b) => b,
        Dispatch::Done(..) => panic!("expected a batch"),
    };
    assert_eq!(batch.len(), 1);
    assert!(matches!(exec.phase, Phase::InFlight(1)));
    exec.complete_batch(vec![Err("bad".to_string())]);
    for _ in 0..2 {
        match exec.next_batch() {
            Dispatch::Done(end, result) => {
                assert!(end.is_none());
                assert_eq!(result, Err("bad".to_string()));
            }
            Dispatch::Batch(_) => panic!("no batch after a failure"),
        }
    }
    assert_eq!(exec.steps.len(), 1);
}

#[test]
fn continuations_go_to_the_head_of_the_queue() {
    let mut exec = StepExecutor::new().build_steps(
        ExecutorProperties::new().run(run_item("a")).then_run(run_item("b")),
    );
    exec.start();
    let _ = exec.next_batch();
    let cont = sequence("cont", vec![vec![run_item("c")]]);
    exec.complete_batch(vec![Ok(vec![Step::Sequence(cont)])]);
    assert!(matches!(exec.phase, Phase::Between));
    assert_eq!(exec.steps.len(), 2);
    match &exec.steps[0][0] {
        Step::Sequence(s) => assert_eq!(s.title, "cont"),
        Step::Step(_) => panic!("expected the continuation first"),
    }
}

#[test]
fn merge_results_takes_first_failure_or_all_continuations() {
    let ok: Result<Vec<Step<Fake>>, String> = merge_results(vec![
        Ok(vec![run_item("a")]),
        Ok(vec![]),
        Ok(vec![run_item("b"), run_item("c")]),
    ]);
    let titles: Vec<&str> = ok
        .unwrap()
        .iter()
        .map(|s| match s {
            Step::Step(f) => f.title,
            Step::Sequence(_) => "",
        })
        .collect();
    assert_eq!(titles, vec!["a", "b", "c"]);
    let err: Result<Vec<Step<Fake>>, String> = merge_results(vec![
        Ok(vec![run_item("a")]),
        Err("first".to_string()),
        Err("second".to_string()),
    ]);
    assert_eq!(err.err(), Some("first".to_string()));
}

#[test]
fn finishing_a_sequence_with_a_failure_passes_it_on() {
    let s = sequence("s", vec![vec![run_item("a")], vec![run_item("b")]]);
    let visit = enter_sequence(s);
    assert_eq!(visit.width, 1);
    let (end, r) = finish_sequence(visit.sequence, visit.width, vec![Err("x".to_string())]);
    assert!(end.is_none());
    assert_eq!(r.err(), Some("x".to_string()));
}

#[test]
fn entering_again_does_not_announce_again() {
    let s = sequence("s", vec![vec![run_item("a")], vec![run_item("b"), run_item("c")]]);
    let first = enter_sequence(s);
    assert!(matches!(&first.opening, Some(StepEvent::NewSequence(n)) if n.length == 3));
    assert_eq!(first.batch.len(), 1);
    assert_eq!(first.width, 1);
    assert_eq!(first.batch[0].sequence_name, "s");
    let second = enter_sequence(first.sequence);
    assert!(second.opening.is_none());
    assert_eq!(second.batch.len(), 2);
    assert!(!second.sequence.has_next());
}
