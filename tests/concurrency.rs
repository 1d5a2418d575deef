use oecli::step::executor::{Dispatch, StepState, StepStatus, Unit};
use oecli::step::{ExecutorProperties, ShouldRunResult, Step, StepDetails, StepExecutor};
use std::time::{Duration, Instant};

struct Sleeper {
    millis: u64,
}

async fn evaluate(unit: Unit<Sleeper>) -> Result<Vec<Step<Sleeper>>, String> {
    match unit.step {
        Step::Step(item) => {
            let details = StepDetails { title: "sleep".to_string(), description: String::new() };
            let mut state = StepState::new(details, &unit.sequence_name);
            state.start();
            state.checked(ShouldRunResult::Run);
            assert!(matches!(state.status, StepStatus::ShouldRun));
            tokio::time::sleep(Duration::from_millis(item.millis)).await;
            state.executed(Ok(String::new()));
            state.outcome()
        }
        Step::Sequence(_) => Err("no sequences here".to_string()),
    }
}

async fn run(props: ExecutorProperties<Sleeper>) -> Result<(), String> {
    let mut exec = StepExecutor::new().build_steps(props);
    exec.start();
    loop {
        match exec.next_batch() {
            Dispatch::Batch(batch) => {
                let handles: Vec<_> = batch.into_iter().map(|s| tokio::spawn(evaluate(s))).collect();
                let mut results = Vec::new();
                for h in handles {
                    results.push(h.await.map_err(|e| e.to_string()).and_then(|r| r));
                }
                exec.complete_batch(results);
            }
            Dispatch::Done(_, result) => return result,
        }
    }
}

#[test]
fn batch_items_run_concurrently() {
    let runtime = tokio::runtime::Builder::new_multi_thread().enable_all().build().unwrap();
    let props = ExecutorProperties::new().run_parallel(vec![
        Step::Step(Sleeper { millis: 300 }),
        Step::Step(Sleeper { millis: 400 }),
    ]);
    let begun = Instant::now();
    let result = runtime.block_on(run(props));
    let elapsed = begun.elapsed();
    assert_eq!(result, Ok(()));
    assert!(elapsed >= Duration::from_millis(400));
    assert!(elapsed < Duration::from_millis(600), "took {:?}", elapsed);
}
