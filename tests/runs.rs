use purchase_validate::loadtest::{
    summarize, LoadSummary, LoadTestError, Worker, WorkerTotals, MAX_DURATION_NANOS,
};
use purchase_validate::model::{Config, ProjectInfo, PurchaseData, ResponseData, TestCase};
use purchase_validate::runner::{RunMode, SequentialRun};
use purchase_validate::schedule::{count_cases, locate_case, test_counts};
use purchase_validate::validation::ValidationError;

fn config(n: usize) -> Config {
    let project = ProjectInfo::new("https://example.com", "abc".into(), "p".into()).unwrap();
    let tests = (0..n)
        .map(|i| TestCase {
            purchase: PurchaseData::new(
                "ios".into(),
                "gems".into(),
                format!("order-{i}"),
                "r".into(),
                None,
            )
            .unwrap(),
            response: ResponseData::new("ok".into()).unwrap(),
        })
        .collect();
    Config { project, tests }
}

#[test]
fn schedule_flattens_configs_in_order() {
    let sizes = test_counts(&vec![config(2), config(0), config(1)]);
    assert_eq!(sizes, vec![2, 0, 1]);
    assert_eq!(count_cases(&sizes), 3);
    assert_eq!(locate_case(&sizes, 0), (0, 0));
    assert_eq!(locate_case(&sizes, 1), (0, 1));
    assert_eq!(locate_case(&sizes, 2), (2, 0));
}

#[test]
fn sequential_run_continues_after_failure() {
    let mut run = SequentialRun::new(RunMode::Continue, vec![2, 1]);
    let mut seen = Vec::new();
    while let Some(case) = run.next_case() {
        seen.push(case);
        run.record(case != (0, 1));
    }
    assert_eq!(seen, vec![(0, 0), (0, 1), (1, 0)]);
    assert_eq!((run.passed(), run.failed()), (2, 1));
    assert!(!run.succeeded());
    assert!(run.is_finished());
}

#[test]
fn strict_run_stops_at_first_failure() {
    let mut run = SequentialRun::new(RunMode::Strict, vec![3]);
    run.record(true);
    assert_eq!(run.next_case(), Some((0, 1)));
    run.record(false);
    assert!(run.is_finished());
    assert_eq!(run.next_case(), None);
    assert_eq!((run.passed(), run.failed()), (1, 1));
}

/// Runs one worker whose every request succeeds in `nanos`.
fn run_worker(sizes: Vec<usize>, requests: u64, nanos: u128) -> (Vec<(usize, usize)>, WorkerTotals) {
    let mut worker = Worker::new(sizes, requests);
    let mut seen = Vec::new();
    while let Some(case) = worker.next_case() {
        seen.push(case);
        worker.record(nanos).unwrap();
    }
    assert!(worker.is_done());
    (seen, worker.totals())
}

#[test]
fn load_test_two_workers_three_requests_each() {
    let sizes = test_counts(&vec![config(2)]);
    let mut results = Vec::new();
    for _ in 0..2 {
        let (seen, totals) = run_worker(sizes.clone(), 3, 2_500_000);
        assert_eq!(seen, vec![(0, 0), (0, 1), (0, 0)]);
        results.push(Ok(totals));
    }
    let summary = summarize(results).unwrap();
    assert_eq!(
        summary,
        LoadSummary { total_requests: 6, total_nanos: 15_000_000, average_millis: 2 }
    );
    assert!(summary.total_nanos > 0);
}

#[test]
fn load_test_worker_cycles_across_configs() {
    let (seen, totals) = run_worker(vec![1, 2], 5, 1);
    assert_eq!(seen, vec![(0, 0), (1, 0), (1, 1), (0, 0), (1, 0)]);
    assert_eq!(totals, WorkerTotals { completed: 5, elapsed_nanos: 5 });
}

#[test]
fn load_test_fails_fast_on_any_request_failure() {
    let ok = WorkerTotals { completed: 3, elapsed_nanos: 10 };
    let failure = LoadTestError::Request(ValidationError::Encoding);
    let second = LoadTestError::Request(ValidationError::Serialization);
    assert_eq!(summarize(vec![Ok(ok), Err(failure.clone())]), Err(failure.clone()));
    assert_eq!(
        summarize(vec![Ok(ok), Err(failure.clone()), Err(second)]),
        Err(failure.clone())
    );
}

#[test]
fn load_test_guards_against_overflow_and_zero_requests() {
    let big = WorkerTotals { completed: 1, elapsed_nanos: MAX_DURATION_NANOS };
    assert_eq!(summarize(vec![Ok(big), Ok(big)]), Err(LoadTestError::DurationOverflow));
    assert_eq!(summarize(vec![]), Err(LoadTestError::NoRequests));
    let mut worker = Worker::new(vec![1], 2);
    worker.record(MAX_DURATION_NANOS).unwrap();
    assert_eq!(worker.record(1), Err(LoadTestError::DurationOverflow));
    assert_eq!(worker.totals().completed, 1);
}

#[test]
fn worker_without_test_cases_is_done_at_once() {
    let worker = Worker::new(vec![0, 0], 3);
    assert!(worker.is_done());
    assert_eq!(worker.next_case(), None);
}
