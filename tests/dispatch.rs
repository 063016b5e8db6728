use batch_dispatch::{
    run_batch, BatchConfig, ConfigError, Dispatcher, ErrorKind, RequestError, RequestOutcome, RequestSpec,
};
use std::cell::Cell;

fn spec() -> RequestSpec {
    RequestSpec { method: "GET".to_string(), url: "http://localhost:9000/timestamp".to_string(), body: None }
}

fn config(total_requests: u32, concurrency: u32) -> BatchConfig {
    BatchConfig { total_requests, concurrency }
}

fn fail(message: &str) -> RequestError {
    RequestError { kind: ErrorKind::NetworkError, message: message.to_string() }
}

#[test]
fn every_index_reported_once() {
    for n in [0u32, 1, 7, 25] {
        for c in [1u32, 2, 5, 40] {
            let report = run_batch(&spec(), config(n, c), None, |_: &RequestSpec, i: u32| Ok(format!("{}", i)))
                .unwrap();
            assert_eq!(report.len(), n as usize);
            for (pos, o) in report.outcomes.iter().enumerate() {
                assert_eq!(o.index() as usize, pos);
            }
        }
    }
}

#[test]
fn always_succeeding_gives_all_successes() {
    let report = run_batch(&spec(), config(12, 4), None, |_: &RequestSpec, i: u32| Ok(format!("body {}", i)))
        .unwrap();
    assert_eq!(report.success_count(), 12);
    assert_eq!(report.failure_count(), 0);
    match &report.outcomes[5] {
        RequestOutcome::Success { index, worker_id, body, .. } => {
            assert_eq!(*index, 5);
            assert!(*worker_id < 4);
            assert_eq!(body, "body 5");
        }
        other => panic!("unexpected outcome {:?}", other),
    }
}

#[test]
fn always_failing_gives_all_failures() {
    let report = run_batch(&spec(), config(9, 3), None, |_: &RequestSpec, _: u32| Err(fail("refused"))).unwrap();
    assert_eq!(report.len(), 9);
    assert_eq!(report.failure_count(), 9);
    assert_eq!(report.success_count(), 0);
    assert_eq!(report.count_kind(ErrorKind::NetworkError), 9);
    match &report.outcomes[8] {
        RequestOutcome::Failure { index, worker_id, error_kind, message } => {
            assert_eq!(*index, 8);
            assert_eq!(*worker_id, Some(2));
            assert_eq!(*error_kind, ErrorKind::NetworkError);
            assert_eq!(message, "refused");
        }
        other => panic!("unexpected outcome {:?}", other),
    }
}

#[test]
fn multiples_of_three_fail_whatever_the_budget() {
    for c in [1u32, 2, 3, 4, 10, 11] {
        let report = run_batch(&spec(), config(10, c), None, |_: &RequestSpec, i: u32| {
            if i % 3 == 0 {
                Err(fail("divisible by three"))
            } else {
                Ok("ok".to_string())
            }
        })
        .unwrap();
        assert_eq!(report.failure_count(), 4);
        assert_eq!(report.success_count(), 6);
        let failed: Vec<u32> = report.outcomes.iter().filter(|o| !o.is_success()).map(|o| o.index()).collect();
        assert_eq!(failed, vec![0, 3, 6, 9]);
    }
}

#[test]
fn execution_never_exceeds_budget() {
    let active = Cell::new(0u32);
    let peak = Cell::new(0u32);
    let report = run_batch(&spec(), config(20, 3), None, |_: &RequestSpec, _: u32| {
        active.set(active.get() + 1);
        peak.set(peak.get().max(active.get()));
        active.set(active.get() - 1);
        Ok(String::new())
    })
    .unwrap();
    assert_eq!(report.success_count(), 20);
    assert!(peak.get() <= 3);
}

#[test]
fn dispatcher_refuses_claims_beyond_budget() {
    let mut d = Dispatcher::new(config(10, 3)).unwrap();
    assert_eq!(d.claim(0), Some(0));
    assert_eq!(d.claim(1), Some(1));
    assert_eq!(d.claim(2), Some(2));
    assert_eq!(d.in_flight(), 3);
    assert_eq!(d.claim(3), None);
    assert!(d.complete(1, Ok("x".to_string()), 4));
    assert_eq!(d.in_flight(), 2);
    assert_eq!(d.claim(1), Some(3));
    assert_eq!(d.in_flight(), 3);
    assert_eq!(d.next_index(), 4);
}

#[test]
fn dispatcher_rejects_completion_of_index_not_in_flight() {
    let mut d = Dispatcher::new(config(4, 2)).unwrap();
    assert!(!d.complete(0, Ok(String::new()), 0));
    assert_eq!(d.claim(7), Some(0));
    assert!(d.complete(0, Ok(String::new()), 0));
    assert!(!d.complete(0, Ok(String::new()), 0));
    assert!(!d.complete(9, Ok(String::new()), 0));
    assert_eq!(d.in_flight(), 0);
}

#[test]
fn dispatcher_finishes_when_every_index_completes() {
    let mut d = Dispatcher::new(config(3, 5)).unwrap();
    assert!(!d.is_finished());
    for w in 0..3u32 {
        assert_eq!(d.claim(w), Some(w));
    }
    assert_eq!(d.claim(3), None);
    for i in 0..3u32 {
        assert!(!d.is_finished());
        assert!(d.complete(i, Err(fail("down")), 1));
    }
    assert!(d.is_finished());
    let report = d.into_report(42);
    assert_eq!(report.elapsed_ms, 42);
    assert_eq!(report.failure_count(), 3);
    match &report.outcomes[2] {
        RequestOutcome::Failure { worker_id, .. } => assert_eq!(*worker_id, Some(2)),
        other => panic!("unexpected outcome {:?}", other),
    }
}

#[test]
fn empty_batch_spawns_no_worker() {
    let calls = Cell::new(0u32);
    let report = run_batch(&spec(), config(0, 8), None, |_: &RequestSpec, _: u32| {
        calls.set(calls.get() + 1);
        Ok(String::new())
    })
    .unwrap();
    assert_eq!(report.len(), 0);
    assert_eq!(report.elapsed_ms, 0);
    assert_eq!(calls.get(), 0);
    assert_eq!(config(0, 8).workers_to_spawn(), 0);
}

#[test]
fn workers_to_spawn_is_budget_capped_by_requests() {
    assert_eq!(config(10, 3).workers_to_spawn(), 3);
    assert_eq!(config(2, 3).workers_to_spawn(), 2);
    assert_eq!(config(5, 5).workers_to_spawn(), 5);
}

#[test]
fn zero_concurrency_is_refused_before_any_work() {
    let calls = Cell::new(0u32);
    let r = run_batch(&spec(), config(5, 0), None, |_: &RequestSpec, _: u32| {
        calls.set(calls.get() + 1);
        Ok(String::new())
    });
    assert!(matches!(r, Err(ConfigError::ZeroConcurrency)));
    assert_eq!(calls.get(), 0);
    assert!(matches!(Dispatcher::new(config(5, 0)), Err(ConfigError::ZeroConcurrency)));
    assert_eq!(config(5, 0).validate(), Err(ConfigError::ZeroConcurrency));
    assert_eq!(config(5, 1).validate(), Ok(()));
}

#[test]
fn deadline_marks_unfinished_requests_as_timeout() {
    let report = run_batch(&spec(), config(10, 3), Some(0), |_: &RequestSpec, _: u32| Ok("done".to_string()))
        .unwrap();
    assert_eq!(report.len(), 10);
    assert_eq!(report.success_count(), 3);
    assert_eq!(report.count_kind(ErrorKind::Timeout), 7);
    for o in &report.outcomes[3..] {
        match o {
            RequestOutcome::Failure { worker_id, error_kind, message, .. } => {
                assert_eq!(*worker_id, None);
                assert_eq!(*error_kind, ErrorKind::Timeout);
                assert_eq!(message, "deadline exceeded before completion");
            }
            other => panic!("unexpected outcome {:?}", other),
        }
    }
}

#[test]
fn report_before_completion_keeps_every_entry() {
    let mut d = Dispatcher::new(config(5, 2)).unwrap();
    assert_eq!(d.claim(0), Some(0));
    assert_eq!(d.claim(1), Some(1));
    assert!(d.complete(0, Ok("first".to_string()), 3));
    let report = d.into_report(100);
    assert_eq!(report.len(), 5);
    assert!(report.outcomes[0].is_success());
    assert_eq!(report.count_kind(ErrorKind::Timeout), 4);
    match &report.outcomes[1] {
        RequestOutcome::Failure { index, worker_id, error_kind, .. } => {
            assert_eq!(*index, 1);
            assert_eq!(*worker_id, Some(1));
            assert_eq!(*error_kind, ErrorKind::Timeout);
        }
        other => panic!("unexpected outcome {:?}", other),
    }
    match &report.outcomes[4] {
        RequestOutcome::Failure { worker_id, .. } => assert_eq!(*worker_id, None),
        other => panic!("unexpected outcome {:?}", other),
    }
}

#[test]
fn settle_wraps_results() {
    match RequestOutcome::settle(4, 2, Ok("b".to_string()), 17) {
        RequestOutcome::Success { index, worker_id, body, elapsed_ms } => {
            assert_eq!((index, worker_id, body.as_str(), elapsed_ms), (4, 2, "b", 17));
        }
        other => panic!("unexpected outcome {:?}", other),
    }
    let o = RequestOutcome::settle(6, 1, Err(RequestError { kind: ErrorKind::DecodeError, message: "bad".to_string() }), 0);
    assert_eq!(o.error_kind(), Some(ErrorKind::DecodeError));
    assert_eq!(o.index(), 6);
    assert!(!o.is_success());
}
