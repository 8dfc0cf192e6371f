use rust_bus::dispatch::{check_context_access, heartbeat_expiry, HandlerRun, RawContext, RunStep};
use rust_bus::error::BusError;
use rust_bus::outcome::{
    db_retry_pause_ms, empty_queue_pause, execution_outcome, DbRetry, handle_execution_result, handler_not_found,
    plan_failure, timeout_duration, timeout_message, FailurePlan, HandlerFailure, PanicPayload, RunEnd,
};
use rust_bus::time::{
    delta_from_std, next_attempt_at, num_seconds, try_minutes, StdDuration, MAX_DELTA_NANOS, NANOS_PER_MINUTE,
    NANOS_PER_SEC,
};

#[test]
fn backoff_is_two_to_the_attempt_minutes() {
    assert_eq!(next_attempt_at(0), NANOS_PER_MINUTE);
    assert_eq!(next_attempt_at(1), 2 * NANOS_PER_MINUTE);
    assert_eq!(next_attempt_at(2), 4 * NANOS_PER_MINUTE);
    assert_eq!(next_attempt_at(3), 8 * NANOS_PER_MINUTE);
    assert_eq!(next_attempt_at(4), 16 * NANOS_PER_MINUTE);
    assert_eq!(next_attempt_at(5), 32 * NANOS_PER_MINUTE);
    assert_eq!(next_attempt_at(6), 64 * NANOS_PER_MINUTE);
    assert_eq!(next_attempt_at(10), 1024 * NANOS_PER_MINUTE);
    assert_eq!(next_attempt_at(47), (1i128 << 47) * NANOS_PER_MINUTE);
}

#[test]
fn backoff_beyond_a_time_delta_is_an_hour() {
    assert_eq!(next_attempt_at(48), 60 * NANOS_PER_MINUTE);
    assert_eq!(next_attempt_at(100), 60 * NANOS_PER_MINUTE);
    assert_eq!(next_attempt_at(u32::MAX), 60 * NANOS_PER_MINUTE);
}

#[test]
fn whole_seconds_round_toward_zero() {
    assert_eq!(num_seconds(1_999_999_999), 1);
    assert_eq!(num_seconds(-1_500_000_000), -1);
    assert_eq!(num_seconds(-999_999_999), 0);
    assert_eq!(num_seconds(600 * NANOS_PER_SEC), 600);
    assert_eq!(num_seconds(i128::MIN), -(i128::MAX / NANOS_PER_SEC));
}

#[test]
fn std_durations() {
    let d = StdDuration::new(1, 2_500_000_000);
    assert_eq!(d.as_secs(), 3);
    assert_eq!(d.subsec_nanos(), 500_000_000);
    let m = StdDuration::from_millis(1500);
    assert_eq!(m.as_secs(), 1);
    assert_eq!(m.subsec_nanos(), 500_000_000);
    let s = d.plus(&m);
    assert_eq!(s.as_secs(), 5);
    assert_eq!(s.subsec_nanos(), 0);
    assert_eq!(StdDuration::from_secs(7).as_nanos(), 7_000_000_000);
}

#[test]
fn spans_that_a_time_delta_holds() {
    assert_eq!(delta_from_std(&StdDuration::from_secs(5)), Some(5 * NANOS_PER_SEC));
    assert_eq!(delta_from_std(&StdDuration::from_secs(u64::MAX)), None);
    assert_eq!(delta_from_std(&StdDuration::from_millis(i64::MAX as u64)), Some(MAX_DELTA_NANOS));
    assert_eq!(try_minutes(1), Some(60 * NANOS_PER_SEC));
    assert_eq!(try_minutes(-2), Some(-120 * NANOS_PER_SEC));
    assert_eq!(try_minutes(153_722_867_280_912), Some(153_722_867_280_912 * 60 * NANOS_PER_SEC));
    assert_eq!(try_minutes(153_722_867_280_913), None);
    assert_eq!(try_minutes(i64::MAX), None);
}

#[test]
fn failed_job_with_attempts_left_is_retried_later() {
    let now: i128 = 1_700_000_000 * NANOS_PER_SEC;
    for attempt in 1..3 {
        let delay = next_attempt_at(attempt as u32);
        match plan_failure(attempt, 3, now, delay) {
            FailurePlan::Retry { scheduled_at } => {
                assert!(scheduled_at > now);
                assert_eq!(scheduled_at, now + (1i128 << attempt) * NANOS_PER_MINUTE);
            }
            other => panic!("expected a retry, got {:?}", other),
        }
    }
    assert_eq!(
        plan_failure(2, 3, now, next_attempt_at(2)),
        FailurePlan::Retry { scheduled_at: now + 4 * NANOS_PER_MINUTE }
    );
}

#[test]
fn failed_job_without_attempts_left_is_discarded() {
    let now: i128 = 42;
    assert_eq!(plan_failure(3, 3, now, next_attempt_at(3)), FailurePlan::Discard { discarded_at: now });
    assert_eq!(plan_failure(5, 3, now, 0), FailurePlan::Discard { discarded_at: now });
}

#[test]
fn timeouts() {
    assert_eq!(timeout_message(30), "Job execution timed out after 30s");
    assert_eq!(timeout_message(-1), "Job execution timed out after -1s");
    assert_eq!(timeout_duration(30).as_secs(), 30);
    assert_eq!(timeout_duration(-1).as_secs(), u64::MAX);
}

#[test]
fn run_outcomes() {
    match execution_outcome::<String>(RunEnd::Returned(Ok(())), 5) {
        Ok(Ok(())) => {}
        other => panic!("unexpected {:?}", other),
    }
    match execution_outcome::<String>(RunEnd::Returned(Err("bad".to_string())), 5) {
        Ok(Err(e)) => assert_eq!(e, "bad"),
        other => panic!("unexpected {:?}", other),
    }
    assert_eq!(
        execution_outcome::<String>(RunEnd::Panicked(PanicPayload::Message("Boom".to_string())), 5).unwrap_err(),
        "Boom"
    );
    assert_eq!(
        execution_outcome::<String>(RunEnd::Panicked(PanicPayload::Unknown), 5).unwrap_err(),
        "Unknown panic"
    );
    assert_eq!(
        execution_outcome::<String>(RunEnd::JoinFailed("cancelled".to_string()), 5).unwrap_err(),
        "Runtime join error: cancelled"
    );
    assert_eq!(
        execution_outcome::<String>(RunEnd::TimedOut, 5).unwrap_err(),
        "Job execution timed out after 5s"
    );
}

#[test]
fn handler_panics_become_errors() {
    match handle_execution_result::<String>("H", "E", Err(PanicPayload::Message("Boom!".to_string()))) {
        Err(HandlerFailure::Panicked(m)) => assert_eq!(m, "Handler panicked: Boom!"),
        other => panic!("unexpected {:?}", other),
    }
    match handle_execution_result::<String>("H", "E", Err(PanicPayload::Unknown)) {
        Err(HandlerFailure::Panicked(m)) => assert_eq!(m, "Handler panicked: Unknown panic message"),
        other => panic!("unexpected {:?}", other),
    }
    match handle_execution_result::<String>("H", "E", Ok(Err("own".to_string()))) {
        Err(HandlerFailure::Failed(e)) => assert_eq!(e, "own"),
        other => panic!("unexpected {:?}", other),
    }
    assert!(handle_execution_result::<String>("H", "E", Ok(Ok(()))).is_ok());
}

#[test]
fn handlers_run_until_the_first_failure() {
    let mut run = HandlerRun::new(3);
    assert!(run.has_next());
    assert!(matches!(run.record::<String>("a", "E", Ok(Ok(()))), RunStep::Next));
    assert!(matches!(run.record::<String>("b", "E", Ok(Ok(()))), RunStep::Next));
    match run.record::<String>("c", "E", Ok(Err("stop".to_string()))) {
        RunStep::Stopped(HandlerFailure::Failed(e)) => assert_eq!(e, "stop"),
        other => panic!("unexpected {:?}", other),
    }
    assert!(run.has_next());

    let mut all = HandlerRun::new(2);
    assert!(matches!(all.record::<String>("a", "E", Ok(Ok(()))), RunStep::Next));
    assert!(matches!(all.record::<String>("b", "E", Ok(Ok(()))), RunStep::Finished(2)));
    assert!(!all.has_next());

    assert!(!HandlerRun::new(0).has_next());
}

#[test]
fn a_changeable_context_is_required_only_when_asked() {
    let shared = RawContext { ptr: 16, is_mutable: false };
    let owned = RawContext { ptr: 16, is_mutable: true };
    assert!(check_context_access(&shared, false).is_ok());
    assert!(check_context_access(&owned, true).is_ok());
    assert!(check_context_access(&owned, false).is_ok());
    match check_context_access(&shared, true) {
        Err(BusError::Context(m)) => {
            assert_eq!(m, "Handler requires &mut context, but provided context is immutable.")
        }
        other => panic!("unexpected {:?}", other),
    }
}

#[test]
fn worker_pauses() {
    assert_eq!(db_retry_pause_ms(3), None);
    for _ in 0..20 {
        let first = db_retry_pause_ms(1).unwrap();
        assert!((100..150).contains(&first));
        let second = db_retry_pause_ms(2).unwrap();
        assert!((200..250).contains(&second));
        let pause = empty_queue_pause(&StdDuration::from_secs(5)).unwrap().as_nanos();
        assert!(pause >= 5_000_000_000 && pause < 5_200_000_000);
    }
}

#[test]
fn missing_handler_and_heartbeat() {
    match handler_not_found(-5, "app::Created") {
        BusError::Configuration(m) => assert_eq!(m, "Handler not found by handler -5 and event app::Created"),
        other => panic!("unexpected {:?}", other),
    }
    assert_eq!(heartbeat_expiry(1000, 30), 1000 + 30 * NANOS_PER_SEC);
    assert_eq!(heartbeat_expiry(0, -2), -2 * NANOS_PER_SEC);
}

#[test]
fn database_operation_is_tried_three_times() {
    let mut retry = DbRetry::new();
    let first = retry.after_failure().unwrap();
    assert!((100..150).contains(&first));
    let second = retry.after_failure().unwrap();
    assert!((200..250).contains(&second));
    assert_eq!(retry.after_failure(), None);
    assert_eq!(retry.after_failure(), None);
}
