use rust_bus::time::StdDuration;
use rust_bus::worker::{after_fetch, poll_plan, restart_delay, AfterFetch, FetchOutcome, PollPlan, WorkerBook};

#[test]
fn a_worker_takes_jobs_up_to_its_concurrency() {
    let mut book = WorkerBook::new(2);
    assert!(book.can_take());
    assert!(!book.has_running());
    book.take(10);
    assert!(book.can_take());
    book.take(11);
    assert!(!book.can_take());
    book.joined(Some(10));
    assert!(book.can_take());
    assert!(book.has_running());
}

#[test]
fn a_stopping_worker_returns_the_jobs_that_did_not_finish() {
    let mut book = WorkerBook::new(4);
    book.take(1);
    book.take(2);
    book.take(3);
    book.joined(Some(2));
    book.joined(None);
    let mut held = book.held();
    held.sort();
    assert_eq!(held, vec![1, 3]);
    book.take(1);
    assert_eq!(book.held().len(), 2);
    let empty = WorkerBook::new(0);
    assert!(!empty.can_take());
    assert!(empty.held().is_empty());
}

#[test]
fn polls_ask_for_the_room_there_is() {
    match poll_plan(0) {
        PollPlan::WaitForRoom(d) => assert_eq!(d.as_nanos(), 50_000_000),
        other => panic!("unexpected {:?}", other),
    }
    match poll_plan(7) {
        PollPlan::Fetch(n) => assert_eq!(n, 7),
        other => panic!("unexpected {:?}", other),
    }
}

#[test]
fn pauses_after_a_poll() {
    let delay = StdDuration::from_secs(5);
    match after_fetch(FetchOutcome::Jobs(3), &delay).unwrap() {
        AfterFetch::Deliver(gap) => assert_eq!(gap.as_nanos(), 2_000_000),
        other => panic!("unexpected {:?}", other),
    }
    match after_fetch(FetchOutcome::Failed, &delay).unwrap() {
        AfterFetch::Pause(p) => assert_eq!(p.as_nanos(), 5_000_000_000),
        other => panic!("unexpected {:?}", other),
    }
    for _ in 0..20 {
        match after_fetch(FetchOutcome::Jobs(0), &delay).unwrap() {
            AfterFetch::Pause(p) => assert!(p.as_nanos() >= 5_000_000_000 && p.as_nanos() < 5_200_000_000),
            other => panic!("unexpected {:?}", other),
        }
    }
}

#[test]
fn crashed_workers_restart() {
    assert!(restart_delay(false, false).is_none());
    assert!(restart_delay(true, false).is_none());
    assert_eq!(restart_delay(false, true).unwrap().as_secs(), 5);
    assert_eq!(restart_delay(true, true).unwrap().as_secs(), 10);
}

#[test]
fn longest_empty_queue_delay_still_pauses() {
    let delay = StdDuration::from_secs(u64::MAX);
    match after_fetch(FetchOutcome::Jobs(0), &delay).unwrap() {
        AfterFetch::Pause(p) => assert_eq!(p.as_secs(), u64::MAX),
        other => panic!("unexpected {:?}", other),
    }
    assert!(after_fetch(FetchOutcome::Failed, &delay).is_some());
}
