//! What becomes of a handler's run: the errors reported for a failed or panicked
//! handler, the next state of a failed job, and the delays of the workers' retries.
use crate::error::{BusError, BusErrorKind};
use crate::text::{concat2, concat3, decimal_int, i64_to_decimal};
use crate::time::{valid_delta, valid_instant, StdDuration};
use vstd::arithmetic::power2::{lemma2_to64, pow2};
use vstd::prelude::*;

verus! {

/// What a caught panic carried: a message (a `&str` or a `String`), or something else.
#[derive(Debug)]
pub enum PanicPayload {
    Message(String),
    Unknown,
}

/// The error of a handler that failed or panicked.
#[derive(Debug)]
pub enum HandlerFailure<E> {
    /// The handler returned this error.
    Failed(E),
    /// The handler panicked; the text of the error.
    Panicked(String),
}

/// The text of the error of a handler that panicked during an in-memory dispatch.
pub open spec fn dispatch_panic_text(p: PanicPayload) -> Seq<char> {
    "Handler panicked: "@ + match p {
        PanicPayload::Message(m) => m@,
        PanicPayload::Unknown => "Unknown panic message"@,
    }
}

/// The outcome of one handler of an in-memory dispatch: success, the handler's own
/// error, or an error that describes its panic.
pub fn handle_execution_result<E>(
    handler_id: &str,
    event_id: &str,
    result: Result<Result<(), E>, PanicPayload>,
) -> (r: Result<(), HandlerFailure<E>>)
    ensures
        result matches Ok(Ok(_)) ==> r is Ok,
        result matches Ok(Err(e)) ==> r == Err::<(), HandlerFailure<E>>(HandlerFailure::Failed(e)),
        result matches Err(p) ==> (r matches Err(HandlerFailure::Panicked(m)) && m@ == dispatch_panic_text(p)),
{
    match result {
        Ok(Ok(())) => Ok(()),
        Ok(Err(e)) => Err(HandlerFailure::Failed(e)),
        Err(payload) => {
            let msg = match payload {
                PanicPayload::Message(m) => m,
                PanicPayload::Unknown => String::from_str("Unknown panic message"),
            };
            Err(HandlerFailure::Panicked(concat2("Handler panicked: ", msg.as_str())))
        },
    }
}

/// How the run of a queued job ended, as the worker sees it.
#[derive(Debug)]
pub enum RunEnd<E> {
    /// The handler returned.
    Returned(Result<(), E>),
    /// The handler panicked.
    Panicked(PanicPayload),
    /// The task that ran the handler could not be joined; the text of the join error.
    JoinFailed(String),
    /// The time allowed ran out and the task was aborted.
    TimedOut,
}

/// The text of the error of a job whose time ran out.
pub open spec fn timeout_text(timeout_secs: i32) -> Seq<char> {
    "Job execution timed out after "@ + decimal_int(timeout_secs as int) + "s"@
}

/// The error text of a job that timed out after the given seconds.
pub fn timeout_message(timeout_secs: i32) -> (s: String)
    ensures
        s@ == timeout_text(timeout_secs),
{
    let digits = i64_to_decimal(timeout_secs as i64);
    concat3("Job execution timed out after ", digits.as_str(), "s")
}

/// The outcome of a queued job's run: the handler's result, or the text of a critical
/// failure (a panic, a failed join, a timeout).
pub fn execution_outcome<E>(end: RunEnd<E>, timeout_secs: i32) -> (r: Result<Result<(), E>, String>)
    ensures
        end matches RunEnd::Returned(h) ==> r == Ok::<Result<(), E>, String>(h),
        end matches RunEnd::Panicked(p) ==> (r matches Err(m) && m@ == match p {
            PanicPayload::Message(t) => t@,
            PanicPayload::Unknown => "Unknown panic"@,
        }),
        end matches RunEnd::JoinFailed(t) ==> (r matches Err(m) && m@ == "Runtime join error: "@ + t@),
        end matches RunEnd::TimedOut ==> (r matches Err(m) && m@ == timeout_text(timeout_secs)),
{
    match end {
        RunEnd::Returned(h) => Ok(h),
        RunEnd::Panicked(PanicPayload::Message(m)) => Err(m),
        RunEnd::Panicked(PanicPayload::Unknown) => Err(String::from_str("Unknown panic")),
        RunEnd::JoinFailed(t) => Err(concat2("Runtime join error: ", t.as_str())),
        RunEnd::TimedOut => Err(timeout_message(timeout_secs)),
    }
}

/// The time a job may run, from its timeout in seconds as stored (`as u64` of the
/// stored `i32`: a negative timeout wraps around).
pub fn timeout_duration(timeout_secs: i32) -> (d: StdDuration)
    ensures
        d.total_nanos() == (if timeout_secs >= 0 { timeout_secs as int } else { timeout_secs as int + 0x1_0000_0000_0000_0000 }) * 1_000_000_000,
{
    let secs: u64 = if timeout_secs >= 0 {
        timeout_secs as u64
    } else {
        (0x1_0000_0000_0000_0000i128 + timeout_secs as i128) as u64
    };
    StdDuration::from_secs(secs)
}

/// What is done with a job whose run failed.
#[derive(Debug, PartialEq, Eq, Structural)]
pub enum FailurePlan {
    /// The job becomes retryable, due at the given time.
    Retry { scheduled_at: i128 },
    /// The job is discarded, at the given time.
    Discard { discarded_at: i128 },
}

/// A failed job is retried while its attempt is below its maximum, after `delay`;
/// otherwise it is discarded.
pub open spec fn failure_plan_spec(attempt: i32, max_attempts: i32, now: int, delay: int) -> FailurePlan {
    if attempt < max_attempts {
        FailurePlan::Retry { scheduled_at: (now + delay) as i128 }
    } else {
        FailurePlan::Discard { discarded_at: now as i128 }
    }
}

/// Whether a failed job is retried: it has attempts left. Only then is its handler's
/// delay needed to plan the retry.
pub fn retries_left(attempt: i32, max_attempts: i32) -> (r: bool)
    ensures
        r == (attempt < max_attempts),
        r <==> failure_plan_spec(attempt, max_attempts, 0, 0) is Retry,
{
    attempt < max_attempts
}

/// The next state of a job whose run failed (`handler_error`). `delay` is what the
/// handler's `next_attempt_at` gives for the job's attempt.
pub fn plan_failure(attempt: i32, max_attempts: i32, now: i128, delay: i128) -> (p: FailurePlan)
    requires
        valid_instant(now as int),
        valid_delta(delay as int),
    ensures
        p == failure_plan_spec(attempt, max_attempts, now as int, delay as int),
{
    if retries_left(attempt, max_attempts) {
        FailurePlan::Retry { scheduled_at: now + delay }
    } else {
        FailurePlan::Discard { discarded_at: now }
    }
}

/// The error of a job whose handler is not registered.
pub fn handler_not_found(hash: i64, event: &str) -> (e: BusError)
    ensures
        e@ == (BusErrorKind::Configuration, "Handler not found by handler "@ + decimal_int(hash as int)
            + " and event "@ + event@),
{
    let digits = i64_to_decimal(hash);
    BusError::Configuration(concat3("Handler not found by handler ", digits.as_str(), crate::text::concat2(" and event ", event).as_str()))
}

/// The base of the pause after failed database attempt `attempt` (1 or 2) of a
/// worker: 100 ms doubled for each earlier attempt.
pub open spec fn db_retry_base_ms(attempt: u32) -> int {
    100 * pow2((attempt - 1) as nat) as int
}

/// The pause in milliseconds after failed database attempt `attempt` of a worker,
/// or none after the last of its three attempts. The pause adds up to 49 ms of
/// random jitter to its base.
pub fn db_retry_pause_ms(attempt: u32) -> (r: Option<u64>)
    requires
        1 <= attempt <= 3,
    ensures
        attempt == 3 <==> r is None,
        r matches Some(ms) ==> db_retry_base_ms(attempt) <= ms < db_retry_base_ms(attempt) + 50,
{
    if attempt < 3 {
        proof {
            lemma2_to64();
        }
        let base: u64 = if attempt == 1 { 100 } else { 200 };
        let jitter = crate::outside::random_below(50);
        Some(base + jitter)
    } else {
        None
    }
}

/// The failed attempts a worker has made at one database operation, which it tries
/// at most three times.
#[derive(Debug)]
pub struct DbRetry {
    failed: u32,
}

impl DbRetry {
    #[verifier::type_invariant]
    spec fn inv(self) -> bool {
        self.failed <= 3
    }

    /// How many attempts have failed.
    pub closed spec fn failures(self) -> nat {
        self.failed as nat
    }

    /// No attempt made yet.
    pub fn new() -> (r: DbRetry)
        ensures
            r.failures() == 0,
    {
        DbRetry { failed: 0 }
    }

    /// Records that an attempt failed. Gives the pause before the next attempt, or
    /// none where this was the third failed attempt (or a third had failed before):
    /// then the operation is given up.
    pub fn after_failure(&mut self) -> (r: Option<u64>)
        ensures
            old(self).failures() < 3 ==> final(self).failures() == old(self).failures() + 1,
            old(self).failures() >= 3 ==> final(self).failures() == old(self).failures(),
            final(self).failures() <= 3,
            r is None <==> final(self).failures() == 3,
            r matches Some(ms) ==> db_retry_base_ms(final(self).failures() as u32) <= ms
                < db_retry_base_ms(final(self).failures() as u32) + 50,
    {
        proof {
            use_type_invariant(&*self);
        }
        if self.failed >= 3 {
            return None;
        }
        self.failed = self.failed + 1;
        db_retry_pause_ms(self.failed)
    }
}

/// The pause of a worker before it polls an empty queue again: the configured delay
/// plus up to 199 ms of random jitter; none where that sum overflows (where adding
/// durations panics).
pub fn empty_queue_pause(delay: &StdDuration) -> (r: Option<StdDuration>)
    ensures
        delay.secs_spec() < u64::MAX || delay.subsec_nanos_spec() < 801_000_000 ==> r is Some,
        r is None ==> delay.secs_spec() == u64::MAX,
        r matches Some(d) ==> delay.total_nanos() <= d.total_nanos() < delay.total_nanos() + 200_000_000,
{
    let jitter = crate::outside::random_below(200);
    let extra = StdDuration::from_millis(jitter);
    assert(extra.secs_spec() == 0 && extra.subsec_nanos_spec() < 200_000_000);
    delay.checked_plus(&extra)
}

} // verus!
