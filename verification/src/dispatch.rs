//! The decisions of a dispatch: the access a handler asks of the context it is given,
//! and when the in-memory handlers of an event stop running.
use crate::error::{BusError, BusErrorKind};
use crate::outcome::{handle_execution_result, HandlerFailure, PanicPayload};
use vstd::prelude::*;

verus! {

/// A context handed to a handler: its address, and whether it may be changed.
#[derive(Clone, Copy, Debug)]
pub struct RawContext {
    pub ptr: usize,
    pub is_mutable: bool,
}

/// A handler that asks for a changeable context is refused an unchangeable one.
pub fn check_context_access(raw: &RawContext, requires_mut: bool) -> (r: Result<(), BusError>)
    ensures
        r is Ok <==> (!requires_mut || raw.is_mutable),
        r matches Err(e) ==> e@ == (BusErrorKind::Context,
            "Handler requires &mut context, but provided context is immutable."@),
{
    if requires_mut && !raw.is_mutable {
        return Err(BusError::Context(String::from_str(
            "Handler requires &mut context, but provided context is immutable.",
        )));
    }
    Ok(())
}

/// The run of the in-memory handlers of one event, one after the other.
pub struct HandlerRun {
    total: usize,
    done: usize,
}

/// What follows the result of one handler.
#[derive(Debug)]
pub enum RunStep<E> {
    /// Run the next handler.
    Next,
    /// All handlers succeeded; their number.
    Finished(usize),
    /// A handler failed: the run stops with its error.
    Stopped(HandlerFailure<E>),
}

impl HandlerRun {
    pub closed spec fn spec_total(self) -> nat {
        self.total as nat
    }

    pub closed spec fn spec_done(self) -> nat {
        self.done as nat
    }

    /// A run over `total` handlers, none run yet.
    pub fn new(total: usize) -> (r: Self)
        ensures
            r.spec_total() == total,
            r.spec_done() == 0,
    {
        HandlerRun { total, done: 0 }
    }

    /// Whether a handler remains to run.
    pub fn has_next(&self) -> (r: bool)
        ensures
            r == (self.spec_done() < self.spec_total()),
    {
        self.done < self.total
    }

    /// Records the result of the next handler: the run goes on after a success, ends with
    /// the number of handlers after the last success, and stops at the first failure.
    pub fn record<E>(&mut self, handler_id: &str, event_id: &str, result: Result<Result<(), E>, PanicPayload>) -> (step: RunStep<E>)
        requires
            old(self).spec_done() < old(self).spec_total(),
        ensures
            final(self).spec_total() == old(self).spec_total(),
            result matches Ok(Ok(_)) ==> final(self).spec_done() == old(self).spec_done() + 1 && (
                if final(self).spec_done() == final(self).spec_total() {
                    step matches RunStep::Finished(n) && n == final(self).spec_total()
                } else {
                    step is Next
                }),
            result matches Ok(Err(e)) ==> step == RunStep::<E>::Stopped(HandlerFailure::Failed(e))
                && final(self).spec_done() == old(self).spec_done(),
            result matches Err(p) ==> (step matches RunStep::Stopped(HandlerFailure::Panicked(m))
                && m@ == crate::outcome::dispatch_panic_text(p))
                && final(self).spec_done() == old(self).spec_done(),
    {
        match handle_execution_result(handler_id, event_id, result) {
            Ok(()) => {
                self.done = self.done + 1;
                if self.done == self.total {
                    RunStep::Finished(self.total)
                } else {
                    RunStep::Next
                }
            },
            Err(f) => RunStep::Stopped(f),
        }
    }
}

/// When a peer's heartbeat expires: `timeout_sec` seconds after `now`
/// (`now + chrono::Duration::seconds(timeout_sec)`; `seconds` panics beyond
/// `i64::MAX / 1000` seconds either way, which `requires` leaves out).
pub fn heartbeat_expiry(now: i128, timeout_sec: i64) -> (t: i128)
    requires
        crate::time::valid_instant(now as int),
        -(i64::MAX / 1000) <= timeout_sec <= i64::MAX / 1000,
    ensures
        t == now + timeout_sec * crate::time::NANOS_PER_SEC,
{
    now + timeout_sec as i128 * crate::time::NANOS_PER_SEC
}

} // verus!
