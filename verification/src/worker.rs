//! The decisions of a queue worker, apart from the waiting and the database work that
//! the runtime does: how many jobs it takes, which jobs it holds, what it returns to
//! the queue when it stops, and how it paces its polls of the queue.
use crate::time::StdDuration;
use std::collections::HashSet;
use vstd::std_specs::iter::IteratorSpec;
use vstd::prelude::*;

verus! {

/// The jobs that a worker has taken and not yet seen finish, and the tasks it runs.
pub struct WorkerBook {
    concurrency: usize,
    running: usize,
    active: HashSet<u128>,
}

impl WorkerBook {
    #[verifier::type_invariant]
    spec fn inv(self) -> bool {
        self.running <= self.concurrency
    }

    /// The most tasks that run at once.
    pub closed spec fn spec_concurrency(self) -> nat {
        self.concurrency as nat
    }

    /// The tasks started and not yet joined.
    pub closed spec fn spec_running(self) -> nat {
        self.running as nat
    }

    /// The jobs taken and not seen to finish.
    pub closed spec fn spec_active(self) -> Set<u128> {
        self.active@
    }

    /// A worker that runs at most `concurrency` tasks at once, holding no job.
    pub fn new(concurrency: usize) -> (b: Self)
        ensures
            b.spec_concurrency() == concurrency,
            b.spec_running() == 0,
            b.spec_active() == Set::<u128>::empty(),
    {
        WorkerBook { concurrency, running: 0, active: HashSet::new() }
    }

    /// Whether a started task has not been joined yet.
    pub fn has_running(&self) -> (r: bool)
        ensures
            r == (self.spec_running() > 0),
    {
        self.running > 0
    }

    /// Whether the worker takes another job: fewer tasks run than it may run.
    pub fn can_take(&self) -> (r: bool)
        ensures
            r == (self.spec_running() < self.spec_concurrency()),
    {
        self.running < self.concurrency
    }

    /// Records a job taken and its task started.
    pub fn take(&mut self, id: u128)
        requires
            old(self).spec_running() < old(self).spec_concurrency(),
        ensures
            final(self).spec_concurrency() == old(self).spec_concurrency(),
            final(self).spec_running() == old(self).spec_running() + 1,
            final(self).spec_active() == old(self).spec_active().insert(id),
    {
        broadcast use vstd::std_specs::hash::group_hash_axioms;
        proof {
            use_type_invariant(&*self);
        }
        let mut active: HashSet<u128> = HashSet::new();
        std::mem::swap(&mut active, &mut self.active);
        active.insert(id);
        self.active = active;
        self.running = self.running + 1;
    }

    /// Records a task joined: `finished` is the job whose task ended normally, if it did;
    /// a task that panicked or was cancelled leaves its job held.
    pub fn joined(&mut self, finished: Option<u128>)
        requires
            old(self).spec_running() > 0,
        ensures
            final(self).spec_concurrency() == old(self).spec_concurrency(),
            final(self).spec_running() == old(self).spec_running() - 1,
            final(self).spec_active() == match finished {
                Some(id) => old(self).spec_active().remove(id),
                None => old(self).spec_active(),
            },
    {
        broadcast use vstd::std_specs::hash::group_hash_axioms;
        proof {
            use_type_invariant(&*self);
        }
        if let Some(id) = finished {
            let mut active: HashSet<u128> = HashSet::new();
            std::mem::swap(&mut active, &mut self.active);
            active.remove(&id);
            self.active = active;
        }
        self.running = self.running - 1;
    }

    /// The jobs to return to the queue when the worker stops: those it holds, each
    /// once, in the order in which the set is walked.
    pub fn held(&self) -> (r: Vec<u128>)
        ensures
            r@.to_set() == self.spec_active(),
            forall|i: int, j: int| 0 <= i < j < r@.len() ==> r@[i] != r@[j],
    {
        broadcast use vstd::std_specs::hash::group_hash_axioms;
        let ghost keys = vstd::std_specs::hash::spec_hash_keys_iter(&self.active).remaining();
        let mut r: Vec<u128> = Vec::new();
        for x in it: self.active.iter()
            invariant
                it.seq() == keys,
                r@.len() == it.index(),
                forall|i: int| 0 <= i < it.index() ==> r@[i] == *keys[i],
        {
            r.push(*x);
        }
        assert(r@ =~= keys.unref());
        r
    }
}

/// What a worker does before it polls the queue.
#[derive(Debug)]
pub enum PollPlan {
    /// No room for a job: wait this long and look again.
    WaitForRoom(StdDuration),
    /// Fetch at most this many due jobs.
    Fetch(usize),
}

/// A worker polls for as many jobs as it has room for; with no room it waits 50 ms.
pub fn poll_plan(room: usize) -> (p: PollPlan)
    ensures
        room == 0 ==> (p matches PollPlan::WaitForRoom(d) && d.total_nanos() == 50_000_000),
        room > 0 ==> (p matches PollPlan::Fetch(n) && n == room),
{
    if room == 0 {
        PollPlan::WaitForRoom(StdDuration::from_millis(50))
    } else {
        PollPlan::Fetch(room)
    }
}

/// What a poll of the queue gave.
#[derive(Debug)]
pub enum FetchOutcome {
    /// The number of jobs taken.
    Jobs(usize),
    /// The database could not be read.
    Failed,
}

/// What a worker does after a poll.
#[derive(Debug)]
pub enum AfterFetch {
    /// Hand the jobs to the runners, one every 2 ms.
    Deliver(StdDuration),
    /// Wait this long before the next poll.
    Pause(StdDuration),
}

/// After a poll, a worker hands out the jobs it took; after an empty poll it pauses
/// for the queue's delay and up to 199 ms of random jitter; after a failed poll it
/// pauses 5 seconds. None only where the queue's delay plus the jitter overflows a
/// span (where adding the two durations panics).
pub fn after_fetch(outcome: FetchOutcome, empty_queue_delay: &StdDuration) -> (r: Option<AfterFetch>)
    ensures
        r is None ==> (outcome matches FetchOutcome::Jobs(n) && n == 0 && empty_queue_delay.secs_spec() == u64::MAX),
        !(outcome matches FetchOutcome::Jobs(n) && n == 0) ==> r is Some,
        empty_queue_delay.secs_spec() < u64::MAX || empty_queue_delay.subsec_nanos_spec() < 801_000_000 ==> r is Some,
        outcome matches FetchOutcome::Jobs(n) && n > 0 ==> (r matches Some(AfterFetch::Deliver(d)) && d.total_nanos() == 2_000_000),
        outcome matches FetchOutcome::Jobs(n) && n == 0 ==> (r matches Some(a) ==> (a matches AfterFetch::Pause(d)
            && empty_queue_delay.total_nanos() <= d.total_nanos() < empty_queue_delay.total_nanos() + 200_000_000)),
        outcome is Failed ==> (r matches Some(AfterFetch::Pause(d)) && d.total_nanos() == 5_000_000_000),
{
    match outcome {
        FetchOutcome::Jobs(n) => {
            if n == 0 {
                match crate::outcome::empty_queue_pause(empty_queue_delay) {
                    Some(d) => Some(AfterFetch::Pause(d)),
                    None => None,
                }
            } else {
                Some(AfterFetch::Deliver(StdDuration::from_millis(2)))
            }
        },
        FetchOutcome::Failed => Some(AfterFetch::Pause(StdDuration::from_secs(5))),
    }
}

/// The worker of a queue is restarted 5 seconds after it panics; the recovery worker,
/// 10 seconds after; a worker that ends normally is not restarted.
pub fn restart_delay(recovery: bool, panicked: bool) -> (d: Option<StdDuration>)
    ensures
        !panicked <==> d is None,
        d matches Some(t) ==> t.total_nanos() == (if recovery { 10_000_000_000nat } else { 5_000_000_000nat }),
{
    if !panicked {
        None
    } else if recovery {
        Some(StdDuration::from_secs(10))
    } else {
        Some(StdDuration::from_secs(5))
    }
}

} // verus!
