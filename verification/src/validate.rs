//! The validation of the database handlers of an event before their jobs are queued.
use crate::config::{find_queue, BusQueueConfiguration, QueueConfiguration};
use crate::enums::{replace_state, state_name, Replace, ScheduleIn, State};
use crate::error::{configuration, BusError, BusErrorKind};
use crate::registration::EventDatabaseHandlerRegistration;
use crate::text::concat3;
use crate::time::{delta_from_std, delta_from_std_spec, num_seconds, num_seconds_spec, valid_instant};
use vstd::prelude::*;

verus! {

/// A handler's job, checked and ready to be queued.
#[derive(Debug)]
pub struct ValidatedJob {
    /// The position of the handler's registration.
    pub reg: usize,
    pub max_attempts: i32,
    pub timeout_sec: i32,
    pub priority: i32,
    /// The handler's tags, as a JSON array.
    pub tags_json: String,
    /// When the job becomes due, in nanoseconds since the epoch.
    pub schedule_in: i128,
}

/// What is known of a validated job: registration position, attempts, timeout in
/// seconds, priority, tags as JSON, due time.
pub type JobView = (int, int, int, int, Seq<char>, int);

impl View for ValidatedJob {
    type V = JobView;

    open spec fn view(&self) -> JobView {
        (self.reg as int, self.max_attempts as int, self.timeout_sec as int, self.priority as int,
            self.tags_json@, self.schedule_in as int)
    }
}

/// The first state in `replace` that an earlier entry already names, if any.
pub open spec fn first_repeated_state(replace: Seq<Replace>) -> Option<State>
    decreases replace.len(),
{
    if replace.len() == 0 {
        None
    } else {
        match first_repeated_state(replace.drop_last()) {
            Some(s) => Some(s),
            None => {
                if exists|i: int| 0 <= i < replace.len() - 1
                    && #[trigger] replace_state(replace[i]) == replace_state(replace.last()) {
                    Some(replace_state(replace.last()))
                } else {
                    None
                }
            },
        }
    }
}

/// The job of one registration, or the error that stops it.
pub open spec fn validate_spec(
    reg: EventDatabaseHandlerRegistration,
    position: int,
    queues: Seq<(String, QueueConfiguration)>,
    now: int,
) -> Result<JobView, (BusErrorKind, Seq<char>)> {
    match find_queue(queues, reg.queue@) {
        None => Err(configuration("Queue configuration for '"@ + reg.queue@ + "' not found"@)),
        Some(q) => {
            let attempts: u32 = match reg.max_attempts {
                Some(m) => m,
                None => q.max_attempts,
            };
            let timeout = num_seconds_spec(
                match reg.execution_timeout {
                    Some(t) => t,
                    None => q.execution_timeout,
                } as int,
            );
            if attempts > i32::MAX {
                Err(configuration("Attempts too large"@))
            } else if timeout < i32::MIN || timeout > i32::MAX {
                Err(configuration("Timeout too large"@))
            } else if reg.priority > i32::MAX {
                Err(configuration("priority too large"@))
            } else {
                let due: Option<int> = match reg.schedule_in {
                    ScheduleIn::Immediately => Some(now),
                    ScheduleIn::Duration(d) => match delta_from_std_spec(d.total_nanos()) {
                        Some(n) => Some(now + n),
                        None => None,
                    },
                };
                match due {
                    None => Err(configuration("schedule_in has incorrect value"@)),
                    Some(t) => {
                        let repeated = match reg.unique {
                            Some(u) => first_repeated_state(u.replace@),
                            None => None,
                        };
                        match repeated {
                            Some(s) => Err(configuration("replace has non unique value '"@ + state_name(s) + "'"@)),
                            None => Ok((position, attempts as int, timeout, reg.priority as int,
                                crate::outside::json_string_array(reg.tags.deep_view()), t)),
                        }
                    },
                }
            }
        },
    }
}

/// The jobs of the first `n` listed handlers, or the first error among them.
pub open spec fn validate_prefix(
    regs: Seq<EventDatabaseHandlerRegistration>,
    handlers: Seq<usize>,
    queues: Seq<(String, QueueConfiguration)>,
    now: int,
    n: nat,
) -> Result<Seq<JobView>, (BusErrorKind, Seq<char>)>
    decreases n,
{
    if n == 0 {
        Ok(Seq::empty())
    } else {
        match validate_prefix(regs, handlers, queues, now, (n - 1) as nat) {
            Err(e) => Err(e),
            Ok(jobs) => match validate_spec(regs[handlers[n - 1] as int], handlers[n - 1] as int, queues, now) {
                Err(e) => Err(e),
                Ok(j) => Ok(jobs.push(j)),
            },
        }
    }
}

/// Once a handler fails, every longer prefix fails with the same error.
proof fn lemma_prefix_error_stays(
    regs: Seq<EventDatabaseHandlerRegistration>,
    handlers: Seq<usize>,
    queues: Seq<(String, QueueConfiguration)>,
    now: int,
    n: nat,
    m: nat,
)
    requires
        n <= m,
        validate_prefix(regs, handlers, queues, now, n) is Err,
    ensures
        validate_prefix(regs, handlers, queues, now, m) == validate_prefix(regs, handlers, queues, now, n),
    decreases m - n,
{
    if n < m {
        lemma_prefix_error_stays(regs, handlers, queues, now, n, (m - 1) as nat);
    }
}

/// The state that a replacement list repeats first, if any.
fn find_repeated_state(replace: &Vec<Replace>) -> (r: Option<State>)
    ensures
        r == first_repeated_state(replace@),
{
    let mut seen: Vec<State> = Vec::new();
    let mut i: usize = 0;
    while i < replace.len()
        invariant
            i <= replace@.len(),
            first_repeated_state(replace@.take(i as int)) is None,
            seen@.len() == i,
            forall|j: int| 0 <= j < i ==> #[trigger] seen@[j] == replace_state(replace@[j]),
        decreases replace@.len() - i,
    {
        let s = replace[i].state();
        let mut k: usize = 0;
        let mut found = false;
        while k < seen.len()
            invariant
                k <= seen@.len(),
                seen@.len() == i,
                !found ==> forall|j: int| 0 <= j < k ==> seen@[j] != s,
                found ==> exists|j: int| 0 <= j < i && seen@[j] == s,
            decreases seen@.len() - k,
        {
            if seen[k] == s {
                found = true;
            }
            k = k + 1;
        }
        let ghost prefix = replace@.take(i + 1);
        assert(prefix.drop_last() =~= replace@.take(i as int));
        assert(prefix.last() == replace@[i as int]);
        if found {
            let ghost j = choose|j: int| 0 <= j < i && seen@[j] == s;
            assert(replace_state(prefix[j]) == replace_state(prefix.last()));
            assert(first_repeated_state(prefix) == Some(s));
            assert(replace@.take(i + 1) =~= prefix);
            proof {
                lemma_repeat_extends(replace@, (i + 1) as int);
            }
            return Some(s);
        }
        assert(!exists|j: int| 0 <= j < prefix.len() - 1 && #[trigger] replace_state(prefix[j]) == replace_state(prefix.last())) by {
            assert forall|j: int| 0 <= j < prefix.len() - 1 implies #[trigger] replace_state(prefix[j]) != replace_state(prefix.last()) by {
                assert(seen@[j] == replace_state(replace@[j]));
            }
        }
        seen.push(s);
        i = i + 1;
    }
    assert(replace@.take(i as int) =~= replace@);
    None
}

/// A repeat found in a prefix is the first repeat of the whole list.
proof fn lemma_repeat_extends(replace: Seq<Replace>, n: int)
    requires
        0 <= n <= replace.len(),
        first_repeated_state(replace.take(n)) is Some,
    ensures
        first_repeated_state(replace) == first_repeated_state(replace.take(n)),
    decreases replace.len() - n,
{
    if n < replace.len() {
        let longer = replace.take(n + 1);
        assert(longer.drop_last() =~= replace.take(n));
        lemma_repeat_extends(replace, n + 1);
    } else {
        assert(replace.take(n) =~= replace);
    }
}

/// Checks one registration against the queue configuration.
fn validate_one<C>(
    reg: &EventDatabaseHandlerRegistration,
    position: usize,
    config: &BusQueueConfiguration<C>,
    now: i128,
) -> (r: Result<ValidatedJob, BusError>)
    requires
        valid_instant(now as int),
    ensures
        r matches Ok(j) ==> validate_spec(*reg, position as int, config.spec_queues(), now as int) == Ok::<JobView, (BusErrorKind, Seq<char>)>(j@),
        r matches Err(e) ==> validate_spec(*reg, position as int, config.spec_queues(), now as int) == Err::<JobView, (BusErrorKind, Seq<char>)>(e@),
{
    let q_conf = config.get_queue(reg.queue.as_str())?;
    let attempts: u32 = match reg.max_attempts {
        Some(m) => m,
        None => q_conf.max_attempts,
    };
    if attempts > i32::MAX as u32 {
        return Err(BusError::Configuration(String::from_str("Attempts too large")));
    }
    let max_attempts = attempts as i32;
    let timeout_total: i128 = match reg.execution_timeout {
        Some(t) => t,
        None => q_conf.execution_timeout,
    };
    let timeout = num_seconds(timeout_total);
    if timeout < i32::MIN as i128 || timeout > i32::MAX as i128 {
        return Err(BusError::Configuration(String::from_str("Timeout too large")));
    }
    let timeout_sec = timeout as i32;
    if reg.priority > i32::MAX as u32 {
        return Err(BusError::Configuration(String::from_str("priority too large")));
    }
    let priority = reg.priority as i32;
    let tags_json = match crate::outside::tags_to_json(&reg.tags) {
        Ok(s) => s,
        Err(_) => {
            return Err(BusError::Configuration(String::from_str("Tags has incorrect value")));
        },
    };
    let schedule_in: i128 = match &reg.schedule_in {
        ScheduleIn::Immediately => now,
        ScheduleIn::Duration(d) => match delta_from_std(d) {
            Some(n) => now + n,
            None => {
                return Err(BusError::Configuration(String::from_str("schedule_in has incorrect value")));
            },
        },
    };
    if let Some(unique) = &reg.unique {
        if let Some(s) = find_repeated_state(&unique.replace) {
            return Err(BusError::Configuration(concat3("replace has non unique value '", s.to_str(), "'")));
        }
    }
    Ok(ValidatedJob { reg: position, max_attempts, timeout_sec, priority, tags_json, schedule_in })
}

/// Checks the database handlers of an event, in order, against the queue configuration,
/// and gives their jobs, or the first error met. `now` is the time of the dispatch.
pub fn get_validated_handlers<C>(
    regs: &Vec<EventDatabaseHandlerRegistration>,
    handlers: &Vec<usize>,
    config: &BusQueueConfiguration<C>,
    now: i128,
) -> (r: Result<Vec<ValidatedJob>, BusError>)
    requires
        valid_instant(now as int),
        forall|i: int| 0 <= i < handlers@.len() ==> #[trigger] handlers@[i] < regs@.len(),
    ensures
        r matches Ok(jobs) ==> validate_prefix(regs@, handlers@, config.spec_queues(), now as int, handlers@.len())
            == Ok::<Seq<JobView>, (BusErrorKind, Seq<char>)>(jobs@.map_values(|j: ValidatedJob| j@)),
        r matches Err(e) ==> validate_prefix(regs@, handlers@, config.spec_queues(), now as int, handlers@.len())
            == Err::<Seq<JobView>, (BusErrorKind, Seq<char>)>(e@),
{
    let mut jobs: Vec<ValidatedJob> = Vec::new();
    let mut i: usize = 0;
    assert(jobs@.map_values(|j: ValidatedJob| j@) =~= Seq::<JobView>::empty());
    while i < handlers.len()
        invariant
            i <= handlers@.len(),
            valid_instant(now as int),
            forall|k: int| 0 <= k < handlers@.len() ==> #[trigger] handlers@[k] < regs@.len(),
            validate_prefix(regs@, handlers@, config.spec_queues(), now as int, i as nat)
                == Ok::<Seq<JobView>, (BusErrorKind, Seq<char>)>(jobs@.map_values(|j: ValidatedJob| j@)),
        decreases handlers@.len() - i,
    {
        let position = handlers[i];
        let job = match validate_one(&regs[position], position, config, now) {
            Ok(job) => job,
            Err(e) => {
                proof {
                    lemma_prefix_error_stays(regs@, handlers@, config.spec_queues(), now as int, (i + 1) as nat, handlers@.len());
                }
                return Err(e);
            },
        };
        let ghost before = jobs@;
        jobs.push(job);
        assert(jobs@.map_values(|j: ValidatedJob| j@) =~= before.map_values(|j: ValidatedJob| j@).push(job@));
        i = i + 1;
    }
    Ok(jobs)
}

} // verus!
