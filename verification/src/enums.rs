use crate::time::StdDuration;
use vstd::prelude::*;

verus! {

/// The timestamp column that a uniqueness period is measured on.
#[derive(Clone, Copy, Debug, PartialEq, Eq, Structural)]
pub enum Timestamp {
    InsertedAt,
    ScheduledAt,
}

/// The column name of a timestamp.
pub open spec fn timestamp_column(t: Timestamp) -> Seq<char> {
    match t {
        Timestamp::InsertedAt => "inserted_at"@,
        Timestamp::ScheduledAt => "scheduled_at"@,
    }
}

impl Timestamp {
    pub fn column(&self) -> (r: &'static str)
        ensures
            r@ == timestamp_column(*self),
    {
        match self {
            Timestamp::InsertedAt => "inserted_at",
            Timestamp::ScheduledAt => "scheduled_at",
        }
    }
}

/// How long a job stays a match for a uniqueness check.
#[derive(Clone, Copy, Debug)]
pub enum Period {
    Infinite,
    Duration { field: Timestamp, duration: StdDuration },
}

/// When a newly queued job becomes due.
#[derive(Clone, Copy, Debug)]
pub enum ScheduleIn {
    Immediately,
    Duration(StdDuration),
}

/// The job states of the database-backed queue.
#[derive(Clone, Copy, Debug, PartialEq, Eq, Structural)]
pub enum State {
    Available,
    Scheduled,
    Executing,
    Retryable,
    Completed,
    Cancelled,
    Discarded,
}

/// The name under which a state is stored in the database.
pub open spec fn state_name(s: State) -> Seq<char> {
    match s {
        State::Available => "available"@,
        State::Scheduled => "scheduled"@,
        State::Executing => "executing"@,
        State::Retryable => "retryable"@,
        State::Completed => "completed"@,
        State::Cancelled => "cancelled"@,
        State::Discarded => "discarded"@,
    }
}

impl State {
    pub fn to_str(&self) -> (r: &'static str)
        ensures
            r@ == state_name(*self),
    {
        match self {
            State::Available => "available",
            State::Scheduled => "scheduled",
            State::Executing => "executing",
            State::Retryable => "retryable",
            State::Completed => "completed",
            State::Cancelled => "cancelled",
            State::Discarded => "discarded",
        }
    }
}


/// The columns that a uniqueness check can compare.
#[derive(Clone, Copy, Debug, PartialEq, Eq, Structural)]
pub enum Field {
    Event,
    Queue,
    Priority,
    MaxAttempts,
    ExecutionTimeout,
    Tags,
    Meta,
}

/// The columns that may be replaced in an available job.
#[derive(Clone, Copy, Debug, PartialEq, Eq, Structural)]
pub enum AvailableField {
    Event,
    Queue,
    Priority,
    MaxAttempts,
    ExecutionTimeout,
    Tags,
    Meta,
}

/// The columns that may be replaced in a scheduled job.
#[derive(Clone, Copy, Debug, PartialEq, Eq, Structural)]
pub enum ScheduledField {
    Event,
    Queue,
    Priority,
    MaxAttempts,
    ExecutionTimeout,
    Tags,
    Meta,
}

/// The columns that may be replaced in an executing job.
#[derive(Clone, Copy, Debug, PartialEq, Eq, Structural)]
pub enum ExecutingField {
    MaxAttempts,
    Tags,
    Meta,
}

/// The columns that may be replaced in a retryable job.
#[derive(Clone, Copy, Debug, PartialEq, Eq, Structural)]
pub enum RetryableField {
    Event,
    Priority,
    MaxAttempts,
    ExecutionTimeout,
    Tags,
    Meta,
}

/// The columns that may be replaced in a completed, cancelled or discarded job.
#[derive(Clone, Copy, Debug, PartialEq, Eq, Structural)]
pub enum TerminalField {
    Tags,
    Meta,
}

/// Which columns of an existing job are replaced by a new dispatch, per state of that job.
#[derive(Debug)]
pub enum Replace {
    Available(Vec<AvailableField>),
    Scheduled(Vec<ScheduledField>),
    Executing(Vec<ExecutingField>),
    Retryable(Vec<RetryableField>),
    Completed(Vec<TerminalField>),
    Cancelled(Vec<TerminalField>),
    Discarded(Vec<TerminalField>),
}

pub open spec fn available_column(f: AvailableField) -> Seq<char> {
    match f {
        AvailableField::Event => "payload"@,
        AvailableField::Queue => "queue"@,
        AvailableField::Priority => "priority"@,
        AvailableField::MaxAttempts => "max_attempts"@,
        AvailableField::ExecutionTimeout => "execution_timeout_sec"@,
        AvailableField::Tags => "tags"@,
        AvailableField::Meta => "meta"@,
    }
}

pub open spec fn scheduled_column(f: ScheduledField) -> Seq<char> {
    match f {
        ScheduledField::Event => "payload"@,
        ScheduledField::Queue => "queue"@,
        ScheduledField::Priority => "priority"@,
        ScheduledField::MaxAttempts => "max_attempts"@,
        ScheduledField::ExecutionTimeout => "execution_timeout_sec"@,
        ScheduledField::Tags => "tags"@,
        ScheduledField::Meta => "meta"@,
    }
}

pub open spec fn executing_column(f: ExecutingField) -> Seq<char> {
    match f {
        ExecutingField::MaxAttempts => "max_attempts"@,
        ExecutingField::Tags => "tags"@,
        ExecutingField::Meta => "meta"@,
    }
}

pub open spec fn retryable_column(f: RetryableField) -> Seq<char> {
    match f {
        RetryableField::Event => "payload"@,
        RetryableField::Priority => "priority"@,
        RetryableField::MaxAttempts => "max_attempts"@,
        RetryableField::ExecutionTimeout => "execution_timeout_sec"@,
        RetryableField::Tags => "tags"@,
        RetryableField::Meta => "meta"@,
    }
}

pub open spec fn terminal_column(f: TerminalField) -> Seq<char> {
    match f {
        TerminalField::Tags => "tags"@,
        TerminalField::Meta => "meta"@,
    }
}

impl AvailableField {
    pub fn to_column(&self) -> (r: &'static str)
        ensures
            r@ == available_column(*self),
    {
        match self {
            AvailableField::Event => "payload",
            AvailableField::Queue => "queue",
            AvailableField::Priority => "priority",
            AvailableField::MaxAttempts => "max_attempts",
            AvailableField::ExecutionTimeout => "execution_timeout_sec",
            AvailableField::Tags => "tags",
            AvailableField::Meta => "meta",
        }
    }
}

impl ScheduledField {
    pub fn to_column(&self) -> (r: &'static str)
        ensures
            r@ == scheduled_column(*self),
    {
        match self {
            ScheduledField::Event => "payload",
            ScheduledField::Queue => "queue",
            ScheduledField::Priority => "priority",
            ScheduledField::MaxAttempts => "max_attempts",
            ScheduledField::ExecutionTimeout => "execution_timeout_sec",
            ScheduledField::Tags => "tags",
            ScheduledField::Meta => "meta",
        }
    }
}

impl ExecutingField {
    pub fn to_column(&self) -> (r: &'static str)
        ensures
            r@ == executing_column(*self),
    {
        match self {
            ExecutingField::MaxAttempts => "max_attempts",
            ExecutingField::Tags => "tags",
            ExecutingField::Meta => "meta",
        }
    }
}

impl RetryableField {
    pub fn to_column(&self) -> (r: &'static str)
        ensures
            r@ == retryable_column(*self),
    {
        match self {
            RetryableField::Event => "payload",
            RetryableField::Priority => "priority",
            RetryableField::MaxAttempts => "max_attempts",
            RetryableField::ExecutionTimeout => "execution_timeout_sec",
            RetryableField::Tags => "tags",
            RetryableField::Meta => "meta",
        }
    }
}

impl TerminalField {
    pub fn to_column(&self) -> (r: &'static str)
        ensures
            r@ == terminal_column(*self),
    {
        match self {
            TerminalField::Tags => "tags",
            TerminalField::Meta => "meta",
        }
    }
}

/// The state whose jobs a replacement applies to.
pub open spec fn replace_state(r: Replace) -> State {
    match r {
        Replace::Available(_) => State::Available,
        Replace::Scheduled(_) => State::Scheduled,
        Replace::Executing(_) => State::Executing,
        Replace::Retryable(_) => State::Retryable,
        Replace::Completed(_) => State::Completed,
        Replace::Cancelled(_) => State::Cancelled,
        Replace::Discarded(_) => State::Discarded,
    }
}

/// The columns that a replacement names, in its order.
pub open spec fn replace_columns(r: Replace) -> Seq<Seq<char>> {
    match r {
        Replace::Available(f) => f@.map_values(|x: AvailableField| available_column(x)),
        Replace::Scheduled(f) => f@.map_values(|x: ScheduledField| scheduled_column(x)),
        Replace::Executing(f) => f@.map_values(|x: ExecutingField| executing_column(x)),
        Replace::Retryable(f) => f@.map_values(|x: RetryableField| retryable_column(x)),
        Replace::Completed(f) => f@.map_values(|x: TerminalField| terminal_column(x)),
        Replace::Cancelled(f) => f@.map_values(|x: TerminalField| terminal_column(x)),
        Replace::Discarded(f) => f@.map_values(|x: TerminalField| terminal_column(x)),
    }
}

impl Replace {
    pub fn state(&self) -> (s: State)
        ensures
            s == replace_state(*self),
    {
        match self {
            Replace::Available(_) => State::Available,
            Replace::Scheduled(_) => State::Scheduled,
            Replace::Executing(_) => State::Executing,
            Replace::Retryable(_) => State::Retryable,
            Replace::Completed(_) => State::Completed,
            Replace::Cancelled(_) => State::Cancelled,
            Replace::Discarded(_) => State::Discarded,
        }
    }

    /// The columns that this replacement names, in its order.
    pub fn columns(&self) -> (r: Vec<&'static str>)
        ensures
            r@.len() == replace_columns(*self).len(),
            forall|i: int| 0 <= i < r@.len() ==> #[trigger] r@[i]@ == replace_columns(*self)[i],
    {
        let mut out: Vec<&'static str> = Vec::new();
        match self {
            Replace::Available(f) => {
                for i in 0..f.len()
                    invariant
                        out@.len() == i,
                        forall|j: int| 0 <= j < i ==> #[trigger] out@[j]@ == available_column(f@[j]),
                {
                    out.push(f[i].to_column());
                }
            },
            Replace::Scheduled(f) => {
                for i in 0..f.len()
                    invariant
                        out@.len() == i,
                        forall|j: int| 0 <= j < i ==> #[trigger] out@[j]@ == scheduled_column(f@[j]),
                {
                    out.push(f[i].to_column());
                }
            },
            Replace::Executing(f) => {
                for i in 0..f.len()
                    invariant
                        out@.len() == i,
                        forall|j: int| 0 <= j < i ==> #[trigger] out@[j]@ == executing_column(f@[j]),
                {
                    out.push(f[i].to_column());
                }
            },
            Replace::Retryable(f) => {
                for i in 0..f.len()
                    invariant
                        out@.len() == i,
                        forall|j: int| 0 <= j < i ==> #[trigger] out@[j]@ == retryable_column(f@[j]),
                {
                    out.push(f[i].to_column());
                }
            },
            Replace::Completed(f) | Replace::Cancelled(f) | Replace::Discarded(f) => {
                for i in 0..f.len()
                    invariant
                        out@.len() == i,
                        forall|j: int| 0 <= j < i ==> #[trigger] out@[j]@ == terminal_column(f@[j]),
                {
                    out.push(f[i].to_column());
                }
            },
        }
        out
    }
}

} // verus!
