//! The registrations of handlers: what the bus knows of each handler.
use crate::enums::ScheduleIn;
use crate::unique::Unique;
use vstd::prelude::*;

verus! {

/// A handler that runs in memory, in the dispatching task.
#[derive(Debug)]
pub struct EventHandlerRegistration {
    pub handler_identity: String,
    pub event_identity: String,
    /// The context type the handler takes; empty where handlers take no context.
    pub context_identity: String,
}

/// A handler that runs from the database queue.
#[derive(Debug)]
pub struct EventDatabaseHandlerRegistration {
    pub handler_identity: String,
    pub event_identity: String,
    pub queue: String,
    pub priority: u32,
    pub max_attempts: Option<u32>,
    /// How long a job may run (a `chrono::TimeDelta`, in nanoseconds).
    pub execution_timeout: Option<i128>,
    pub tags: Vec<String>,
    pub unique: Option<Unique>,
    pub schedule_in: ScheduleIn,
}

} // verus!
