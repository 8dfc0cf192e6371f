//! An event bus: in-memory dispatch of events to handlers, and a database-backed
//! job queue whose rules (validation of handler registrations, uniqueness and
//! replacement of queued jobs, retries with backoff, worker decisions) are stated
//! and proved here.

pub mod codegen;
pub mod config;
pub mod dispatch;
pub mod enums;
pub mod error;
pub mod job_laws;
pub mod job_sql;
pub mod laws;
pub mod metadata;
pub mod outcome;
pub(crate) mod outside;
pub mod plan;
pub mod registration;
pub mod registry;
pub mod sea;
pub mod sql;
pub mod text;
pub mod time;
pub mod unique;
pub mod validate;
pub mod worker;
