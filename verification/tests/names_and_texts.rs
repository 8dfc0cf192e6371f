use rust_bus::enums::{
    AvailableField, ExecutingField, Replace, RetryableField, ScheduledField, State, TerminalField, Timestamp,
};
use rust_bus::error::BusError;
use rust_bus::text::{concat2, concat3, i64_to_decimal, str_eq, u64_to_decimal};

#[test]
fn state_names_are_the_stored_names() {
    assert_eq!(State::Available.to_str(), "available");
    assert_eq!(State::Scheduled.to_str(), "scheduled");
    assert_eq!(State::Executing.to_str(), "executing");
    assert_eq!(State::Retryable.to_str(), "retryable");
    assert_eq!(State::Completed.to_str(), "completed");
    assert_eq!(State::Cancelled.to_str(), "cancelled");
    assert_eq!(State::Discarded.to_str(), "discarded");
}

#[test]
fn timestamp_columns() {
    assert_eq!(Timestamp::InsertedAt.column(), "inserted_at");
    assert_eq!(Timestamp::ScheduledAt.column(), "scheduled_at");
}

#[test]
fn field_columns() {
    assert_eq!(AvailableField::Event.to_column(), "payload");
    assert_eq!(AvailableField::Queue.to_column(), "queue");
    assert_eq!(AvailableField::Priority.to_column(), "priority");
    assert_eq!(AvailableField::MaxAttempts.to_column(), "max_attempts");
    assert_eq!(AvailableField::ExecutionTimeout.to_column(), "execution_timeout_sec");
    assert_eq!(AvailableField::Tags.to_column(), "tags");
    assert_eq!(AvailableField::Meta.to_column(), "meta");
    assert_eq!(ScheduledField::Event.to_column(), "payload");
    assert_eq!(ScheduledField::Queue.to_column(), "queue");
    assert_eq!(ExecutingField::MaxAttempts.to_column(), "max_attempts");
    assert_eq!(ExecutingField::Tags.to_column(), "tags");
    assert_eq!(RetryableField::ExecutionTimeout.to_column(), "execution_timeout_sec");
    assert_eq!(RetryableField::Meta.to_column(), "meta");
    assert_eq!(TerminalField::Tags.to_column(), "tags");
    assert_eq!(TerminalField::Meta.to_column(), "meta");
}

#[test]
fn replace_names_its_state_and_columns() {
    let r = Replace::Executing(vec![ExecutingField::Tags, ExecutingField::MaxAttempts]);
    assert_eq!(r.state(), State::Executing);
    assert_eq!(r.columns(), vec!["tags", "max_attempts"]);
    let c = Replace::Cancelled(vec![TerminalField::Meta]);
    assert_eq!(c.state(), State::Cancelled);
    assert_eq!(c.columns(), vec!["meta"]);
    assert!(Replace::Discarded(vec![]).columns().is_empty());
}

#[test]
fn decimals() {
    assert_eq!(u64_to_decimal(0), "0");
    assert_eq!(u64_to_decimal(7), "7");
    assert_eq!(u64_to_decimal(1234567890), "1234567890");
    assert_eq!(u64_to_decimal(u64::MAX), "18446744073709551615");
    assert_eq!(i64_to_decimal(-42), "-42");
    assert_eq!(i64_to_decimal(i64::MIN), "-9223372036854775808");
    assert_eq!(i64_to_decimal(300), "300");
}

#[test]
fn texts_join_and_compare() {
    assert_eq!(concat2("ab", "cd"), "abcd");
    assert_eq!(concat3("a", "", "c"), "ac");
    assert!(str_eq("queue", "queue"));
    assert!(!str_eq("queue", "queues"));
}

#[test]
fn errors_display_their_kind() {
    assert_eq!(BusError::Context("x".to_string()).to_display_string(), "Bus Context error: x");
    assert_eq!(BusError::Handler("x".to_string()).to_display_string(), "Bus Handler error: x");
    assert_eq!(BusError::Serialization("x".to_string()).to_display_string(), "Bus Serialization error: x");
    assert_eq!(BusError::Database("x".to_string()).to_display_string(), "Bus Database error: x");
    assert_eq!(BusError::Configuration("x".to_string()).to_display_string(), "Bus Configuration error: x");
    assert_eq!(BusError::Generic("x".to_string()).to_display_string(), "Bus Generic error: x");
    assert_eq!(BusError::MetaData("x".to_string()).to_display_string(), "Bus MetaData error: x");
}

#[test]
fn job_states_have_distinct_labels() {
    let states = [
        State::Available,
        State::Scheduled,
        State::Executing,
        State::Retryable,
        State::Completed,
        State::Cancelled,
        State::Discarded,
    ];
    let labels: Vec<&str> = states.iter().map(|s| s.to_str()).collect();
    assert_eq!(
        labels,
        vec!["available", "scheduled", "executing", "retryable", "completed", "cancelled", "discarded"]
    );
    let mut unique = labels.clone();
    unique.sort();
    unique.dedup();
    assert_eq!(unique.len(), 7);
}
