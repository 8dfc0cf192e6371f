use rust_bus::config::{lookup_queue, BusQueueConfiguration, BusQueueConfigurationBuilder, QueueConfigBuilder};
use rust_bus::enums::{AvailableField, Period, Replace, ScheduleIn, State, TerminalField};
use rust_bus::error::BusError;
use rust_bus::registration::EventDatabaseHandlerRegistration;
use rust_bus::time::{StdDuration, NANOS_PER_SEC};
use rust_bus::unique::Unique;
use rust_bus::validate::get_validated_handlers;

fn registration(queue: &str) -> EventDatabaseHandlerRegistration {
    EventDatabaseHandlerRegistration {
        handler_identity: "app::SendMail".to_string(),
        event_identity: "app::UserCreated".to_string(),
        queue: queue.to_string(),
        priority: 5,
        max_attempts: None,
        execution_timeout: None,
        tags: vec!["mail".to_string(), "user".to_string()],
        unique: None,
        schedule_in: ScheduleIn::Immediately,
    }
}

fn configuration() -> BusQueueConfiguration<()> {
    let builder = BusQueueConfigurationBuilder::<()>::new()
        .srv_name("node-1".to_string())
        .connection(())
        .add_queue("default".to_string(), QueueConfigBuilder::new())
        .add_queue(
            "mail".to_string(),
            QueueConfigBuilder::new().workers(4).max_attempts(7).execution_timeout(90 * NANOS_PER_SEC),
        );
    assert!(builder.check_before_connect().is_ok());
    let (name, connection, queues) = builder.into_parts();
    BusQueueConfiguration::assemble(name, connection.unwrap(), queues, 2).unwrap()
}

fn configuration_message(r: Result<(), BusError>) -> String {
    match r {
        Err(BusError::Configuration(m)) => m,
        other => panic!("expected a configuration error, got {:?}", other),
    }
}

#[test]
fn queue_builder_defaults_and_settings() {
    let config = configuration();
    let default = config.get_queue("default").unwrap();
    assert_eq!(default.workers, 1);
    assert_eq!(default.max_attempts, 3);
    assert_eq!(default.execution_timeout, 600 * NANOS_PER_SEC);
    assert_eq!(default.empty_queue_delay.as_secs(), 5);
    let mail = config.get_queue("mail").unwrap();
    assert_eq!(mail.workers, 4);
    assert_eq!(mail.max_attempts, 7);
    assert_eq!(mail.execution_timeout, 90 * NANOS_PER_SEC);
    let slow = QueueConfigBuilder::new().empty_queue_delay(StdDuration::from_millis(250));
    let c = BusQueueConfigurationBuilder::<()>::new().add_queue("slow".to_string(), slow);
    let (_, _, queues) = c.into_parts();
    assert_eq!(queues[0].1.empty_queue_delay.as_nanos(), 250_000_000);
    assert_eq!(config.srv_name(), "node-1");
    assert_eq!(config.queues().len(), 2);
    let _: &() = config.get_connection();
}

#[test]
fn an_added_queue_is_found_and_the_others_stay() {
    let builder = BusQueueConfigurationBuilder::<u8>::new().add_queue("a".to_string(), QueueConfigBuilder::new());
    assert!(builder.has_queue("a"));
    assert!(!builder.has_queue("b"));
    let builder = builder.add_queue("b".to_string(), QueueConfigBuilder::new().workers(2));
    assert!(builder.has_queue("a"));
    assert!(builder.has_queue("b"));
    let (_, _, queues) = builder.into_parts();
    assert_eq!(lookup_queue(&queues, "b"), Some(1));
    assert_eq!(lookup_queue(&queues, "a"), Some(0));
    assert_eq!(lookup_queue(&queues, "c"), None);
}

#[test]
fn missing_queue_is_named() {
    let config = configuration();
    match config.get_queue("reports") {
        Err(BusError::Configuration(m)) => assert_eq!(m, "Queue configuration for 'reports' not found"),
        other => panic!("unexpected {:?}", other),
    }
}

#[test]
fn node_name_and_connection_are_checked_first() {
    let fresh = BusQueueConfigurationBuilder::<u8>::new();
    let (name, connection, queues) = fresh.into_parts();
    assert_eq!(name.len(), 36);
    assert_eq!(name.matches('-').count(), 4);
    assert!(connection.is_none());
    assert!(queues.is_empty());

    let empty = BusQueueConfigurationBuilder::<u8>::new().srv_name(String::new()).connection(1);
    assert_eq!(configuration_message(empty.check_before_connect()), "srv_name cannot be empty");

    let long = BusQueueConfigurationBuilder::<u8>::new().srv_name("x".repeat(129)).connection(1);
    assert_eq!(
        configuration_message(long.check_before_connect()),
        "srv_name is too long (129 chars). Maximum is 128."
    );
    let wide = BusQueueConfigurationBuilder::<u8>::new().srv_name("é".repeat(65)).connection(1);
    assert_eq!(
        configuration_message(wide.check_before_connect()),
        "srv_name is too long (130 chars). Maximum is 128."
    );
    let exact = BusQueueConfigurationBuilder::<u8>::new().srv_name("x".repeat(128)).connection(1);
    assert!(exact.check_before_connect().is_ok());

    let unconnected = BusQueueConfigurationBuilder::<u8>::new().srv_name("n".to_string());
    assert_eq!(
        configuration_message(unconnected.check_before_connect()),
        "Database connection must be provided. Use .connection(opts) on the BusQueueConfigurationBuilder."
    );
}

#[test]
fn at_least_one_queue_is_required() {
    match BusQueueConfiguration::assemble("n".to_string(), 0u8, Vec::new(), 2) {
        Err(BusError::Configuration(m)) => assert_eq!(
            m,
            "At least one queue must be configured. Use BusQueueConfigurationBuilder::add_queue(\"queue_name\", QueueConfigBuilder::new().build()) to define your worker queues before calling init()."
        ),
        Ok(_) => panic!("a configuration without queues was accepted"),
        Err(other) => panic!("unexpected {:?}", other),
    }
}

fn validation_message(regs: &Vec<EventDatabaseHandlerRegistration>) -> String {
    let config = configuration();
    let handlers: Vec<usize> = (0..regs.len()).collect();
    match get_validated_handlers(regs, &handlers, &config, 0) {
        Err(BusError::Configuration(m)) => m,
        Err(other) => panic!("unexpected {:?}", other),
        Ok(_) => panic!("the handlers were accepted"),
    }
}

#[test]
fn validated_jobs_take_the_queue_defaults() {
    let config = configuration();
    let now: i128 = 1_700_000_000 * NANOS_PER_SEC;
    let mut later = registration("mail");
    later.schedule_in = ScheduleIn::Duration(StdDuration::from_secs(10));
    later.max_attempts = Some(2);
    later.execution_timeout = Some(-1_500_000_000);
    let regs = vec![registration("default"), later];
    let jobs = get_validated_handlers(&regs, &vec![1, 0], &config, now).unwrap();
    assert_eq!(jobs.len(), 2);
    assert_eq!(jobs[0].reg, 1);
    assert_eq!(jobs[0].max_attempts, 2);
    assert_eq!(jobs[0].timeout_sec, -1);
    assert_eq!(jobs[0].schedule_in, now + 10 * NANOS_PER_SEC);
    assert_eq!(jobs[1].reg, 0);
    assert_eq!(jobs[1].max_attempts, 3);
    assert_eq!(jobs[1].timeout_sec, 600);
    assert_eq!(jobs[1].priority, 5);
    assert_eq!(jobs[1].schedule_in, now);
    assert_eq!(jobs[1].tags_json, "[\"mail\",\"user\"]");
    assert!(get_validated_handlers(&regs, &vec![], &config, now).unwrap().is_empty());
}

#[test]
fn each_validation_error() {
    assert_eq!(validation_message(&vec![registration("missing")]), "Queue configuration for 'missing' not found");

    let mut attempts = registration("default");
    attempts.max_attempts = Some(u32::MAX);
    assert_eq!(validation_message(&vec![attempts]), "Attempts too large");

    let mut timeout = registration("default");
    timeout.execution_timeout = Some((i32::MAX as i128 + 1) * NANOS_PER_SEC);
    assert_eq!(validation_message(&vec![timeout]), "Timeout too large");

    let mut priority = registration("default");
    priority.priority = u32::MAX;
    assert_eq!(validation_message(&vec![priority]), "priority too large");

    let mut schedule = registration("default");
    schedule.schedule_in = ScheduleIn::Duration(StdDuration::from_secs(u64::MAX));
    assert_eq!(validation_message(&vec![schedule]), "schedule_in has incorrect value");

    let mut repeated = registration("default");
    repeated.unique = Some(Unique {
        period: Period::Infinite,
        fields: vec![],
        keys: vec![],
        states: vec![],
        replace: vec![
            Replace::Available(vec![AvailableField::Tags]),
            Replace::Completed(vec![TerminalField::Meta]),
            Replace::Available(vec![AvailableField::Meta]),
        ],
    });
    assert_eq!(validation_message(&vec![repeated]), "replace has non unique value 'available'");
}

#[test]
fn the_first_failing_handler_decides() {
    let mut priority = registration("default");
    priority.priority = u32::MAX;
    let regs = vec![registration("default"), registration("nowhere"), priority];
    assert_eq!(validation_message(&regs), "Queue configuration for 'nowhere' not found");
}

#[test]
fn distinct_replacement_states_are_accepted() {
    let mut reg = registration("default");
    reg.unique = Some(Unique {
        period: Period::Infinite,
        fields: vec![],
        keys: vec![],
        states: vec![State::Available],
        replace: vec![
            Replace::Available(vec![AvailableField::Tags]),
            Replace::Completed(vec![TerminalField::Meta]),
        ],
    });
    let config = configuration();
    assert!(get_validated_handlers(&vec![reg], &vec![0], &config, 0).is_ok());
}

#[test]
fn both_queue_tables_are_required() {
    let queues = vec![("default".to_string(), rust_bus::config::QueueConfiguration {
        workers: 1,
        max_attempts: 3,
        execution_timeout: 600 * NANOS_PER_SEC,
        empty_queue_delay: StdDuration::from_secs(5),
    })];
    for found in [0i64, 1, -1] {
        match BusQueueConfiguration::assemble("n".to_string(), 0u8, queues.clone(), found) {
            Err(BusError::Configuration(m)) => assert_eq!(
                m,
                "Required tables 'bus_jobs' or 'bus_jobs_peers' are missing. Please run migrations from: ../../../migrations/postgres.sql"
            ),
            Ok(_) => panic!("a schema without the tables was accepted"),
            Err(other) => panic!("unexpected {:?}", other),
        }
    }
    match BusQueueConfiguration::assemble("n".to_string(), 0u8, Vec::new(), 1) {
        Err(BusError::Configuration(m)) => assert!(m.starts_with("Required tables")),
        _ => panic!("the table check comes first"),
    }
    let c = BusQueueConfiguration::assemble("n".to_string(), 7u8, queues, 2).unwrap();
    assert_eq!(c.srv_name(), "n");
    assert_eq!(*c.get_connection(), 7);
    assert_eq!(c.queues().len(), 1);
}

fn message(r: Result<BusQueueConfiguration<u8>, BusError>) -> String {
    match r {
        Err(BusError::Configuration(m)) => m,
        Ok(_) => panic!("the build succeeded"),
        Err(other) => panic!("unexpected {:?}", other),
    }
}

#[test]
fn build_checks_in_order() {
    let empty_name = BusQueueConfigurationBuilder::<u8>::new().srv_name(String::new());
    assert_eq!(message(empty_name.build(Err("refused".to_string()))), "srv_name cannot be empty");

    let no_connection = BusQueueConfigurationBuilder::<u8>::new().srv_name("n".to_string());
    assert!(no_connection.connection_ref().is_none());
    assert_eq!(
        message(no_connection.build(Ok(2))),
        "Database connection must be provided. Use .connection(opts) on the BusQueueConfigurationBuilder."
    );

    let no_queue = BusQueueConfigurationBuilder::<u8>::new().srv_name("n".to_string()).connection(3);
    assert_eq!(no_queue.connection_ref(), Some(&3));
    assert_eq!(message(no_queue.build(Err("connection refused".to_string()))), "connection refused");

    let no_queue = BusQueueConfigurationBuilder::<u8>::new().srv_name("n".to_string()).connection(3);
    assert!(message(no_queue.build(Ok(1))).starts_with("Required tables 'bus_jobs' or 'bus_jobs_peers' are missing."));

    let no_queue = BusQueueConfigurationBuilder::<u8>::new().srv_name("n".to_string()).connection(3);
    assert!(message(no_queue.build(Ok(2))).starts_with("At least one queue must be configured."));

    let ready = BusQueueConfigurationBuilder::<u8>::new()
        .srv_name("node-7".to_string())
        .connection(3)
        .add_queue("default".to_string(), QueueConfigBuilder::new());
    let c = ready.build(Ok(2)).unwrap();
    assert_eq!(c.srv_name(), "node-7");
    assert_eq!(*c.get_connection(), 3);
    assert_eq!(c.queues().len(), 1);
    assert_eq!(c.queues()[0].0, "default");
}
