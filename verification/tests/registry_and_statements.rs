use std::hash::Hasher;

use rust_bus::config::{BusQueueConfigurationBuilder, QueueConfigBuilder};
use rust_bus::enums::{
    AvailableField, ExecutingField, Field, Period, Replace, ScheduleIn, ScheduledField, State, TerminalField,
    Timestamp,
};
use rust_bus::error::BusError;
use rust_bus::plan::update_case;
use rust_bus::registration::{EventDatabaseHandlerRegistration, EventHandlerRegistration};
use rust_bus::registry::{group_database_handlers, group_memory_handlers};
use rust_bus::sql::{
    handler_hash, insert_lock_key, mysql_after_lookup, mysql_insert, mysql_lookup, mysql_update, postgres_insert,
    postgres_queue_statement, Piece, INSERT_SQL,
};
use rust_bus::time::{StdDuration, NANOS_PER_SEC};
use rust_bus::unique::Unique;
use rust_bus::validate::ValidatedJob;

fn memory(handler: &str, event: &str, context: &str) -> EventHandlerRegistration {
    EventHandlerRegistration {
        handler_identity: handler.to_string(),
        event_identity: event.to_string(),
        context_identity: context.to_string(),
    }
}

fn database(handler: &str, event: &str, queue: &str) -> EventDatabaseHandlerRegistration {
    EventDatabaseHandlerRegistration {
        handler_identity: handler.to_string(),
        event_identity: event.to_string(),
        queue: queue.to_string(),
        priority: 0,
        max_attempts: None,
        execution_timeout: None,
        tags: vec![],
        unique: None,
        schedule_in: ScheduleIn::Immediately,
    }
}

fn job() -> ValidatedJob {
    ValidatedJob {
        reg: 0,
        max_attempts: 3,
        timeout_sec: 600,
        priority: 5,
        tags_json: "[]".to_string(),
        schedule_in: 7_000,
    }
}

fn xxh3(bytes: &[u8]) -> i64 {
    let mut hasher = twox_hash::XxHash3_64::with_seed(0);
    hasher.write(bytes);
    hasher.finish() as i64
}

/// A statement written out: SQL text as it is, each bound value in brackets.
fn render(pieces: &[Piece]) -> String {
    let mut out = String::new();
    for p in pieces {
        match p {
            Piece::Sql(s) => out.push_str(s),
            Piece::Bind(v) => out.push_str(&format!("[{:?}]", v)),
        }
    }
    out
}

#[test]
fn handlers_share_a_group_exactly_when_they_share_an_event() {
    let regs = vec![
        memory("a::H1", "a::E1", ""),
        memory("a::H2", "a::E2", ""),
        memory("a::H3", "a::E1", ""),
    ];
    let groups = group_memory_handlers(&regs).unwrap();
    assert_eq!(groups.events, vec!["a::E1".to_string(), "a::E2".to_string()]);
    assert_eq!(groups.first, vec![0, 1]);
    assert_eq!(groups.group_of, vec![0, 1, 0]);
    assert_eq!(groups.handlers_of(0), vec![0, 2]);
    assert_eq!(groups.handlers_of(1), vec![1]);
    assert_eq!(groups.find_event(&"a::E2".to_string()), Some(1));
    assert_eq!(groups.find_event(&"a::E3".to_string()), None);
}

#[test]
fn handlers_of_one_event_share_a_context() {
    let regs = vec![
        memory("a::H1", "a::E1", "a::Ctx"),
        memory("a::H2", "a::E2", ""),
        memory("a::H3", "a::E1", "a::Other"),
    ];
    match group_memory_handlers(&regs) {
        Err(BusError::Configuration(m)) => assert_eq!(
            m,
            "Context mismatch for memory event 'a::E1': handler 'a::H1' requires a::Ctx, but handler 'a::H3' requires a::Other"
        ),
        other => panic!("unexpected {:?}", other),
    }
}

#[test]
fn database_handlers_need_a_configured_queue() {
    let builder = BusQueueConfigurationBuilder::<u8>::new().add_queue("default".to_string(), QueueConfigBuilder::new());
    let regs = vec![database("a::H1", "a::E1", "default"), database("a::H2", "a::E1", "mail")];
    match group_database_handlers(&regs, &builder) {
        Err(BusError::Configuration(m)) => assert_eq!(
            m,
            "Handler 'a::H2' points to queue 'mail', but it is not configured. Add .add_queue(\"mail\", ...) to builder."
        ),
        other => panic!("unexpected {:?}", other),
    }
}

#[test]
fn database_handlers_with_one_hash_are_refused() {
    let builder = BusQueueConfigurationBuilder::<u8>::new().add_queue("default".to_string(), QueueConfigBuilder::new());
    let regs = vec![database("a::H1", "a::E1", "default"), database("a::H1", "a::E1", "default")];
    match group_database_handlers(&regs, &builder) {
        Err(BusError::Configuration(m)) => assert_eq!(
            m,
            "Hash collision detected for handler 'a::H1'. This is extremely rare, but you might need to rename it."
        ),
        other => panic!("unexpected {:?}", other),
    }
}

#[test]
fn database_handlers_are_grouped_with_their_hashes() {
    let builder = BusQueueConfigurationBuilder::<u8>::new().add_queue("default".to_string(), QueueConfigBuilder::new());
    let regs = vec![
        database("a::H1", "a::E1", "default"),
        database("a::H2", "a::E2", "default"),
        database("a::H3", "a::E1", "default"),
    ];
    let d = group_database_handlers(&regs, &builder).unwrap();
    assert_eq!(d.groups.group_of, vec![0, 1, 0]);
    assert_eq!(d.hashes.len(), 3);
    assert_eq!(d.hashes[0], xxh3(b"a::H1a::E1"));
    assert_eq!(d.hashes[2], handler_hash(&regs[2]));
    assert_eq!(d.by_hash.len(), 3);
    assert_eq!(d.by_hash.get(&xxh3(b"a::H2a::E2")), Some(&1));
    assert_eq!(d.by_hash.get(&handler_hash(&regs[2])), Some(&2));
    assert_eq!(d.by_hash.get(&xxh3(b"a::H9a::E9")), None);
}

#[test]
fn handler_hash_is_xxh3_of_handler_then_event() {
    let reg = database("app::SendMail", "app::UserCreated", "default");
    let h = handler_hash(&reg);
    assert_eq!(h, xxh3(b"app::SendMailapp::UserCreated"));
    assert_ne!(h, handler_hash(&database("app::UserCreated", "app::SendMail", "default")));
}

#[test]
fn insert_lock_key_hashes_the_job_and_its_payload() {
    let reg = database("H", "E", "q");
    let payload = b"{\"id\":1}".to_vec();
    assert_eq!(insert_lock_key(&reg, &payload), xxh3(b"bus.insertHEq{\"id\":1}"));
    assert_ne!(insert_lock_key(&reg, &payload), insert_lock_key(&reg, &b"{\"id\":2}".to_vec()));
}

#[test]
fn replaced_columns_are_grouped_by_column_in_order() {
    let replace = vec![
        Replace::Available(vec![AvailableField::Tags, AvailableField::Priority]),
        Replace::Scheduled(vec![ScheduledField::Priority]),
        Replace::Executing(vec![ExecutingField::Tags]),
        Replace::Completed(vec![TerminalField::Meta]),
    ];
    let u = update_case(&replace);
    assert_eq!(
        u,
        vec![
            ("tags", vec![State::Available, State::Executing]),
            ("priority", vec![State::Available, State::Scheduled]),
            ("meta", vec![State::Completed]),
        ]
    );
    assert!(update_case(&vec![]).is_empty());
}

fn unique_reg() -> EventDatabaseHandlerRegistration {
    let mut reg = database("H", "E", "default");
    reg.unique = Some(Unique {
        period: Period::Duration { field: Timestamp::InsertedAt, duration: StdDuration::from_secs(60) },
        fields: vec![Field::Queue, Field::Tags],
        keys: vec!["user_id".to_string(), "org".to_string()],
        states: vec![State::Available, State::Scheduled],
        replace: vec![Replace::Available(vec![AvailableField::Priority])],
    });
    reg
}

#[test]
fn mysql_lookup_of_a_matching_job() {
    let reg = unique_reg();
    let now: i128 = 1_000 * NANOS_PER_SEC;
    let pieces = mysql_lookup(&reg, &job(), &vec![true, false], now).unwrap();
    let h = handler_hash(&reg);
    let expected = format!(
        "SELECT id, state FROM bus_jobs USE INDEX(idx_bus_jobs_hash_type_name) WHERE hash_type_name = [I64({})] AND type_name_handler = [Text(\"H\")] AND type_name_event = [Text(\"E\")] AND inserted_at > [Time({})] AND queue = [Text(\"default\")] AND JSON_CONTAINS(tags, [JsonText(Tags)]) AND JSON_EXTRACT(payload, [Text(\"$.user_id\")]) = CAST([JsonText(EventKey(\"user_id\"))] AS JSON) AND JSON_EXTRACT(payload, [Text(\"$.org\")]) IS NULL AND bus_jobs.state IN ([Text(\"available\")], [Text(\"scheduled\")]) LIMIT 1 FOR UPDATE ",
        h,
        940 * NANOS_PER_SEC
    );
    assert_eq!(render(&pieces), expected);
}

#[test]
fn mysql_lookup_without_uniqueness_matches_on_the_handler() {
    let reg = database("H", "E", "default");
    let pieces = mysql_lookup(&reg, &job(), &vec![], 0).unwrap();
    assert_eq!(
        render(&pieces),
        format!(
            "SELECT id, state FROM bus_jobs USE INDEX(idx_bus_jobs_hash_type_name) WHERE hash_type_name = [I64({})] AND type_name_handler = [Text(\"H\")] AND type_name_event = [Text(\"E\")] LIMIT 1 FOR UPDATE ",
            handler_hash(&reg)
        )
    );
}

#[test]
fn a_period_beyond_a_time_delta_is_refused() {
    let mut reg = database("app::H", "E", "default");
    reg.unique = Some(Unique {
        period: Period::Duration { field: Timestamp::ScheduledAt, duration: StdDuration::from_secs(u64::MAX) },
        fields: vec![],
        keys: vec![],
        states: vec![],
        replace: vec![],
    });
    match mysql_lookup(&reg, &job(), &vec![], 0) {
        Err(BusError::Configuration(m)) => {
            assert_eq!(m, "period.duration has incorrect value for DataBase Handler 'app::H'")
        }
        other => panic!("unexpected {:?}", other),
    }
    assert!(postgres_insert(&reg, &job(), &vec![], 1, 0).is_err());
}

#[test]
fn mysql_update_of_the_replaced_columns() {
    let reg = unique_reg();
    let pieces = mysql_update(&reg, &job(), vec![1, 2]).unwrap();
    assert_eq!(
        render(&pieces),
        "UPDATE bus_jobs SET priority = CASE WHEN state IN ([Text(\"available\")]) THEN [I32(5)] ELSE `priority` END WHERE id = [Bytes([1, 2])]"
    );
    assert!(mysql_update(&database("H", "E", "default"), &job(), vec![1]).is_none());
}

#[test]
fn mysql_insert_of_a_new_job() {
    let reg = database("H", "E", "q");
    let pieces = mysql_insert(&reg, &job(), 9, 100);
    let expected = format!(
        "{} VALUES ([Uuid(9)], [I64({})], [Time(100)], [Time(7000)], [NullTime], [NullTime], [NullTime], [NullTime], [Text(\"available\")], [I32(5)], [I32(0)], [I32(3)], [I32(600)], [Text(\"q\")], [Text(\"E\")], [Text(\"H\")], [JsonText(Event)], [JsonText(Meta)], [JsonText(Tags)], [Text(\"[]\")], [Text(\"[]\")])",
        INSERT_SQL,
        handler_hash(&reg)
    );
    assert_eq!(render(&pieces), expected);
}

#[test]
fn mysql_after_lookup_updates_or_inserts() {
    let reg = unique_reg();
    let update = mysql_after_lookup(&reg, &job(), Some(vec![3]), 0).unwrap();
    assert!(render(&update).starts_with("UPDATE bus_jobs SET "));
    let plain = database("H", "E", "q");
    assert!(mysql_after_lookup(&plain, &job(), Some(vec![3]), 0).is_none());
    let insert = mysql_after_lookup(&plain, &job(), None, 0).unwrap();
    assert!(render(&insert).starts_with(INSERT_SQL));
    assert!(matches!(insert[2], Piece::Bind(_)));
    assert_version_seven(first_uuid(&insert));
}

fn first_uuid(pieces: &[Piece]) -> u128 {
    pieces
        .iter()
        .find_map(|p| match p {
            Piece::Bind(rust_bus::sql::SqlValue::Uuid(u)) => Some(*u),
            _ => None,
        })
        .expect("the insert binds an identifier")
}

fn assert_version_seven(id: u128) {
    assert_eq!((id >> 76) & 0xf, 7);
    assert_eq!((id >> 62) & 0x3, 2);
}

#[test]
fn new_jobs_get_time_ordered_identifiers() {
    let plain = database("H", "E", "q");
    let first = first_uuid(&mysql_after_lookup(&plain, &job(), None, 0).unwrap());
    let second = first_uuid(&postgres_queue_statement(&plain, &job(), &vec![], 0).unwrap());
    assert_version_seven(first);
    assert_version_seven(second);
    assert_ne!(first, second);
    assert!(first >> 80 <= second >> 80);
}

#[test]
fn postgres_queues_in_one_statement() {
    let reg = unique_reg();
    let pieces = postgres_insert(&reg, &job(), &vec![false, true], 11, 60 * NANOS_PER_SEC).unwrap();
    let h = handler_hash(&reg);
    let expected = format!(
        "WITH existing_job AS ( SELECT id, state FROM bus_jobs WHERE hash_type_name = [I64({h})] AND type_name_handler = [Text(\"H\")] AND type_name_event = [Text(\"E\")] AND inserted_at > [Time(0)] AND queue = [Text(\"default\")] AND tags @> [Json(Tags)] AND payload -> [Text(\"user_id\")] IS NULL AND payload -> [Text(\"org\")] = [Json(EventKey(\"org\"))] AND bus_jobs.state IN ([Text(\"available\")]::bus_job_state, [Text(\"scheduled\")]::bus_job_state) LIMIT 1 FOR UPDATE),  updated_job AS ( UPDATE bus_jobs SET priority = CASE WHEN bus_jobs.state IN ([Text(\"available\")]::bus_job_state) THEN [I32(5)] ELSE bus_jobs.priority END FROM existing_job WHERE bus_jobs.id = existing_job.id RETURNING bus_jobs.id ) {INSERT_SQL}SELECT [Uuid(11)], [I64({h})], [Time(60000000000)], [Time(7000)], [NullTime], [NullTime], [NullTime], [NullTime],  'available'::bus_job_state , [I32(5)], [I32(0)], [I32(3)], [I32(600)], [Text(\"default\")], [Text(\"E\")], [Text(\"H\")], [Json(Event)], [Json(Meta)], [Json(Tags)], [Json(EmptyArray)], [Json(EmptyArray)] WHERE NOT EXISTS (SELECT 1 FROM existing_job)  AND NOT EXISTS (SELECT 1 FROM updated_job) "
    );
    assert_eq!(render(&pieces), expected);
}

#[test]
fn postgres_without_replacement_selects_the_existing_job() {
    let reg = database("H", "E", "q");
    let pieces = postgres_queue_statement(&reg, &job(), &vec![], 0).unwrap();
    let text = render(&pieces);
    assert!(text.contains(" updated_job AS (SELECT id FROM existing_job) "));
    assert!(text.ends_with(" AND NOT EXISTS (SELECT 1 FROM updated_job) "));
}
