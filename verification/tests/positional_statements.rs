use rust_bus::enums::{AvailableField, Field, Period, Replace, ScheduleIn, State, Timestamp};
use rust_bus::error::BusError;
use rust_bus::registration::EventDatabaseHandlerRegistration;
use rust_bus::sea::{
    key_path, sea_mysql_after_lookup, sea_mysql_lookup, sea_mysql_update, sea_postgres_insert,
    sea_postgres_queue_statement, KeyValue,
};
use rust_bus::sql::{handler_hash, JsonSource, Piece, SqlValue, INSERT_SQL};
use rust_bus::time::{StdDuration, NANOS_PER_SEC};
use rust_bus::unique::Unique;
use rust_bus::validate::ValidatedJob;

fn job() -> ValidatedJob {
    ValidatedJob { reg: 0, max_attempts: 3, timeout_sec: 600, priority: 5, tags_json: "[]".to_string(), schedule_in: 7_000 }
}

fn reg(unique: Option<Unique>) -> EventDatabaseHandlerRegistration {
    EventDatabaseHandlerRegistration {
        handler_identity: "H".to_string(),
        event_identity: "E".to_string(),
        queue: "default".to_string(),
        priority: 0,
        max_attempts: None,
        execution_timeout: None,
        tags: vec![],
        unique,
        schedule_in: ScheduleIn::Immediately,
    }
}

fn unique() -> Unique {
    Unique {
        period: Period::Duration { field: Timestamp::InsertedAt, duration: StdDuration::from_secs(60) },
        fields: vec![Field::Queue, Field::Tags],
        keys: vec!["user_id".to_string(), "org".to_string()],
        states: vec![State::Available, State::Scheduled],
        replace: vec![Replace::Available(vec![AvailableField::Priority])],
    }
}

/// The SQL text with `?` for each bound value, and the bound values in order.
fn question_marks(pieces: &[Piece]) -> (String, Vec<String>) {
    let mut text = String::new();
    let mut values = Vec::new();
    for p in pieces {
        match p {
            Piece::Sql(s) => text.push_str(s),
            Piece::Bind(v) => {
                text.push('?');
                values.push(format!("{:?}", v));
            }
        }
    }
    (text, values)
}

/// The SQL text with `$1`, `$2`, … for the bound values, and their number.
fn numbered(pieces: &[Piece]) -> (String, usize) {
    let mut text = String::new();
    let mut n = 0;
    for p in pieces {
        match p {
            Piece::Sql(s) => text.push_str(s),
            Piece::Bind(_) => {
                n += 1;
                text.push_str(&format!("${}", n));
            }
        }
    }
    (text, n)
}

fn shown(v: SqlValue) -> String {
    format!("{:?}", v)
}

#[test]
fn json_paths_escape_quotes_and_backslashes() {
    assert_eq!(key_path("user_id"), "$.\"user_id\"");
    assert_eq!(key_path("a\"b\\c"), "$.\"a\\\"b\\\\c\"");
    assert_eq!(key_path(""), "$.\"\"");
}

#[test]
fn positional_mysql_lookup() {
    let r = reg(Some(unique()));
    let now = 1_000 * NANOS_PER_SEC;
    let values = vec![KeyValue::Scalar("42".to_string()), KeyValue::Absent];
    let (text, binds) = question_marks(&sea_mysql_lookup(&r, &job(), &values, now).unwrap());
    assert_eq!(
        text,
        "SELECT id, state FROM bus_jobs USE INDEX(idx_bus_jobs_hash_type_name) WHERE hash_type_name = ? AND type_name_handler = ? AND type_name_event = ?  AND inserted_at > ?  AND queue = ?  AND JSON_CONTAINS(tags, ?)  AND payload->>? = ?  AND JSON_CONTAINS_PATH(payload, 'one', ?) = 0  AND bus_jobs.state IN (?, ?)  LIMIT 1 FOR UPDATE "
    );
    assert_eq!(
        binds,
        vec![
            shown(SqlValue::I64(handler_hash(&r))),
            shown(SqlValue::Text("H".to_string())),
            shown(SqlValue::Text("E".to_string())),
            shown(SqlValue::Time(940 * NANOS_PER_SEC)),
            shown(SqlValue::Text("default".to_string())),
            shown(SqlValue::JsonText(JsonSource::Tags)),
            shown(SqlValue::Text("$.\"user_id\"".to_string())),
            shown(SqlValue::Text("42".to_string())),
            shown(SqlValue::Text("$.\"org\"".to_string())),
            shown(SqlValue::Text("available".to_string())),
            shown(SqlValue::Text("scheduled".to_string())),
        ]
    );
}

#[test]
fn positional_mysql_key_conditions_follow_the_value() {
    let mut u = unique();
    u.fields = vec![];
    u.states = vec![];
    u.period = Period::Infinite;
    u.keys = vec!["a".to_string(), "b".to_string()];
    let r = reg(Some(u));
    let (text, binds) =
        question_marks(&sea_mysql_lookup(&r, &job(), &vec![KeyValue::Null, KeyValue::Composite], 0).unwrap());
    assert!(text.ends_with(
        "= ?  AND JSON_EXTRACT(payload, ?) IS NULL  AND JSON_EXTRACT(payload, ?) = CAST(? AS JSON)  LIMIT 1 FOR UPDATE "
    ));
    assert_eq!(binds[4], shown(SqlValue::Text("$.\"b\"".to_string())));
    assert_eq!(binds[5], shown(SqlValue::JsonText(JsonSource::EventKey("b".to_string()))));
}

#[test]
fn positional_mysql_lookup_refuses_a_period_beyond_a_time_delta() {
    let mut u = unique();
    u.period = Period::Duration { field: Timestamp::ScheduledAt, duration: StdDuration::from_secs(u64::MAX) };
    match sea_mysql_lookup(&reg(Some(u)), &job(), &vec![KeyValue::Absent, KeyValue::Absent], 0) {
        Err(BusError::Configuration(m)) => assert_eq!(m, "period.duration has incorrect value for DataBase Handler 'H'"),
        other => panic!("unexpected {:?}", other),
    }
}

#[test]
fn positional_mysql_update_and_insert() {
    let r = reg(Some(unique()));
    let (text, binds) = question_marks(&sea_mysql_update(&r, &job(), vec![7]).unwrap());
    assert_eq!(text, "UPDATE bus_jobs SET priority = CASE WHEN state IN (?) THEN  ?  ELSE `priority` END WHERE id = ? ");
    assert_eq!(
        binds,
        vec![shown(SqlValue::Text("available".to_string())), shown(SqlValue::I32(5)), shown(SqlValue::Bytes(vec![7]))]
    );
    assert!(sea_mysql_update(&reg(None), &job(), vec![7]).is_none());
    assert!(sea_mysql_after_lookup(&reg(None), &job(), Some(vec![7]), 0).is_none());
    let (insert, _) = question_marks(&sea_mysql_after_lookup(&reg(None), &job(), None, 0).unwrap());
    assert!(insert.starts_with(INSERT_SQL));
}

#[test]
fn positional_postgres_statement() {
    let r = reg(Some(unique()));
    let pieces = sea_postgres_insert(&r, &job(), &vec![false, true], 3, 60 * NANOS_PER_SEC).unwrap();
    let (text, n) = numbered(&pieces);
    let expected = format!(
        "WITH existing_job AS ( SELECT id, state FROM bus_jobs WHERE hash_type_name = $1 AND type_name_handler = $2 AND type_name_event = $3  AND inserted_at > $4  AND queue = $5  AND tags @> $6  AND payload -> $7 IS NULL  AND payload -> $8 = $9  AND bus_jobs.state IN ($10::bus_job_state, $11::bus_job_state)  LIMIT 1 FOR UPDATE),  updated_job AS (  UPDATE bus_jobs SET priority = CASE WHEN bus_jobs.state IN ($12::bus_job_state) THEN $13 ELSE bus_jobs.priority END FROM existing_job WHERE bus_jobs.id = existing_job.id RETURNING bus_jobs.id ) {}SELECT $14, $15, $16, $17, NULL, NULL, NULL, NULL, 'available'::bus_job_state, $18, 0, $19, $20, $21, $22, $23, $24, $25, $26, $27, $28  WHERE NOT EXISTS (SELECT 1 FROM existing_job)  AND NOT EXISTS (SELECT 1 FROM updated_job)",
        INSERT_SQL
    );
    assert_eq!(text, expected);
    assert_eq!(n, 28);
    let (_, binds) = question_marks(&pieces);
    assert_eq!(binds[3], shown(SqlValue::Time(0)));
    assert_eq!(binds[8], shown(SqlValue::Json(JsonSource::EventKey("org".to_string()))));
    assert_eq!(binds[13], shown(SqlValue::Uuid(3)));
    assert_eq!(binds[15], shown(SqlValue::Time(60 * NANOS_PER_SEC)));
}

#[test]
fn positional_postgres_without_replacement() {
    let pieces = sea_postgres_queue_statement(&reg(None), &job(), &vec![], 0).unwrap();
    let (text, n) = numbered(&pieces);
    assert!(text.contains("LIMIT 1 FOR UPDATE),  updated_job AS (  SELECT id FROM existing_job ) "));
    assert_eq!(n, 18);
}

#[test]
fn claiming_fetched_jobs() {
    let (text, binds) = question_marks(&rust_bus::sea::sea_mysql_claim(&vec![1, 2, 3], 5));
    assert_eq!(text, "UPDATE bus_jobs SET state = 'executing', attempted_at = ?, attempt = attempt + 1 WHERE id IN (?,?,?)");
    assert_eq!(binds[0], shown(SqlValue::Time(5)));
    assert_eq!(binds[3], shown(SqlValue::Uuid(3)));
    let (text, binds) = question_marks(&rust_bus::sql::mysql_claim(vec![vec![1], vec![2]], 5));
    assert_eq!(text, "UPDATE bus_jobs SET state = 'executing', attempted_at = ?, attempt = attempt + 1 WHERE id IN (?, ?)");
    assert_eq!(binds[2], shown(SqlValue::Bytes(vec![2])));
    let (single, _) = question_marks(&rust_bus::sea::sea_mysql_claim(&vec![9], 0));
    assert!(single.ends_with("WHERE id IN (?)"));
}
