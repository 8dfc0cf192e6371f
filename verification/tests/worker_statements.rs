use rust_bus::job_sql::{
    failure_statement, fetch_statement, heartbeat_statement, mysql_failure_statement, mysql_fetch_statement,
    mysql_heartbeat_statement, mysql_shutdown_statement, mysql_success_statement, mysql_timed_out_statement,
    shutdown_statement, success_statement, timed_out_statement,
};
use rust_bus::outcome::FailurePlan;
use rust_bus::sql::{JsonSource, Piece, SqlValue};

/// The statement's text as Postgres receives it, with `$n` for the n-th bound value,
/// and its bound values.
fn render(pieces: Vec<Piece>) -> (String, Vec<SqlValue>) {
    let mut text = String::new();
    let mut values = Vec::new();
    for piece in pieces {
        match piece {
            Piece::Sql(t) => text.push_str(&t),
            Piece::Bind(v) => {
                values.push(v);
                text.push_str(&format!("${}", values.len()));
            }
        }
    }
    (text, values)
}

fn squeezed(s: &str) -> String {
    s.chars().filter(|c| !c.is_whitespace()).collect()
}

#[test]
fn fetch_takes_due_jobs_by_priority() {
    let (text, values) = render(fetch_statement("emails", 42, 7));
    assert_eq!(
        squeezed(&text),
        squeezed(
            "WITH selected AS (
                SELECT id FROM bus_jobs
                WHERE queue = $1
                  AND state IN ('available'::bus_job_state, 'retryable'::bus_job_state)
                  AND scheduled_at <= $2
                ORDER BY priority DESC, scheduled_at ASC, id ASC
                LIMIT $3
                FOR UPDATE SKIP LOCKED
            )
            UPDATE bus_jobs
            SET state = 'executing'::bus_job_state, attempted_at = $4, attempt = attempt + 1
            FROM selected
            WHERE bus_jobs.id = selected.id
            RETURNING bus_jobs.id, bus_jobs.hash_type_name, bus_jobs.attempt, bus_jobs.max_attempts,
                bus_jobs.execution_timeout_sec, bus_jobs.type_name_event, bus_jobs.type_name_handler,
                bus_jobs.payload, bus_jobs.meta, bus_jobs.tags, bus_jobs.errors"
        )
    );
    assert_eq!(values.len(), 4);
    assert!(matches!(&values[0], SqlValue::Text(q) if q == "emails"));
    assert!(matches!(values[1], SqlValue::Time(42)));
    assert!(matches!(values[2], SqlValue::I64(7)));
    assert!(matches!(values[3], SqlValue::Time(42)));
}

#[test]
fn success_completes_an_executing_job() {
    let (text, values) = render(success_statement(9, 100));
    assert_eq!(
        squeezed(&text),
        squeezed(
            "UPDATE bus_jobs SET state = 'completed'::bus_job_state, completed_at = $1
             WHERE id = $2 AND state = 'executing'::bus_job_state"
        )
    );
    assert!(matches!(values[..], [SqlValue::Time(100), SqlValue::Uuid(9)]));
}

#[test]
fn failure_retries_or_discards() {
    let (text, values) = render(failure_statement(5, FailurePlan::Retry { scheduled_at: 700 }));
    assert_eq!(
        squeezed(&text),
        squeezed(
            "UPDATE bus_jobs SET state = 'retryable'::bus_job_state, scheduled_at = $1,
                errors = COALESCE(errors, '[]'::jsonb) || $2::jsonb
             WHERE id = $3 AND state = 'executing'::bus_job_state"
        )
    );
    assert!(matches!(
        values[..],
        [SqlValue::Time(700), SqlValue::Json(JsonSource::Errors), SqlValue::Uuid(5)]
    ));

    let (text, values) = render(failure_statement(5, FailurePlan::Discard { discarded_at: 600 }));
    assert_eq!(
        squeezed(&text),
        squeezed(
            "UPDATE bus_jobs SET state = 'discarded'::bus_job_state, discarded_at = $1,
                errors = COALESCE(errors, '[]'::jsonb) || $2::jsonb
             WHERE id = $3 AND state = 'executing'::bus_job_state"
        )
    );
    assert!(matches!(
        values[..],
        [SqlValue::Time(600), SqlValue::Json(JsonSource::Errors), SqlValue::Uuid(5)]
    ));
}

#[test]
fn shutdown_returns_the_job_uncounted() {
    let (text, values) = render(shutdown_statement(3));
    assert_eq!(
        squeezed(&text),
        squeezed(
            "UPDATE bus_jobs SET
                state = CASE WHEN (attempt - 1) > 0 THEN 'retryable'::bus_job_state
                             ELSE 'available'::bus_job_state END,
                attempt = attempt - 1,
                errors = COALESCE(errors, '[]'::jsonb) || $1::jsonb
             WHERE id = $2 AND state = 'executing'::bus_job_state"
        )
    );
    assert!(matches!(values[..], [SqlValue::Json(JsonSource::Errors), SqlValue::Uuid(3)]));
}

#[test]
fn timed_out_jobs_are_found_a_hundred_at_a_time() {
    let (text, values) = render(timed_out_statement(77));
    assert_eq!(
        squeezed(&text),
        squeezed(
            "SELECT id, hash_type_name, attempt, max_attempts, execution_timeout_sec, type_name_event,
                type_name_handler, payload, meta, tags, errors
             FROM bus_jobs
             WHERE state = 'executing'::bus_job_state
               AND attempted_at + (interval '1 second' * execution_timeout_sec) < $1
             LIMIT 100"
        )
    );
    assert!(matches!(values[..], [SqlValue::Time(77)]));
}

#[test]
fn heartbeat_expires_after_the_timeout() {
    let (text, values) = render(heartbeat_statement("peer-a", 11, 1_000, 30));
    assert_eq!(
        squeezed(&text),
        squeezed(
            "INSERT INTO bus_jobs_peers (name, node, started_at, expires_at)
             VALUES ($1, $2, $3, $4)
             ON CONFLICT (name) DO UPDATE SET node = EXCLUDED.node, expires_at = EXCLUDED.expires_at"
        )
    );
    assert_eq!(values.len(), 4);
    assert!(matches!(&values[0], SqlValue::Text(n) if n == "peer-a"));
    assert!(matches!(values[1], SqlValue::Uuid(11)));
    assert!(matches!(values[2], SqlValue::Time(1_000)));
    assert!(matches!(values[3], SqlValue::Time(t) if t == 1_000 + 30_000_000_000));
}

#[test]
fn a_failed_run_is_recorded_as_planned() {
    let (text, values) = render(failure_statement(8, rust_bus::outcome::plan_failure(1, 3, 1_000, 120)));
    assert!(text.contains("'retryable'::bus_job_state, scheduled_at = $1"));
    assert!(matches!(values[0], SqlValue::Time(1_120)));
    let (text, values) = render(failure_statement(8, rust_bus::outcome::plan_failure(3, 3, 1_000, 120)));
    assert!(text.contains("'discarded'::bus_job_state, discarded_at = $1"));
    assert!(matches!(values[0], SqlValue::Time(1_000)));
    assert!(matches!(values[2], SqlValue::Uuid(8)));
}

/// The statement's text as MySQL receives it, with `?` for each bound value, and its
/// bound values.
fn render_mysql(pieces: Vec<Piece>) -> (String, Vec<SqlValue>) {
    let mut text = String::new();
    let mut values = Vec::new();
    for piece in pieces {
        match piece {
            Piece::Sql(t) => text.push_str(&t),
            Piece::Bind(v) => {
                values.push(v);
                text.push('?');
            }
        }
    }
    (text, values)
}

#[test]
fn mysql_fetch_locks_due_jobs_by_priority() {
    let (text, values) = render_mysql(mysql_fetch_statement("emails", 42, 7));
    assert_eq!(
        squeezed(&text),
        squeezed(
            "SELECT
                id, hash_type_name, attempt + 1 as attempt, max_attempts, execution_timeout_sec,
                type_name_event, type_name_handler, payload, meta, tags, errors
            FROM bus_jobs USE INDEX(idx_bus_jobs_fetch_available)
            WHERE queue = ?
              AND state IN ('available', 'retryable')
              AND scheduled_at <= ?
            ORDER BY priority DESC, scheduled_at ASC, id ASC
            LIMIT ?
            FOR UPDATE SKIP LOCKED"
        )
    );
    assert!(matches!(&values[0], SqlValue::Text(q) if q == "emails"));
    assert!(matches!(values[1..], [SqlValue::Time(42), SqlValue::I64(7)]));
}

#[test]
fn mysql_records_how_a_run_ended() {
    let (text, values) = render_mysql(mysql_success_statement(vec![1, 2], 100));
    assert_eq!(
        squeezed(&text),
        squeezed("UPDATE bus_jobs SET state = 'completed', completed_at = ? WHERE id = ? AND state = 'executing'")
    );
    assert!(matches!(&values[..], [SqlValue::Time(100), SqlValue::Bytes(b)] if *b == vec![1, 2]));

    let (text, values) = render_mysql(mysql_failure_statement(vec![4], FailurePlan::Retry { scheduled_at: 700 }));
    assert_eq!(
        squeezed(&text),
        squeezed(
            "UPDATE bus_jobs
             SET state = 'retryable',
                 scheduled_at = ?,
                 errors = JSON_ARRAY_APPEND(
                     COALESCE(errors, CAST('[]' AS JSON)),
                     '$',
                     CAST(? AS JSON)
                 )
             WHERE id = ?
               AND state = 'executing'"
        )
    );
    assert!(matches!(
        &values[..],
        [SqlValue::Time(700), SqlValue::JsonText(JsonSource::Errors), SqlValue::Bytes(b)] if *b == vec![4]
    ));

    let (text, values) = render_mysql(mysql_failure_statement(vec![4], FailurePlan::Discard { discarded_at: 600 }));
    assert!(squeezed(&text).starts_with(&squeezed("UPDATE bus_jobs SET state = 'discarded', discarded_at = ?,")));
    assert!(matches!(values[0], SqlValue::Time(600)));
}

#[test]
fn mysql_shutdown_and_timed_out_jobs() {
    let (text, values) = render_mysql(mysql_shutdown_statement(vec![3]));
    assert_eq!(
        squeezed(&text),
        squeezed(
            "UPDATE bus_jobs
             SET
                 state = CASE
                     WHEN (attempt - 1) > 0 THEN 'retryable'
                     ELSE 'available'
                 END,
                 attempt = attempt - 1,
                 errors = JSON_ARRAY_APPEND(IFNULL(errors, CAST('[]' AS JSON)), '$', CAST(? AS JSON))
             WHERE id = ?
               AND state = 'executing'"
        )
    );
    assert!(matches!(&values[..], [SqlValue::JsonText(JsonSource::Errors), SqlValue::Bytes(b)] if *b == vec![3]));

    let (text, values) = render_mysql(mysql_timed_out_statement(77));
    assert_eq!(
        squeezed(&text),
        squeezed(
            "SELECT
                id, hash_type_name, attempt, max_attempts,
                execution_timeout_sec, type_name_event, type_name_handler,
                payload, meta, tags, errors
            FROM bus_jobs
            WHERE state = 'executing'
              AND DATE_ADD(attempted_at, INTERVAL execution_timeout_sec SECOND) < ?
            LIMIT 100"
        )
    );
    assert!(matches!(values[..], [SqlValue::Time(77)]));
}

#[test]
fn mysql_heartbeat_upserts_the_peer() {
    let (text, values) = render_mysql(mysql_heartbeat_statement("peer-b", vec![9, 9], 1_000, 60));
    assert_eq!(
        squeezed(&text),
        squeezed(
            "INSERT INTO bus_jobs_peers (name, node, started_at, expires_at)
             VALUES (?, ?, ?, ?)
                 ON DUPLICATE KEY UPDATE
                     node = VALUES(node),
                     expires_at = VALUES(expires_at)"
        )
    );
    assert!(matches!(&values[0], SqlValue::Text(n) if n == "peer-b"));
    assert!(matches!(&values[1], SqlValue::Bytes(b) if *b == vec![9, 9]));
    assert!(matches!(values[2], SqlValue::Time(1_000)));
    assert!(matches!(values[3], SqlValue::Time(t) if t == 1_000 + 60_000_000_000));
}
