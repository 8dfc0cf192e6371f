//! The statements of the workers, for Postgres and for MySQL: taking due jobs from a
//! queue, recording how a run ended, returning a job interrupted by a shutdown, finding
//! jobs whose time ran out, and the heartbeat of a peer. Each value is bound in its
//! place, in order. MySQL identifies a job by the 16 bytes of its UUID.
use crate::outcome::FailurePlan;
use crate::sql::{bind, pieces_view, sql, JsonSource, JsonView, Piece, PieceView, SqlValue, Statement, ValueView};
use vstd::prelude::*;

verus! {

/// The columns of a job that a worker reads.
pub open spec fn job_columns() -> Seq<char> {
    "id, hash_type_name, attempt, max_attempts, execution_timeout_sec, type_name_event, type_name_handler, payload, meta, tags, errors"@
}

/// The statement that takes up to `limit` due jobs of a queue, by priority, then by
/// time, then by identifier, skipping jobs locked by another worker: they are
/// executing from `now`, and their attempt counts one more.
pub open spec fn fetch_spec(queue: Seq<char>, now: i128, limit: i64) -> Seq<PieceView> {
    sql("WITH selected AS (SELECT id FROM bus_jobs WHERE queue = "@) + bind(ValueView::Text(queue))
        + sql(" AND state IN ('available'::bus_job_state, 'retryable'::bus_job_state) AND scheduled_at <= "@)
        + bind(ValueView::Time(now))
        + sql(" ORDER BY priority DESC, scheduled_at ASC, id ASC LIMIT "@) + bind(ValueView::I64(limit))
        + sql(" FOR UPDATE SKIP LOCKED) UPDATE bus_jobs SET state = 'executing'::bus_job_state, attempted_at = "@)
        + bind(ValueView::Time(now))
        + sql(", attempt = attempt + 1 FROM selected WHERE bus_jobs.id = selected.id RETURNING bus_jobs.id, bus_jobs.hash_type_name, bus_jobs.attempt, bus_jobs.max_attempts, bus_jobs.execution_timeout_sec, bus_jobs.type_name_event, bus_jobs.type_name_handler, bus_jobs.payload, bus_jobs.meta, bus_jobs.tags, bus_jobs.errors"@)
}

/// The statement that takes due jobs of a queue (the limit is bound as an `i64`).
pub fn fetch_statement(queue: &str, now: i128, limit: usize) -> (r: Vec<Piece>)
    ensures
        pieces_view(r@) == fetch_spec(queue@, now, limit as i64),
{
    let mut st = Statement::new();
    st.text("WITH selected AS (SELECT id FROM bus_jobs WHERE queue = ");
    st.bind(SqlValue::Text(crate::text::concat2(queue, "")));
    st.text(" AND state IN ('available'::bus_job_state, 'retryable'::bus_job_state) AND scheduled_at <= ");
    st.bind(SqlValue::Time(now));
    st.text(" ORDER BY priority DESC, scheduled_at ASC, id ASC LIMIT ");
    st.bind(SqlValue::I64(limit as i64));
    st.text(" FOR UPDATE SKIP LOCKED) UPDATE bus_jobs SET state = 'executing'::bus_job_state, attempted_at = ");
    st.bind(SqlValue::Time(now));
    st.text(", attempt = attempt + 1 FROM selected WHERE bus_jobs.id = selected.id RETURNING bus_jobs.id, bus_jobs.hash_type_name, bus_jobs.attempt, bus_jobs.max_attempts, bus_jobs.execution_timeout_sec, bus_jobs.type_name_event, bus_jobs.type_name_handler, bus_jobs.payload, bus_jobs.meta, bus_jobs.tags, bus_jobs.errors");
    proof {
        reveal_strlit("");
    }
    assert(st@ =~= fetch_spec(queue@, now, limit as i64));
    st.into_pieces()
}

/// The statement that records a completed run of an executing job.
pub open spec fn success_spec(id: u128, now: i128) -> Seq<PieceView> {
    sql("UPDATE bus_jobs SET state = 'completed'::bus_job_state, completed_at = "@) + bind(ValueView::Time(now))
        + sql(" WHERE id = "@) + bind(ValueView::Uuid(id)) + sql(" AND state = 'executing'::bus_job_state"@)
}

/// The statement that records that the run of job `id` completed at `now`.
pub fn success_statement(id: u128, now: i128) -> (r: Vec<Piece>)
    ensures
        pieces_view(r@) == success_spec(id, now),
{
    let mut st = Statement::new();
    st.text("UPDATE bus_jobs SET state = 'completed'::bus_job_state, completed_at = ");
    st.bind(SqlValue::Time(now));
    st.text(" WHERE id = ");
    st.bind(SqlValue::Uuid(id));
    st.text(" AND state = 'executing'::bus_job_state");
    assert(st@ =~= success_spec(id, now));
    st.into_pieces()
}

/// The statement that records a failed run of an executing job as its plan says:
/// retryable from the planned time, or discarded; either way the run's error entry is
/// appended to the job's errors.
pub open spec fn failure_spec(id: u128, plan: FailurePlan) -> Seq<PieceView> {
    failure_head(plan) + sql(", errors = COALESCE(errors, '[]'::jsonb) || "@) + bind(ValueView::Json(JsonView::Errors))
        + sql("::jsonb WHERE id = "@) + bind(ValueView::Uuid(id)) + sql(" AND state = 'executing'::bus_job_state"@)
}

/// The new state of a failed job and the time it takes effect.
pub open spec fn failure_head(plan: FailurePlan) -> Seq<PieceView> {
    match plan {
        FailurePlan::Retry { scheduled_at } => sql(
            "UPDATE bus_jobs SET state = 'retryable'::bus_job_state, scheduled_at = "@,
        ) + bind(ValueView::Time(scheduled_at)),
        FailurePlan::Discard { discarded_at } => sql(
            "UPDATE bus_jobs SET state = 'discarded'::bus_job_state, discarded_at = "@,
        ) + bind(ValueView::Time(discarded_at)),
    }
}

/// The statement that records the failed run of job `id` as `plan` says.
pub fn failure_statement(id: u128, plan: FailurePlan) -> (r: Vec<Piece>)
    ensures
        pieces_view(r@) == failure_spec(id, plan),
{
    let mut st = Statement::new();
    match plan {
        FailurePlan::Retry { scheduled_at } => {
            st.text("UPDATE bus_jobs SET state = 'retryable'::bus_job_state, scheduled_at = ");
            st.bind(SqlValue::Time(scheduled_at));
        },
        FailurePlan::Discard { discarded_at } => {
            st.text("UPDATE bus_jobs SET state = 'discarded'::bus_job_state, discarded_at = ");
            st.bind(SqlValue::Time(discarded_at));
        },
    }
    st.text(", errors = COALESCE(errors, '[]'::jsonb) || ");
    st.bind(SqlValue::Json(JsonSource::Errors));
    st.text("::jsonb WHERE id = ");
    st.bind(SqlValue::Uuid(id));
    st.text(" AND state = 'executing'::bus_job_state");
    assert(st@ =~= failure_spec(id, plan));
    st.into_pieces()
}

/// The statement that returns an executing job interrupted by a shutdown to the
/// queue: its attempt does not count, it is retryable where an earlier attempt was
/// made and available otherwise, and the interruption is appended to its errors.
pub open spec fn shutdown_spec(id: u128) -> Seq<PieceView> {
    sql("UPDATE bus_jobs SET state = CASE WHEN (attempt - 1) > 0 THEN 'retryable'::bus_job_state ELSE 'available'::bus_job_state END, attempt = attempt - 1, errors = COALESCE(errors, '[]'::jsonb) || "@)
        + bind(ValueView::Json(JsonView::Errors)) + sql("::jsonb WHERE id = "@) + bind(ValueView::Uuid(id))
        + sql(" AND state = 'executing'::bus_job_state"@)
}

/// The statement that returns job `id`, interrupted by a shutdown, to the queue.
pub fn shutdown_statement(id: u128) -> (r: Vec<Piece>)
    ensures
        pieces_view(r@) == shutdown_spec(id),
{
    let mut st = Statement::new();
    st.text("UPDATE bus_jobs SET state = CASE WHEN (attempt - 1) > 0 THEN 'retryable'::bus_job_state ELSE 'available'::bus_job_state END, attempt = attempt - 1, errors = COALESCE(errors, '[]'::jsonb) || ");
    st.bind(SqlValue::Json(JsonSource::Errors));
    st.text("::jsonb WHERE id = ");
    st.bind(SqlValue::Uuid(id));
    st.text(" AND state = 'executing'::bus_job_state");
    assert(st@ =~= shutdown_spec(id));
    st.into_pieces()
}

/// The statement that finds up to 100 executing jobs whose time limit ran out before `now`.
pub open spec fn timed_out_spec(now: i128) -> Seq<PieceView> {
    sql("SELECT "@ + job_columns()
        + " FROM bus_jobs WHERE state = 'executing'::bus_job_state AND attempted_at + (interval '1 second' * execution_timeout_sec) < "@)
        + bind(ValueView::Time(now)) + sql(" LIMIT 100"@)
}

/// The statement that finds the jobs whose time limit ran out before `now`.
pub fn timed_out_statement(now: i128) -> (r: Vec<Piece>)
    ensures
        pieces_view(r@) == timed_out_spec(now),
{
    let mut st = Statement::new();
    let head = crate::text::concat3(
        "SELECT ",
        "id, hash_type_name, attempt, max_attempts, execution_timeout_sec, type_name_event, type_name_handler, payload, meta, tags, errors",
        " FROM bus_jobs WHERE state = 'executing'::bus_job_state AND attempted_at + (interval '1 second' * execution_timeout_sec) < ",
    );
    st.text(head.as_str());
    st.bind(SqlValue::Time(now));
    st.text(" LIMIT 100");
    assert(st@ =~= timed_out_spec(now));
    st.into_pieces()
}

/// The statement that records that peer `name`, on node `node`, is alive until
/// `expires_at`: a new peer starts at `now`; a known one takes the new node and expiry.
pub open spec fn heartbeat_spec(name: Seq<char>, node: u128, now: i128, expires_at: i128) -> Seq<PieceView> {
    sql("INSERT INTO bus_jobs_peers (name, node, started_at, expires_at) VALUES ("@) + bind(ValueView::Text(name))
        + sql(", "@) + bind(ValueView::Uuid(node)) + sql(", "@) + bind(ValueView::Time(now)) + sql(", "@)
        + bind(ValueView::Time(expires_at))
        + sql(") ON CONFLICT (name) DO UPDATE SET node = EXCLUDED.node, expires_at = EXCLUDED.expires_at"@)
}

/// The heartbeat of a peer that is alive for `timeout_sec` seconds from `now`.
pub fn heartbeat_statement(name: &str, node: u128, now: i128, timeout_sec: i64) -> (r: Vec<Piece>)
    requires
        crate::time::valid_instant(now as int),
        -(i64::MAX / 1000) <= timeout_sec <= i64::MAX / 1000,
    ensures
        pieces_view(r@) == heartbeat_spec(name@, node, now, (now + timeout_sec * crate::time::NANOS_PER_SEC) as i128),
{
    let expires_at = crate::dispatch::heartbeat_expiry(now, timeout_sec);
    let mut st = Statement::new();
    st.text("INSERT INTO bus_jobs_peers (name, node, started_at, expires_at) VALUES (");
    st.bind(SqlValue::Text(crate::text::concat2(name, "")));
    st.text(", ");
    st.bind(SqlValue::Uuid(node));
    st.text(", ");
    st.bind(SqlValue::Time(now));
    st.text(", ");
    st.bind(SqlValue::Time(expires_at));
    st.text(") ON CONFLICT (name) DO UPDATE SET node = EXCLUDED.node, expires_at = EXCLUDED.expires_at");
    proof {
        reveal_strlit("");
    }
    assert(st@ =~= heartbeat_spec(name@, node, now, expires_at));
    st.into_pieces()
}

/// The MySQL select that locks up to `limit` due jobs of a queue, by priority, then by
/// time, then by identifier, skipping jobs locked by another worker, and reads them
/// with their attempt counted one more (`mysql_claim` then records the claim).
pub open spec fn mysql_fetch_spec(queue: Seq<char>, now: i128, limit: i64) -> Seq<PieceView> {
    sql("SELECT id, hash_type_name, attempt + 1 as attempt, max_attempts, execution_timeout_sec, type_name_event, type_name_handler, payload, meta, tags, errors FROM bus_jobs USE INDEX(idx_bus_jobs_fetch_available) WHERE queue = "@)
        + bind(ValueView::Text(queue)) + sql(" AND state IN ('available', 'retryable') AND scheduled_at <= "@)
        + bind(ValueView::Time(now)) + sql(" ORDER BY priority DESC, scheduled_at ASC, id ASC LIMIT "@)
        + bind(ValueView::I64(limit)) + sql(" FOR UPDATE SKIP LOCKED"@)
}

/// The MySQL select of due jobs (the limit is bound as an `i64`).
pub fn mysql_fetch_statement(queue: &str, now: i128, limit: usize) -> (r: Vec<Piece>)
    ensures
        pieces_view(r@) == mysql_fetch_spec(queue@, now, limit as i64),
{
    let mut st = Statement::new();
    st.text("SELECT id, hash_type_name, attempt + 1 as attempt, max_attempts, execution_timeout_sec, type_name_event, type_name_handler, payload, meta, tags, errors FROM bus_jobs USE INDEX(idx_bus_jobs_fetch_available) WHERE queue = ");
    st.bind(SqlValue::Text(crate::text::concat2(queue, "")));
    st.text(" AND state IN ('available', 'retryable') AND scheduled_at <= ");
    st.bind(SqlValue::Time(now));
    st.text(" ORDER BY priority DESC, scheduled_at ASC, id ASC LIMIT ");
    st.bind(SqlValue::I64(limit as i64));
    st.text(" FOR UPDATE SKIP LOCKED");
    proof {
        reveal_strlit("");
    }
    assert(st@ =~= mysql_fetch_spec(queue@, now, limit as i64));
    st.into_pieces()
}

/// The MySQL statement that records a completed run of an executing job.
pub open spec fn mysql_success_spec(id: Seq<u8>, now: i128) -> Seq<PieceView> {
    sql("UPDATE bus_jobs SET state = 'completed', completed_at = "@) + bind(ValueView::Time(now))
        + sql(" WHERE id = "@) + bind(ValueView::Bytes(id)) + sql(" AND state = 'executing'"@)
}

/// The MySQL statement that records that the run of the job with identifier bytes
/// `id` completed at `now`.
pub fn mysql_success_statement(id: Vec<u8>, now: i128) -> (r: Vec<Piece>)
    ensures
        pieces_view(r@) == mysql_success_spec(id@, now),
{
    let ghost idv = id@;
    let mut st = Statement::new();
    st.text("UPDATE bus_jobs SET state = 'completed', completed_at = ");
    st.bind(SqlValue::Time(now));
    st.text(" WHERE id = ");
    st.bind(SqlValue::Bytes(id));
    st.text(" AND state = 'executing'");
    assert(st@ =~= mysql_success_spec(idv, now));
    st.into_pieces()
}

/// The new state of a failed job and the time it takes effect, in MySQL.
pub open spec fn mysql_failure_head(plan: FailurePlan) -> Seq<PieceView> {
    match plan {
        FailurePlan::Retry { scheduled_at } => sql("UPDATE bus_jobs SET state = 'retryable', scheduled_at = "@)
            + bind(ValueView::Time(scheduled_at)),
        FailurePlan::Discard { discarded_at } => sql("UPDATE bus_jobs SET state = 'discarded', discarded_at = "@)
            + bind(ValueView::Time(discarded_at)),
    }
}

/// The MySQL statement that records a failed run of an executing job as its plan says,
/// appending the run's error entry to the job's errors.
pub open spec fn mysql_failure_spec(id: Seq<u8>, plan: FailurePlan) -> Seq<PieceView> {
    mysql_failure_head(plan)
        + sql(", errors = JSON_ARRAY_APPEND(COALESCE(errors, CAST('[]' AS JSON)), '$', CAST("@)
        + bind(ValueView::JsonText(JsonView::Errors)) + sql(" AS JSON)) WHERE id = "@) + bind(ValueView::Bytes(id))
        + sql(" AND state = 'executing'"@)
}

/// The MySQL statement that records the failed run of the job with identifier bytes
/// `id` as `plan` says.
pub fn mysql_failure_statement(id: Vec<u8>, plan: FailurePlan) -> (r: Vec<Piece>)
    ensures
        pieces_view(r@) == mysql_failure_spec(id@, plan),
{
    let ghost idv = id@;
    let mut st = Statement::new();
    match plan {
        FailurePlan::Retry { scheduled_at } => {
            st.text("UPDATE bus_jobs SET state = 'retryable', scheduled_at = ");
            st.bind(SqlValue::Time(scheduled_at));
        },
        FailurePlan::Discard { discarded_at } => {
            st.text("UPDATE bus_jobs SET state = 'discarded', discarded_at = ");
            st.bind(SqlValue::Time(discarded_at));
        },
    }
    st.text(", errors = JSON_ARRAY_APPEND(COALESCE(errors, CAST('[]' AS JSON)), '$', CAST(");
    st.bind(SqlValue::JsonText(JsonSource::Errors));
    st.text(" AS JSON)) WHERE id = ");
    st.bind(SqlValue::Bytes(id));
    st.text(" AND state = 'executing'");
    assert(st@ =~= mysql_failure_spec(idv, plan));
    st.into_pieces()
}

/// The MySQL statement that returns an executing job interrupted by a shutdown to the
/// queue: its attempt does not count, it is retryable where an earlier attempt was
/// made and available otherwise, and the interruption is appended to its errors.
pub open spec fn mysql_shutdown_spec(id: Seq<u8>) -> Seq<PieceView> {
    sql("UPDATE bus_jobs SET state = CASE WHEN (attempt - 1) > 0 THEN 'retryable' ELSE 'available' END, attempt = attempt - 1, errors = JSON_ARRAY_APPEND(IFNULL(errors, CAST('[]' AS JSON)), '$', CAST("@)
        + bind(ValueView::JsonText(JsonView::Errors)) + sql(" AS JSON)) WHERE id = "@) + bind(ValueView::Bytes(id))
        + sql(" AND state = 'executing'"@)
}

/// The MySQL statement that returns the job with identifier bytes `id`, interrupted by
/// a shutdown, to the queue.
pub fn mysql_shutdown_statement(id: Vec<u8>) -> (r: Vec<Piece>)
    ensures
        pieces_view(r@) == mysql_shutdown_spec(id@),
{
    let ghost idv = id@;
    let mut st = Statement::new();
    st.text("UPDATE bus_jobs SET state = CASE WHEN (attempt - 1) > 0 THEN 'retryable' ELSE 'available' END, attempt = attempt - 1, errors = JSON_ARRAY_APPEND(IFNULL(errors, CAST('[]' AS JSON)), '$', CAST(");
    st.bind(SqlValue::JsonText(JsonSource::Errors));
    st.text(" AS JSON)) WHERE id = ");
    st.bind(SqlValue::Bytes(id));
    st.text(" AND state = 'executing'");
    assert(st@ =~= mysql_shutdown_spec(idv));
    st.into_pieces()
}

/// The MySQL statement that finds up to 100 executing jobs whose time limit ran out
/// before `now`.
pub open spec fn mysql_timed_out_spec(now: i128) -> Seq<PieceView> {
    sql("SELECT "@ + job_columns()
        + " FROM bus_jobs WHERE state = 'executing' AND DATE_ADD(attempted_at, INTERVAL execution_timeout_sec SECOND) < "@)
        + bind(ValueView::Time(now)) + sql(" LIMIT 100"@)
}

/// The MySQL statement that finds the jobs whose time limit ran out before `now`.
pub fn mysql_timed_out_statement(now: i128) -> (r: Vec<Piece>)
    ensures
        pieces_view(r@) == mysql_timed_out_spec(now),
{
    let mut st = Statement::new();
    let head = crate::text::concat3(
        "SELECT ",
        "id, hash_type_name, attempt, max_attempts, execution_timeout_sec, type_name_event, type_name_handler, payload, meta, tags, errors",
        " FROM bus_jobs WHERE state = 'executing' AND DATE_ADD(attempted_at, INTERVAL execution_timeout_sec SECOND) < ",
    );
    st.text(head.as_str());
    st.bind(SqlValue::Time(now));
    st.text(" LIMIT 100");
    assert(st@ =~= mysql_timed_out_spec(now));
    st.into_pieces()
}

/// The MySQL heartbeat: peer `name`, on the node with identifier bytes `node`, is alive
/// until `expires_at`; a new peer starts at `now`; a known one takes the new node and expiry.
pub open spec fn mysql_heartbeat_spec(name: Seq<char>, node: Seq<u8>, now: i128, expires_at: i128) -> Seq<PieceView> {
    sql("INSERT INTO bus_jobs_peers (name, node, started_at, expires_at) VALUES ("@) + bind(ValueView::Text(name))
        + sql(", "@) + bind(ValueView::Bytes(node)) + sql(", "@) + bind(ValueView::Time(now)) + sql(", "@)
        + bind(ValueView::Time(expires_at))
        + sql(") ON DUPLICATE KEY UPDATE node = VALUES(node), expires_at = VALUES(expires_at)"@)
}

/// The MySQL heartbeat of a peer that is alive for `timeout_sec` seconds from `now`.
pub fn mysql_heartbeat_statement(name: &str, node: Vec<u8>, now: i128, timeout_sec: i64) -> (r: Vec<Piece>)
    requires
        crate::time::valid_instant(now as int),
        -(i64::MAX / 1000) <= timeout_sec <= i64::MAX / 1000,
    ensures
        pieces_view(r@) == mysql_heartbeat_spec(name@, node@, now, (now + timeout_sec * crate::time::NANOS_PER_SEC) as i128),
{
    let ghost nodev = node@;
    let expires_at = crate::dispatch::heartbeat_expiry(now, timeout_sec);
    let mut st = Statement::new();
    st.text("INSERT INTO bus_jobs_peers (name, node, started_at, expires_at) VALUES (");
    st.bind(SqlValue::Text(crate::text::concat2(name, "")));
    st.text(", ");
    st.bind(SqlValue::Bytes(node));
    st.text(", ");
    st.bind(SqlValue::Time(now));
    st.text(", ");
    st.bind(SqlValue::Time(expires_at));
    st.text(") ON DUPLICATE KEY UPDATE node = VALUES(node), expires_at = VALUES(expires_at)");
    proof {
        reveal_strlit("");
    }
    assert(st@ =~= mysql_heartbeat_spec(name@, nodev, now, expires_at));
    st.into_pieces()
}

} // verus!
