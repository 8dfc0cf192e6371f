//! What a dispatch gives the job it queues, stated by the job's own settings: the
//! values its uniqueness conditions compare, the values a replacement writes, the
//! values the insert stores, and the settings validation gives it.
use crate::enums::Field;
use crate::registration::EventDatabaseHandlerRegistration;
use crate::sea::{
    key_path_spec, my_assignment, pg_assignment, my_column_value, my_field_condition, my_field_conditions, my_key_condition, my_key_conditions,
    my_unique_conditions, pg_field_condition, pg_field_conditions, pg_key_condition, pg_key_conditions,
    pg_unique_conditions, pg_values_head, pg_values_json, pg_values_settings, KeyValueView,
};
use crate::sql::{
    assignment, bind, insert_values_json, column_value, field_condition, field_conditions, insert_values_ids, insert_values_settings, key_condition,
    key_conditions, period_since, sql, state_list, unique_conditions, Dialect, JsonView, PieceView, ValueView,
};
use crate::enums::{state_name, Period, State};
use crate::unique::Unique;
use crate::config::{find_queue, QueueConfiguration};
use crate::enums::ScheduleIn;
use crate::error::BusErrorKind;
use crate::time::num_seconds_spec;
use crate::validate::{validate_prefix, validate_spec, JobView, ValidatedJob};
use vstd::prelude::*;

verus! {

/// The column that a uniqueness field compares.
pub open spec fn field_column(f: Field) -> Seq<char> {
    match f {
        Field::Event => "payload"@,
        Field::Queue => "queue"@,
        Field::Priority => "priority"@,
        Field::MaxAttempts => "max_attempts"@,
        Field::ExecutionTimeout => "execution_timeout_sec"@,
        Field::Tags => "tags"@,
        Field::Meta => "meta"@,
    }
}

/// The value that the job queued by a dispatch holds in a column: the handler's queue,
/// the job's own priority, attempts and timeout, and the event's payload, the
/// dispatch's metadata and the handler's tags (JSON, or its text for MySQL). None for
/// any other column.
pub open spec fn dispatched_value(d: Dialect, col: Seq<char>, reg: EventDatabaseHandlerRegistration, job: ValidatedJob) -> Option<ValueView> {
    let json = |j: JsonView| if d == Dialect::MySql { ValueView::JsonText(j) } else { ValueView::Json(j) };
    if col == "queue"@ {
        Some(ValueView::Text(reg.queue@))
    } else if col == "priority"@ {
        Some(ValueView::I32(job.priority))
    } else if col == "max_attempts"@ {
        Some(ValueView::I32(job.max_attempts))
    } else if col == "execution_timeout_sec"@ {
        Some(ValueView::I32(job.timeout_sec))
    } else if col == "payload"@ {
        Some(json(JsonView::Event))
    } else if col == "meta"@ {
        Some(json(JsonView::Meta))
    } else if col == "tags"@ {
        Some(json(JsonView::Tags))
    } else {
        None
    }
}

/// The only value a piece sequence binds is `v`, at position `k`.
pub open spec fn binds_only(s: Seq<PieceView>, k: int, v: ValueView) -> bool {
    &&& 0 <= k < s.len()
    &&& s[k] == PieceView::Bind(v)
    &&& forall|i: int| 0 <= i < s.len() && i != k ==> #[trigger] s[i] is Sql
}

proof fn lemma_column_names_differ()
    ensures
        "queue"@ != "priority"@,
        "queue"@ != "max_attempts"@,
        "queue"@ != "execution_timeout_sec"@,
        "queue"@ != "payload"@,
        "queue"@ != "meta"@,
        "queue"@ != "tags"@,
        "priority"@ != "max_attempts"@,
        "priority"@ != "execution_timeout_sec"@,
        "priority"@ != "payload"@,
        "priority"@ != "meta"@,
        "priority"@ != "tags"@,
        "max_attempts"@ != "execution_timeout_sec"@,
        "max_attempts"@ != "payload"@,
        "max_attempts"@ != "meta"@,
        "max_attempts"@ != "tags"@,
        "execution_timeout_sec"@ != "payload"@,
        "execution_timeout_sec"@ != "meta"@,
        "execution_timeout_sec"@ != "tags"@,
        "payload"@ != "meta"@,
        "payload"@ != "tags"@,
        "meta"@ != "tags"@,
{
    reveal_strlit("queue");
    reveal_strlit("priority");
    reveal_strlit("max_attempts");
    reveal_strlit("execution_timeout_sec");
    reveal_strlit("payload");
    reveal_strlit("meta");
    reveal_strlit("tags");
    assert("queue"@.len() != "priority"@.len());
    assert("queue"@.len() != "max_attempts"@.len());
    assert("queue"@.len() != "execution_timeout_sec"@.len());
    assert("queue"@.len() != "payload"@.len());
    assert("queue"@.len() != "meta"@.len());
    assert("queue"@.len() != "tags"@.len());
    assert("priority"@.len() != "max_attempts"@.len());
    assert("priority"@.len() != "execution_timeout_sec"@.len());
    assert("priority"@.len() != "payload"@.len());
    assert("priority"@.len() != "meta"@.len());
    assert("priority"@.len() != "tags"@.len());
    assert("max_attempts"@.len() != "execution_timeout_sec"@.len());
    assert("max_attempts"@.len() != "payload"@.len());
    assert("max_attempts"@.len() != "meta"@.len());
    assert("max_attempts"@.len() != "tags"@.len());
    assert("execution_timeout_sec"@.len() != "payload"@.len());
    assert("execution_timeout_sec"@.len() != "meta"@.len());
    assert("execution_timeout_sec"@.len() != "tags"@.len());
    assert("payload"@.len() != "meta"@.len());
    assert("payload"@.len() != "tags"@.len());
    assert("meta"@[0] != "tags"@[0]);
}

/// A uniqueness field makes the lookup compare its column with the value that the new
/// job holds in that column, whatever the backend: the condition binds that value and
/// nothing else. So a queued job matches exactly when its column equals the new job's.
pub proof fn law_uniqueness_field_compares_new_job_value(d: Dialect, f: Field, reg: EventDatabaseHandlerRegistration, job: ValidatedJob)
    ensures
        dispatched_value(d, field_column(f), reg, job) is Some,
        binds_only(field_condition(d, f, reg, job), 1, dispatched_value(d, field_column(f), reg, job).unwrap()),
        binds_only(my_field_condition(f, reg, job), 1, dispatched_value(Dialect::MySql, field_column(f), reg, job).unwrap()),
        binds_only(pg_field_condition(f, reg, job), 1, dispatched_value(Dialect::Postgres, field_column(f), reg, job).unwrap()),
{
    lemma_column_names_differ();
}

/// A replaced column is set to the value that the new job holds in that same column,
/// in every backend: the replacement binds that value and nothing else.
pub proof fn law_replacement_writes_new_job_value(d: Dialect, col: Seq<char>, reg: EventDatabaseHandlerRegistration, job: ValidatedJob)
    requires
        dispatched_value(d, col, reg, job) is Some,
    ensures
        column_value(d, col, reg, job) == seq![PieceView::Bind(dispatched_value(d, col, reg, job).unwrap())],
        d == Dialect::MySql ==> binds_only(my_column_value(col, reg, job), 1, dispatched_value(d, col, reg, job).unwrap()),
{
    lemma_column_names_differ();
}

/// Every column that a replacement can name holds a value of the new job.
pub proof fn law_replaceable_columns_have_new_values(d: Dialect, r: crate::enums::Replace, k: int, reg: EventDatabaseHandlerRegistration, job: ValidatedJob)
    requires
        0 <= k < crate::enums::replace_columns(r).len(),
    ensures
        dispatched_value(d, crate::enums::replace_columns(r)[k], reg, job) is Some,
{
    match r {
        crate::enums::Replace::Available(f) => {
            assert(crate::enums::replace_columns(r)[k] == crate::enums::available_column(f@[k]));
        },
        crate::enums::Replace::Scheduled(f) => {
            assert(crate::enums::replace_columns(r)[k] == crate::enums::scheduled_column(f@[k]));
        },
        crate::enums::Replace::Executing(f) => {
            assert(crate::enums::replace_columns(r)[k] == crate::enums::executing_column(f@[k]));
        },
        crate::enums::Replace::Retryable(f) => {
            assert(crate::enums::replace_columns(r)[k] == crate::enums::retryable_column(f@[k]));
        },
        crate::enums::Replace::Completed(f) => {
            assert(crate::enums::replace_columns(r)[k] == crate::enums::terminal_column(f@[k]));
        },
        crate::enums::Replace::Cancelled(f) => {
            assert(crate::enums::replace_columns(r)[k] == crate::enums::terminal_column(f@[k]));
        },
        crate::enums::Replace::Discarded(f) => {
            assert(crate::enums::replace_columns(r)[k] == crate::enums::terminal_column(f@[k]));
        },
    }
}

/// The insert of a new job, in every backend, stores its identifier, the dispatch time
/// as its insertion time, and its validated due time as `scheduled_at`; and its
/// priority, attempts, timeout and queue are the new job's values of those columns.
pub proof fn law_insert_stores_new_job_values(d: Dialect, id: u128, hash: i64, now: int, reg: EventDatabaseHandlerRegistration, job: ValidatedJob)
    ensures
        insert_values_ids(id, hash, now, job)[0] == PieceView::Bind(ValueView::Uuid(id)),
        insert_values_ids(id, hash, now, job)[4] == PieceView::Bind(ValueView::Time(now as i128)),
        insert_values_ids(id, hash, now, job)[6] == PieceView::Bind(ValueView::Time(job.schedule_in)),
        pg_values_head(id, hash, now, job)[0] == PieceView::Bind(ValueView::Uuid(id)),
        pg_values_head(id, hash, now, job)[4] == PieceView::Bind(ValueView::Time(now as i128)),
        pg_values_head(id, hash, now, job)[6] == PieceView::Bind(ValueView::Time(job.schedule_in)),
        insert_values_settings(reg, job)[0] == PieceView::Bind(dispatched_value(d, "priority"@, reg, job).unwrap()),
        insert_values_settings(reg, job)[4] == PieceView::Bind(dispatched_value(d, "max_attempts"@, reg, job).unwrap()),
        insert_values_settings(reg, job)[6] == PieceView::Bind(dispatched_value(d, "execution_timeout_sec"@, reg, job).unwrap()),
        insert_values_settings(reg, job)[8] == PieceView::Bind(dispatched_value(d, "queue"@, reg, job).unwrap()),
        pg_values_settings(reg, job)[0] == PieceView::Bind(dispatched_value(d, "priority"@, reg, job).unwrap()),
        pg_values_settings(reg, job)[3] == PieceView::Bind(dispatched_value(d, "max_attempts"@, reg, job).unwrap()),
        pg_values_settings(reg, job)[5] == PieceView::Bind(dispatched_value(d, "execution_timeout_sec"@, reg, job).unwrap()),
        pg_values_settings(reg, job)[7] == PieceView::Bind(dispatched_value(d, "queue"@, reg, job).unwrap()),
        insert_values_settings(reg, job)[2] == PieceView::Bind(ValueView::I32(0)),
        insert_values_settings(reg, job)[10] == PieceView::Bind(ValueView::Text(reg.event_identity@)),
        insert_values_settings(reg, job)[12] == PieceView::Bind(ValueView::Text(reg.handler_identity@)),
        pg_values_settings(reg, job)[9] == PieceView::Bind(ValueView::Text(reg.event_identity@)),
        pg_values_settings(reg, job)[11] == PieceView::Bind(ValueView::Text(reg.handler_identity@)),
        insert_values_json(d)[0] == PieceView::Bind(dispatched_value(d, "payload"@, reg, job).unwrap()),
        insert_values_json(d)[2] == PieceView::Bind(dispatched_value(d, "meta"@, reg, job).unwrap()),
        insert_values_json(d)[4] == PieceView::Bind(dispatched_value(d, "tags"@, reg, job).unwrap()),
        pg_values_json()[0] == PieceView::Bind(dispatched_value(Dialect::Postgres, "payload"@, reg, job).unwrap()),
        pg_values_json()[2] == PieceView::Bind(dispatched_value(Dialect::Postgres, "meta"@, reg, job).unwrap()),
        pg_values_json()[4] == PieceView::Bind(dispatched_value(Dialect::Postgres, "tags"@, reg, job).unwrap()),
{
    lemma_column_names_differ();
}

/// A job queued by a dispatch matches its own uniqueness conditions: what the lookup
/// compares a column with is what the insert stores in that column.
pub proof fn law_queued_job_matches_its_own_conditions(d: Dialect, id: u128, hash: i64, now: int, reg: EventDatabaseHandlerRegistration, job: ValidatedJob)
    ensures
        field_condition(d, Field::Priority, reg, job)[1] == insert_values_settings(reg, job)[0],
        field_condition(d, Field::MaxAttempts, reg, job)[1] == insert_values_settings(reg, job)[4],
        field_condition(d, Field::ExecutionTimeout, reg, job)[1] == insert_values_settings(reg, job)[6],
        field_condition(d, Field::Queue, reg, job)[1] == insert_values_settings(reg, job)[8],
        pg_field_condition(Field::Priority, reg, job)[1] == pg_values_settings(reg, job)[0],
        pg_field_condition(Field::MaxAttempts, reg, job)[1] == pg_values_settings(reg, job)[3],
        pg_field_condition(Field::ExecutionTimeout, reg, job)[1] == pg_values_settings(reg, job)[5],
        pg_field_condition(Field::Queue, reg, job)[1] == pg_values_settings(reg, job)[7],
{
    law_insert_stores_new_job_values(d, id, hash, now, reg, job);
    law_uniqueness_field_compares_new_job_value(d, Field::Priority, reg, job);
    law_uniqueness_field_compares_new_job_value(d, Field::MaxAttempts, reg, job);
    law_uniqueness_field_compares_new_job_value(d, Field::ExecutionTimeout, reg, job);
    law_uniqueness_field_compares_new_job_value(d, Field::Queue, reg, job);
}

/// What validation gives a handler's job, where it succeeds: the handler's position;
/// the handler's own attempts, or else its queue's; the handler's own timeout, or else
/// its queue's, in whole seconds; the handler's priority; and as due time the dispatch
/// time, delayed by the handler's `schedule_in` where it has one. A handler whose queue
/// is not configured is refused.
pub proof fn law_validated_job_takes_its_settings(
    reg: EventDatabaseHandlerRegistration,
    position: int,
    queues: Seq<(String, QueueConfiguration)>,
    now: int,
)
    ensures
        find_queue(queues, reg.queue@) is None ==> validate_spec(reg, position, queues, now) is Err,
        validate_spec(reg, position, queues, now) matches Ok(j) ==> {
            &&& find_queue(queues, reg.queue@) is Some
            &&& j.0 == position
            &&& j.1 == match reg.max_attempts {
                Some(m) => m as int,
                None => find_queue(queues, reg.queue@).unwrap().max_attempts as int,
            }
            &&& j.2 == num_seconds_spec(match reg.execution_timeout {
                Some(t) => t as int,
                None => find_queue(queues, reg.queue@).unwrap().execution_timeout as int,
            })
            &&& j.3 == reg.priority as int
            &&& j.5 == match reg.schedule_in {
                ScheduleIn::Immediately => now,
                ScheduleIn::Duration(d) => now + d.total_nanos(),
            }
        },
{
}

proof fn lemma_prefix_jobs(
    regs: Seq<EventDatabaseHandlerRegistration>,
    handlers: Seq<usize>,
    queues: Seq<(String, QueueConfiguration)>,
    now: int,
    n: nat,
    jobs: Seq<JobView>,
)
    requires
        validate_prefix(regs, handlers, queues, now, n) == Ok::<Seq<JobView>, (BusErrorKind, Seq<char>)>(jobs),
    ensures
        jobs.len() == n,
        forall|i: int| 0 <= i < n ==> validate_spec(regs[handlers[i] as int], handlers[i] as int, queues, now)
            == Ok::<JobView, (BusErrorKind, Seq<char>)>(#[trigger] jobs[i]),
    decreases n,
{
    if n > 0 {
        let prev = validate_prefix(regs, handlers, queues, now, (n - 1) as nat);
        match prev {
            Ok(p) => {
                lemma_prefix_jobs(regs, handlers, queues, now, (n - 1) as nat, p);
                assert(jobs == p.push(jobs.last()));
                assert forall|i: int| 0 <= i < n implies validate_spec(regs[handlers[i] as int], handlers[i] as int, queues, now)
                    == Ok::<JobView, (BusErrorKind, Seq<char>)>(#[trigger] jobs[i]) by {
                    if i < n - 1 {
                        assert(jobs[i] == p[i]);
                    }
                }
            },
            Err(_) => {},
        }
    }
}

/// The jobs that validation gives for the listed handlers of an event are, in order,
/// the jobs of those handlers: each takes its handler's attempts, or else its queue's.
pub proof fn law_validated_jobs_take_handler_or_queue_attempts(
    regs: Seq<EventDatabaseHandlerRegistration>,
    handlers: Seq<usize>,
    queues: Seq<(String, QueueConfiguration)>,
    now: int,
    jobs: Seq<JobView>,
    i: int,
)
    requires
        validate_prefix(regs, handlers, queues, now, handlers.len()) == Ok::<Seq<JobView>, (BusErrorKind, Seq<char>)>(jobs),
        0 <= i < handlers.len(),
    ensures
        jobs.len() == handlers.len(),
        find_queue(queues, regs[handlers[i] as int].queue@) is Some,
        jobs[i].0 == handlers[i],
        jobs[i].1 == match regs[handlers[i] as int].max_attempts {
            Some(m) => m as int,
            None => find_queue(queues, regs[handlers[i] as int].queue@).unwrap().max_attempts as int,
        },
        jobs[i].3 == regs[handlers[i] as int].priority as int,
{
    lemma_prefix_jobs(regs, handlers, queues, now, handlers.len(), jobs);
    assert(validate_spec(regs[handlers[i] as int], handlers[i] as int, queues, now) == Ok::<JobView, (BusErrorKind, Seq<char>)>(jobs[i]));
    law_validated_job_takes_its_settings(regs[handlers[i] as int], handlers[i] as int, queues, now);
}

/// The values a statement binds, in order.
pub open spec fn bound_values(s: Seq<PieceView>) -> Seq<ValueView>
    decreases s.len(),
{
    if s.len() == 0 {
        Seq::empty()
    } else {
        bound_values(s.drop_last()) + match s.last() {
            PieceView::Bind(v) => seq![v],
            PieceView::Sql(_) => Seq::empty(),
        }
    }
}

pub proof fn lemma_bound_values_concat(a: Seq<PieceView>, b: Seq<PieceView>)
    ensures
        bound_values(a + b) == bound_values(a) + bound_values(b),
    decreases b.len(),
{
    if b.len() == 0 {
        assert(a + b =~= a);
        assert(bound_values(b) =~= Seq::<ValueView>::empty());
        assert(bound_values(a) + bound_values(b) =~= bound_values(a));
    } else {
        lemma_bound_values_concat(a, b.drop_last());
        assert((a + b).drop_last() =~= a + b.drop_last());
        assert((a + b).last() == b.last());
        assert(bound_values(a) + bound_values(b.drop_last()) + bound_values(b).skip(bound_values(b.drop_last()).len() as int)
            =~= bound_values(a) + bound_values(b));
    }
}

proof fn lemma_bound_sql(t: Seq<char>)
    ensures
        bound_values(sql(t)) == Seq::<ValueView>::empty(),
{
    assert(sql(t).drop_last() =~= Seq::<PieceView>::empty());
    assert(bound_values(sql(t).drop_last()) =~= Seq::<ValueView>::empty());
    assert(sql(t).last() == PieceView::Sql(t));
    assert(bound_values(sql(t)) =~= Seq::<ValueView>::empty() + Seq::<ValueView>::empty());
}

proof fn lemma_bound_bind(v: ValueView)
    ensures
        bound_values(bind(v)) == seq![v],
{
    assert(bind(v).drop_last() =~= Seq::<PieceView>::empty());
    assert(bound_values(bind(v).drop_last()) =~= Seq::<ValueView>::empty());
    assert(bind(v).last() == PieceView::Bind(v));
    assert(Seq::<ValueView>::empty() + seq![v] =~= seq![v]);
}

/// A JSON value as a backend binds it: JSON for Postgres, its text for MySQL.
pub open spec fn json_bound(d: Dialect, j: JsonView) -> ValueView {
    if d == Dialect::MySql { ValueView::JsonText(j) } else { ValueView::Json(j) }
}

/// The values a lookup binds for uniqueness keys: for each key, its path into the
/// payload, then the event's value under it where the event has the key.
pub open spec fn key_values(d: Dialect, keys: Seq<Seq<char>>, present: Seq<bool>) -> Seq<ValueView>
    decreases keys.len(),
{
    if keys.len() == 0 {
        Seq::empty()
    } else {
        let k = keys.last();
        key_values(d, keys.drop_last(), present)
            + seq![if d == Dialect::MySql { ValueView::Text("$."@ + k) } else { ValueView::Text(k) }]
            + (if present[keys.len() - 1] { seq![json_bound(d, JsonView::EventKey(k))] } else { Seq::empty() })
    }
}

/// The values the MySQL lookup with positional parameters binds for uniqueness keys:
/// for each key, its JSON path, then the event's scalar text or JSON value under it
/// where it holds one.
pub open spec fn my_key_values(keys: Seq<Seq<char>>, values: Seq<KeyValueView>) -> Seq<ValueView>
    decreases keys.len(),
{
    if keys.len() == 0 {
        Seq::empty()
    } else {
        let k = keys.last();
        my_key_values(keys.drop_last(), values) + seq![ValueView::Text(key_path_spec(k))]
            + match values[keys.len() - 1] {
                KeyValueView::Scalar(t) => seq![ValueView::Text(t)],
                KeyValueView::Composite => seq![ValueView::JsonText(JsonView::EventKey(k))],
                _ => Seq::empty(),
            }
    }
}

/// The labels of states, as a lookup or an update binds them.
pub open spec fn state_values(states: Seq<State>) -> Seq<ValueView> {
    states.map_values(|s: State| ValueView::Text(state_name(s)))
}

/// The new job's values of the columns that uniqueness fields compare.
pub open spec fn field_values(d: Dialect, fields: Seq<Field>, reg: EventDatabaseHandlerRegistration, job: ValidatedJob) -> Seq<ValueView> {
    fields.map_values(|f: Field| dispatched_value(d, field_column(f), reg, job).unwrap())
}

/// The start of a period: bound only where the rule has a period.
pub open spec fn period_values(p: Period, since: int) -> Seq<ValueView> {
    match p {
        Period::Duration { .. } => seq![ValueView::Time(since as i128)],
        Period::Infinite => Seq::empty(),
    }
}

proof fn lemma_state_list_values(d: Dialect, states: Seq<State>)
    ensures
        bound_values(state_list(d, states)) == state_values(states),
    decreases states.len(),
{
    if states.len() > 0 {
        let prev = states.drop_last();
        lemma_state_list_values(d, prev);
        let sep: Seq<PieceView> = if states.len() > 1 { sql(", "@) } else { Seq::empty() };
        let cast: Seq<PieceView> = if d == Dialect::Postgres { sql("::bus_job_state"@) } else { Seq::empty() };
        lemma_bound_values_concat(state_list(d, prev), sep);
        lemma_bound_values_concat(state_list(d, prev) + sep, bind(crate::sql::state_value(states.last())));
        lemma_bound_values_concat(state_list(d, prev) + sep + bind(crate::sql::state_value(states.last())), cast);
        lemma_bound_sql(", "@);
        lemma_bound_sql("::bus_job_state"@);
        assert(bound_values(Seq::<PieceView>::empty()) =~= Seq::<ValueView>::empty());
        lemma_bound_bind(crate::sql::state_value(states.last()));
        assert(state_values(states) =~= state_values(prev).push(ValueView::Text(state_name(states.last()))));
    } else {
        assert(state_values(states) =~= Seq::<ValueView>::empty());
    }
}

proof fn lemma_bound_sb(a: Seq<char>, v: ValueView)
    ensures
        bound_values(sql(a) + bind(v)) == seq![v],
{
    lemma_bound_values_concat(sql(a), bind(v));
    lemma_bound_sql(a);
    lemma_bound_bind(v);
    assert(Seq::<ValueView>::empty() + seq![v] =~= seq![v]);
}

proof fn lemma_bound_sbs(a: Seq<char>, v: ValueView, b: Seq<char>)
    ensures
        bound_values(sql(a) + bind(v) + sql(b)) == seq![v],
        bound_values(sql(a) + (bind(v) + sql(b))) == seq![v],
{
    lemma_bound_sb(a, v);
    lemma_bound_values_concat(sql(a) + bind(v), sql(b));
    lemma_bound_sql(b);
    assert(seq![v] + Seq::<ValueView>::empty() =~= seq![v]);
    assert(sql(a) + (bind(v) + sql(b)) =~= sql(a) + bind(v) + sql(b));
}

proof fn lemma_bound_sbsb(a: Seq<char>, v: ValueView, b: Seq<char>, w: ValueView)
    ensures
        bound_values(sql(a) + bind(v) + (sql(b) + bind(w))) == seq![v, w],
{
    lemma_bound_sb(a, v);
    lemma_bound_sb(b, w);
    lemma_bound_values_concat(sql(a) + bind(v), sql(b) + bind(w));
    assert(seq![v] + seq![w] =~= seq![v, w]);
}

proof fn lemma_bound_sbsbs(a: Seq<char>, v: ValueView, b: Seq<char>, w: ValueView, c: Seq<char>)
    ensures
        bound_values(sql(a) + bind(v) + sql(b) + (sql(c) + bind(w) + sql(b))) == seq![v, w],
{
    lemma_bound_sbs(a, v, b);
    lemma_bound_sbs(c, w, b);
    lemma_bound_values_concat(sql(a) + bind(v) + sql(b), sql(c) + bind(w) + sql(b));
    assert(seq![v] + seq![w] =~= seq![v, w]);
}

/// A uniqueness field's condition binds exactly one value: the new job's value of the
/// column it compares, in every backend.
pub proof fn law_field_condition_binds_new_job_value(d: Dialect, f: Field, reg: EventDatabaseHandlerRegistration, job: ValidatedJob)
    ensures
        bound_values(field_condition(d, f, reg, job)) == seq![dispatched_value(d, field_column(f), reg, job).unwrap()],
        bound_values(my_field_condition(f, reg, job)) == seq![dispatched_value(Dialect::MySql, field_column(f), reg, job).unwrap()],
        bound_values(pg_field_condition(f, reg, job)) == seq![dispatched_value(Dialect::Postgres, field_column(f), reg, job).unwrap()],
{
    lemma_column_names_differ();
    let v = dispatched_value(d, field_column(f), reg, job).unwrap();
    let my = dispatched_value(Dialect::MySql, field_column(f), reg, job).unwrap();
    let pg = dispatched_value(Dialect::Postgres, field_column(f), reg, job).unwrap();
    match f {
        Field::Queue => {
            lemma_bound_sb(" AND queue = "@, v);
            lemma_bound_sbs(" AND queue = "@, my, " "@);
        },
        Field::Priority => {
            lemma_bound_sb(" AND priority = "@, v);
            lemma_bound_sbs(" AND priority = "@, my, " "@);
        },
        Field::MaxAttempts => {
            lemma_bound_sb(" AND max_attempts = "@, v);
            lemma_bound_sbs(" AND max_attempts = "@, my, " "@);
        },
        Field::ExecutionTimeout => {
            lemma_bound_sb(" AND execution_timeout_sec = "@, v);
            lemma_bound_sbs(" AND execution_timeout_sec = "@, my, " "@);
        },
        Field::Tags => {
            lemma_bound_sbs(" AND JSON_CONTAINS(tags, "@, v, ")"@);
            lemma_bound_sb(" AND tags @> "@, v);
            lemma_bound_sbs(" AND JSON_CONTAINS(tags, "@, my, ") "@);
            lemma_bound_sbs(" AND tags @> "@, pg, " "@);
        },
        Field::Meta => {
            lemma_bound_sbs(" AND JSON_CONTAINS(meta, "@, v, ")"@);
            lemma_bound_sb(" AND meta @> "@, v);
            lemma_bound_sbs(" AND JSON_CONTAINS(meta, "@, my, ") "@);
            lemma_bound_sbs(" AND meta @> "@, pg, " "@);
        },
        Field::Event => {
            lemma_bound_sbs(" AND payload = CAST("@, v, " AS JSON) "@);
            lemma_bound_sb(" AND payload = "@, v);
            lemma_bound_sbs(" AND payload = CAST("@, my, " AS JSON) "@);
            lemma_bound_sbs(" AND payload = "@, pg, " "@);
        },
    }
}

proof fn lemma_field_conditions_values(d: Dialect, fields: Seq<Field>, reg: EventDatabaseHandlerRegistration, job: ValidatedJob)
    ensures
        bound_values(field_conditions(d, fields, reg, job)) == field_values(d, fields, reg, job),
        bound_values(my_field_conditions(fields, reg, job)) == field_values(Dialect::MySql, fields, reg, job),
        bound_values(pg_field_conditions(fields, reg, job)) == field_values(Dialect::Postgres, fields, reg, job),
    decreases fields.len(),
{
    if fields.len() == 0 {
        assert(field_values(d, fields, reg, job) =~= Seq::<ValueView>::empty());
        assert(field_values(Dialect::MySql, fields, reg, job) =~= Seq::<ValueView>::empty());
        assert(field_values(Dialect::Postgres, fields, reg, job) =~= Seq::<ValueView>::empty());
    } else {
        let prev = fields.drop_last();
        let f = fields.last();
        lemma_field_conditions_values(d, prev, reg, job);
        law_field_condition_binds_new_job_value(d, f, reg, job);
        lemma_bound_values_concat(field_conditions(d, prev, reg, job), field_condition(d, f, reg, job));
        lemma_bound_values_concat(my_field_conditions(prev, reg, job), my_field_condition(f, reg, job));
        lemma_bound_values_concat(pg_field_conditions(prev, reg, job), pg_field_condition(f, reg, job));
        assert(field_values(d, fields, reg, job) =~= field_values(d, prev, reg, job).push(dispatched_value(d, field_column(f), reg, job).unwrap()));
        assert(field_values(Dialect::MySql, fields, reg, job) =~= field_values(Dialect::MySql, prev, reg, job)
            .push(dispatched_value(Dialect::MySql, field_column(f), reg, job).unwrap()));
        assert(field_values(Dialect::Postgres, fields, reg, job) =~= field_values(Dialect::Postgres, prev, reg, job)
            .push(dispatched_value(Dialect::Postgres, field_column(f), reg, job).unwrap()));
    }
}

/// The bound values of `x + y`, given those of `x` and `y`.
proof fn lemma_bv(x: Seq<PieceView>, y: Seq<PieceView>, vx: Seq<ValueView>, vy: Seq<ValueView>)
    requires
        bound_values(x) == vx,
        bound_values(y) == vy,
    ensures
        bound_values(x + y) == vx + vy,
{
    lemma_bound_values_concat(x, y);
}

proof fn lemma_key_condition_values(d: Dialect, key: Seq<char>, present: bool)
    ensures
        bound_values(key_condition(d, key, present))
            == seq![if d == Dialect::MySql { ValueView::Text("$."@ + key) } else { ValueView::Text(key) }]
                + (if present { seq![json_bound(d, JsonView::EventKey(key))] } else { Seq::<ValueView>::empty() }),
        bound_values(pg_key_condition(key, present))
            == seq![ValueView::Text(key)]
                + (if present { seq![ValueView::Json(JsonView::EventKey(key))] } else { Seq::<ValueView>::empty() }),
{
    let e = Seq::<ValueView>::empty();
    lemma_bound_sql(" AND JSON_EXTRACT(payload, "@);
    lemma_bound_sql(")"@);
    lemma_bound_sql(" = CAST("@);
    lemma_bound_sql(" AS JSON)"@);
    lemma_bound_sql(" IS NULL"@);
    lemma_bound_sql(" AND payload -> "@);
    lemma_bound_sql(" = "@);
    lemma_bound_sql(" "@);
    lemma_bound_sql(" IS NULL "@);
    let path_my = ValueView::Text("$."@ + key);
    let path_pg = ValueView::Text(key);
    let vj = ValueView::JsonText(JsonView::EventKey(key));
    let vp = ValueView::Json(JsonView::EventKey(key));
    lemma_bound_bind(path_my);
    lemma_bound_bind(path_pg);
    lemma_bound_bind(vj);
    lemma_bound_bind(vp);
    // MySQL
    lemma_bv(sql(" AND JSON_EXTRACT(payload, "@), bind(path_my), e, seq![path_my]);
    lemma_bv(sql(" AND JSON_EXTRACT(payload, "@) + bind(path_my), sql(")"@), e + seq![path_my], e);
    lemma_bv(sql(" = CAST("@), bind(vj), e, seq![vj]);
    lemma_bv(sql(" = CAST("@) + bind(vj), sql(" AS JSON)"@), e + seq![vj], e);
    let head_my = sql(" AND JSON_EXTRACT(payload, "@) + bind(path_my) + sql(")"@);
    let tail_my = if present { sql(" = CAST("@) + bind(vj) + sql(" AS JSON)"@) } else { sql(" IS NULL"@) };
    let tv_my = if present { e + seq![vj] + e } else { e };
    lemma_bv(head_my, tail_my, e + seq![path_my] + e, tv_my);
    // Postgres
    lemma_bv(sql(" AND payload -> "@), bind(path_pg), e, seq![path_pg]);
    lemma_bv(sql(" = "@), bind(vp), e, seq![vp]);
    let tail_pg = if present { sql(" = "@) + bind(vp) } else { sql(" IS NULL"@) };
    let tv_pg = if present { e + seq![vp] } else { e };
    lemma_bv(sql(" AND payload -> "@) + bind(path_pg), tail_pg, e + seq![path_pg], tv_pg);
    // Postgres, positional
    lemma_bv(bind(vp), sql(" "@), seq![vp], e);
    lemma_bv(sql(" = "@), bind(vp) + sql(" "@), e, seq![vp] + e);
    let tail_pp = if present { sql(" = "@) + (bind(vp) + sql(" "@)) } else { sql(" IS NULL "@) };
    let tv_pp = if present { e + (seq![vp] + e) } else { e };
    lemma_bv(sql(" AND payload -> "@) + bind(path_pg), tail_pp, e + seq![path_pg], tv_pp);
    assert(e + seq![path_my] + e + (e + seq![vj] + e) =~= seq![path_my] + seq![vj]);
    assert(e + seq![path_my] + e + e =~= seq![path_my] + e);
    assert(e + seq![path_pg] + (e + seq![vp]) =~= seq![path_pg] + seq![vp]);
    assert(e + seq![path_pg] + (e + (seq![vp] + e)) =~= seq![path_pg] + seq![vp]);
    assert(e + seq![path_pg] + e =~= seq![path_pg] + e);
}

proof fn lemma_key_conditions_values(d: Dialect, keys: Seq<String>, present: Seq<bool>)
    requires
        present.len() >= keys.len(),
    ensures
        bound_values(key_conditions(d, keys, present)) == key_values(d, keys.map_values(|k: String| k@), present),
        bound_values(pg_key_conditions(keys, present)) == key_values(Dialect::Postgres, keys.map_values(|k: String| k@), present),
    decreases keys.len(),
{
    let names = keys.map_values(|k: String| k@);
    if keys.len() == 0 {
        assert(bound_values(Seq::<PieceView>::empty()) =~= Seq::<ValueView>::empty());
    } else {
        let prev = keys.drop_last();
        let k = keys.last()@;
        let p = present[keys.len() - 1];
        lemma_key_conditions_values(d, prev, present);
        lemma_key_condition_values(d, k, p);
        lemma_key_condition_values(Dialect::Postgres, k, p);
        lemma_bound_values_concat(key_conditions(d, prev, present), key_condition(d, k, p));
        lemma_bound_values_concat(pg_key_conditions(prev, present), pg_key_condition(k, p));
        assert(names.drop_last() =~= prev.map_values(|k: String| k@));
        assert(names.last() == k);
        assert(key_values(d, names, present) =~= key_values(d, names.drop_last(), present)
            + (seq![if d == Dialect::MySql { ValueView::Text("$."@ + k) } else { ValueView::Text(k) }]
                + (if p { seq![json_bound(d, JsonView::EventKey(k))] } else { Seq::<ValueView>::empty() })));
        assert(key_values(Dialect::Postgres, names, present) =~= key_values(Dialect::Postgres, names.drop_last(), present)
            + (seq![ValueView::Text(k)]
                + (if p { seq![ValueView::Json(JsonView::EventKey(k))] } else { Seq::<ValueView>::empty() })));
    }
}

proof fn lemma_my_key_condition_values(key: Seq<char>, v: KeyValueView)
    ensures
        bound_values(my_key_condition(key, v)) == seq![ValueView::Text(key_path_spec(key))] + match v {
            KeyValueView::Scalar(t) => seq![ValueView::Text(t)],
            KeyValueView::Composite => seq![ValueView::JsonText(JsonView::EventKey(key))],
            _ => Seq::<ValueView>::empty(),
        },
{
    let e = Seq::<ValueView>::empty();
    let path = ValueView::Text(key_path_spec(key));
    lemma_bound_bind(path);
    match v {
        KeyValueView::Absent => {
            lemma_bound_sbs(" AND JSON_CONTAINS_PATH(payload, 'one', "@, path, ") = 0 "@);
            assert(seq![path] =~= seq![path] + e);
        },
        KeyValueView::Null => {
            lemma_bound_sbs(" AND JSON_EXTRACT(payload, "@, path, ") IS NULL "@);
            assert(seq![path] =~= seq![path] + e);
        },
        KeyValueView::Scalar(t) => {
            let w = ValueView::Text(t);
            lemma_bound_sbs(" AND payload->>"@, path, " = "@);
            lemma_bound_bind(w);
            lemma_bound_sql(" "@);
            lemma_bv(bind(w), sql(" "@), seq![w], e);
            lemma_bv(sql(" AND payload->>"@) + bind(path) + sql(" = "@), bind(w) + sql(" "@), seq![path], seq![w] + e);
            assert(seq![path] + (seq![w] + e) =~= seq![path] + seq![w]);
        },
        KeyValueView::Composite => {
            let w = ValueView::JsonText(JsonView::EventKey(key));
            lemma_bound_sbs(" AND JSON_EXTRACT(payload, "@, path, ") = CAST("@);
            lemma_bound_sb(" AND JSON_EXTRACT(payload, "@, path);
            lemma_bound_bind(w);
            lemma_bound_sql(" AS JSON) "@);
            lemma_bv(sql(" AND JSON_EXTRACT(payload, "@) + bind(path) + sql(") = CAST("@), bind(w), seq![path], seq![w]);
            lemma_bv(sql(" AND JSON_EXTRACT(payload, "@) + bind(path) + sql(") = CAST("@) + bind(w), sql(" AS JSON) "@),
                seq![path] + seq![w], e);
            assert(seq![path] + seq![w] + e =~= seq![path] + seq![w]);
        },
    }
}

proof fn lemma_my_key_conditions_values(keys: Seq<String>, values: Seq<KeyValueView>)
    requires
        values.len() >= keys.len(),
    ensures
        bound_values(my_key_conditions(keys, values)) == my_key_values(keys.map_values(|k: String| k@), values),
    decreases keys.len(),
{
    let names = keys.map_values(|k: String| k@);
    if keys.len() == 0 {
        assert(bound_values(Seq::<PieceView>::empty()) =~= Seq::<ValueView>::empty());
    } else {
        let prev = keys.drop_last();
        let k = keys.last()@;
        let v = values[keys.len() - 1];
        lemma_my_key_conditions_values(prev, values);
        lemma_my_key_condition_values(k, v);
        lemma_bound_values_concat(my_key_conditions(prev, values), my_key_condition(k, v));
        assert(names.drop_last() =~= prev.map_values(|k: String| k@));
        assert(names.last() == k);
        let tail = match v {
            KeyValueView::Scalar(t) => seq![ValueView::Text(t)],
            KeyValueView::Composite => seq![ValueView::JsonText(JsonView::EventKey(k))],
            _ => Seq::<ValueView>::empty(),
        };
        assert(my_key_values(names, values) =~= my_key_values(names.drop_last(), values)
            + (seq![ValueView::Text(key_path_spec(k))] + tail));
    }
}

proof fn lemma_period_part(p: Period, since: int, spaced: bool)
    ensures
        bound_values(match p {
            Period::Duration { field, duration } => sql(" AND "@ + crate::enums::timestamp_column(field) + " > "@)
                + (if spaced { bind(ValueView::Time(since as i128)) + sql(" "@) } else { bind(ValueView::Time(since as i128)) }),
            Period::Infinite => Seq::<PieceView>::empty(),
        }) == period_values(p, since),
{
    match p {
        Period::Duration { field, duration } => {
            let a = " AND "@ + crate::enums::timestamp_column(field) + " > "@;
            lemma_bound_sb(a, ValueView::Time(since as i128));
            lemma_bound_sbs(a, ValueView::Time(since as i128), " "@);
        },
        Period::Infinite => {
            assert(bound_values(Seq::<PieceView>::empty()) =~= Seq::<ValueView>::empty());
        },
    }
}

proof fn lemma_states_part(d: Dialect, states: Seq<State>, close: Seq<char>)
    ensures
        bound_values(if states.len() > 0 {
            sql(" AND bus_jobs.state IN ("@) + state_list(d, states) + sql(close)
        } else {
            Seq::<PieceView>::empty()
        }) == state_values(states),
{
    if states.len() > 0 {
        lemma_state_list_values(d, states);
        lemma_bound_sql(" AND bus_jobs.state IN ("@);
        lemma_bound_sql(close);
        lemma_bv(sql(" AND bus_jobs.state IN ("@), state_list(d, states), Seq::empty(), state_values(states));
        lemma_bv(sql(" AND bus_jobs.state IN ("@) + state_list(d, states), sql(close),
            Seq::<ValueView>::empty() + state_values(states), Seq::empty());
        assert(Seq::<ValueView>::empty() + state_values(states) + Seq::<ValueView>::empty() =~= state_values(states));
    } else {
        assert(bound_values(Seq::<PieceView>::empty()) =~= Seq::<ValueView>::empty());
        assert(state_values(states) =~= Seq::<ValueView>::empty());
    }
}

/// What a uniqueness lookup binds, in every backend, is in order: the start of the
/// rule's period (where it has one), the new job's values of the columns that its
/// fields compare, for each payload key its path and the event's value under it, and
/// the labels of the states that a matching job may be in. So a queued job matches
/// exactly when it is that recent, its columns hold the new job's values, its payload
/// holds the event's values under the keys, and its state is one of those.
pub proof fn law_uniqueness_lookup_binds_new_job_values(
    d: Dialect,
    u: Unique,
    since: int,
    reg: EventDatabaseHandlerRegistration,
    job: ValidatedJob,
    present: Seq<bool>,
    values: Seq<KeyValueView>,
)
    requires
        present.len() >= u.keys@.len(),
        values.len() >= u.keys@.len(),
    ensures
        bound_values(unique_conditions(d, u, since, reg, job, present)) == period_values(u.period, since)
            + field_values(d, u.fields@, reg, job) + key_values(d, u.keys@.map_values(|k: String| k@), present)
            + state_values(u.states@),
        bound_values(pg_unique_conditions(u, since, reg, job, present)) == period_values(u.period, since)
            + field_values(Dialect::Postgres, u.fields@, reg, job)
            + key_values(Dialect::Postgres, u.keys@.map_values(|k: String| k@), present) + state_values(u.states@),
        bound_values(my_unique_conditions(u, since, reg, job, values)) == period_values(u.period, since)
            + field_values(Dialect::MySql, u.fields@, reg, job) + my_key_values(u.keys@.map_values(|k: String| k@), values)
            + state_values(u.states@),
{
    lemma_period_part(u.period, since, false);
    lemma_period_part(u.period, since, true);
    lemma_field_conditions_values(d, u.fields@, reg, job);
    lemma_key_conditions_values(d, u.keys@, present);
    lemma_my_key_conditions_values(u.keys@, values);
    lemma_states_part(d, u.states@, ")"@);
    lemma_states_part(Dialect::Postgres, u.states@, ") "@);
    lemma_states_part(Dialect::MySql, u.states@, ") "@);
    let per = match u.period {
        Period::Duration { field, duration } => sql(" AND "@ + crate::enums::timestamp_column(field) + " > "@)
            + bind(ValueView::Time(since as i128)),
        Period::Infinite => Seq::<PieceView>::empty(),
    };
    let per_s = match u.period {
        Period::Duration { field, duration } => sql(" AND "@ + crate::enums::timestamp_column(field) + " > "@)
            + (bind(ValueView::Time(since as i128)) + sql(" "@)),
        Period::Infinite => Seq::<PieceView>::empty(),
    };
    let sts = if u.states@.len() > 0 { sql(" AND bus_jobs.state IN ("@) + state_list(d, u.states@) + sql(")"@) } else { Seq::<PieceView>::empty() };
    let sts_pg = if u.states@.len() > 0 { sql(" AND bus_jobs.state IN ("@) + state_list(Dialect::Postgres, u.states@) + sql(") "@) } else { Seq::<PieceView>::empty() };
    let sts_my = if u.states@.len() > 0 { sql(" AND bus_jobs.state IN ("@) + state_list(Dialect::MySql, u.states@) + sql(") "@) } else { Seq::<PieceView>::empty() };
    let fc = field_conditions(d, u.fields@, reg, job);
    let kc = key_conditions(d, u.keys@, present);
    lemma_bound_values_concat(per, fc);
    lemma_bound_values_concat(per + fc, kc);
    lemma_bound_values_concat(per + fc + kc, sts);
    assert(unique_conditions(d, u, since, reg, job, present) == per + fc + kc + sts);
    let pfc = pg_field_conditions(u.fields@, reg, job);
    let pkc = pg_key_conditions(u.keys@, present);
    lemma_bound_values_concat(per_s, pfc);
    lemma_bound_values_concat(per_s + pfc, pkc);
    lemma_bound_values_concat(per_s + pfc + pkc, sts_pg);
    assert(pg_unique_conditions(u, since, reg, job, present) == per_s + pfc + pkc + sts_pg);
    let mfc = my_field_conditions(u.fields@, reg, job);
    let mkc = my_key_conditions(u.keys@, values);
    lemma_bound_values_concat(per_s, mfc);
    lemma_bound_values_concat(per_s + mfc, mkc);
    lemma_bound_values_concat(per_s + mfc + mkc, sts_my);
    assert(my_unique_conditions(u, since, reg, job, values) == per_s + mfc + mkc + sts_my);
}

/// A rule with a period matches only jobs younger than the period: the lookup compares
/// with the dispatch time less the period; a period that `chrono::TimeDelta` cannot
/// hold is refused.
pub proof fn law_period_starts_a_period_before_now(p: Period, now: int)
    ensures
        p is Infinite ==> period_since(p, now) == Some(now),
        p matches Period::Duration { duration, .. } ==> match period_since(p, now) {
            Some(t) => t == now - duration.total_nanos() && duration.total_nanos() <= crate::time::MAX_DELTA_NANOS,
            None => duration.total_nanos() > crate::time::MAX_DELTA_NANOS,
        },
{
}

/// A replaced column's assignment binds, in every backend, the labels of the states in
/// which the matching job takes the new value, then the new job's value of that same
/// column: a job in one of those states gets the new job's value, any other keeps its own.
pub proof fn law_assignment_binds_states_then_new_value(
    d: Dialect,
    col: Seq<char>,
    states: Seq<State>,
    reg: EventDatabaseHandlerRegistration,
    job: ValidatedJob,
)
    requires
        dispatched_value(d, col, reg, job) is Some,
    ensures
        bound_values(assignment(d, col, states, reg, job)) == state_values(states)
            + seq![dispatched_value(d, col, reg, job).unwrap()],
        bound_values(pg_assignment(col, states, reg, job)) == state_values(states)
            + seq![dispatched_value(Dialect::Postgres, col, reg, job).unwrap()],
        bound_values(my_assignment(col, states, reg, job)) == state_values(states)
            + seq![dispatched_value(Dialect::MySql, col, reg, job).unwrap()],
{
    reveal(assignment);
    reveal(pg_assignment);
    reveal(my_assignment);
    lemma_column_names_differ();
    let e = Seq::<ValueView>::empty();
    let sv = state_values(states);
    lemma_state_list_values(d, states);
    lemma_state_list_values(Dialect::Postgres, states);
    lemma_state_list_values(Dialect::MySql, states);
    let v = dispatched_value(d, col, reg, job).unwrap();
    let vp = dispatched_value(Dialect::Postgres, col, reg, job).unwrap();
    let vm = dispatched_value(Dialect::MySql, col, reg, job).unwrap();
    law_replacement_writes_new_job_value(d, col, reg, job);
    law_replacement_writes_new_job_value(Dialect::Postgres, col, reg, job);
    law_replacement_writes_new_job_value(Dialect::MySql, col, reg, job);
    assert(seq![PieceView::Bind(v)] == bind(v));
    assert(seq![PieceView::Bind(vp)] == bind(vp));
    lemma_bound_bind(v);
    lemma_bound_bind(vp);
    lemma_bound_sbs(" "@, vm, " "@);
    lemma_bound_sql(col);
    lemma_bound_sql(" = CASE WHEN state IN ("@);
    lemma_bound_sql(" = CASE WHEN bus_jobs.state IN ("@);
    lemma_bound_sql(") THEN "@);
    lemma_bound_sql(" ELSE `"@);
    lemma_bound_sql(" ELSE bus_jobs."@);
    lemma_bound_sql("` END"@);
    lemma_bound_sql(" END"@);
    // the sqlx assignment
    let open_ = if d == Dialect::MySql { sql(" = CASE WHEN state IN ("@) } else { sql(" = CASE WHEN bus_jobs.state IN ("@) };
    let else_ = if d == Dialect::MySql { sql(" ELSE `"@) } else { sql(" ELSE bus_jobs."@) };
    let end_ = if d == Dialect::MySql { sql("` END"@) } else { sql(" END"@) };
    let a1 = sql(col) + open_;
    let a2 = a1 + state_list(d, states);
    let a3 = a2 + sql(") THEN "@);
    let a4 = a3 + column_value(d, col, reg, job);
    let a5 = a4 + else_;
    let a6 = a5 + sql(col);
    let a7 = a6 + end_;
    lemma_bv(sql(col), open_, e, e);
    lemma_bv(a1, state_list(d, states), e + e, sv);
    lemma_bv(a2, sql(") THEN "@), e + e + sv, e);
    lemma_bv(a3, column_value(d, col, reg, job), e + e + sv + e, seq![v]);
    lemma_bv(a4, else_, e + e + sv + e + seq![v], e);
    lemma_bv(a5, sql(col), e + e + sv + e + seq![v] + e, e);
    lemma_bv(a6, end_, e + e + sv + e + seq![v] + e + e, e);
    assert(assignment(d, col, states, reg, job) == a7);
    assert(e + e + sv + e + seq![v] + e + e + e =~= sv + seq![v]);
    // the Postgres assignment with positional parameters
    let p1 = sql(col) + sql(" = CASE WHEN bus_jobs.state IN ("@);
    let p2 = p1 + state_list(Dialect::Postgres, states);
    let p3 = p2 + sql(") THEN "@);
    let p4 = p3 + column_value(Dialect::Postgres, col, reg, job);
    let p5 = p4 + sql(" ELSE bus_jobs."@);
    let p6 = p5 + sql(col);
    let p7 = p6 + sql(" END"@);
    lemma_bv(sql(col), sql(" = CASE WHEN bus_jobs.state IN ("@), e, e);
    lemma_bv(p1, state_list(Dialect::Postgres, states), e + e, sv);
    lemma_bv(p2, sql(") THEN "@), e + e + sv, e);
    lemma_bv(p3, column_value(Dialect::Postgres, col, reg, job), e + e + sv + e, seq![vp]);
    lemma_bv(p4, sql(" ELSE bus_jobs."@), e + e + sv + e + seq![vp], e);
    lemma_bv(p5, sql(col), e + e + sv + e + seq![vp] + e, e);
    lemma_bv(p6, sql(" END"@), e + e + sv + e + seq![vp] + e + e, e);
    assert(pg_assignment(col, states, reg, job) == p7);
    assert(e + e + sv + e + seq![vp] + e + e + e =~= sv + seq![vp]);
    // the MySQL assignment with positional parameters
    let m1 = sql(col) + sql(" = CASE WHEN state IN ("@);
    let m2 = m1 + state_list(Dialect::MySql, states);
    let m3 = m2 + sql(") THEN "@);
    let m4 = m3 + my_column_value(col, reg, job);
    let m5 = m4 + sql(" ELSE `"@);
    let m6 = m5 + sql(col);
    let m7 = m6 + sql("` END"@);
    assert(my_column_value(col, reg, job) == sql(" "@) + (bind(vm) + sql(" "@)));
    lemma_bv(sql(col), sql(" = CASE WHEN state IN ("@), e, e);
    lemma_bv(m1, state_list(Dialect::MySql, states), e + e, sv);
    lemma_bv(m2, sql(") THEN "@), e + e + sv, e);
    lemma_bv(m3, my_column_value(col, reg, job), e + e + sv + e, seq![vm]);
    lemma_bv(m4, sql(" ELSE `"@), e + e + sv + e + seq![vm], e);
    lemma_bv(m5, sql(col), e + e + sv + e + seq![vm] + e, e);
    lemma_bv(m6, sql("` END"@), e + e + sv + e + seq![vm] + e + e, e);
    assert(my_assignment(col, states, reg, job) == m7);
    assert(e + e + sv + e + seq![vm] + e + e + e =~= sv + seq![vm]);
}

} // verus!
