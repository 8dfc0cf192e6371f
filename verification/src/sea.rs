//! The statements of the backends that pass their values as positional parameters
//! (through SeaORM): MySQL, where each bound value stands for a `?`, and Postgres,
//! where the bound values stand for `$1`, `$2`, … in their order. Their texts differ
//! from those of the `sqlx` backends; the rules are the same.
use crate::enums::{timestamp_column, Field, Period, State};
use crate::error::{BusError, BusErrorKind};
use crate::registration::EventDatabaseHandlerRegistration;
use crate::sql::{
    bind, column_value, handler_update_case, handler_updates, period_error, period_since, push_column_value,
    push_state_list, sql, state_list, Dialect, JsonSource, JsonView, Piece, PieceView, SqlValue, Statement,
    ValueView,
};
use crate::time::{delta_from_std, valid_instant};
use crate::unique::Unique;
use crate::validate::ValidatedJob;
use vstd::prelude::*;

verus! {

/// What the event's payload holds under a uniqueness key, as the MySQL lookup compares
/// it: nothing, JSON `null`, a string, number or boolean (as the text compared), or an
/// array or object.
#[derive(Debug)]
pub enum KeyValue {
    Absent,
    Null,
    Scalar(String),
    Composite,
}

pub enum KeyValueView {
    Absent,
    Null,
    Scalar(Seq<char>),
    Composite,
}

impl View for KeyValue {
    type V = KeyValueView;

    open spec fn view(&self) -> KeyValueView {
        match self {
            KeyValue::Absent => KeyValueView::Absent,
            KeyValue::Null => KeyValueView::Null,
            KeyValue::Scalar(s) => KeyValueView::Scalar(s@),
            KeyValue::Composite => KeyValueView::Composite,
        }
    }
}

/// A key with each `\` doubled and each `"` escaped by a `\`.
pub open spec fn escape_key(s: Seq<char>) -> Seq<char>
    decreases s.len(),
{
    if s.len() == 0 {
        Seq::empty()
    } else {
        escape_key(s.drop_last()) + if s.last() == '\\' {
            seq!['\\', '\\']
        } else if s.last() == '"' {
            seq!['\\', '"']
        } else {
            seq![s.last()]
        }
    }
}

/// The JSON path of a key: `$."key"`, the key escaped.
pub open spec fn key_path_spec(key: Seq<char>) -> Seq<char> {
    "$.\""@ + escape_key(key) + "\""@
}

/// The JSON path under which MySQL finds a key of the payload.
pub fn key_path(key: &str) -> (r: String)
    ensures
        r@ == key_path_spec(key@),
{
    let n = key.unicode_len();
    let mut out = String::new();
    out.append("$.\"");
    proof {
        reveal_strlit("$.\"");
        reveal_strlit("\\\\");
        reveal_strlit("\\\"");
        reveal_strlit("\"");
    }
    assert(key@.take(0) =~= Seq::<char>::empty());
    let mut i: usize = 0;
    while i < n
        invariant
            n == key@.len(),
            i <= n,
            out@ == "$.\""@ + escape_key(key@.take(i as int)),
        decreases n - i,
    {
        proof {
            reveal_strlit("\\\\");
            reveal_strlit("\\\"");
        }
        let c = key.get_char(i);
        let ghost prev = out@;
        let ghost next = key@.take(i + 1);
        assert(next.drop_last() =~= key@.take(i as int));
        assert(next.last() == c);
        if c == '\\' {
            out.append("\\\\");
            assert(escape_key(next) == escape_key(key@.take(i as int)) + seq!['\\', '\\']);
            assert("\\\\"@ =~= seq!['\\', '\\']);
        } else if c == '"' {
            out.append("\\\"");
            assert(escape_key(next) == escape_key(key@.take(i as int)) + seq!['\\', '"']);
            assert("\\\""@ =~= seq!['\\', '"']);
        } else {
            out.append(key.substring_char(i, i + 1));
            assert(key@.subrange(i as int, i + 1) =~= seq![c]);
            assert(escape_key(next) == escape_key(key@.take(i as int)) + seq![c]);
        }
        assert(out@ =~= "$.\""@ + escape_key(next));
        i = i + 1;
    }
    assert(key@.take(n as int) =~= key@);
    out.append("\"");
    out
}

/// A value bound between spaces, as ` ? ` reads.
pub open spec fn spaced(v: ValueView) -> Seq<PieceView> {
    bind(v) + sql(" "@)
}

/// The condition that a uniqueness field sets on the matching job (MySQL).
pub open spec fn my_field_condition(f: Field, reg: EventDatabaseHandlerRegistration, job: ValidatedJob) -> Seq<PieceView> {
    match f {
        Field::Queue => sql(" AND queue = "@) + spaced(ValueView::Text(reg.queue@)),
        Field::Priority => sql(" AND priority = "@) + spaced(ValueView::I32(job.priority)),
        Field::MaxAttempts => sql(" AND max_attempts = "@) + spaced(ValueView::I32(job.max_attempts)),
        Field::ExecutionTimeout => sql(" AND execution_timeout_sec = "@) + spaced(ValueView::I32(job.timeout_sec)),
        Field::Tags => sql(" AND JSON_CONTAINS(tags, "@) + bind(ValueView::JsonText(JsonView::Tags)) + sql(") "@),
        Field::Meta => sql(" AND JSON_CONTAINS(meta, "@) + bind(ValueView::JsonText(JsonView::Meta)) + sql(") "@),
        Field::Event => sql(" AND payload = CAST("@) + bind(ValueView::JsonText(JsonView::Event)) + sql(" AS JSON) "@),
    }
}

pub open spec fn my_field_conditions(fields: Seq<Field>, reg: EventDatabaseHandlerRegistration, job: ValidatedJob) -> Seq<PieceView>
    decreases fields.len(),
{
    if fields.len() == 0 {
        Seq::empty()
    } else {
        my_field_conditions(fields.drop_last(), reg, job) + my_field_condition(fields.last(), reg, job)
    }
}

/// The condition that a uniqueness key sets (MySQL), by what the payload holds under it.
pub open spec fn my_key_condition(key: Seq<char>, v: KeyValueView) -> Seq<PieceView> {
    let path = ValueView::Text(key_path_spec(key));
    match v {
        KeyValueView::Absent => sql(" AND JSON_CONTAINS_PATH(payload, 'one', "@) + bind(path) + sql(") = 0 "@),
        KeyValueView::Null => sql(" AND JSON_EXTRACT(payload, "@) + bind(path) + sql(") IS NULL "@),
        KeyValueView::Scalar(s) => sql(" AND payload->>"@) + bind(path) + sql(" = "@) + spaced(ValueView::Text(s)),
        KeyValueView::Composite => sql(" AND JSON_EXTRACT(payload, "@) + bind(path) + sql(") = CAST("@)
            + bind(ValueView::JsonText(JsonView::EventKey(key))) + sql(" AS JSON) "@),
    }
}

pub open spec fn my_key_conditions(keys: Seq<String>, values: Seq<KeyValueView>) -> Seq<PieceView>
    decreases keys.len(),
{
    if keys.len() == 0 {
        Seq::empty()
    } else {
        my_key_conditions(keys.drop_last(), values) + my_key_condition(keys.last()@, values[keys.len() - 1])
    }
}

/// The conditions of a uniqueness rule (MySQL): younger than `since` under a period,
/// then its fields, keys and states.
pub open spec fn my_unique_conditions(
    u: Unique,
    since: int,
    reg: EventDatabaseHandlerRegistration,
    job: ValidatedJob,
    values: Seq<KeyValueView>,
) -> Seq<PieceView> {
    (match u.period {
        Period::Duration { field, duration } => sql(" AND "@ + timestamp_column(field) + " > "@)
            + spaced(ValueView::Time(since as i128)),
        Period::Infinite => Seq::empty(),
    }) + my_field_conditions(u.fields@, reg, job) + my_key_conditions(u.keys@, values)
        + (if u.states@.len() > 0 {
            sql(" AND bus_jobs.state IN ("@) + state_list(Dialect::MySql, u.states@) + sql(") "@)
        } else {
            Seq::empty()
        })
}

/// The start of the MySQL lookup: the handler's hash and identities.
pub open spec fn my_lookup_head(hash: i64, reg: EventDatabaseHandlerRegistration) -> Seq<PieceView> {
    sql("SELECT id, state FROM bus_jobs USE INDEX(idx_bus_jobs_hash_type_name) WHERE hash_type_name = "@)
        + bind(ValueView::I64(hash)) + sql(" AND type_name_handler = "@) + bind(ValueView::Text(reg.handler_identity@))
        + sql(" AND type_name_event = "@) + spaced(ValueView::Text(reg.event_identity@))
}

/// The MySQL lookup (locking it) of the queued job that a new dispatch of a handler
/// matches; `values[k]` is what the payload holds under uniqueness key `k`.
pub open spec fn sea_mysql_lookup_spec(
    hash: i64,
    reg: EventDatabaseHandlerRegistration,
    job: ValidatedJob,
    values: Seq<KeyValueView>,
    now: int,
) -> Result<Seq<PieceView>, (BusErrorKind, Seq<char>)> {
    match reg.unique {
        None => Ok(my_lookup_head(hash, reg) + sql(" LIMIT 1 FOR UPDATE "@)),
        Some(u) => match period_since(u.period, now) {
            None => Err(period_error(reg.handler_identity@)),
            Some(t) => Ok(my_lookup_head(hash, reg) + my_unique_conditions(u, t, reg, job, values) + sql(" LIMIT 1 FOR UPDATE "@)),
        },
    }
}

fn push_spaced(st: &mut Statement, v: SqlValue)
    ensures
        final(st)@ == old(st)@ + spaced(v@),
{
    let ghost vv = v@;
    st.bind(v);
    st.text(" ");
    assert(st@ =~= old(st)@ + spaced(vv));
}

fn push_my_field_condition(st: &mut Statement, f: Field, reg: &EventDatabaseHandlerRegistration, job: &ValidatedJob)
    ensures
        final(st)@ == old(st)@ + my_field_condition(f, *reg, *job),
{
    match f {
        Field::Queue => {
            st.text(" AND queue = ");
            push_spaced(st, SqlValue::Text(reg.queue.clone()));
        },
        Field::Priority => {
            st.text(" AND priority = ");
            push_spaced(st, SqlValue::I32(job.priority));
        },
        Field::MaxAttempts => {
            st.text(" AND max_attempts = ");
            push_spaced(st, SqlValue::I32(job.max_attempts));
        },
        Field::ExecutionTimeout => {
            st.text(" AND execution_timeout_sec = ");
            push_spaced(st, SqlValue::I32(job.timeout_sec));
        },
        Field::Tags => {
            st.text(" AND JSON_CONTAINS(tags, ");
            st.bind(SqlValue::JsonText(JsonSource::Tags));
            st.text(") ");
        },
        Field::Meta => {
            st.text(" AND JSON_CONTAINS(meta, ");
            st.bind(SqlValue::JsonText(JsonSource::Meta));
            st.text(") ");
        },
        Field::Event => {
            st.text(" AND payload = CAST(");
            st.bind(SqlValue::JsonText(JsonSource::Event));
            st.text(" AS JSON) ");
        },
    }
    assert(st@ =~= old(st)@ + my_field_condition(f, *reg, *job));
}

fn push_my_field_conditions(st: &mut Statement, fields: &Vec<Field>, reg: &EventDatabaseHandlerRegistration, job: &ValidatedJob)
    ensures
        final(st)@ == old(st)@ + my_field_conditions(fields@, *reg, *job),
{
    let mut i: usize = 0;
    assert(fields@.take(0) =~= Seq::<Field>::empty());
    assert(st@ =~= old(st)@ + my_field_conditions(fields@.take(0), *reg, *job));
    while i < fields.len()
        invariant
            i <= fields@.len(),
            st@ == old(st)@ + my_field_conditions(fields@.take(i as int), *reg, *job),
        decreases fields@.len() - i,
    {
        push_my_field_condition(st, fields[i], reg, job);
        let ghost next = fields@.take(i + 1);
        assert(next.drop_last() =~= fields@.take(i as int));
        assert(next.last() == fields@[i as int]);
        assert(st@ =~= old(st)@ + my_field_conditions(next, *reg, *job));
        i = i + 1;
    }
    assert(fields@.take(i as int) =~= fields@);
}

fn push_my_key_condition(st: &mut Statement, key: &String, v: &KeyValue)
    ensures
        final(st)@ == old(st)@ + my_key_condition(key@, v@),
{
    let path = key_path(key.as_str());
    match v {
        KeyValue::Absent => {
            st.text(" AND JSON_CONTAINS_PATH(payload, 'one', ");
            st.bind(SqlValue::Text(path));
            st.text(") = 0 ");
        },
        KeyValue::Null => {
            st.text(" AND JSON_EXTRACT(payload, ");
            st.bind(SqlValue::Text(path));
            st.text(") IS NULL ");
        },
        KeyValue::Scalar(s) => {
            st.text(" AND payload->>");
            st.bind(SqlValue::Text(path));
            st.text(" = ");
            push_spaced(st, SqlValue::Text(s.clone()));
        },
        KeyValue::Composite => {
            st.text(" AND JSON_EXTRACT(payload, ");
            st.bind(SqlValue::Text(path));
            st.text(") = CAST(");
            st.bind(SqlValue::JsonText(JsonSource::EventKey(key.clone())));
            st.text(" AS JSON) ");
        },
    }
    assert(st@ =~= old(st)@ + my_key_condition(key@, v@));
}

fn push_my_key_conditions(st: &mut Statement, keys: &Vec<String>, values: &Vec<KeyValue>)
    requires
        values@.len() == keys@.len(),
    ensures
        final(st)@ == old(st)@ + my_key_conditions(keys@, values@.map_values(|v: KeyValue| v@)),
{
    let ghost vs = values@.map_values(|v: KeyValue| v@);
    let mut k: usize = 0;
    assert(keys@.take(0) =~= Seq::<String>::empty());
    assert(st@ =~= old(st)@ + my_key_conditions(keys@.take(0), vs));
    while k < keys.len()
        invariant
            k <= keys@.len(),
            values@.len() == keys@.len(),
            vs == values@.map_values(|v: KeyValue| v@),
            st@ == old(st)@ + my_key_conditions(keys@.take(k as int), vs),
        decreases keys@.len() - k,
    {
        push_my_key_condition(st, &keys[k], &values[k]);
        let ghost next = keys@.take(k + 1);
        assert(next.drop_last() =~= keys@.take(k as int));
        assert(next.last() == keys@[k as int]);
        assert(vs[k as int] == values@[k as int]@);
        assert(st@ =~= old(st)@ + my_key_conditions(next, vs));
        k = k + 1;
    }
    assert(keys@.take(k as int) =~= keys@);
}

fn push_my_unique_conditions(
    st: &mut Statement,
    u: &Unique,
    since: i128,
    reg: &EventDatabaseHandlerRegistration,
    job: &ValidatedJob,
    values: &Vec<KeyValue>,
)
    requires
        values@.len() == u.keys@.len(),
    ensures
        final(st)@ == old(st)@ + my_unique_conditions(*u, since as int, *reg, *job, values@.map_values(|v: KeyValue| v@)),
{
    match &u.period {
        Period::Infinite => {},
        Period::Duration { field, duration } => {
            st.text(crate::text::concat3(" AND ", field.column(), " > ").as_str());
            push_spaced(st, SqlValue::Time(since));
        },
    }
    push_my_field_conditions(st, &u.fields, reg, job);
    push_my_key_conditions(st, &u.keys, values);
    if u.states.len() > 0 {
        st.text(" AND bus_jobs.state IN (");
        push_state_list(st, Dialect::MySql, &u.states);
        st.text(") ");
    }
    assert(st@ =~= old(st)@ + my_unique_conditions(*u, since as int, *reg, *job, values@.map_values(|v: KeyValue| v@)));
}

/// The MySQL lookup of the job that a new dispatch of a handler matches, with its
/// values passed as positional parameters. `values[k]` is what the event's payload
/// holds under uniqueness key `k`; `now` is the time of the dispatch.
pub fn sea_mysql_lookup(
    reg: &EventDatabaseHandlerRegistration,
    job: &ValidatedJob,
    values: &Vec<KeyValue>,
    now: i128,
) -> (r: Result<Vec<Piece>, BusError>)
    requires
        valid_instant(now as int),
        reg.unique matches Some(u) ==> values@.len() == u.keys@.len(),
    ensures
        r matches Ok(p) ==> sea_mysql_lookup_spec(crate::registry::type_hash(*reg), *reg, *job,
            values@.map_values(|v: KeyValue| v@), now as int) == Ok::<Seq<PieceView>, (BusErrorKind, Seq<char>)>(
            crate::sql::pieces_view(p@)),
        r matches Err(e) ==> sea_mysql_lookup_spec(crate::registry::type_hash(*reg), *reg, *job,
            values@.map_values(|v: KeyValue| v@), now as int) == Err::<Seq<PieceView>, (BusErrorKind, Seq<char>)>(e@),
{
    let hash = crate::sql::handler_hash(reg);
    let mut st = Statement::new();
    st.text("SELECT id, state FROM bus_jobs USE INDEX(idx_bus_jobs_hash_type_name) WHERE hash_type_name = ");
    st.bind(SqlValue::I64(hash));
    st.text(" AND type_name_handler = ");
    st.bind(SqlValue::Text(reg.handler_identity.clone()));
    st.text(" AND type_name_event = ");
    push_spaced(&mut st, SqlValue::Text(reg.event_identity.clone()));
    let ghost head = st@;
    assert(head =~= my_lookup_head(hash, *reg));
    match &reg.unique {
        None => {},
        Some(u) => {
            let since: i128 = match &u.period {
                Period::Infinite => now,
                Period::Duration { field, duration } => match delta_from_std(duration) {
                    Some(n) => now - n,
                    None => {
                        let mut s = String::new();
                        s.append("period.duration has incorrect value for DataBase Handler '");
                        s.append(reg.handler_identity.as_str());
                        s.append("'");
                        assert(s@ =~= period_error(reg.handler_identity@).1);
                        return Err(BusError::Configuration(s));
                    },
                },
            };
            push_my_unique_conditions(&mut st, u, since, reg, job, values);
        },
    }
    st.text(" LIMIT 1 FOR UPDATE ");
    let ghost vs = values@.map_values(|v: KeyValue| v@);
    assert(sea_mysql_lookup_spec(hash, *reg, *job, vs, now as int) == Ok::<Seq<PieceView>, (BusErrorKind, Seq<char>)>(st@));
    Ok(st.into_pieces())
}

/// The new value of a replaced column (MySQL): the new job's value, or the column itself.
pub open spec fn my_column_value(col: Seq<char>, reg: EventDatabaseHandlerRegistration, job: ValidatedJob) -> Seq<PieceView> {
    if col == "priority"@ {
        sql(" "@) + spaced(ValueView::I32(job.priority))
    } else if col == "queue"@ {
        sql(" "@) + spaced(ValueView::Text(reg.queue@))
    } else if col == "max_attempts"@ {
        sql(" "@) + spaced(ValueView::I32(job.max_attempts))
    } else if col == "execution_timeout_sec"@ {
        sql(" "@) + spaced(ValueView::I32(job.timeout_sec))
    } else if col == "tags"@ {
        sql(" "@) + spaced(ValueView::JsonText(JsonView::Tags))
    } else if col == "payload"@ {
        sql(" "@) + spaced(ValueView::JsonText(JsonView::Event))
    } else if col == "meta"@ {
        sql(" "@) + spaced(ValueView::JsonText(JsonView::Meta))
    } else {
        sql("`"@) + sql(col) + sql("` "@)
    }
}

/// The assignment of one replaced column (MySQL).
#[verifier::opaque]
pub open spec fn my_assignment(col: Seq<char>, states: Seq<State>, reg: EventDatabaseHandlerRegistration, job: ValidatedJob) -> Seq<PieceView> {
    sql(col) + sql(" = CASE WHEN state IN ("@) + state_list(Dialect::MySql, states) + sql(") THEN "@)
        + my_column_value(col, reg, job) + sql(" ELSE `"@) + sql(col) + sql("` END"@)
}

pub open spec fn my_assignments(
    ups: Seq<(Seq<char>, Seq<State>)>,
    reg: EventDatabaseHandlerRegistration,
    job: ValidatedJob,
) -> Seq<PieceView>
    decreases ups.len(),
{
    if ups.len() == 0 {
        Seq::empty()
    } else {
        my_assignments(ups.drop_last(), reg, job) + (if ups.len() > 1 { sql(", "@) } else { Seq::empty() })
            + my_assignment(ups.last().0, ups.last().1, reg, job)
    }
}

/// The MySQL update of the matching job `existing_id`, with positional parameters:
/// none where the handler replaces no column.
pub open spec fn sea_mysql_update_spec(
    reg: EventDatabaseHandlerRegistration,
    job: ValidatedJob,
    existing_id: Seq<u8>,
) -> Option<Seq<PieceView>> {
    if handler_updates(reg).len() == 0 {
        None
    } else {
        Some(sql("UPDATE bus_jobs SET "@) + my_assignments(handler_updates(reg), reg, job) + sql(" WHERE id = "@)
            + spaced(ValueView::Bytes(existing_id)))
    }
}

fn push_my_column_value(st: &mut Statement, col: &'static str, reg: &EventDatabaseHandlerRegistration, job: &ValidatedJob)
    ensures
        final(st)@ == old(st)@ + my_column_value(col@, *reg, *job),
{
    let special = crate::text::str_eq(col, "priority") || crate::text::str_eq(col, "queue")
        || crate::text::str_eq(col, "max_attempts") || crate::text::str_eq(col, "execution_timeout_sec")
        || crate::text::str_eq(col, "tags") || crate::text::str_eq(col, "payload") || crate::text::str_eq(col, "meta");
    if special {
        st.text(" ");
    }
    if crate::text::str_eq(col, "priority") {
        push_spaced(st, SqlValue::I32(job.priority));
    } else if crate::text::str_eq(col, "queue") {
        push_spaced(st, SqlValue::Text(reg.queue.clone()));
    } else if crate::text::str_eq(col, "max_attempts") {
        push_spaced(st, SqlValue::I32(job.max_attempts));
    } else if crate::text::str_eq(col, "execution_timeout_sec") {
        push_spaced(st, SqlValue::I32(job.timeout_sec));
    } else if crate::text::str_eq(col, "tags") {
        push_spaced(st, SqlValue::JsonText(JsonSource::Tags));
    } else if crate::text::str_eq(col, "payload") {
        push_spaced(st, SqlValue::JsonText(JsonSource::Event));
    } else if crate::text::str_eq(col, "meta") {
        push_spaced(st, SqlValue::JsonText(JsonSource::Meta));
    } else {
        st.text("`");
        st.text(col);
        st.text("` ");
    }
    assert(st@ =~= old(st)@ + my_column_value(col@, *reg, *job));
}

fn push_my_assignment(
    st: &mut Statement,
    col: &'static str,
    states: &Vec<State>,
    reg: &EventDatabaseHandlerRegistration,
    job: &ValidatedJob,
)
    ensures
        final(st)@ == old(st)@ + my_assignment(col@, states@, *reg, *job),
{
    st.text(col);
    st.text(" = CASE WHEN state IN (");
    push_state_list(st, Dialect::MySql, states);
    st.text(") THEN ");
    push_my_column_value(st, col, reg, job);
    st.text(" ELSE `");
    st.text(col);
    st.text("` END");
    assert(st@ =~= old(st)@ + my_assignment(col@, states@, *reg, *job)) by {
        reveal(my_assignment);
    }
}

fn push_my_assignments(
    st: &mut Statement,
    ups: &Vec<(&'static str, Vec<State>)>,
    reg: &EventDatabaseHandlerRegistration,
    job: &ValidatedJob,
)
    ensures
        final(st)@ == old(st)@ + my_assignments(crate::plan::update_case_view(ups@), *reg, *job),
{
    let ghost uv = crate::plan::update_case_view(ups@);
    let mut i: usize = 0;
    assert(uv.take(0) =~= Seq::<(Seq<char>, Seq<State>)>::empty());
    assert(st@ =~= old(st)@ + my_assignments(uv.take(0), *reg, *job));
    while i < ups.len()
        invariant
            i <= ups@.len(),
            uv == crate::plan::update_case_view(ups@),
            st@ == old(st)@ + my_assignments(uv.take(i as int), *reg, *job),
        decreases ups@.len() - i,
    {
        if i > 0 {
            st.text(", ");
        }
        let ghost mid = st@;
        let col = ups[i].0;
        push_my_assignment(st, col, &ups[i].1, reg, job);
        assert(st@ == mid + my_assignment(col@, ups@[i as int].1@, *reg, *job));
        let ghost next = uv.take(i + 1);
        assert(next.drop_last() =~= uv.take(i as int));
        assert(next.last() == (col@, ups@[i as int].1@));
        assert(st@ =~= old(st)@ + my_assignments(next, *reg, *job));
        i = i + 1;
    }
    assert(uv.take(i as int) =~= uv);
}

/// The MySQL update, with positional parameters, of the job that a new dispatch matched,
/// if the handler replaces columns.
pub fn sea_mysql_update(reg: &EventDatabaseHandlerRegistration, job: &ValidatedJob, existing_id: Vec<u8>) -> (r: Option<Vec<Piece>>)
    ensures
        r matches Some(p) ==> sea_mysql_update_spec(*reg, *job, existing_id@) == Some(crate::sql::pieces_view(p@)),
        r is None ==> sea_mysql_update_spec(*reg, *job, existing_id@) is None,
{
    let ups = handler_update_case(reg);
    if ups.len() == 0 {
        return None;
    }
    let ghost id_view = existing_id@;
    let mut st = Statement::new();
    st.text("UPDATE bus_jobs SET ");
    push_my_assignments(&mut st, &ups, reg, job);
    st.text(" WHERE id = ");
    push_spaced(&mut st, SqlValue::Bytes(existing_id));
    Some(st.into_pieces())
}

/// The condition that a uniqueness field sets on the matching job (Postgres).
pub open spec fn pg_field_condition(f: Field, reg: EventDatabaseHandlerRegistration, job: ValidatedJob) -> Seq<PieceView> {
    match f {
        Field::Queue => sql(" AND queue = "@) + spaced(ValueView::Text(reg.queue@)),
        Field::Priority => sql(" AND priority = "@) + spaced(ValueView::I32(job.priority)),
        Field::MaxAttempts => sql(" AND max_attempts = "@) + spaced(ValueView::I32(job.max_attempts)),
        Field::ExecutionTimeout => sql(" AND execution_timeout_sec = "@) + spaced(ValueView::I32(job.timeout_sec)),
        Field::Tags => sql(" AND tags @> "@) + spaced(ValueView::Json(JsonView::Tags)),
        Field::Meta => sql(" AND meta @> "@) + spaced(ValueView::Json(JsonView::Meta)),
        Field::Event => sql(" AND payload = "@) + spaced(ValueView::Json(JsonView::Event)),
    }
}

pub open spec fn pg_field_conditions(fields: Seq<Field>, reg: EventDatabaseHandlerRegistration, job: ValidatedJob) -> Seq<PieceView>
    decreases fields.len(),
{
    if fields.len() == 0 {
        Seq::empty()
    } else {
        pg_field_conditions(fields.drop_last(), reg, job) + pg_field_condition(fields.last(), reg, job)
    }
}

/// The condition that a uniqueness key sets (Postgres): the same value under the key,
/// or none where the event has no such key.
pub open spec fn pg_key_condition(key: Seq<char>, present: bool) -> Seq<PieceView> {
    sql(" AND payload -> "@) + bind(ValueView::Text(key)) + if present {
        sql(" = "@) + spaced(ValueView::Json(JsonView::EventKey(key)))
    } else {
        sql(" IS NULL "@)
    }
}

pub open spec fn pg_key_conditions(keys: Seq<String>, present: Seq<bool>) -> Seq<PieceView>
    decreases keys.len(),
{
    if keys.len() == 0 {
        Seq::empty()
    } else {
        pg_key_conditions(keys.drop_last(), present) + pg_key_condition(keys.last()@, present[keys.len() - 1])
    }
}

pub open spec fn pg_unique_conditions(
    u: Unique,
    since: int,
    reg: EventDatabaseHandlerRegistration,
    job: ValidatedJob,
    present: Seq<bool>,
) -> Seq<PieceView> {
    (match u.period {
        Period::Duration { field, duration } => sql(" AND "@ + timestamp_column(field) + " > "@)
            + spaced(ValueView::Time(since as i128)),
        Period::Infinite => Seq::empty(),
    }) + pg_field_conditions(u.fields@, reg, job) + pg_key_conditions(u.keys@, present)
        + (if u.states@.len() > 0 {
            sql(" AND bus_jobs.state IN ("@) + state_list(Dialect::Postgres, u.states@) + sql(") "@)
        } else {
            Seq::empty()
        })
}

pub open spec fn pg_lookup_head(hash: i64, reg: EventDatabaseHandlerRegistration) -> Seq<PieceView> {
    sql("WITH existing_job AS ( "@) + sql("SELECT id, state FROM bus_jobs WHERE hash_type_name = "@)
        + bind(ValueView::I64(hash)) + sql(" AND type_name_handler = "@) + bind(ValueView::Text(reg.handler_identity@))
        + sql(" AND type_name_event = "@) + spaced(ValueView::Text(reg.event_identity@))
}

/// The part of the Postgres statement that finds the matching job, up to its end.
pub open spec fn pg_lookup_spec(
    hash: i64,
    reg: EventDatabaseHandlerRegistration,
    job: ValidatedJob,
    present: Seq<bool>,
    now: int,
) -> Result<Seq<PieceView>, (BusErrorKind, Seq<char>)> {
    match reg.unique {
        None => Ok(pg_lookup_head(hash, reg)),
        Some(u) => match period_since(u.period, now) {
            None => Err(period_error(reg.handler_identity@)),
            Some(t) => Ok(pg_lookup_head(hash, reg) + pg_unique_conditions(u, t, reg, job, present)),
        },
    }
}

/// The assignment of one replaced column (Postgres).
#[verifier::opaque]
pub open spec fn pg_assignment(col: Seq<char>, states: Seq<State>, reg: EventDatabaseHandlerRegistration, job: ValidatedJob) -> Seq<PieceView> {
    sql(col) + sql(" = CASE WHEN bus_jobs.state IN ("@) + state_list(Dialect::Postgres, states) + sql(") THEN "@)
        + column_value(Dialect::Postgres, col, reg, job) + sql(" ELSE bus_jobs."@) + sql(col) + sql(" END"@)
}

pub open spec fn pg_assignments(
    ups: Seq<(Seq<char>, Seq<State>)>,
    reg: EventDatabaseHandlerRegistration,
    job: ValidatedJob,
) -> Seq<PieceView>
    decreases ups.len(),
{
    if ups.len() == 0 {
        Seq::empty()
    } else {
        pg_assignments(ups.drop_last(), reg, job) + (if ups.len() > 1 { sql(", "@) } else { Seq::empty() })
            + pg_assignment(ups.last().0, ups.last().1, reg, job)
    }
}

/// The identifier, hash, insertion and due times of a new job, and no attempt,
/// completion, cancellation or discard time.
pub open spec fn pg_values_head(id: u128, hash: i64, now: int, job: ValidatedJob) -> Seq<PieceView> {
    bind(ValueView::Uuid(id)) + sql(", "@) + bind(ValueView::I64(hash)) + sql(", "@) + bind(ValueView::Time(now as i128))
        + sql(", "@) + bind(ValueView::Time(job.schedule_in)) + sql(", "@) + sql("NULL, "@) + sql("NULL, "@)
        + sql("NULL, "@) + sql("NULL, "@) + sql("'available'::bus_job_state, "@)
}

/// The priority, attempt 0, attempts, timeout, queue, event and handler of a new job.
pub open spec fn pg_values_settings(reg: EventDatabaseHandlerRegistration, job: ValidatedJob) -> Seq<PieceView> {
    bind(ValueView::I32(job.priority)) + sql(", "@) + sql("0, "@) + bind(ValueView::I32(job.max_attempts)) + sql(", "@)
        + bind(ValueView::I32(job.timeout_sec)) + sql(", "@) + bind(ValueView::Text(reg.queue@)) + sql(", "@)
        + bind(ValueView::Text(reg.event_identity@)) + sql(", "@) + bind(ValueView::Text(reg.handler_identity@))
        + sql(", "@)
}

/// The payload, metadata and tags of a new job, and no errors and no workers.
pub open spec fn pg_values_json() -> Seq<PieceView> {
    bind(ValueView::Json(JsonView::Event)) + sql(", "@) + bind(ValueView::Json(JsonView::Meta)) + sql(", "@)
        + bind(ValueView::Json(JsonView::Tags)) + sql(", "@) + bind(ValueView::Json(JsonView::EmptyArray)) + sql(", "@)
        + spaced(ValueView::Json(JsonView::EmptyArray))
}

/// The Postgres statement, with positional parameters, that queues a handler's job: it
/// finds and locks the matching job, updates the columns the handler replaces in it,
/// and inserts a new job where no job matched.
pub open spec fn sea_postgres_insert_spec(
    id: u128,
    hash: i64,
    reg: EventDatabaseHandlerRegistration,
    job: ValidatedJob,
    present: Seq<bool>,
    now: int,
) -> Result<Seq<PieceView>, (BusErrorKind, Seq<char>)> {
    match pg_lookup_spec(hash, reg, job, present, now) {
        Err(e) => Err(e),
        Ok(lookup) => Ok(lookup + sql(" LIMIT 1 FOR UPDATE), "@) + sql(" updated_job AS ( "@)
            + (if handler_updates(reg).len() == 0 {
                sql(" SELECT id FROM existing_job "@)
            } else {
                sql(" UPDATE bus_jobs SET "@) + pg_assignments(handler_updates(reg), reg, job)
                    + sql(" FROM existing_job WHERE bus_jobs.id = existing_job.id RETURNING bus_jobs.id "@)
            }) + sql(") "@) + sql(crate::sql::INSERT_SQL@) + sql("SELECT "@)
            + pg_values_head(id, hash, now, job) + pg_values_settings(reg, job) + pg_values_json()
            + sql(" WHERE NOT EXISTS (SELECT 1 FROM existing_job) "@)
            + sql(" AND NOT EXISTS (SELECT 1 FROM updated_job)"@)),
    }
}

fn push_pg_field_condition(st: &mut Statement, f: Field, reg: &EventDatabaseHandlerRegistration, job: &ValidatedJob)
    ensures
        final(st)@ == old(st)@ + pg_field_condition(f, *reg, *job),
{
    match f {
        Field::Queue => {
            st.text(" AND queue = ");
            push_spaced(st, SqlValue::Text(reg.queue.clone()));
        },
        Field::Priority => {
            st.text(" AND priority = ");
            push_spaced(st, SqlValue::I32(job.priority));
        },
        Field::MaxAttempts => {
            st.text(" AND max_attempts = ");
            push_spaced(st, SqlValue::I32(job.max_attempts));
        },
        Field::ExecutionTimeout => {
            st.text(" AND execution_timeout_sec = ");
            push_spaced(st, SqlValue::I32(job.timeout_sec));
        },
        Field::Tags => {
            st.text(" AND tags @> ");
            push_spaced(st, SqlValue::Json(JsonSource::Tags));
        },
        Field::Meta => {
            st.text(" AND meta @> ");
            push_spaced(st, SqlValue::Json(JsonSource::Meta));
        },
        Field::Event => {
            st.text(" AND payload = ");
            push_spaced(st, SqlValue::Json(JsonSource::Event));
        },
    }
    assert(st@ =~= old(st)@ + pg_field_condition(f, *reg, *job));
}

fn push_pg_field_conditions(st: &mut Statement, fields: &Vec<Field>, reg: &EventDatabaseHandlerRegistration, job: &ValidatedJob)
    ensures
        final(st)@ == old(st)@ + pg_field_conditions(fields@, *reg, *job),
{
    let mut i: usize = 0;
    assert(fields@.take(0) =~= Seq::<Field>::empty());
    assert(st@ =~= old(st)@ + pg_field_conditions(fields@.take(0), *reg, *job));
    while i < fields.len()
        invariant
            i <= fields@.len(),
            st@ == old(st)@ + pg_field_conditions(fields@.take(i as int), *reg, *job),
        decreases fields@.len() - i,
    {
        push_pg_field_condition(st, fields[i], reg, job);
        let ghost next = fields@.take(i + 1);
        assert(next.drop_last() =~= fields@.take(i as int));
        assert(next.last() == fields@[i as int]);
        assert(st@ =~= old(st)@ + pg_field_conditions(next, *reg, *job));
        i = i + 1;
    }
    assert(fields@.take(i as int) =~= fields@);
}

fn push_pg_key_condition(st: &mut Statement, key: &String, present: bool)
    ensures
        final(st)@ == old(st)@ + pg_key_condition(key@, present),
{
    st.text(" AND payload -> ");
    st.bind(SqlValue::Text(key.clone()));
    if present {
        st.text(" = ");
        push_spaced(st, SqlValue::Json(JsonSource::EventKey(key.clone())));
    } else {
        st.text(" IS NULL ");
    }
    assert(st@ =~= old(st)@ + pg_key_condition(key@, present));
}

fn push_pg_key_conditions(st: &mut Statement, keys: &Vec<String>, present: &Vec<bool>)
    requires
        present@.len() == keys@.len(),
    ensures
        final(st)@ == old(st)@ + pg_key_conditions(keys@, present@),
{
    let mut k: usize = 0;
    assert(keys@.take(0) =~= Seq::<String>::empty());
    assert(st@ =~= old(st)@ + pg_key_conditions(keys@.take(0), present@));
    while k < keys.len()
        invariant
            k <= keys@.len(),
            present@.len() == keys@.len(),
            st@ == old(st)@ + pg_key_conditions(keys@.take(k as int), present@),
        decreases keys@.len() - k,
    {
        push_pg_key_condition(st, &keys[k], present[k]);
        let ghost next = keys@.take(k + 1);
        assert(next.drop_last() =~= keys@.take(k as int));
        assert(next.last() == keys@[k as int]);
        assert(st@ =~= old(st)@ + pg_key_conditions(next, present@));
        k = k + 1;
    }
    assert(keys@.take(k as int) =~= keys@);
}

fn push_pg_unique_conditions(
    st: &mut Statement,
    u: &Unique,
    since: i128,
    reg: &EventDatabaseHandlerRegistration,
    job: &ValidatedJob,
    present: &Vec<bool>,
)
    requires
        present@.len() == u.keys@.len(),
    ensures
        final(st)@ == old(st)@ + pg_unique_conditions(*u, since as int, *reg, *job, present@),
{
    match &u.period {
        Period::Infinite => {},
        Period::Duration { field, duration } => {
            st.text(crate::text::concat3(" AND ", field.column(), " > ").as_str());
            push_spaced(st, SqlValue::Time(since));
        },
    }
    push_pg_field_conditions(st, &u.fields, reg, job);
    push_pg_key_conditions(st, &u.keys, present);
    if u.states.len() > 0 {
        st.text(" AND bus_jobs.state IN (");
        push_state_list(st, Dialect::Postgres, &u.states);
        st.text(") ");
    }
    assert(st@ =~= old(st)@ + pg_unique_conditions(*u, since as int, *reg, *job, present@));
}

fn push_pg_lookup(
    st: &mut Statement,
    hash: i64,
    reg: &EventDatabaseHandlerRegistration,
    job: &ValidatedJob,
    present: &Vec<bool>,
    now: i128,
) -> (r: Result<(), BusError>)
    requires
        valid_instant(now as int),
        reg.unique matches Some(u) ==> present@.len() == u.keys@.len(),
    ensures
        r is Ok ==> (pg_lookup_spec(hash, *reg, *job, present@, now as int) matches Ok(p) && final(st)@ == old(st)@ + p),
        r matches Err(e) ==> pg_lookup_spec(hash, *reg, *job, present@, now as int) == Err::<Seq<PieceView>, (BusErrorKind, Seq<char>)>(e@),
{
    st.text("WITH existing_job AS ( ");
    st.text("SELECT id, state FROM bus_jobs WHERE hash_type_name = ");
    st.bind(SqlValue::I64(hash));
    st.text(" AND type_name_handler = ");
    st.bind(SqlValue::Text(reg.handler_identity.clone()));
    st.text(" AND type_name_event = ");
    push_spaced(st, SqlValue::Text(reg.event_identity.clone()));
    assert(st@ =~= old(st)@ + pg_lookup_head(hash, *reg));
    match &reg.unique {
        None => {},
        Some(u) => {
            let since: i128 = match &u.period {
                Period::Infinite => now,
                Period::Duration { field, duration } => match delta_from_std(duration) {
                    Some(n) => now - n,
                    None => {
                        let mut s = String::new();
                        s.append("period.duration has incorrect value for DataBase Handler '");
                        s.append(reg.handler_identity.as_str());
                        s.append("'");
                        assert(s@ =~= period_error(reg.handler_identity@).1);
                        return Err(BusError::Configuration(s));
                    },
                },
            };
            push_pg_unique_conditions(st, u, since, reg, job, present);
            assert(st@ =~= old(st)@ + (pg_lookup_head(hash, *reg) + pg_unique_conditions(*u, since as int, *reg, *job, present@)));
        },
    }
    Ok(())
}

fn push_pg_assignment(
    st: &mut Statement,
    col: &'static str,
    states: &Vec<State>,
    reg: &EventDatabaseHandlerRegistration,
    job: &ValidatedJob,
)
    ensures
        final(st)@ == old(st)@ + pg_assignment(col@, states@, *reg, *job),
{
    st.text(col);
    st.text(" = CASE WHEN bus_jobs.state IN (");
    push_state_list(st, Dialect::Postgres, states);
    st.text(") THEN ");
    push_column_value(st, Dialect::Postgres, col, reg, job);
    st.text(" ELSE bus_jobs.");
    st.text(col);
    st.text(" END");
    assert(st@ =~= old(st)@ + pg_assignment(col@, states@, *reg, *job)) by {
        reveal(pg_assignment);
    }
}

fn push_pg_assignments(
    st: &mut Statement,
    ups: &Vec<(&'static str, Vec<State>)>,
    reg: &EventDatabaseHandlerRegistration,
    job: &ValidatedJob,
)
    ensures
        final(st)@ == old(st)@ + pg_assignments(crate::plan::update_case_view(ups@), *reg, *job),
{
    let ghost uv = crate::plan::update_case_view(ups@);
    let mut i: usize = 0;
    assert(uv.take(0) =~= Seq::<(Seq<char>, Seq<State>)>::empty());
    assert(st@ =~= old(st)@ + pg_assignments(uv.take(0), *reg, *job));
    while i < ups.len()
        invariant
            i <= ups@.len(),
            uv == crate::plan::update_case_view(ups@),
            st@ == old(st)@ + pg_assignments(uv.take(i as int), *reg, *job),
        decreases ups@.len() - i,
    {
        if i > 0 {
            st.text(", ");
        }
        let ghost mid = st@;
        let col = ups[i].0;
        push_pg_assignment(st, col, &ups[i].1, reg, job);
        assert(st@ == mid + pg_assignment(col@, ups@[i as int].1@, *reg, *job));
        let ghost next = uv.take(i + 1);
        assert(next.drop_last() =~= uv.take(i as int));
        assert(next.last() == (col@, ups@[i as int].1@));
        assert(st@ =~= old(st)@ + pg_assignments(next, *reg, *job));
        i = i + 1;
    }
    assert(uv.take(i as int) =~= uv);
}

fn push_pg_values(st: &mut Statement, id: u128, hash: i64, now: i128, reg: &EventDatabaseHandlerRegistration, job: &ValidatedJob)
    ensures
        final(st)@ == old(st)@ + pg_values_head(id, hash, now as int, *job) + pg_values_settings(*reg, *job) + pg_values_json(),
{
    st.bind(SqlValue::Uuid(id));
    st.text(", ");
    st.bind(SqlValue::I64(hash));
    st.text(", ");
    st.bind(SqlValue::Time(now));
    st.text(", ");
    st.bind(SqlValue::Time(job.schedule_in));
    st.text(", ");
    st.text("NULL, ");
    st.text("NULL, ");
    st.text("NULL, ");
    st.text("NULL, ");
    st.text("'available'::bus_job_state, ");
    let ghost a = st@;
    assert(a =~= old(st)@ + pg_values_head(id, hash, now as int, *job));
    st.bind(SqlValue::I32(job.priority));
    st.text(", ");
    st.text("0, ");
    st.bind(SqlValue::I32(job.max_attempts));
    st.text(", ");
    st.bind(SqlValue::I32(job.timeout_sec));
    st.text(", ");
    st.bind(SqlValue::Text(reg.queue.clone()));
    st.text(", ");
    st.bind(SqlValue::Text(reg.event_identity.clone()));
    st.text(", ");
    st.bind(SqlValue::Text(reg.handler_identity.clone()));
    st.text(", ");
    let ghost b = st@;
    assert(b =~= a + pg_values_settings(*reg, *job));
    st.bind(SqlValue::Json(JsonSource::Event));
    st.text(", ");
    st.bind(SqlValue::Json(JsonSource::Meta));
    st.text(", ");
    st.bind(SqlValue::Json(JsonSource::Tags));
    st.text(", ");
    st.bind(SqlValue::Json(JsonSource::EmptyArray));
    st.text(", ");
    push_spaced(st, SqlValue::Json(JsonSource::EmptyArray));
    assert(st@ =~= b + pg_values_json());
}

/// The Postgres statement, with positional parameters, that queues a handler's job of
/// identifier `id`. `present[k]` tells whether the event's payload has uniqueness key
/// `k`; `now` is the time of the dispatch.
pub fn sea_postgres_insert(
    reg: &EventDatabaseHandlerRegistration,
    job: &ValidatedJob,
    present: &Vec<bool>,
    id: u128,
    now: i128,
) -> (r: Result<Vec<Piece>, BusError>)
    requires
        valid_instant(now as int),
        reg.unique matches Some(u) ==> present@.len() == u.keys@.len(),
    ensures
        r matches Ok(p) ==> sea_postgres_insert_spec(id, crate::registry::type_hash(*reg), *reg, *job, present@, now as int)
            == Ok::<Seq<PieceView>, (BusErrorKind, Seq<char>)>(crate::sql::pieces_view(p@)),
        r matches Err(e) ==> sea_postgres_insert_spec(id, crate::registry::type_hash(*reg), *reg, *job, present@, now as int)
            == Err::<Seq<PieceView>, (BusErrorKind, Seq<char>)>(e@),
{
    let hash = crate::sql::handler_hash(reg);
    let mut st = Statement::new();
    push_pg_lookup(&mut st, hash, reg, job, present, now)?;
    let ghost lookup = st@;
    st.text(" LIMIT 1 FOR UPDATE), ");
    st.text(" updated_job AS ( ");
    let ghost head = st@;
    let ups = handler_update_case(reg);
    if ups.len() == 0 {
        st.text(" SELECT id FROM existing_job ");
    } else {
        st.text(" UPDATE bus_jobs SET ");
        push_pg_assignments(&mut st, &ups, reg, job);
        st.text(" FROM existing_job WHERE bus_jobs.id = existing_job.id RETURNING bus_jobs.id ");
    }
    let ghost updated = st@;
    assert(updated == head + (if handler_updates(*reg).len() == 0 {
        sql(" SELECT id FROM existing_job "@)
    } else {
        sql(" UPDATE bus_jobs SET "@) + pg_assignments(handler_updates(*reg), *reg, *job)
            + sql(" FROM existing_job WHERE bus_jobs.id = existing_job.id RETURNING bus_jobs.id "@)
    }));
    st.text(") ");
    st.text(crate::sql::INSERT_SQL);
    st.text("SELECT ");
    push_pg_values(&mut st, id, hash, now, reg, job);
    st.text(" WHERE NOT EXISTS (SELECT 1 FROM existing_job) ");
    st.text(" AND NOT EXISTS (SELECT 1 FROM updated_job)");
    assert(sea_postgres_insert_spec(id, hash, *reg, *job, present@, now as int) == Ok::<Seq<PieceView>, (BusErrorKind, Seq<char>)>(st@));
    Ok(st.into_pieces())
}

/// The Postgres statement, with positional parameters, that queues a handler's job under
/// a fresh time-ordered identifier.
pub fn sea_postgres_queue_statement(
    reg: &EventDatabaseHandlerRegistration,
    job: &ValidatedJob,
    present: &Vec<bool>,
    now: i128,
) -> (r: Result<Vec<Piece>, BusError>)
    requires
        valid_instant(now as int),
        reg.unique matches Some(u) ==> present@.len() == u.keys@.len(),
    ensures
        r matches Ok(p) ==> exists|id: u128| crate::outside::is_v7_uuid(id) && sea_postgres_insert_spec(id, crate::registry::type_hash(*reg), *reg, *job, present@, now as int)
            == Ok::<Seq<PieceView>, (BusErrorKind, Seq<char>)>(crate::sql::pieces_view(p@)),
        r matches Err(e) ==> forall|id: u128| sea_postgres_insert_spec(id, crate::registry::type_hash(*reg), *reg, *job, present@, now as int)
            == Err::<Seq<PieceView>, (BusErrorKind, Seq<char>)>(e@),
{
    let id = crate::outside::new_job_id();
    let r = sea_postgres_insert(reg, job, present, id, now);
    proof {
        if r is Err {
            assert forall|id2: u128| sea_postgres_insert_spec(id2, crate::registry::type_hash(*reg), *reg, *job, present@, now as int)
                == sea_postgres_insert_spec(id, crate::registry::type_hash(*reg), *reg, *job, present@, now as int) by {}
        }
    }
    r
}

/// The MySQL statement, with positional parameters, that follows the lookup: the update
/// of the matching job (none where the handler replaces no column), or, where no job
/// matched, the insert of a new job under a fresh time-ordered identifier, with the
/// values that `mysql_insert` binds.
pub fn sea_mysql_after_lookup(
    reg: &EventDatabaseHandlerRegistration,
    job: &ValidatedJob,
    existing: Option<Vec<u8>>,
    now: i128,
) -> (r: Option<Vec<Piece>>)
    ensures
        existing matches Some(e) ==> (match sea_mysql_update_spec(*reg, *job, e@) {
            Some(u) => r matches Some(p) && crate::sql::pieces_view(p@) == u,
            None => r is None,
        }),
        existing is None ==> (r matches Some(p) && exists|id: u128| crate::outside::is_v7_uuid(id) &&
            crate::sql::pieces_view(p@) == #[trigger] crate::sql::mysql_insert_spec(id, crate::registry::type_hash(*reg), now as int, *reg, *job)),
{
    match existing {
        Some(e) => sea_mysql_update(reg, job, e),
        None => {
            let id = crate::outside::new_job_id();
            Some(crate::sql::mysql_insert(reg, job, id, now))
        },
    }
}

/// The MySQL update, with positional parameters, that claims the jobs a worker fetched:
/// they are executing from `now`, and their attempt counts one more.
pub open spec fn sea_mysql_claim_spec(ids: Seq<u128>, now: int) -> Seq<PieceView> {
    sql("UPDATE bus_jobs SET state = 'executing', attempted_at = "@) + bind(ValueView::Time(now as i128))
        + sql(", attempt = attempt + 1 WHERE id IN ("@) + crate::sql::listed(ids.map_values(|u: u128| ValueView::Uuid(u)), ","@)
        + sql(")"@)
}

/// The MySQL update, with positional parameters, that claims fetched jobs.
pub fn sea_mysql_claim(ids: &Vec<u128>, now: i128) -> (r: Vec<Piece>)
    ensures
        crate::sql::pieces_view(r@) == sea_mysql_claim_spec(ids@, now as int),
{
    let mut values: Vec<SqlValue> = Vec::new();
    let mut i: usize = 0;
    while i < ids.len()
        invariant
            i <= ids@.len(),
            values@.len() == i,
            forall|k: int| 0 <= k < i ==> #[trigger] values@[k]@ == ValueView::Uuid(ids@[k]),
        decreases ids@.len() - i,
    {
        values.push(SqlValue::Uuid(ids[i]));
        i = i + 1;
    }
    assert(values@.map_values(|v: SqlValue| v@) =~= ids@.map_values(|u: u128| ValueView::Uuid(u)));
    let mut st = Statement::new();
    st.text("UPDATE bus_jobs SET state = 'executing', attempted_at = ");
    st.bind(SqlValue::Time(now));
    st.text(", attempt = attempt + 1 WHERE id IN (");
    crate::sql::push_listed(&mut st, values, ",");
    st.text(")");
    assert(st@ =~= sea_mysql_claim_spec(ids@, now as int));
    st.into_pieces()
}

} // verus!
