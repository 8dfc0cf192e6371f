//! The statements that queue the job of a database handler: the lookup of a matching
//! job (uniqueness), the update of the columns it replaces, and the insert of a new
//! job. A statement is a sequence of pieces: SQL text, and values bound in its place.
use crate::enums::{state_name, timestamp_column, Field, Period, State};
use crate::error::{BusError, BusErrorKind};
use crate::plan::{update_case, update_case_spec, update_case_view};
use crate::registration::EventDatabaseHandlerRegistration;
use crate::time::{delta_from_std, delta_from_std_spec, valid_instant};
use crate::unique::Unique;
use crate::validate::ValidatedJob;
use vstd::prelude::*;

verus! {

/// The SQL dialects the bus writes.
#[derive(Clone, Copy, Debug, PartialEq, Eq, Structural)]
pub enum Dialect {
    MySql,
    Postgres,
}

/// A JSON value that a statement binds, held by the dispatch.
#[derive(Debug)]
pub enum JsonSource {
    /// The handler's tags.
    Tags,
    /// The event's metadata.
    Meta,
    /// The event's payload.
    Event,
    /// The value under a key of the event's payload.
    EventKey(String),
    /// An empty JSON array.
    EmptyArray,
    /// The error entry of a failed or interrupted run.
    Errors,
}

/// A value bound in a statement.
#[derive(Debug)]
pub enum SqlValue {
    I64(i64),
    I32(i32),
    Text(String),
    /// An instant, in nanoseconds since the epoch.
    Time(i128),
    /// A null instant.
    NullTime,
    Uuid(u128),
    Bytes(Vec<u8>),
    Json(JsonSource),
    /// The JSON text of a value, bound as text.
    JsonText(JsonSource),
}

/// A piece of a statement.
#[derive(Debug)]
pub enum Piece {
    Sql(String),
    Bind(SqlValue),
}

pub enum JsonView {
    Tags,
    Meta,
    Event,
    EventKey(Seq<char>),
    EmptyArray,
    Errors,
}

pub enum ValueView {
    I64(i64),
    I32(i32),
    Text(Seq<char>),
    Time(i128),
    NullTime,
    Uuid(u128),
    Bytes(Seq<u8>),
    Json(JsonView),
    JsonText(JsonView),
}

pub enum PieceView {
    Sql(Seq<char>),
    Bind(ValueView),
}

impl View for JsonSource {
    type V = JsonView;

    open spec fn view(&self) -> JsonView {
        match self {
            JsonSource::Tags => JsonView::Tags,
            JsonSource::Meta => JsonView::Meta,
            JsonSource::Event => JsonView::Event,
            JsonSource::EventKey(k) => JsonView::EventKey(k@),
            JsonSource::EmptyArray => JsonView::EmptyArray,
            JsonSource::Errors => JsonView::Errors,
        }
    }
}

impl View for SqlValue {
    type V = ValueView;

    open spec fn view(&self) -> ValueView {
        match self {
            SqlValue::I64(v) => ValueView::I64(*v),
            SqlValue::I32(v) => ValueView::I32(*v),
            SqlValue::Text(t) => ValueView::Text(t@),
            SqlValue::Time(t) => ValueView::Time(*t),
            SqlValue::NullTime => ValueView::NullTime,
            SqlValue::Uuid(u) => ValueView::Uuid(*u),
            SqlValue::Bytes(b) => ValueView::Bytes(b@),
            SqlValue::Json(j) => ValueView::Json(j@),
            SqlValue::JsonText(j) => ValueView::JsonText(j@),
        }
    }
}

impl View for Piece {
    type V = PieceView;

    open spec fn view(&self) -> PieceView {
        match self {
            Piece::Sql(s) => PieceView::Sql(s@),
            Piece::Bind(v) => PieceView::Bind(v@),
        }
    }
}

/// A statement as it is written.
pub struct Statement {
    pieces: Vec<Piece>,
}

impl View for Statement {
    type V = Seq<PieceView>;

    closed spec fn view(&self) -> Seq<PieceView> {
        self.pieces@.map_values(|p: Piece| p@)
    }
}

pub open spec fn sql(s: Seq<char>) -> Seq<PieceView> {
    seq![PieceView::Sql(s)]
}

pub open spec fn bind(v: ValueView) -> Seq<PieceView> {
    seq![PieceView::Bind(v)]
}

impl Statement {
    pub fn new() -> (s: Self)
        ensures
            s@ == Seq::<PieceView>::empty(),
    {
        let s = Statement { pieces: Vec::new() };
        assert(s@ =~= Seq::<PieceView>::empty());
        s
    }

    pub fn text(&mut self, t: &str)
        ensures
            final(self)@ == old(self)@ + sql(t@),
    {
        self.pieces.push(Piece::Sql(crate::text::concat2(t, "")));
        proof {
            reveal_strlit("");
        }
        assert(self@ =~= old(self)@ + sql(t@));
    }

    pub fn bind(&mut self, v: SqlValue)
        ensures
            final(self)@ == old(self)@ + bind(v@),
    {
        let ghost vv = v@;
        self.pieces.push(Piece::Bind(v));
        assert(self@ =~= old(self)@ + bind(vv));
    }

    /// The pieces of the statement.
    pub fn into_pieces(self) -> (r: Vec<Piece>)
        ensures
            r@.map_values(|p: Piece| p@) == self@,
    {
        self.pieces
    }
}

/// How a JSON value is bound: as JSON for Postgres, as its text for MySQL.
pub open spec fn json_value(d: Dialect, j: JsonView) -> ValueView {
    if d == Dialect::MySql {
        ValueView::JsonText(j)
    } else {
        ValueView::Json(j)
    }
}

fn json_bound(d: Dialect, j: JsonSource) -> (v: SqlValue)
    ensures
        v@ == json_value(d, j@),
{
    if d == Dialect::MySql {
        SqlValue::JsonText(j)
    } else {
        SqlValue::Json(j)
    }
}

/// The name and value under which a state is bound.
pub open spec fn state_value(s: State) -> ValueView {
    ValueView::Text(state_name(s))
}

fn bind_state(st: &mut Statement, s: State)
    ensures
        final(st)@ == old(st)@ + bind(state_value(s)),
{
    st.bind(SqlValue::Text(crate::text::concat2(s.to_str(), "")));
    proof {
        reveal_strlit("");
        assert(state_name(s) + ""@ =~= state_name(s));
    }
}

/// The state values of a list, separated by commas (each cast to the state type in Postgres).
pub open spec fn state_list(d: Dialect, states: Seq<State>) -> Seq<PieceView>
    decreases states.len(),
{
    if states.len() == 0 {
        Seq::empty()
    } else {
        state_list(d, states.drop_last()) + (if states.len() > 1 { sql(", "@) } else { Seq::empty() })
            + bind(state_value(states.last())) + (if d == Dialect::Postgres { sql("::bus_job_state"@) } else { Seq::empty() })
    }
}

pub(crate) fn push_state_list(st: &mut Statement, d: Dialect, states: &Vec<State>)
    ensures
        final(st)@ == old(st)@ + state_list(d, states@),
{
    let mut i: usize = 0;
    assert(states@.take(0) =~= Seq::<State>::empty());
    assert(st@ =~= old(st)@ + state_list(d, states@.take(0)));
    while i < states.len()
        invariant
            i <= states@.len(),
            st@ == old(st)@ + state_list(d, states@.take(i as int)),
        decreases states@.len() - i,
    {
        let ghost before = st@;
        if i > 0 {
            st.text(", ");
        }
        bind_state(st, states[i]);
        if d == Dialect::Postgres {
            st.text("::bus_job_state");
        }
        let ghost next = states@.take(i + 1);
        assert(next.drop_last() =~= states@.take(i as int));
        assert(next.last() == states@[i as int]);
        assert(st@ =~= old(st)@ + state_list(d, next));
        i = i + 1;
    }
    assert(states@.take(i as int) =~= states@);
}

/// The condition that a uniqueness field sets on the matching job.
pub open spec fn field_condition(d: Dialect, f: Field, reg: EventDatabaseHandlerRegistration, job: ValidatedJob) -> Seq<PieceView> {
    match f {
        Field::Queue => sql(" AND queue = "@) + bind(ValueView::Text(reg.queue@)),
        Field::Priority => sql(" AND priority = "@) + bind(ValueView::I32(job.priority)),
        Field::MaxAttempts => sql(" AND max_attempts = "@) + bind(ValueView::I32(job.max_attempts)),
        Field::ExecutionTimeout => sql(" AND execution_timeout_sec = "@) + bind(ValueView::I32(job.timeout_sec)),
        Field::Tags => if d == Dialect::MySql {
            sql(" AND JSON_CONTAINS(tags, "@) + bind(ValueView::JsonText(JsonView::Tags)) + sql(")"@)
        } else {
            sql(" AND tags @> "@) + bind(ValueView::Json(JsonView::Tags))
        },
        Field::Meta => if d == Dialect::MySql {
            sql(" AND JSON_CONTAINS(meta, "@) + bind(ValueView::JsonText(JsonView::Meta)) + sql(")"@)
        } else {
            sql(" AND meta @> "@) + bind(ValueView::Json(JsonView::Meta))
        },
        Field::Event => if d == Dialect::MySql {
            sql(" AND payload = CAST("@) + bind(ValueView::JsonText(JsonView::Event)) + sql(" AS JSON) "@)
        } else {
            sql(" AND payload = "@) + bind(ValueView::Json(JsonView::Event))
        },
    }
}

fn push_field_condition(st: &mut Statement, d: Dialect, f: Field, reg: &EventDatabaseHandlerRegistration, job: &ValidatedJob)
    ensures
        final(st)@ == old(st)@ + field_condition(d, f, *reg, *job),
{
    match f {
        Field::Queue => {
            st.text(" AND queue = ");
            st.bind(SqlValue::Text(reg.queue.clone()));
        },
        Field::Priority => {
            st.text(" AND priority = ");
            st.bind(SqlValue::I32(job.priority));
        },
        Field::MaxAttempts => {
            st.text(" AND max_attempts = ");
            st.bind(SqlValue::I32(job.max_attempts));
        },
        Field::ExecutionTimeout => {
            st.text(" AND execution_timeout_sec = ");
            st.bind(SqlValue::I32(job.timeout_sec));
        },
        Field::Tags => {
            if d == Dialect::MySql {
                st.text(" AND JSON_CONTAINS(tags, ");
                st.bind(SqlValue::JsonText(JsonSource::Tags));
                st.text(")");
            } else {
                st.text(" AND tags @> ");
                st.bind(SqlValue::Json(JsonSource::Tags));
            }
        },
        Field::Meta => {
            if d == Dialect::MySql {
                st.text(" AND JSON_CONTAINS(meta, ");
                st.bind(SqlValue::JsonText(JsonSource::Meta));
                st.text(")");
            } else {
                st.text(" AND meta @> ");
                st.bind(SqlValue::Json(JsonSource::Meta));
            }
        },
        Field::Event => {
            if d == Dialect::MySql {
                st.text(" AND payload = CAST(");
                st.bind(SqlValue::JsonText(JsonSource::Event));
                st.text(" AS JSON) ");
            } else {
                st.text(" AND payload = ");
                st.bind(SqlValue::Json(JsonSource::Event));
            }
        },
    }
    assert(st@ =~= old(st)@ + field_condition(d, f, *reg, *job));
}

/// The conditions of all uniqueness fields, in order.
pub open spec fn field_conditions(d: Dialect, fields: Seq<Field>, reg: EventDatabaseHandlerRegistration, job: ValidatedJob) -> Seq<PieceView>
    decreases fields.len(),
{
    if fields.len() == 0 {
        Seq::empty()
    } else {
        field_conditions(d, fields.drop_last(), reg, job) + field_condition(d, fields.last(), reg, job)
    }
}

/// The condition that a uniqueness key of the payload sets: the matching job holds the
/// same value under the key, or (where the event has no such key) none.
pub open spec fn key_condition(d: Dialect, key: Seq<char>, present: bool) -> Seq<PieceView> {
    if d == Dialect::MySql {
        sql(" AND JSON_EXTRACT(payload, "@) + bind(ValueView::Text("$."@ + key)) + sql(")"@) + if present {
            sql(" = CAST("@) + bind(ValueView::JsonText(JsonView::EventKey(key))) + sql(" AS JSON)"@)
        } else {
            sql(" IS NULL"@)
        }
    } else {
        sql(" AND payload -> "@) + bind(ValueView::Text(key)) + if present {
            sql(" = "@) + bind(ValueView::Json(JsonView::EventKey(key)))
        } else {
            sql(" IS NULL"@)
        }
    }
}

/// The conditions of all uniqueness keys, in order.
pub open spec fn key_conditions(d: Dialect, keys: Seq<String>, present: Seq<bool>) -> Seq<PieceView>
    decreases keys.len(),
{
    if keys.len() == 0 {
        Seq::empty()
    } else {
        key_conditions(d, keys.drop_last(), present) + key_condition(d, keys.last()@, present[keys.len() - 1])
    }
}

fn push_key_condition(st: &mut Statement, d: Dialect, key: &String, present: bool)
    ensures
        final(st)@ == old(st)@ + key_condition(d, key@, present),
{
    if d == Dialect::MySql {
        st.text(" AND JSON_EXTRACT(payload, ");
        st.bind(SqlValue::Text(crate::text::concat2("$.", key.as_str())));
        st.text(")");
        if present {
            st.text(" = CAST(");
            st.bind(SqlValue::JsonText(JsonSource::EventKey(key.clone())));
            st.text(" AS JSON)");
        } else {
            st.text(" IS NULL");
        }
    } else {
        st.text(" AND payload -> ");
        st.bind(SqlValue::Text(key.clone()));
        if present {
            st.text(" = ");
            st.bind(SqlValue::Json(JsonSource::EventKey(key.clone())));
        } else {
            st.text(" IS NULL");
        }
    }
    assert(st@ =~= old(st)@ + key_condition(d, key@, present));
}

/// The conditions that a uniqueness rule sets on the matching job: younger than
/// `since` (under a period), then its fields, keys and states.
pub open spec fn unique_conditions(
    d: Dialect,
    u: Unique,
    since: int,
    reg: EventDatabaseHandlerRegistration,
    job: ValidatedJob,
    present: Seq<bool>,
) -> Seq<PieceView> {
    (match u.period {
        Period::Duration { field, duration } => sql(" AND "@ + timestamp_column(field) + " > "@)
            + bind(ValueView::Time(since as i128)),
        Period::Infinite => Seq::empty(),
    }) + field_conditions(d, u.fields@, reg, job) + key_conditions(d, u.keys@, present)
        + (if u.states@.len() > 0 {
            sql(" AND bus_jobs.state IN ("@) + state_list(d, u.states@) + sql(")"@)
        } else {
            Seq::empty()
        })
}

/// When a job stops matching under a period: `now` less the period, if the period is
/// one that `chrono::TimeDelta` holds.
pub open spec fn period_since(p: Period, now: int) -> Option<int> {
    match p {
        Period::Infinite => Some(now),
        Period::Duration { field, duration } => match delta_from_std_spec(duration.total_nanos()) {
            Some(n) => Some(now - n),
            None => None,
        },
    }
}

/// The error of a period that `chrono::TimeDelta` cannot hold.
pub open spec fn period_error(handler: Seq<char>) -> (BusErrorKind, Seq<char>) {
    (BusErrorKind::Configuration, "period.duration has incorrect value for DataBase Handler '"@ + handler + "'"@)
}

/// The start of the lookup of a matching job: the handler's hash and identities.
pub open spec fn lookup_head(d: Dialect, hash: i64, reg: EventDatabaseHandlerRegistration) -> Seq<PieceView> {
    (if d == Dialect::MySql {
        sql("SELECT id, state FROM bus_jobs USE INDEX(idx_bus_jobs_hash_type_name) WHERE hash_type_name = "@)
    } else {
        sql("WITH existing_job AS ( "@) + sql("SELECT id, state FROM bus_jobs WHERE hash_type_name = "@)
    }) + bind(ValueView::I64(hash)) + sql(" AND type_name_handler = "@) + bind(ValueView::Text(reg.handler_identity@))
        + sql(" AND type_name_event = "@) + bind(ValueView::Text(reg.event_identity@))
}

/// The lookup of the job that a new dispatch of a handler matches, up to its end.
pub open spec fn lookup_spec(
    d: Dialect,
    hash: i64,
    reg: EventDatabaseHandlerRegistration,
    job: ValidatedJob,
    present: Seq<bool>,
    now: int,
) -> Result<Seq<PieceView>, (BusErrorKind, Seq<char>)> {
    match reg.unique {
        None => Ok(lookup_head(d, hash, reg)),
        Some(u) => match period_since(u.period, now) {
            None => Err(period_error(reg.handler_identity@)),
            Some(t) => Ok(lookup_head(d, hash, reg) + unique_conditions(d, u, t, reg, job, present)),
        },
    }
}

fn push_lookup_head(st: &mut Statement, d: Dialect, hash: i64, reg: &EventDatabaseHandlerRegistration)
    ensures
        final(st)@ == old(st)@ + lookup_head(d, hash, *reg),
{
    if d == Dialect::MySql {
        st.text("SELECT id, state FROM bus_jobs USE INDEX(idx_bus_jobs_hash_type_name) WHERE hash_type_name = ");
    } else {
        st.text("WITH existing_job AS ( ");
        st.text("SELECT id, state FROM bus_jobs WHERE hash_type_name = ");
    }
    st.bind(SqlValue::I64(hash));
    st.text(" AND type_name_handler = ");
    st.bind(SqlValue::Text(reg.handler_identity.clone()));
    st.text(" AND type_name_event = ");
    st.bind(SqlValue::Text(reg.event_identity.clone()));
    assert(st@ =~= old(st)@ + lookup_head(d, hash, *reg));
}

fn push_field_conditions(st: &mut Statement, d: Dialect, fields: &Vec<Field>, reg: &EventDatabaseHandlerRegistration, job: &ValidatedJob)
    ensures
        final(st)@ == old(st)@ + field_conditions(d, fields@, *reg, *job),
{
    let mut i: usize = 0;
    assert(fields@.take(0) =~= Seq::<Field>::empty());
    assert(st@ =~= old(st)@ + field_conditions(d, fields@.take(0), *reg, *job));
    while i < fields.len()
        invariant
            i <= fields@.len(),
            st@ == old(st)@ + field_conditions(d, fields@.take(i as int), *reg, *job),
        decreases fields@.len() - i,
    {
        push_field_condition(st, d, fields[i], reg, job);
        let ghost next = fields@.take(i + 1);
        assert(next.drop_last() =~= fields@.take(i as int));
        assert(st@ =~= old(st)@ + field_conditions(d, next, *reg, *job));
        i = i + 1;
    }
    assert(fields@.take(i as int) =~= fields@);
}

fn push_key_conditions(st: &mut Statement, d: Dialect, keys: &Vec<String>, present: &Vec<bool>)
    requires
        present@.len() == keys@.len(),
    ensures
        final(st)@ == old(st)@ + key_conditions(d, keys@, present@),
{
    let mut k: usize = 0;
    assert(keys@.take(0) =~= Seq::<String>::empty());
    assert(st@ =~= old(st)@ + key_conditions(d, keys@.take(0), present@));
    while k < keys.len()
        invariant
            k <= keys@.len(),
            present@.len() == keys@.len(),
            st@ == old(st)@ + key_conditions(d, keys@.take(k as int), present@),
        decreases keys@.len() - k,
    {
        push_key_condition(st, d, &keys[k], present[k]);
        let ghost next = keys@.take(k + 1);
        assert(next.drop_last() =~= keys@.take(k as int));
        assert(st@ =~= old(st)@ + key_conditions(d, next, present@));
        k = k + 1;
    }
    assert(keys@.take(k as int) =~= keys@);
}

fn push_unique_conditions(
    st: &mut Statement,
    d: Dialect,
    u: &Unique,
    since: i128,
    reg: &EventDatabaseHandlerRegistration,
    job: &ValidatedJob,
    present: &Vec<bool>,
)
    requires
        present@.len() == u.keys@.len(),
    ensures
        final(st)@ == old(st)@ + unique_conditions(d, *u, since as int, *reg, *job, present@),
{
    match &u.period {
        Period::Infinite => {},
        Period::Duration { field, duration } => {
            st.text(crate::text::concat3(" AND ", field.column(), " > ").as_str());
            st.bind(SqlValue::Time(since));
        },
    }
    let ghost p1 = st@;
    push_field_conditions(st, d, &u.fields, reg, job);
    let ghost p2 = st@;
    push_key_conditions(st, d, &u.keys, present);
    let ghost p3 = st@;
    if u.states.len() > 0 {
        st.text(" AND bus_jobs.state IN (");
        push_state_list(st, d, &u.states);
        st.text(")");
    }
    assert(st@ =~= old(st)@ + unique_conditions(d, *u, since as int, *reg, *job, present@));
}

fn push_lookup(
    st: &mut Statement,
    d: Dialect,
    hash: i64,
    reg: &EventDatabaseHandlerRegistration,
    job: &ValidatedJob,
    present: &Vec<bool>,
    now: i128,
) -> (r: Result<(), BusError>)
    requires
        valid_instant(now as int),
        reg.unique matches Some(u) ==> present@.len() == u.keys@.len(),
    ensures
        r is Ok ==> (lookup_spec(d, hash, *reg, *job, present@, now as int) matches Ok(p) && final(st)@ == old(st)@ + p),
        r matches Err(e) ==> lookup_spec(d, hash, *reg, *job, present@, now as int) == Err::<Seq<PieceView>, (BusErrorKind, Seq<char>)>(e@),
{
    push_lookup_head(st, d, hash, reg);
    let ghost head = st@;
    match &reg.unique {
        None => {},
        Some(u) => {
            let since: i128 = match &u.period {
                Period::Infinite => now,
                Period::Duration { field, duration } => match delta_from_std(duration) {
                    Some(n) => now - n,
                    None => {
                        let mut s = String::new();
                        s.append("period.duration has incorrect value for DataBase Handler '");
                        s.append(reg.handler_identity.as_str());
                        s.append("'");
                        assert(s@ =~= period_error(reg.handler_identity@).1);
                        return Err(BusError::Configuration(s));
                    },
                },
            };
            push_unique_conditions(st, d, u, since, reg, job, present);
            assert(st@ =~= old(st)@ + (lookup_head(d, hash, *reg) + unique_conditions(d, *u, since as int, *reg, *job, present@)));
        },
    }
    Ok(())
}

/// The head of the insert of a new job: the table and its columns.
pub const INSERT_SQL: &'static str = "\nINSERT INTO bus_jobs (\n    id,\n    hash_type_name,\n\n    inserted_at,\n    scheduled_at,\n    attempted_at,\n    completed_at,\n    cancelled_at,\n    discarded_at,\n\n    state,\n    priority,\n    attempt,\n    max_attempts,\n    execution_timeout_sec,\n\n    queue,\n    type_name_event,\n    type_name_handler,\n\n    payload,\n    meta,\n    tags,\n    errors,\n    attempted_by\n) ";

/// The new value of a replaced column: the new job's value of it.
pub open spec fn column_value(d: Dialect, col: Seq<char>, reg: EventDatabaseHandlerRegistration, job: ValidatedJob) -> Seq<PieceView> {
    if col == "priority"@ {
        bind(ValueView::I32(job.priority))
    } else if col == "queue"@ {
        bind(ValueView::Text(reg.queue@))
    } else if col == "max_attempts"@ {
        bind(ValueView::I32(job.max_attempts))
    } else if col == "execution_timeout_sec"@ {
        bind(ValueView::I32(job.timeout_sec))
    } else if col == "tags"@ {
        bind(json_value(d, JsonView::Tags))
    } else if col == "payload"@ {
        bind(json_value(d, JsonView::Event))
    } else if col == "meta"@ {
        bind(json_value(d, JsonView::Meta))
    } else if d == Dialect::MySql {
        sql("`"@) + sql(col) + sql("` "@)
    } else {
        sql("bus_jobs."@) + sql(col)
    }
}

/// The assignment of one replaced column: the new value where the matching job is in
/// one of the states, its own value otherwise.
#[verifier::opaque]
pub open spec fn assignment(
    d: Dialect,
    col: Seq<char>,
    states: Seq<State>,
    reg: EventDatabaseHandlerRegistration,
    job: ValidatedJob,
) -> Seq<PieceView> {
    sql(col) + (if d == Dialect::MySql { sql(" = CASE WHEN state IN ("@) } else { sql(" = CASE WHEN bus_jobs.state IN ("@) })
        + state_list(d, states) + sql(") THEN "@) + column_value(d, col, reg, job)
        + (if d == Dialect::MySql { sql(" ELSE `"@) } else { sql(" ELSE bus_jobs."@) }) + sql(col)
        + (if d == Dialect::MySql { sql("` END"@) } else { sql(" END"@) })
}

/// The assignments of all replaced columns, separated by commas.
pub open spec fn assignments(
    d: Dialect,
    ups: Seq<(Seq<char>, Seq<State>)>,
    reg: EventDatabaseHandlerRegistration,
    job: ValidatedJob,
) -> Seq<PieceView>
    decreases ups.len(),
{
    if ups.len() == 0 {
        Seq::empty()
    } else {
        assignments(d, ups.drop_last(), reg, job) + (if ups.len() > 1 { sql(", "@) } else { Seq::empty() })
            + assignment(d, ups.last().0, ups.last().1, reg, job)
    }
}

pub(crate) fn push_column_value(st: &mut Statement, d: Dialect, col: &'static str, reg: &EventDatabaseHandlerRegistration, job: &ValidatedJob)
    ensures
        final(st)@ == old(st)@ + column_value(d, col@, *reg, *job),
{
    if crate::text::str_eq(col, "priority") {
        st.bind(SqlValue::I32(job.priority));
    } else if crate::text::str_eq(col, "queue") {
        st.bind(SqlValue::Text(reg.queue.clone()));
    } else if crate::text::str_eq(col, "max_attempts") {
        st.bind(SqlValue::I32(job.max_attempts));
    } else if crate::text::str_eq(col, "execution_timeout_sec") {
        st.bind(SqlValue::I32(job.timeout_sec));
    } else if crate::text::str_eq(col, "tags") {
        st.bind(json_bound(d, JsonSource::Tags));
    } else if crate::text::str_eq(col, "payload") {
        st.bind(json_bound(d, JsonSource::Event));
    } else if crate::text::str_eq(col, "meta") {
        st.bind(json_bound(d, JsonSource::Meta));
    } else if d == Dialect::MySql {
        st.text("`");
        st.text(col);
        st.text("` ");
    } else {
        st.text("bus_jobs.");
        st.text(col);
    }
    assert(st@ =~= old(st)@ + column_value(d, col@, *reg, *job));
}

fn push_assignment(
    st: &mut Statement,
    d: Dialect,
    col: &'static str,
    states: &Vec<State>,
    reg: &EventDatabaseHandlerRegistration,
    job: &ValidatedJob,
)
    ensures
        final(st)@ == old(st)@ + assignment(d, col@, states@, *reg, *job),
{
    st.text(col);
    if d == Dialect::MySql {
        st.text(" = CASE WHEN state IN (");
    } else {
        st.text(" = CASE WHEN bus_jobs.state IN (");
    }
    let ghost a = st@;
    push_state_list(st, d, states);
    st.text(") THEN ");
    let ghost b = st@;
    push_column_value(st, d, col, reg, job);
    let ghost c = st@;
    if d == Dialect::MySql {
        st.text(" ELSE `");
    } else {
        st.text(" ELSE bus_jobs.");
    }
    st.text(col);
    if d == Dialect::MySql {
        st.text("` END");
    } else {
        st.text(" END");
    }
    assert(st@ =~= old(st)@ + assignment(d, col@, states@, *reg, *job)) by {
        reveal(assignment);
    }
}

fn push_assignments(
    st: &mut Statement,
    d: Dialect,
    ups: &Vec<(&'static str, Vec<State>)>,
    reg: &EventDatabaseHandlerRegistration,
    job: &ValidatedJob,
)
    ensures
        final(st)@ == old(st)@ + assignments(d, crate::plan::update_case_view(ups@), *reg, *job),
{
    let ghost uv = crate::plan::update_case_view(ups@);
    let mut i: usize = 0;
    assert(uv.take(0) =~= Seq::<(Seq<char>, Seq<State>)>::empty());
    assert(st@ =~= old(st)@ + assignments(d, uv.take(0), *reg, *job));
    while i < ups.len()
        invariant
            i <= ups@.len(),
            uv == crate::plan::update_case_view(ups@),
            st@ == old(st)@ + assignments(d, uv.take(i as int), *reg, *job),
        decreases ups@.len() - i,
    {
        let ghost before = st@;
        if i > 0 {
            st.text(", ");
        }
        let ghost mid = st@;
        let col = ups[i].0;
        push_assignment(st, d, col, &ups[i].1, reg, job);
        assert(st@ == mid + assignment(d, col@, ups@[i as int].1@, *reg, *job));
        let ghost next = uv.take(i + 1);
        assert(next.drop_last() =~= uv.take(i as int));
        assert(next.last() == (col@, ups@[i as int].1@));
        assert(st@ =~= old(st)@ + assignments(d, next, *reg, *job));
        i = i + 1;
    }
    assert(uv.take(i as int) =~= uv);
}

/// The identifying values of a new job: identifier, hash, insertion and due times.
pub open spec fn insert_values_ids(id: u128, hash: i64, now: int, job: ValidatedJob) -> Seq<PieceView> {
    bind(ValueView::Uuid(id)) + sql(", "@) + bind(ValueView::I64(hash)) + sql(", "@) + bind(ValueView::Time(now as i128))
        + sql(", "@) + bind(ValueView::Time(job.schedule_in)) + sql(", "@)
}

/// No attempt, completion, cancellation or discard time, and the available state.
pub open spec fn insert_values_state(d: Dialect) -> Seq<PieceView> {
    bind(ValueView::NullTime) + sql(", "@) + bind(ValueView::NullTime) + sql(", "@) + bind(ValueView::NullTime)
        + sql(", "@) + bind(ValueView::NullTime) + sql(", "@)
        + (if d == Dialect::MySql { bind(ValueView::Text("available"@)) } else { sql(" 'available'::bus_job_state "@) })
        + sql(", "@)
}

/// The priority, attempt 0, attempts, timeout, queue, event and handler of a new job.
pub open spec fn insert_values_settings(reg: EventDatabaseHandlerRegistration, job: ValidatedJob) -> Seq<PieceView> {
    bind(ValueView::I32(job.priority)) + sql(", "@) + bind(ValueView::I32(0)) + sql(", "@)
        + bind(ValueView::I32(job.max_attempts)) + sql(", "@) + bind(ValueView::I32(job.timeout_sec)) + sql(", "@)
        + bind(ValueView::Text(reg.queue@)) + sql(", "@) + bind(ValueView::Text(reg.event_identity@)) + sql(", "@)
        + bind(ValueView::Text(reg.handler_identity@)) + sql(", "@)
}

/// The payload, metadata and tags of a new job, and no errors and no workers.
pub open spec fn insert_values_json(d: Dialect) -> Seq<PieceView> {
    let none = if d == Dialect::MySql { bind(ValueView::Text("[]"@)) } else { bind(ValueView::Json(JsonView::EmptyArray)) };
    bind(json_value(d, JsonView::Event)) + sql(", "@) + bind(json_value(d, JsonView::Meta)) + sql(", "@)
        + bind(json_value(d, JsonView::Tags)) + sql(", "@) + none + sql(", "@) + none
}

/// The values of a new job, separated by commas.
pub open spec fn insert_values(
    d: Dialect,
    id: u128,
    hash: i64,
    now: int,
    reg: EventDatabaseHandlerRegistration,
    job: ValidatedJob,
) -> Seq<PieceView> {
    insert_values_ids(id, hash, now, job) + insert_values_state(d) + insert_values_settings(reg, job) + insert_values_json(d)
}

fn push_values_ids(st: &mut Statement, id: u128, hash: i64, now: i128, job: &ValidatedJob)
    ensures
        final(st)@ == old(st)@ + insert_values_ids(id, hash, now as int, *job),
{
    st.bind(SqlValue::Uuid(id));
    st.text(", ");
    st.bind(SqlValue::I64(hash));
    st.text(", ");
    st.bind(SqlValue::Time(now));
    st.text(", ");
    st.bind(SqlValue::Time(job.schedule_in));
    st.text(", ");
    assert(st@ =~= old(st)@ + insert_values_ids(id, hash, now as int, *job));
}

fn push_values_state(st: &mut Statement, d: Dialect)
    ensures
        final(st)@ == old(st)@ + insert_values_state(d),
{
    st.bind(SqlValue::NullTime);
    st.text(", ");
    st.bind(SqlValue::NullTime);
    st.text(", ");
    st.bind(SqlValue::NullTime);
    st.text(", ");
    st.bind(SqlValue::NullTime);
    st.text(", ");
    if d == Dialect::MySql {
        st.bind(SqlValue::Text(String::from_str("available")));
    } else {
        st.text(" 'available'::bus_job_state ");
    }
    st.text(", ");
    assert(st@ =~= old(st)@ + insert_values_state(d));
}

fn push_values_settings(st: &mut Statement, reg: &EventDatabaseHandlerRegistration, job: &ValidatedJob)
    ensures
        final(st)@ == old(st)@ + insert_values_settings(*reg, *job),
{
    st.bind(SqlValue::I32(job.priority));
    st.text(", ");
    st.bind(SqlValue::I32(0));
    st.text(", ");
    st.bind(SqlValue::I32(job.max_attempts));
    st.text(", ");
    st.bind(SqlValue::I32(job.timeout_sec));
    st.text(", ");
    st.bind(SqlValue::Text(reg.queue.clone()));
    st.text(", ");
    st.bind(SqlValue::Text(reg.event_identity.clone()));
    st.text(", ");
    st.bind(SqlValue::Text(reg.handler_identity.clone()));
    st.text(", ");
    assert(st@ =~= old(st)@ + insert_values_settings(*reg, *job));
}

fn push_values_json(st: &mut Statement, d: Dialect)
    ensures
        final(st)@ == old(st)@ + insert_values_json(d),
{
    st.bind(json_bound(d, JsonSource::Event));
    st.text(", ");
    st.bind(json_bound(d, JsonSource::Meta));
    st.text(", ");
    st.bind(json_bound(d, JsonSource::Tags));
    st.text(", ");
    if d == Dialect::MySql {
        st.bind(SqlValue::Text(String::from_str("[]")));
        st.text(", ");
        st.bind(SqlValue::Text(String::from_str("[]")));
    } else {
        st.bind(SqlValue::Json(JsonSource::EmptyArray));
        st.text(", ");
        st.bind(SqlValue::Json(JsonSource::EmptyArray));
    }
    assert(st@ =~= old(st)@ + insert_values_json(d));
}

fn push_insert_values(
    st: &mut Statement,
    d: Dialect,
    id: u128,
    hash: i64,
    now: i128,
    reg: &EventDatabaseHandlerRegistration,
    job: &ValidatedJob,
)
    ensures
        final(st)@ == old(st)@ + insert_values(d, id, hash, now as int, *reg, *job),
{
    push_values_ids(st, id, hash, now, job);
    push_values_state(st, d);
    push_values_settings(st, reg, job);
    push_values_json(st, d);
    assert(st@ =~= old(st)@ + insert_values(d, id, hash, now as int, *reg, *job));
}

/// The replaced columns of a handler's uniqueness rule (none without a rule).
pub open spec fn handler_updates(reg: EventDatabaseHandlerRegistration) -> Seq<(Seq<char>, Seq<State>)> {
    match reg.unique {
        Some(u) => update_case_spec(u.replace@),
        None => Seq::empty(),
    }
}

pub(crate) fn handler_update_case(reg: &EventDatabaseHandlerRegistration) -> (r: Vec<(&'static str, Vec<State>)>)
    ensures
        update_case_view(r@) == handler_updates(*reg),
{
    match &reg.unique {
        Some(u) => update_case(&u.replace),
        None => {
            let r: Vec<(&'static str, Vec<State>)> = Vec::new();
            assert(update_case_view(r@) =~= Seq::<(Seq<char>, Seq<State>)>::empty());
            r
        },
    }
}

/// The pieces of a statement, as seen.
pub open spec fn pieces_view(p: Seq<Piece>) -> Seq<PieceView> {
    p.map_values(|x: Piece| x@)
}

/// The MySQL lookup (locking it) of the queued job that a new dispatch of the handler
/// matches.
pub open spec fn mysql_lookup_spec(
    hash: i64,
    reg: EventDatabaseHandlerRegistration,
    job: ValidatedJob,
    present: Seq<bool>,
    now: int,
) -> Result<Seq<PieceView>, (BusErrorKind, Seq<char>)> {
    match lookup_spec(Dialect::MySql, hash, reg, job, present, now) {
        Ok(p) => Ok(p + sql(" LIMIT 1 FOR UPDATE "@)),
        Err(e) => Err(e),
    }
}

/// The hash under which the jobs of a handler are stored.
pub fn handler_hash(reg: &EventDatabaseHandlerRegistration) -> (h: i64)
    ensures
        h == crate::registry::type_hash(*reg),
{
    crate::outside::xxh3_64_pair(reg.handler_identity.as_str(), reg.event_identity.as_str())
}

/// The MySQL lookup of the job that a new dispatch matches. `present[k]` tells whether
/// the event's payload has uniqueness key `k`; `now` is the time of the dispatch.
pub fn mysql_lookup(
    reg: &EventDatabaseHandlerRegistration,
    job: &ValidatedJob,
    present: &Vec<bool>,
    now: i128,
) -> (r: Result<Vec<Piece>, BusError>)
    requires
        valid_instant(now as int),
        reg.unique matches Some(u) ==> present@.len() == u.keys@.len(),
    ensures
        r matches Ok(p) ==> mysql_lookup_spec(crate::registry::type_hash(*reg), *reg, *job, present@, now as int)
            == Ok::<Seq<PieceView>, (BusErrorKind, Seq<char>)>(pieces_view(p@)),
        r matches Err(e) ==> mysql_lookup_spec(crate::registry::type_hash(*reg), *reg, *job, present@, now as int)
            == Err::<Seq<PieceView>, (BusErrorKind, Seq<char>)>(e@),
{
    let hash = handler_hash(reg);
    let mut st = Statement::new();
    push_lookup(&mut st, Dialect::MySql, hash, reg, job, present, now)?;
    st.text(" LIMIT 1 FOR UPDATE ");
    Ok(st.into_pieces())
}

/// The MySQL update of the matching job `existing_id`: none where the handler replaces
/// no column.
pub open spec fn mysql_update_spec(
    reg: EventDatabaseHandlerRegistration,
    job: ValidatedJob,
    existing_id: Seq<u8>,
) -> Option<Seq<PieceView>> {
    if handler_updates(reg).len() == 0 {
        None
    } else {
        Some(sql("UPDATE bus_jobs SET "@) + assignments(Dialect::MySql, handler_updates(reg), reg, job)
            + sql(" WHERE id = "@) + bind(ValueView::Bytes(existing_id)))
    }
}

/// The MySQL update of the job that a new dispatch matched, if the handler replaces columns.
pub fn mysql_update(reg: &EventDatabaseHandlerRegistration, job: &ValidatedJob, existing_id: Vec<u8>) -> (r: Option<Vec<Piece>>)
    ensures
        r matches Some(p) ==> mysql_update_spec(*reg, *job, existing_id@) == Some(pieces_view(p@)),
        r is None ==> mysql_update_spec(*reg, *job, existing_id@) is None,
{
    let ups = handler_update_case(reg);
    if ups.len() == 0 {
        return None;
    }
    let ghost id_view = existing_id@;
    let mut st = Statement::new();
    st.text("UPDATE bus_jobs SET ");
    push_assignments(&mut st, Dialect::MySql, &ups, reg, job);
    st.text(" WHERE id = ");
    st.bind(SqlValue::Bytes(existing_id));
    Some(st.into_pieces())
}

/// The MySQL insert of a new job.
pub open spec fn mysql_insert_spec(
    id: u128,
    hash: i64,
    now: int,
    reg: EventDatabaseHandlerRegistration,
    job: ValidatedJob,
) -> Seq<PieceView> {
    sql(INSERT_SQL@) + sql(" VALUES ("@) + insert_values(Dialect::MySql, id, hash, now, reg, job) + sql(")"@)
}

/// The MySQL insert of a new job of identifier `id` when no queued job matched.
pub fn mysql_insert(reg: &EventDatabaseHandlerRegistration, job: &ValidatedJob, id: u128, now: i128) -> (r: Vec<Piece>)
    ensures
        pieces_view(r@) == mysql_insert_spec(id, crate::registry::type_hash(*reg), now as int, *reg, *job),
{
    let hash = handler_hash(reg);
    let mut st = Statement::new();
    st.text(INSERT_SQL);
    st.text(" VALUES (");
    push_insert_values(&mut st, Dialect::MySql, id, hash, now, reg, job);
    st.text(")");
    st.into_pieces()
}

/// The single Postgres statement that queues a handler's job: it finds and locks the
/// matching job, updates the columns the handler replaces in it, and inserts a new job
/// where no job matched.
pub open spec fn postgres_insert_spec(
    id: u128,
    hash: i64,
    reg: EventDatabaseHandlerRegistration,
    job: ValidatedJob,
    present: Seq<bool>,
    now: int,
) -> Result<Seq<PieceView>, (BusErrorKind, Seq<char>)> {
    match lookup_spec(Dialect::Postgres, hash, reg, job, present, now) {
        Err(e) => Err(e),
        Ok(lookup) => Ok(lookup + sql(" LIMIT 1 FOR UPDATE), "@) + sql(" updated_job AS ("@)
            + (if handler_updates(reg).len() == 0 {
                sql("SELECT id FROM existing_job"@)
            } else {
                sql(" UPDATE bus_jobs SET "@) + assignments(Dialect::Postgres, handler_updates(reg), reg, job)
                    + sql(" FROM existing_job WHERE bus_jobs.id = existing_job.id RETURNING bus_jobs.id "@)
            }) + sql(") "@) + sql(INSERT_SQL@) + sql("SELECT "@)
            + insert_values(Dialect::Postgres, id, hash, now, reg, job)
            + sql(" WHERE NOT EXISTS (SELECT 1 FROM existing_job) "@)
            + sql(" AND NOT EXISTS (SELECT 1 FROM updated_job) "@)),
    }
}

/// The Postgres statement that queues a handler's job of identifier `id`.
pub fn postgres_insert(
    reg: &EventDatabaseHandlerRegistration,
    job: &ValidatedJob,
    present: &Vec<bool>,
    id: u128,
    now: i128,
) -> (r: Result<Vec<Piece>, BusError>)
    requires
        valid_instant(now as int),
        reg.unique matches Some(u) ==> present@.len() == u.keys@.len(),
    ensures
        r matches Ok(p) ==> postgres_insert_spec(id, crate::registry::type_hash(*reg), *reg, *job, present@, now as int)
            == Ok::<Seq<PieceView>, (BusErrorKind, Seq<char>)>(pieces_view(p@)),
        r matches Err(e) ==> postgres_insert_spec(id, crate::registry::type_hash(*reg), *reg, *job, present@, now as int)
            == Err::<Seq<PieceView>, (BusErrorKind, Seq<char>)>(e@),
{
    let hash = handler_hash(reg);
    let mut st = Statement::new();
    push_lookup(&mut st, Dialect::Postgres, hash, reg, job, present, now)?;
    let ghost lookup = st@;
    assert(lookup_spec(Dialect::Postgres, hash, *reg, *job, present@, now as int) == Ok::<Seq<PieceView>, (BusErrorKind, Seq<char>)>(lookup));
    st.text(" LIMIT 1 FOR UPDATE), ");
    st.text(" updated_job AS (");
    let ghost head = st@;
    let ups = handler_update_case(reg);
    if ups.len() == 0 {
        st.text("SELECT id FROM existing_job");
    } else {
        st.text(" UPDATE bus_jobs SET ");
        push_assignments(&mut st, Dialect::Postgres, &ups, reg, job);
        st.text(" FROM existing_job WHERE bus_jobs.id = existing_job.id RETURNING bus_jobs.id ");
    }
    let ghost updated = st@;
    assert(updated == head + (if handler_updates(*reg).len() == 0 {
        sql("SELECT id FROM existing_job"@)
    } else {
        sql(" UPDATE bus_jobs SET "@) + assignments(Dialect::Postgres, handler_updates(*reg), *reg, *job)
            + sql(" FROM existing_job WHERE bus_jobs.id = existing_job.id RETURNING bus_jobs.id "@)
    }));
    st.text(") ");
    st.text(INSERT_SQL);
    st.text("SELECT ");
    let ghost before_values = st@;
    push_insert_values(&mut st, Dialect::Postgres, id, hash, now, reg, job);
    st.text(" WHERE NOT EXISTS (SELECT 1 FROM existing_job) ");
    st.text(" AND NOT EXISTS (SELECT 1 FROM updated_job) ");
    assert(postgres_insert_spec(id, hash, *reg, *job, present@, now as int) == Ok::<Seq<PieceView>, (BusErrorKind, Seq<char>)>(st@));
    Ok(st.into_pieces())
}

/// The MySQL statement that follows the lookup: the update of the matching job (none
/// where the handler replaces no column), or, where no job matched, the insert of a
/// new job of identifier `id`.
pub fn mysql_after_lookup(
    reg: &EventDatabaseHandlerRegistration,
    job: &ValidatedJob,
    existing: Option<Vec<u8>>,
    now: i128,
) -> (r: Option<Vec<Piece>>)
    ensures
        existing matches Some(e) ==> (match mysql_update_spec(*reg, *job, e@) {
            Some(u) => r matches Some(p) && pieces_view(p@) == u,
            None => r is None,
        }),
        existing is None ==> (r matches Some(p) && exists|id: u128| crate::outside::is_v7_uuid(id) &&
            pieces_view(p@) == #[trigger] mysql_insert_spec(id, crate::registry::type_hash(*reg), now as int, *reg, *job)),
{
    match existing {
        Some(e) => mysql_update(reg, job, e),
        None => {
            let id = crate::outside::new_job_id();
            Some(mysql_insert(reg, job, id, now))
        },
    }
}

/// The Postgres statement that queues a handler's job under a fresh time-ordered identifier.
pub fn postgres_queue_statement(
    reg: &EventDatabaseHandlerRegistration,
    job: &ValidatedJob,
    present: &Vec<bool>,
    now: i128,
) -> (r: Result<Vec<Piece>, BusError>)
    requires
        valid_instant(now as int),
        reg.unique matches Some(u) ==> present@.len() == u.keys@.len(),
    ensures
        r matches Ok(p) ==> exists|id: u128| crate::outside::is_v7_uuid(id) && postgres_insert_spec(id, crate::registry::type_hash(*reg), *reg, *job, present@, now as int)
            == Ok::<Seq<PieceView>, (BusErrorKind, Seq<char>)>(pieces_view(p@)),
        r matches Err(e) ==> forall|id: u128| postgres_insert_spec(id, crate::registry::type_hash(*reg), *reg, *job, present@, now as int)
            == Err::<Seq<PieceView>, (BusErrorKind, Seq<char>)>(e@),
{
    let id = crate::outside::new_job_id();
    let r = postgres_insert(reg, job, present, id, now);
    proof {
        if r is Err {
            assert forall|id2: u128| postgres_insert_spec(id2, crate::registry::type_hash(*reg), *reg, *job, present@, now as int)
                == postgres_insert_spec(id, crate::registry::type_hash(*reg), *reg, *job, present@, now as int) by {}
        }
    }
    r
}

/// The key of the transaction lock that Postgres takes before it queues a job: XXH3 of
/// `bus.insert`, the handler, the event, the queue, then the event's JSON bytes.
pub open spec fn insert_lock_key_spec(reg: EventDatabaseHandlerRegistration, event_bytes: Seq<u8>) -> i64 {
    crate::outside::xxh3_64(vstd::utf8::encode_utf8("bus.insert"@) + vstd::utf8::encode_utf8(reg.handler_identity@)
        + vstd::utf8::encode_utf8(reg.event_identity@) + vstd::utf8::encode_utf8(reg.queue@) + event_bytes) as i64
}

/// The key of the transaction lock that serializes the queueing of equal jobs.
pub fn insert_lock_key(reg: &EventDatabaseHandlerRegistration, event_bytes: &Vec<u8>) -> (k: i64)
    ensures
        k == insert_lock_key_spec(*reg, event_bytes@),
{
    crate::outside::xxh3_64_lock(
        "bus.insert",
        reg.handler_identity.as_str(),
        reg.event_identity.as_str(),
        reg.queue.as_str(),
        event_bytes.as_slice(),
    )
}

/// Values bound one after the other, separated by `sep`.
pub open spec fn listed(values: Seq<ValueView>, sep: Seq<char>) -> Seq<PieceView>
    decreases values.len(),
{
    if values.len() == 0 {
        Seq::empty()
    } else {
        listed(values.drop_last(), sep) + (if values.len() > 1 { sql(sep) } else { Seq::empty() }) + bind(values.last())
    }
}

pub(crate) fn push_listed(st: &mut Statement, values: Vec<SqlValue>, sep: &str)
    ensures
        final(st)@ == old(st)@ + listed(values@.map_values(|v: SqlValue| v@), sep@),
{
    let ghost vs = values@.map_values(|v: SqlValue| v@);
    let mut rest = values;
    let n = rest.len();
    let mut i: usize = 0;
    assert(vs.take(0) =~= Seq::<ValueView>::empty());
    assert(st@ =~= old(st)@ + listed(vs.take(0), sep@));
    while rest.len() > 0
        invariant
            n == vs.len(),
            i + rest@.len() == n,
            forall|k: int| 0 <= k < rest@.len() ==> #[trigger] rest@[k]@ == vs[i + k],
            st@ == old(st)@ + listed(vs.take(i as int), sep@),
        decreases rest@.len(),
    {
        let ghost before = rest@;
        let v = rest.remove(0);
        assert(v@ == vs[i as int]);
        assert forall|k: int| 0 <= k < rest@.len() implies #[trigger] rest@[k]@ == vs[i + 1 + k] by {
            assert(rest@[k] == before[k + 1]);
        }
        if i > 0 {
            st.text(sep);
        }
        st.bind(v);
        let ghost next = vs.take(i + 1);
        assert(next.drop_last() =~= vs.take(i as int));
        assert(next.last() == vs[i as int]);
        assert(st@ =~= old(st)@ + listed(next, sep@));
        i = i + 1;
    }
    assert(vs.take(i as int) =~= vs);
}

/// The MySQL update that claims the jobs a worker fetched: they are executing from
/// `now`, and their attempt counts one more.
pub open spec fn mysql_claim_spec(ids: Seq<Seq<u8>>, now: int) -> Seq<PieceView> {
    sql("UPDATE bus_jobs SET state = 'executing', attempted_at = "@) + bind(ValueView::Time(now as i128))
        + sql(", attempt = attempt + 1 WHERE id IN ("@) + listed(ids.map_values(|b: Seq<u8>| ValueView::Bytes(b)), ", "@)
        + sql(")"@)
}

/// The MySQL update that claims fetched jobs, given the bytes of their identifiers.
pub fn mysql_claim(ids: Vec<Vec<u8>>, now: i128) -> (r: Vec<Piece>)
    ensures
        pieces_view(r@) == mysql_claim_spec(ids@.map_values(|b: Vec<u8>| b@), now as int),
{
    let ghost idv = ids@.map_values(|b: Vec<u8>| b@);
    let mut values: Vec<SqlValue> = Vec::new();
    let mut rest = ids;
    let n = rest.len();
    while rest.len() > 0
        invariant
            n == idv.len(),
            values@.len() + rest@.len() == n,
            forall|k: int| 0 <= k < rest@.len() ==> #[trigger] rest@[k]@ == idv[values@.len() + k],
            forall|k: int| 0 <= k < values@.len() ==> #[trigger] values@[k]@ == ValueView::Bytes(idv[k]),
        decreases rest@.len(),
    {
        let ghost before = rest@;
        let ghost k0 = values@.len() as int;
        let b = rest.remove(0);
        assert(b@ == idv[k0]);
        values.push(SqlValue::Bytes(b));
        assert forall|k: int| 0 <= k < rest@.len() implies #[trigger] rest@[k]@ == idv[values@.len() + k] by {
            assert(rest@[k] == before[k + 1]);
        }
    }
    let ghost vs = values@.map_values(|v: SqlValue| v@);
    assert(vs =~= idv.map_values(|b: Seq<u8>| ValueView::Bytes(b)));
    let mut st = Statement::new();
    st.text("UPDATE bus_jobs SET state = 'executing', attempted_at = ");
    st.bind(SqlValue::Time(now));
    st.text(", attempt = attempt + 1 WHERE id IN (");
    push_listed(&mut st, values, ", ");
    st.text(")");
    assert(st@ =~= mysql_claim_spec(idv, now as int));
    st.into_pieces()
}

} // verus!
