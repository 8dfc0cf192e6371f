//! What holds of the library as a whole.
use crate::codegen::{derives_to_add_spec, sanitize_spec};
use crate::config::{find_queue, QueueConfiguration};
use crate::enums::{replace_columns, replace_state, state_name, Replace, State};
use crate::outcome::{failure_plan_spec, FailurePlan};
use crate::plan::{columns_in_order, replace_pairs, states_of, update_case_spec};
use crate::registry::groups_of;
use crate::time::{backoff_minutes, lemma_backoff_values, valid_instant, NANOS_PER_MINUTE};
use crate::validate::first_repeated_state;
use crate::registration::EventDatabaseHandlerRegistration;
use crate::sea::{my_lookup_head, pg_lookup_head, sea_mysql_lookup_spec, sea_postgres_insert_spec, pg_lookup_spec, KeyValueView};
use crate::sql::{bind, lookup_head, lookup_spec, mysql_lookup_spec, postgres_insert_spec, sql, Dialect, JsonView, ValueView};
use crate::validate::ValidatedJob;
use crate::job_sql::failure_spec;
use vstd::arithmetic::power2::pow2;
use vstd::prelude::*;

verus! {

/// A failed job that has attempts left is retried later than it failed, after the
/// default backoff of its attempt (at least one minute).
pub proof fn law_retry_is_later(attempt: i32, max_attempts: i32, now: int)
    requires
        attempt < max_attempts,
        valid_instant(now),
    ensures
        failure_plan_spec(attempt, max_attempts, now, backoff_minutes(attempt as u32) * NANOS_PER_MINUTE)
            matches FailurePlan::Retry { scheduled_at } && scheduled_at > now
            && scheduled_at == now + backoff_minutes(attempt as u32) * NANOS_PER_MINUTE,
{
    lemma_backoff_values(attempt as u32);
}

/// A failed job that has used its attempts is discarded at the time it failed.
pub proof fn law_exhausted_job_is_discarded(attempt: i32, max_attempts: i32, now: int, delay: int)
    requires
        attempt >= max_attempts,
    ensures
        failure_plan_spec(attempt, max_attempts, now, delay) == (FailurePlan::Discard { discarded_at: now as i128 }),
{
}

/// The statement that records a failed run makes the job retryable at the planned time
/// while it has attempts left, and discarded at the time it failed otherwise; either
/// way it appends the run's error entry, and only to that job while it is executing.
pub proof fn law_failed_run_is_recorded_as_planned(id: u128, attempt: i32, max_attempts: i32, now: int, delay: int)
    ensures
        failure_spec(id, failure_plan_spec(attempt, max_attempts, now, delay)) == (if attempt < max_attempts {
            sql("UPDATE bus_jobs SET state = 'retryable'::bus_job_state, scheduled_at = "@)
                + bind(ValueView::Time((now + delay) as i128))
        } else {
            sql("UPDATE bus_jobs SET state = 'discarded'::bus_job_state, discarded_at = "@)
                + bind(ValueView::Time(now as i128))
        }) + sql(", errors = COALESCE(errors, '[]'::jsonb) || "@) + bind(ValueView::Json(JsonView::Errors))
            + sql("::jsonb WHERE id = "@) + bind(ValueView::Uuid(id)) + sql(" AND state = 'executing'::bus_job_state"@),
{
}

/// The labels of the database's `bus_job_state` type.
pub open spec fn job_state_labels() -> Seq<Seq<char>> {
    seq!["available"@, "scheduled"@, "executing"@, "retryable"@, "completed"@, "cancelled"@, "discarded"@]
}

/// The state that a stored label names, read from its first two characters.
spec fn state_of_label(n: Seq<char>) -> State {
    if n[0] == 'a' {
        State::Available
    } else if n[0] == 's' {
        State::Scheduled
    } else if n[0] == 'e' {
        State::Executing
    } else if n[0] == 'r' {
        State::Retryable
    } else if n[0] == 'd' {
        State::Discarded
    } else if n[1] == 'o' {
        State::Completed
    } else {
        State::Cancelled
    }
}

/// Distinct job states are stored under distinct labels, and every state is stored
/// under one of the labels of the `bus_job_state` type.
pub proof fn law_state_labels_are_distinct(s1: State, s2: State)
    ensures
        s1 != s2 ==> state_name(s1) != state_name(s2),
        job_state_labels().contains(state_name(s1)),
{
    reveal_strlit("available");
    reveal_strlit("scheduled");
    reveal_strlit("executing");
    reveal_strlit("retryable");
    reveal_strlit("completed");
    reveal_strlit("cancelled");
    reveal_strlit("discarded");
    assert(state_of_label(state_name(s1)) == s1);
    assert(state_of_label(state_name(s2)) == s2);
    let labels = job_state_labels();
    let k: int = match s1 {
        State::Available => 0,
        State::Scheduled => 1,
        State::Executing => 2,
        State::Retryable => 3,
        State::Completed => 4,
        State::Cancelled => 5,
        State::Discarded => 6,
    };
    assert(labels[k] == state_name(s1));
}

/// The derive paths that the event macro can add.
proof fn lemma_derive_paths_differ()
    ensures
        "::core::fmt::Debug"@ != "::core::clone::Clone"@,
        "::core::fmt::Debug"@ != "::serde::Serialize"@,
        "::core::fmt::Debug"@ != "::serde::Deserialize"@,
        "::core::clone::Clone"@ != "::serde::Serialize"@,
        "::core::clone::Clone"@ != "::serde::Deserialize"@,
        "::serde::Serialize"@ != "::serde::Deserialize"@,
{
    reveal_strlit("::core::fmt::Debug");
    reveal_strlit("::core::clone::Clone");
    reveal_strlit("::serde::Serialize");
    reveal_strlit("::serde::Deserialize");
    assert("::core::fmt::Debug"@.len() != "::core::clone::Clone"@.len());
    assert("::core::fmt::Debug"@[2] != "::serde::Serialize"@[2]);
    assert("::core::fmt::Debug"@.len() != "::serde::Deserialize"@.len());
    assert("::core::clone::Clone"@.len() != "::serde::Serialize"@.len());
    assert("::core::clone::Clone"@[2] != "::serde::Deserialize"@[2]);
    assert("::serde::Serialize"@.len() != "::serde::Deserialize"@.len());
}

proof fn lemma_at_most_one(s: Seq<Seq<char>>, y: Seq<char>, x: Seq<char>)
    requires
        s == Seq::<Seq<char>>::empty() || s == seq![y],
    ensures
        s.contains(x) <==> (s.len() == 1 && x == y),
{
    if s.len() == 1 {
        assert(s[0] == y);
        if x == y {
            assert(s.contains(x));
        }
    }
}

/// An event gets each required derive exactly when its own derives do not name it,
/// whatever else they name: `Debug`, `Clone`, `Serialize` and `Deserialize` are each
/// added if and only if missing, each at most once, and nothing else is added.
pub proof fn law_missing_derives_are_added(present: Seq<Seq<char>>)
    ensures
        derives_to_add_spec(present).contains("::core::fmt::Debug"@) <==> !present.contains("Debug"@),
        derives_to_add_spec(present).contains("::core::clone::Clone"@) <==> !present.contains("Clone"@),
        derives_to_add_spec(present).contains("::serde::Serialize"@) <==> !present.contains("Serialize"@),
        derives_to_add_spec(present).contains("::serde::Deserialize"@) <==> !present.contains("Deserialize"@),
        derives_to_add_spec(present).no_duplicates(),
        forall|i: int| 0 <= i < derives_to_add_spec(present).len() ==> {
            let p = #[trigger] derives_to_add_spec(present)[i];
            p == "::core::fmt::Debug"@ || p == "::core::clone::Clone"@ || p == "::serde::Serialize"@
                || p == "::serde::Deserialize"@
        },
{
    lemma_derive_paths_differ();
    let a: Seq<Seq<char>> = if present.contains("Debug"@) { Seq::empty() } else { seq!["::core::fmt::Debug"@] };
    let b: Seq<Seq<char>> = if present.contains("Clone"@) { Seq::empty() } else { seq!["::core::clone::Clone"@] };
    let c: Seq<Seq<char>> = if present.contains("Serialize"@) { Seq::empty() } else { seq!["::serde::Serialize"@] };
    let e: Seq<Seq<char>> = if present.contains("Deserialize"@) { Seq::empty() } else { seq!["::serde::Deserialize"@] };
    let r = derives_to_add_spec(present);
    assert(r == a + b + c + e);
    assert forall|x: Seq<char>| r.contains(x) <==> (a.contains(x) || b.contains(x) || c.contains(x) || e.contains(x)) by {
        if r.contains(x) {
            let k = choose|k: int| 0 <= k < r.len() && r[k] == x;
            if k < a.len() {
                assert(a[k] == x);
            } else if k < a.len() + b.len() {
                assert(b[k - a.len()] == x);
            } else if k < a.len() + b.len() + c.len() {
                assert(c[k - a.len() - b.len()] == x);
            } else {
                assert(e[k - a.len() - b.len() - c.len()] == x);
            }
        }
        if a.contains(x) {
            assert(r[0] == x);
        }
        if b.contains(x) {
            assert(r[a.len() as int] == x);
        }
        if c.contains(x) {
            assert(r[(a.len() + b.len()) as int] == x);
        }
        if e.contains(x) {
            assert(r[(a.len() + b.len() + c.len()) as int] == x);
        }
    }
    let paths = seq!["::core::fmt::Debug"@, "::core::clone::Clone"@, "::serde::Serialize"@, "::serde::Deserialize"@];
    assert forall|k: int| 0 <= k < 4 implies {
        &&& (a.contains(#[trigger] paths[k]) <==> (a.len() == 1 && paths[k] == "::core::fmt::Debug"@))
        &&& (b.contains(paths[k]) <==> (b.len() == 1 && paths[k] == "::core::clone::Clone"@))
        &&& (c.contains(paths[k]) <==> (c.len() == 1 && paths[k] == "::serde::Serialize"@))
        &&& (e.contains(paths[k]) <==> (e.len() == 1 && paths[k] == "::serde::Deserialize"@))
    } by {
        lemma_at_most_one(a, "::core::fmt::Debug"@, paths[k]);
        lemma_at_most_one(b, "::core::clone::Clone"@, paths[k]);
        lemma_at_most_one(c, "::serde::Serialize"@, paths[k]);
        lemma_at_most_one(e, "::serde::Deserialize"@, paths[k]);
    }
    assert(paths[0] == "::core::fmt::Debug"@);
    assert(paths[1] == "::core::clone::Clone"@);
    assert(paths[2] == "::serde::Serialize"@);
    assert(paths[3] == "::serde::Deserialize"@);
}

proof fn lemma_pairs_contain(rs: Seq<Replace>, c: Seq<char>, s: State)
    ensures
        replace_pairs(rs).contains((c, s)) <==> exists|i: int| 0 <= i < rs.len() && replace_state(rs[i]) == s
            && #[trigger] replace_columns(rs[i]).contains(c),
    decreases rs.len(),
{
    if rs.len() > 0 {
        let prev = rs.drop_last();
        lemma_pairs_contain(prev, c, s);
        let tail = replace_columns(rs.last()).map_values(|x: Seq<char>| (x, replace_state(rs.last())));
        let all = replace_pairs(rs);
        assert(all == replace_pairs(prev) + tail);
        if all.contains((c, s)) {
            let k = choose|k: int| 0 <= k < all.len() && all[k] == (c, s);
            if k < replace_pairs(prev).len() {
                assert(replace_pairs(prev)[k] == (c, s));
                assert(replace_pairs(prev).contains((c, s)));
                let i = choose|i: int| 0 <= i < prev.len() && replace_state(prev[i]) == s
                    && #[trigger] replace_columns(prev[i]).contains(c);
                assert(prev[i] == rs[i]);
            } else {
                let j = k - replace_pairs(prev).len();
                assert(tail[j] == (c, s));
                assert(replace_columns(rs.last())[j] == c);
                assert(replace_columns(rs[rs.len() - 1]).contains(c));
            }
        }
        if exists|i: int| 0 <= i < rs.len() && replace_state(rs[i]) == s && #[trigger] replace_columns(rs[i]).contains(c) {
            let i = choose|i: int| 0 <= i < rs.len() && replace_state(rs[i]) == s
                && #[trigger] replace_columns(rs[i]).contains(c);
            if i < rs.len() - 1 {
                assert(prev[i] == rs[i]);
                assert(replace_columns(prev[i]).contains(c));
                assert(replace_pairs(prev).contains((c, s)));
                let k = choose|k: int| 0 <= k < replace_pairs(prev).len() && replace_pairs(prev)[k] == (c, s);
                assert(all[k] == (c, s));
            } else {
                let j = choose|j: int| 0 <= j < replace_columns(rs.last()).len() && replace_columns(rs.last())[j] == c;
                assert(tail[j] == (c, s));
                assert(all[replace_pairs(prev).len() + j] == (c, s));
            }
        }
    }
}

proof fn lemma_columns_in_order(ps: Seq<(Seq<char>, State)>, c: Seq<char>)
    ensures
        columns_in_order(ps).contains(c) <==> exists|k: int| 0 <= k < ps.len() && #[trigger] ps[k].0 == c,
        forall|a: int, b: int| 0 <= a < b < columns_in_order(ps).len() ==> columns_in_order(ps)[a] != columns_in_order(ps)[b],
    decreases ps.len(),
{
    if ps.len() > 0 {
        let prev = ps.drop_last();
        lemma_columns_in_order(prev, c);
        lemma_columns_in_order(prev, ps.last().0);
        let cp = columns_in_order(prev);
        if columns_in_order(ps).contains(c) {
            if cp.contains(c) {
                let k = choose|k: int| 0 <= k < prev.len() && #[trigger] prev[k].0 == c;
                assert(ps[k] == prev[k]);
            } else {
                assert(ps[ps.len() - 1].0 == c) by {
                    let k = choose|k: int| 0 <= k < columns_in_order(ps).len() && columns_in_order(ps)[k] == c;
                    assert(columns_in_order(ps) == cp.push(ps.last().0));
                    assert(k == cp.len());
                }
            }
        }
        if exists|k: int| 0 <= k < ps.len() && #[trigger] ps[k].0 == c {
            let k = choose|k: int| 0 <= k < ps.len() && #[trigger] ps[k].0 == c;
            if k < ps.len() - 1 {
                assert(prev[k] == ps[k]);
                assert(cp.contains(c));
                let m = choose|m: int| 0 <= m < cp.len() && cp[m] == c;
                if !cp.contains(ps.last().0) {
                    assert(columns_in_order(ps)[m] == c);
                }
            } else {
                if cp.contains(ps.last().0) {
                } else {
                    assert(columns_in_order(ps)[cp.len() as int] == c);
                }
            }
        }
    }
}

proof fn lemma_states_of(ps: Seq<(Seq<char>, State)>, c: Seq<char>, s: State)
    ensures
        states_of(ps, c).contains(s) <==> ps.contains((c, s)),
    decreases ps.len(),
{
    if ps.len() > 0 {
        let prev = ps.drop_last();
        lemma_states_of(prev, c, s);
        let sp = states_of(prev, c);
        if states_of(ps, c).contains(s) {
            if sp.contains(s) {
                let k = choose|k: int| 0 <= k < prev.len() && prev[k] == (c, s);
                assert(ps[k] == (c, s));
            } else {
                let k = choose|k: int| 0 <= k < states_of(ps, c).len() && states_of(ps, c)[k] == s;
                assert(ps.last().0 == c);
                assert(ps[ps.len() - 1] == (c, s));
            }
        }
        if ps.contains((c, s)) {
            let k = choose|k: int| 0 <= k < ps.len() && ps[k] == (c, s);
            if k < ps.len() - 1 {
                assert(prev[k] == (c, s));
                let m = choose|m: int| 0 <= m < sp.len() && sp[m] == s;
                assert(states_of(ps, c)[m] == s);
            } else {
                assert(states_of(ps, c) == sp.push(s));
                assert(states_of(ps, c)[sp.len() as int] == s);
            }
        }
    }
}

/// The replaced columns name each column once, and a matching job in state `s` has
/// column `c` replaced exactly when an entry of the replacement list for state `s`
/// names `c`.
pub proof fn law_update_case_is_exact(rs: Seq<Replace>, c: Seq<char>, s: State)
    ensures
        (exists|k: int| 0 <= k < update_case_spec(rs).len() && #[trigger] update_case_spec(rs)[k].0 == c
            && update_case_spec(rs)[k].1.contains(s))
            <==> (exists|i: int| 0 <= i < rs.len() && replace_state(rs[i]) == s
                && #[trigger] replace_columns(rs[i]).contains(c)),
        forall|a: int, b: int| 0 <= a < b < update_case_spec(rs).len() ==> update_case_spec(rs)[a].0 != update_case_spec(rs)[b].0,
{
    let ps = replace_pairs(rs);
    let cols = columns_in_order(ps);
    lemma_pairs_contain(rs, c, s);
    lemma_columns_in_order(ps, c);
    lemma_states_of(ps, c, s);
    let u = update_case_spec(rs);
    if exists|k: int| 0 <= k < u.len() && #[trigger] u[k].0 == c && u[k].1.contains(s) {
        let k = choose|k: int| 0 <= k < u.len() && #[trigger] u[k].0 == c && u[k].1.contains(s);
        assert(u[k] == (cols[k], states_of(ps, cols[k])));
    }
    if ps.contains((c, s)) {
        let m = choose|m: int| 0 <= m < ps.len() && ps[m] == (c, s);
        assert(ps[m].0 == c);
        let k = choose|k: int| 0 <= k < cols.len() && cols[k] == c;
        assert(u[k] == (cols[k], states_of(ps, cols[k])));
        assert(u[k].0 == c && u[k].1.contains(s));
    }
    lemma_columns_in_order(ps, c);
}

/// A replacement list that validation accepts names each state at most once.
pub proof fn law_accepted_replace_is_distinct(rs: Seq<Replace>)
    requires
        first_repeated_state(rs) is None,
    ensures
        forall|i: int, j: int| 0 <= i < j < rs.len() ==> replace_state(rs[i]) != replace_state(rs[j]),
    decreases rs.len(),
{
    if rs.len() > 0 {
        law_accepted_replace_is_distinct(rs.drop_last());
        assert forall|i: int, j: int| 0 <= i < j < rs.len() implies replace_state(rs[i]) != replace_state(rs[j]) by {
            if j < rs.len() - 1 {
                assert(rs[i] == rs.drop_last()[i] && rs[j] == rs.drop_last()[j]);
            } else {
                assert(rs[j] == rs.last());
                if replace_state(rs[i]) == replace_state(rs.last()) {
                    assert(exists|k: int| 0 <= k < rs.len() - 1
                        && #[trigger] replace_state(rs[k]) == replace_state(rs.last()));
                }
            }
        }
    }
}

/// Handlers share a group exactly when they handle the same event.
pub proof fn law_groups_follow_events(ids: Seq<Seq<char>>, events: Seq<String>, first: Seq<usize>, group_of: Seq<usize>, i: int, j: int)
    requires
        groups_of(ids, events, first, group_of),
        0 <= i < ids.len(),
        0 <= j < ids.len(),
    ensures
        group_of[i] == group_of[j] <==> ids[i] == ids[j],
{
    assert(group_of[i] < events.len() && group_of[j] < events.len());
    if ids[i] == ids[j] && group_of[i] != group_of[j] {
        let a = group_of[i] as int;
        let b = group_of[j] as int;
        if a < b {
            assert(events[a]@ != events[b]@);
        } else {
            assert(events[b]@ != events[a]@);
        }
    }
}

/// After a queue is added under a name not yet configured, looking that name up gives
/// its configuration, and every other name gives what it gave before.
pub proof fn law_added_queue_is_found(
    queues: Seq<(String, QueueConfiguration)>,
    name: String,
    config: QueueConfiguration,
    other: Seq<char>,
)
    requires
        find_queue(queues, name@) is None,
    ensures
        find_queue(queues.push((name, config)), name@) == Some(config),
        other != name@ ==> find_queue(queues.push((name, config)), other) == find_queue(queues, other),
    decreases queues.len(),
{
    if queues.len() == 0 {
        assert(queues.push((name, config)).drop_first() =~= Seq::<(String, QueueConfiguration)>::empty());
    } else {
        assert(queues.push((name, config)).drop_first() =~= queues.drop_first().push((name, config)));
        if queues[0].0@ != name@ {
            law_added_queue_is_found(queues.drop_first(), name, config, other);
        }
        if queues[0].0@ != other {
            law_added_queue_is_found_other(queues.drop_first(), name, config, other);
        }
    }
}

proof fn law_added_queue_is_found_other(
    queues: Seq<(String, QueueConfiguration)>,
    name: String,
    config: QueueConfiguration,
    other: Seq<char>,
)
    ensures
        other != name@ ==> find_queue(queues.push((name, config)), other) == find_queue(queues, other),
    decreases queues.len(),
{
    if queues.len() == 0 {
        assert(queues.push((name, config)).drop_first() =~= Seq::<(String, QueueConfiguration)>::empty());
    } else {
        assert(queues.push((name, config)).drop_first() =~= queues.drop_first().push((name, config)));
        law_added_queue_is_found_other(queues.drop_first(), name, config, other);
    }
}

/// A sanitized type name holds no angle brackets.
pub proof fn law_sanitized_has_no_angle_brackets(s: Seq<char>)
    ensures
        forall|i: int| 0 <= i < sanitize_spec(s).len() ==> sanitize_spec(s)[i] != '<' && sanitize_spec(s)[i] != '>',
    decreases s.len(),
{
    if s.len() > 0 {
        let rest = if s.len() >= 2 && s[0] == ':' && s[1] == ':' { s.skip(2) } else { s.skip(1) };
        law_sanitized_has_no_angle_brackets(rest);
        let head: char = if (s.len() >= 2 && s[0] == ':' && s[1] == ':') || s[0] == '<' || s[0] == '>' {
            '_'
        } else {
            s[0]
        };
        assert(sanitize_spec(s) == seq![head] + sanitize_spec(rest));
        assert forall|i: int| 0 <= i < sanitize_spec(s).len() implies sanitize_spec(s)[i] != '<'
            && sanitize_spec(s)[i] != '>' by {
            if i > 0 {
                assert(sanitize_spec(s)[i] == sanitize_spec(rest)[i - 1]);
            }
        }
    }
}

/// A job that a worker took is returned to the queue when the worker stops, unless its
/// task ended normally first: taking a job adds it to what the worker holds, the normal
/// end of its task removes it, and the end of any other task keeps it.
pub proof fn law_taken_job_is_held_until_it_finishes(held: Set<u128>, id: u128, other: u128)
    ensures
        held.insert(id).contains(id),
        !held.insert(id).remove(id).contains(id),
        other != id ==> held.insert(id).remove(other).contains(id),
{
}

/// A dispatch inserts a new job only where no queued job matched: both forms of the
/// Postgres statement end by guarding their insert with the absence of a matching job
/// and of an updated one.
pub proof fn law_insert_only_without_match(
    id: u128,
    hash: i64,
    reg: EventDatabaseHandlerRegistration,
    job: ValidatedJob,
    present: Seq<bool>,
    now: int,
)
    ensures
        postgres_insert_spec(id, hash, reg, job, present, now) matches Ok(p) ==> p.len() >= 2
            && p.subrange(p.len() - 2, p.len() as int) == sql(" WHERE NOT EXISTS (SELECT 1 FROM existing_job) "@)
                + sql(" AND NOT EXISTS (SELECT 1 FROM updated_job) "@),
        sea_postgres_insert_spec(id, hash, reg, job, present, now) matches Ok(p) ==> p.len() >= 2
            && p.subrange(p.len() - 2, p.len() as int) == sql(" WHERE NOT EXISTS (SELECT 1 FROM existing_job) "@)
                + sql(" AND NOT EXISTS (SELECT 1 FROM updated_job)"@),
{
    if let Ok(p) = postgres_insert_spec(id, hash, reg, job, present, now) {
        let tail = sql(" WHERE NOT EXISTS (SELECT 1 FROM existing_job) "@) + sql(" AND NOT EXISTS (SELECT 1 FROM updated_job) "@);
        assert(p.subrange(p.len() - 2, p.len() as int) =~= tail);
    }
    if let Ok(p) = sea_postgres_insert_spec(id, hash, reg, job, present, now) {
        let tail = sql(" WHERE NOT EXISTS (SELECT 1 FROM existing_job) "@) + sql(" AND NOT EXISTS (SELECT 1 FROM updated_job)"@);
        assert(p.subrange(p.len() - 2, p.len() as int) =~= tail);
    }
}

/// A lookup matches only jobs of the dispatching handler and event: each lookup starts
/// with the conditions on the handler's hash and on its handler and event identities.
pub proof fn law_lookup_is_scoped_to_the_handler(
    hash: i64,
    reg: EventDatabaseHandlerRegistration,
    job: ValidatedJob,
    present: Seq<bool>,
    values: Seq<KeyValueView>,
    now: int,
)
    ensures
        mysql_lookup_spec(hash, reg, job, present, now) matches Ok(p) ==> p.len() >= 6
            && p.subrange(0, 6) == lookup_head(Dialect::MySql, hash, reg),
        lookup_spec(Dialect::Postgres, hash, reg, job, present, now) matches Ok(p) ==> p.len() >= 7
            && p.subrange(0, 7) == lookup_head(Dialect::Postgres, hash, reg),
        sea_mysql_lookup_spec(hash, reg, job, values, now) matches Ok(p) ==> p.len() >= 7
            && p.subrange(0, 7) == my_lookup_head(hash, reg),
        pg_lookup_spec(hash, reg, job, present, now) matches Ok(p) ==> p.len() >= 8
            && p.subrange(0, 8) == pg_lookup_head(hash, reg),
{
    let h1 = lookup_head(Dialect::MySql, hash, reg);
    let h2 = lookup_head(Dialect::Postgres, hash, reg);
    let h3 = my_lookup_head(hash, reg);
    let h4 = pg_lookup_head(hash, reg);
    assert(h1.len() == 6 && h2.len() == 7 && h3.len() == 7 && h4.len() == 8);
    if let Ok(p) = mysql_lookup_spec(hash, reg, job, present, now) {
        if let Ok(q) = lookup_spec(Dialect::MySql, hash, reg, job, present, now) {
            assert(q.subrange(0, 6) =~= h1);
            assert(p.subrange(0, 6) =~= q.subrange(0, 6));
        }
    }
    if let Ok(p) = lookup_spec(Dialect::Postgres, hash, reg, job, present, now) {
        assert(p.subrange(0, 7) =~= h2);
    }
    if let Ok(p) = sea_mysql_lookup_spec(hash, reg, job, values, now) {
        assert(p.subrange(0, 7) =~= h3);
    }
    if let Ok(p) = pg_lookup_spec(hash, reg, job, present, now) {
        assert(p.subrange(0, 8) =~= h4);
    }
}

/// The default delay before a retry doubles from one attempt to the next: `2^attempt`
/// minutes, while `chrono::TimeDelta` holds the span.
pub proof fn law_backoff_doubles(attempt: u32)
    requires
        attempt < 47,
    ensures
        backoff_minutes((attempt + 1) as u32) == 2 * backoff_minutes(attempt),
        backoff_minutes(0) == 1,
{
    lemma_backoff_values(attempt);
    lemma_backoff_values((attempt + 1) as u32);
    lemma_backoff_values(0);
    vstd::arithmetic::power2::lemma_pow2_unfold((attempt + 1) as nat);
    vstd::arithmetic::power2::lemma2_to64();
}

} // verus!
