//! The columns that a new dispatch replaces in a matching queued job, per state.
use crate::enums::{replace_columns, replace_state, Replace, State};
use vstd::prelude::*;

verus! {

/// Each column that a replacement list names, with the state of its entry, in order.
pub open spec fn replace_pairs(rs: Seq<Replace>) -> Seq<(Seq<char>, State)>
    decreases rs.len(),
{
    if rs.len() == 0 {
        Seq::empty()
    } else {
        replace_pairs(rs.drop_last()) + replace_columns(rs.last()).map_values(
            |c: Seq<char>| (c, replace_state(rs.last())),
        )
    }
}

/// The columns of the pairs, each once, in the order of their first pair.
pub open spec fn columns_in_order(ps: Seq<(Seq<char>, State)>) -> Seq<Seq<char>>
    decreases ps.len(),
{
    if ps.len() == 0 {
        Seq::empty()
    } else {
        let prev = columns_in_order(ps.drop_last());
        if prev.contains(ps.last().0) {
            prev
        } else {
            prev.push(ps.last().0)
        }
    }
}

/// The states paired with a column, in order.
pub open spec fn states_of(ps: Seq<(Seq<char>, State)>, c: Seq<char>) -> Seq<State>
    decreases ps.len(),
{
    if ps.len() == 0 {
        Seq::empty()
    } else {
        let prev = states_of(ps.drop_last(), c);
        if ps.last().0 == c {
            prev.push(ps.last().1)
        } else {
            prev
        }
    }
}

/// The replaced columns: each column that the list names, with the states in which a
/// matching job has it replaced.
pub open spec fn update_case_spec(rs: Seq<Replace>) -> Seq<(Seq<char>, Seq<State>)> {
    columns_in_order(replace_pairs(rs)).map_values(|c: Seq<char>| (c, states_of(replace_pairs(rs), c)))
}

/// What is known of a computed list of replaced columns.
pub open spec fn update_case_view(u: Seq<(&'static str, Vec<State>)>) -> Seq<(Seq<char>, Seq<State>)> {
    u.map_values(|p: (&'static str, Vec<State>)| (p.0@, p.1@))
}

spec fn pv(v: Seq<(&'static str, State)>) -> Seq<(Seq<char>, State)> {
    v.map_values(|p: (&'static str, State)| (p.0@, p.1))
}

/// The pairs of a replacement list, in order.
fn collect_pairs(replace: &Vec<Replace>) -> (r: Vec<(&'static str, State)>)
    ensures
        pv(r@) == replace_pairs(replace@),
{
    let mut out: Vec<(&'static str, State)> = Vec::new();
    let mut i: usize = 0;
    assert(replace@.take(0) =~= Seq::<Replace>::empty());
    assert(pv(out@) =~= Seq::<(Seq<char>, State)>::empty());
    while i < replace.len()
        invariant
            i <= replace@.len(),
            pv(out@) == replace_pairs(replace@.take(i as int)),
        decreases replace@.len() - i,
    {
        let state = replace[i].state();
        let cols = replace[i].columns();
        let ghost start = pv(out@);
        let ghost target = replace_columns(replace@[i as int]).map_values(
            |c: Seq<char>| (c, replace_state(replace@[i as int])),
        );
        let mut k: usize = 0;
        assert(pv(out@) =~= start + target.take(0));
        while k < cols.len()
            invariant
                k <= cols@.len(),
                cols@.len() == replace_columns(replace@[i as int]).len(),
                forall|j: int| 0 <= j < cols@.len() ==> #[trigger] cols@[j]@ == replace_columns(replace@[i as int])[j],
                state == replace_state(replace@[i as int]),
                target == replace_columns(replace@[i as int]).map_values(
                    |c: Seq<char>| (c, replace_state(replace@[i as int])),
                ),
                pv(out@) == start + target.take(k as int),
            decreases cols@.len() - k,
        {
            let ghost prev = out@;
            out.push((cols[k], state));
            assert(cols@[k as int]@ == replace_columns(replace@[i as int])[k as int]);
            assert(target[k as int] == (cols@[k as int]@, state));
            assert(out@.drop_last() == prev);
            assert(pv(out@) =~= pv(prev).push((cols@[k as int]@, state)));
            assert(start + target.take(k + 1) =~= (start + target.take(k as int)).push(target[k as int]));
            assert(pv(out@) =~= start + target.take(k + 1));
            k = k + 1;
        }
        assert(target.take(k as int) =~= target);
        let ghost next = replace@.take(i + 1);
        assert(next.drop_last() =~= replace@.take(i as int));
        assert(next.last() == replace@[i as int]);
        i = i + 1;
    }
    assert(replace@.take(i as int) =~= replace@);
    out
}

/// The columns, each once, in the order of their first pair.
fn collect_columns(pairs: &Vec<(&'static str, State)>) -> (r: Vec<&'static str>)
    ensures
        r@.map_values(|c: &'static str| c@) == columns_in_order(pv(pairs@)),
{
    let mut out: Vec<&'static str> = Vec::new();
    let mut i: usize = 0;
    assert(pv(pairs@).take(0) =~= Seq::<(Seq<char>, State)>::empty());
    assert(out@.map_values(|c: &'static str| c@) =~= Seq::<Seq<char>>::empty());
    while i < pairs.len()
        invariant
            i <= pairs@.len(),
            out@.map_values(|c: &'static str| c@) == columns_in_order(pv(pairs@).take(i as int)),
        decreases pairs@.len() - i,
    {
        let ghost before = out@.map_values(|c: &'static str| c@);
        let c = pairs[i].0;
        let mut k: usize = 0;
        let mut found = false;
        while k < out.len()
            invariant
                k <= out@.len(),
                before == out@.map_values(|c: &'static str| c@),
                !found ==> forall|j: int| 0 <= j < k ==> before[j] != c@,
                found ==> before.contains(c@),
            decreases out@.len() - k,
        {
            if crate::text::str_eq(out[k], c) {
                found = true;
                assert(before[k as int] == c@);
            }
            k = k + 1;
        }
        let ghost next = pv(pairs@).take(i + 1);
        assert(next.drop_last() =~= pv(pairs@).take(i as int));
        assert(next.last().0 == c@);
        if !found {
            out.push(c);
            assert(out@.map_values(|c: &'static str| c@) =~= before.push(c@));
        }
        i = i + 1;
    }
    assert(pv(pairs@).take(i as int) =~= pv(pairs@));
    out
}

/// The states paired with a column, in order.
fn collect_states(pairs: &Vec<(&'static str, State)>, c: &'static str) -> (r: Vec<State>)
    ensures
        r@ == states_of(pv(pairs@), c@),
{
    let mut out: Vec<State> = Vec::new();
    let mut i: usize = 0;
    assert(pv(pairs@).take(0) =~= Seq::<(Seq<char>, State)>::empty());
    while i < pairs.len()
        invariant
            i <= pairs@.len(),
            out@ == states_of(pv(pairs@).take(i as int), c@),
        decreases pairs@.len() - i,
    {
        let ghost next = pv(pairs@).take(i + 1);
        assert(next.drop_last() =~= pv(pairs@).take(i as int));
        if crate::text::str_eq(pairs[i].0, c) {
            out.push(pairs[i].1);
        }
        i = i + 1;
    }
    assert(pv(pairs@).take(i as int) =~= pv(pairs@));
    out
}

/// The replaced columns of a replacement list: each column it names, once, in the order
/// of first mention, with the states (in order) of the entries that name it.
pub fn update_case(replace: &Vec<Replace>) -> (r: Vec<(&'static str, Vec<State>)>)
    ensures
        update_case_view(r@) == update_case_spec(replace@),
{
    let pairs = collect_pairs(replace);
    let cols = collect_columns(&pairs);
    let ghost cv = cols@.map_values(|c: &'static str| c@);
    let mut out: Vec<(&'static str, Vec<State>)> = Vec::new();
    let mut i: usize = 0;
    while i < cols.len()
        invariant
            i <= cols@.len(),
            cv == cols@.map_values(|c: &'static str| c@),
            cv == columns_in_order(replace_pairs(replace@)),
            pv(pairs@) == replace_pairs(replace@),
            update_case_view(out@) == cv.take(i as int).map_values(
                |c: Seq<char>| (c, states_of(replace_pairs(replace@), c)),
            ),
        decreases cols@.len() - i,
    {
        let states = collect_states(&pairs, cols[i]);
        let ghost before = update_case_view(out@);
        out.push((cols[i], states));
        assert(update_case_view(out@) =~= before.push((cv[i as int], states_of(replace_pairs(replace@), cv[i as int]))));
        assert(cv.take(i + 1).map_values(|c: Seq<char>| (c, states_of(replace_pairs(replace@), c)))
            =~= cv.take(i as int).map_values(|c: Seq<char>| (c, states_of(replace_pairs(replace@), c))).push(
                (cv[i as int], states_of(replace_pairs(replace@), cv[i as int]))));
        i = i + 1;
    }
    assert(cv.take(i as int) =~= cv);
    out
}

} // verus!
