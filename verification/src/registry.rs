//! Building the registries of handlers at initialization: handlers grouped by the
//! event they handle, with the checks that refuse an inconsistent set of handlers.
use crate::config::{find_queue, BusQueueConfigurationBuilder};
use crate::error::{configuration, BusError, BusErrorKind};
use crate::registration::{EventDatabaseHandlerRegistration, EventHandlerRegistration};
use std::collections::HashMap;
use vstd::prelude::*;

verus! {

/// The position of the first occurrence of `x` in `s`, or the length of `s`.
pub open spec fn first_index_of(s: Seq<Seq<char>>, x: Seq<char>) -> int
    decreases s.len(),
{
    if s.len() == 0 {
        0
    } else if s[0] == x {
        0
    } else {
        1 + first_index_of(s.drop_first(), x)
    }
}

proof fn lemma_first_index_of(s: Seq<Seq<char>>, x: Seq<char>, i: int)
    requires
        0 <= i < s.len(),
        s[i] == x,
    ensures
        0 <= first_index_of(s, x) <= i,
        s[first_index_of(s, x)] == x,
        forall|j: int| 0 <= j < first_index_of(s, x) ==> s[j] != x,
    decreases s.len(),
{
    if s[0] != x {
        lemma_first_index_of(s.drop_first(), x, i - 1);
        let k = first_index_of(s.drop_first(), x);
        assert forall|j: int| 0 <= j < first_index_of(s, x) implies s[j] != x by {
            if j > 0 {
                assert(s[j] == s.drop_first()[j - 1]);
            }
        }
    }
}

proof fn lemma_first_index_is(s: Seq<Seq<char>>, x: Seq<char>, i: int)
    requires
        0 <= i < s.len(),
        s[i] == x,
        forall|j: int| 0 <= j < i ==> s[j] != x,
    ensures
        first_index_of(s, x) == i,
{
    lemma_first_index_of(s, x, i);
    let k = first_index_of(s, x);
    assert(!(k < i));
}

/// The event identities of memory handlers.
pub open spec fn memory_ids(regs: Seq<EventHandlerRegistration>) -> Seq<Seq<char>> {
    regs.map_values(|r: EventHandlerRegistration| r.event_identity@)
}

/// The event identities of database handlers.
pub open spec fn database_ids(regs: Seq<EventDatabaseHandlerRegistration>) -> Seq<Seq<char>> {
    regs.map_values(|r: EventDatabaseHandlerRegistration| r.event_identity@)
}

/// The handlers grouped by event: the events in the order of their first handler,
/// the first handler of each event, and the event of each handler.
#[derive(Debug)]
pub struct HandlerGroups {
    pub events: Vec<String>,
    pub first: Vec<usize>,
    pub group_of: Vec<usize>,
}

/// `events`, `first` and `group_of` group the handlers whose event identities are `ids`.
pub open spec fn groups_of(ids: Seq<Seq<char>>, events: Seq<String>, first: Seq<usize>, group_of: Seq<usize>) -> bool {
    &&& events.len() == first.len()
    &&& group_of.len() == ids.len()
    &&& forall|g: int, h: int| 0 <= g < h < events.len() ==> events[g]@ != events[h]@ && first[g] < first[h]
    &&& forall|g: int| 0 <= g < events.len() ==> {
        &&& #[trigger] first[g] < ids.len()
        &&& ids[first[g] as int] == events[g]@
        &&& group_of[first[g] as int] == g
        &&& first_index_of(ids, events[g]@) == first[g]
    }
    &&& forall|i: int| 0 <= i < ids.len() ==> {
        &&& #[trigger] group_of[i] < events.len()
        &&& events[group_of[i] as int]@ == ids[i]
    }
}

impl HandlerGroups {
    pub open spec fn groups(self, ids: Seq<Seq<char>>) -> bool {
        groups_of(ids, self.events@, self.first@, self.group_of@)
    }

    /// The handlers of one event, in registration order.
    pub fn handlers_of(&self, g: usize) -> (r: Vec<usize>)
        ensures
            forall|k: int| 0 <= k < r@.len() ==> #[trigger] r@[k] < self.group_of@.len()
                && self.group_of@[r@[k] as int] == g,
            forall|i: int| 0 <= i < self.group_of@.len() && self.group_of@[i] == g
                ==> r@.contains(i as usize),
            forall|a: int, b: int| 0 <= a < b < r@.len() ==> r@[a] < r@[b],
    {
        let mut r: Vec<usize> = Vec::new();
        for i in 0..self.group_of.len()
            invariant
                forall|k: int| 0 <= k < r@.len() ==> #[trigger] r@[k] < i && self.group_of@[r@[k] as int] == g,
                forall|j: int| 0 <= j < i && self.group_of@[j] == g ==> r@.contains(j as usize),
                forall|a: int, b: int| 0 <= a < b < r@.len() ==> r@[a] < r@[b],
        {
            if self.group_of[i] == g {
                let ghost before = r@;
                r.push(i);
                assert forall|j: int| 0 <= j < i + 1 && self.group_of@[j] == g implies r@.contains(j as usize) by {
                    if j < i {
                        let k = choose|k: int| 0 <= k < before.len() && before[k] == j as usize;
                        assert(r@[k] == j as usize);
                    } else {
                        assert(r@[r@.len() - 1] == i);
                    }
                }
            }
        }
        r
    }
}

impl HandlerGroups {
    /// The group of an event, if it has handlers.
    pub fn find_event(&self, event_identity: &String) -> (r: Option<usize>)
        ensures
            r matches Some(g) ==> g < self.events@.len() && self.events@[g as int]@ == event_identity@,
            r is None ==> forall|g: int| 0 <= g < self.events@.len() ==> self.events@[g]@ != event_identity@,
    {
        find_group(&self.events, event_identity)
    }
}

/// Finds the group of an event among the groups built so far.
fn find_group(events: &Vec<String>, id: &String) -> (r: Option<usize>)
    ensures
        r matches Some(g) ==> g < events@.len() && events@[g as int]@ == id@,
        r is None ==> forall|g: int| 0 <= g < events@.len() ==> events@[g]@ != id@,
{
    let mut g: usize = 0;
    while g < events.len()
        invariant
            g <= events@.len(),
            forall|h: int| 0 <= h < g ==> events@[h]@ != id@,
        decreases events@.len() - g,
    {
        if events[g] == *id {
            return Some(g);
        }
        g = g + 1;
    }
    None
}

/// Adds handler `i` with event identity `ids[i]` to the groups of the handlers before it.
proof fn lemma_groups_extend(
    ids: Seq<Seq<char>>,
    i: usize,
    events: Seq<String>,
    first: Seq<usize>,
    group_of: Seq<usize>,
    events2: Seq<String>,
    first2: Seq<usize>,
    group_of2: Seq<usize>,
    g: usize,
)
    requires
        (i as int) < ids.len(),
        groups_of(ids.take(i as int), events, first, group_of),
        forall|k: int| 0 <= k < events.len() ==> first_index_of(ids, events[k]@) == first[k],
        g <= events.len(),
        g < events.len() ==> events[g as int]@ == ids[i as int] && events2 == events && first2 == first,
        g == events.len() ==> (forall|h: int| 0 <= h < events.len() ==> events[h]@ != ids[i as int])
            && events2.len() == events.len() + 1 && events2.drop_last() == events && events2.last()@ == ids[i as int]
            && first2 == first.push(i as usize),
        group_of2 == group_of.push(g as usize),
    ensures
        groups_of(ids.take(i + 1), events2, first2, group_of2),
        forall|k: int| 0 <= k < events2.len() ==> first_index_of(ids, events2[k]@) == first2[k],
{
    let i = i as int;
    let pre = ids.take(i);
    let post = ids.take(i + 1);
    assert(post.drop_last() =~= pre);
    let g = g as int;
    if g == events.len() {
        assert forall|j: int| 0 <= j < i implies ids[j] != ids[i] by {
            assert(pre[j] == ids[j]);
            assert(group_of[j] < events.len());
            assert(events[group_of[j] as int]@ == ids[j]);
        }
        lemma_first_index_is(ids, ids[i], i);
        assert(events2[g] == events2.last());
    }
    assert forall|k: int| 0 <= k < events2.len() implies first_index_of(post, events2[k]@) == first2[k] by {
        let x = events2[k]@;
        let f = first2[k] as int;
        if k < events.len() {
            assert(events2[k] == events[k]);
            assert(first_index_of(ids, x) == f);
            assert(f < i);
        } else {
            assert(g == events.len());
            assert(f == i);
            assert(first_index_of(ids, x) == f);
        }
        lemma_first_index_of(ids, x, f);
        assert(post[f] == x);
        lemma_first_index_of(post, x, f);
        let p = first_index_of(post, x);
        assert(post[p] == ids[p]);
        assert(!(p < f));
    }
    assert forall|a: int| 0 <= a < events2.len() implies {
        &&& #[trigger] first2[a] < post.len()
        &&& post[first2[a] as int] == events2[a]@
        &&& group_of2[first2[a] as int] == a
    } by {
        if a < events.len() {
            assert(events2[a] == events[a]);
            assert(first2[a] == first[a]);
            assert(first[a] < i);
            assert(post[first[a] as int] == pre[first[a] as int]);
            assert(group_of2[first2[a] as int] == group_of[first[a] as int]);
        } else {
            assert(g == events.len());
            assert(first2[a] == i);
            assert(group_of2[i] == g);
        }
    }
    assert forall|j: int| 0 <= j < post.len() implies {
        &&& #[trigger] group_of2[j] < events2.len()
        &&& events2[group_of2[j] as int]@ == post[j]
    } by {
        if j < i {
            assert(group_of2[j] == group_of[j]);
            assert(pre[j] == post[j]);
            if g == events.len() {
                assert(events2[group_of[j] as int] == events[group_of[j] as int]);
            }
        }
    }
    assert forall|a: int, b: int| 0 <= a < b < events2.len() implies events2[a]@ != events2[b]@ && first2[a] < first2[b] by {
        if b == events.len() {
            assert(events2[a] == events[a]);
            assert(first[a] < i);
        } else {
            assert(events2[a] == events[a] && events2[b] == events[b]);
        }
    }
}

/// The error that refuses memory handler `i`, given the ones before it: a handler
/// whose context differs from that of the first handler of the same event.
pub open spec fn memory_handler_error(regs: Seq<EventHandlerRegistration>, i: int) -> Option<(BusErrorKind, Seq<char>)> {
    let j = first_index_of(memory_ids(regs), regs[i].event_identity@);
    if j < i && regs[j].context_identity@ != regs[i].context_identity@ {
        Some(configuration("Context mismatch for memory event '"@ + regs[i].event_identity@ + "': handler '"@
            + regs[j].handler_identity@ + "' requires "@ + regs[j].context_identity@ + ", but handler '"@
            + regs[i].handler_identity@ + "' requires "@ + regs[i].context_identity@))
    } else {
        None
    }
}

/// The first error among the first `n` memory handlers.
pub open spec fn memory_first_error(regs: Seq<EventHandlerRegistration>, n: nat) -> Option<(BusErrorKind, Seq<char>)>
    decreases n,
{
    if n == 0 {
        None
    } else {
        match memory_first_error(regs, (n - 1) as nat) {
            Some(e) => Some(e),
            None => memory_handler_error(regs, n - 1),
        }
    }
}

proof fn lemma_first_error_memory_stays(regs: Seq<EventHandlerRegistration>, n: nat, m: nat)
    requires
        n <= m,
        memory_first_error(regs, n) is Some,
    ensures
        memory_first_error(regs, m) == memory_first_error(regs, n),
    decreases m - n,
{
    if n < m {
        lemma_first_error_memory_stays(regs, n, (m - 1) as nat);
    }
}

fn context_mismatch_message(first: &EventHandlerRegistration, reg: &EventHandlerRegistration) -> (s: String)
    ensures
        s@ == "Context mismatch for memory event '"@ + reg.event_identity@ + "': handler '"@
            + first.handler_identity@ + "' requires "@ + first.context_identity@ + ", but handler '"@
            + reg.handler_identity@ + "' requires "@ + reg.context_identity@,
{
    let mut s = String::new();
    s.append("Context mismatch for memory event '");
    s.append(reg.event_identity.as_str());
    s.append("': handler '");
    s.append(first.handler_identity.as_str());
    s.append("' requires ");
    s.append(first.context_identity.as_str());
    s.append(", but handler '");
    s.append(reg.handler_identity.as_str());
    s.append("' requires ");
    s.append(reg.context_identity.as_str());
    s
}

/// Groups the memory handlers by event (`init_memory_handlers`). A handler whose
/// context differs from that of the first handler of its event is refused.
pub fn group_memory_handlers(regs: &Vec<EventHandlerRegistration>) -> (r: Result<HandlerGroups, BusError>)
    ensures
        r matches Ok(groups) ==> memory_first_error(regs@, regs@.len()) is None && groups.groups(memory_ids(regs@)),
        r matches Err(e) ==> memory_first_error(regs@, regs@.len()) == Some(e@),
{
    let ghost ids = memory_ids(regs@);
    let mut events: Vec<String> = Vec::new();
    let mut first: Vec<usize> = Vec::new();
    let mut group_of: Vec<usize> = Vec::new();
    let mut i: usize = 0;
    assert(ids.take(0) =~= Seq::<Seq<char>>::empty());
    while i < regs.len()
        invariant
            i <= regs@.len(),
            ids == memory_ids(regs@),
            ids.len() == regs@.len(),
            groups_of(ids.take(i as int), events@, first@, group_of@),
            forall|k: int| 0 <= k < events@.len() ==> first_index_of(ids, events@[k]@) == first@[k],
            memory_first_error(regs@, i as nat) is None,
        decreases regs@.len() - i,
    {
        let reg = &regs[i];
        assert(ids[i as int] == reg.event_identity@);
        let found = find_group(&events, &reg.event_identity);
        let ghost old_events = events@;
        let ghost old_first = first@;
        let ghost old_group_of = group_of@;
        let g: usize = match found {
            Some(g) => {
                let head = &regs[first[g]];
                proof {
                    assert(first_index_of(ids, regs@[i as int].event_identity@) == first@[g as int]);
                    assert(first@[g as int] < i) by {
                        assert(first@[g as int] < ids.take(i as int).len());
                    }
                }
                if !(head.context_identity == reg.context_identity) {
                    let e = BusError::Configuration(context_mismatch_message(head, reg));
                    proof {
                        assert(memory_handler_error(regs@, i as int) == Some(e@));
                        lemma_first_error_memory_stays(regs@, (i + 1) as nat, regs@.len());
                    }
                    return Err(e);
                }
                g
            },
            None => {
                let g = events.len();
                events.push(reg.event_identity.clone());
                first.push(i);
                assert(events@.drop_last() =~= old_events);
                g
            },
        };
        group_of.push(g);
        proof {
            lemma_groups_extend(ids, i, old_events, old_first, old_group_of, events@, first@, group_of@, g);
            if found is None {
                assert(events@[g as int]@ == ids[i as int]);
                assert(first@[g as int] == i);
            }
            assert(memory_handler_error(regs@, i as int) is None);
        }
        i = i + 1;
    }
    assert(ids.take(i as int) =~= ids);
    Ok(HandlerGroups { events, first, group_of })
}

/// The hash by which the jobs of a database handler are stored and found again:
/// XXH3 of the handler's identity followed by the event's.
pub open spec fn type_hash(reg: EventDatabaseHandlerRegistration) -> i64 {
    crate::outside::xxh3_64(vstd::utf8::encode_utf8(reg.handler_identity@) + vstd::utf8::encode_utf8(reg.event_identity@)) as i64
}

/// The error that refuses database handler `i`, given the ones before it: a queue
/// that the configuration lacks, or a hash that an earlier handler has.
pub open spec fn database_handler_error(
    regs: Seq<EventDatabaseHandlerRegistration>,
    queues: Seq<(String, crate::config::QueueConfiguration)>,
    i: int,
) -> Option<(BusErrorKind, Seq<char>)> {
    let reg = regs[i];
    if find_queue(queues, reg.queue@) is None {
        Some(configuration("Handler '"@ + reg.handler_identity@ + "' points to queue '"@ + reg.queue@
            + "', but it is not configured. Add .add_queue(\""@ + reg.queue@ + "\", ...) to builder."@))
    } else if exists|j: int| 0 <= j < i && #[trigger] type_hash(regs[j]) == type_hash(reg) {
        Some(configuration("Hash collision detected for handler '"@ + reg.handler_identity@
            + "'. This is extremely rare, but you might need to rename it."@))
    } else {
        None
    }
}

/// The first error among the first `n` database handlers.
pub open spec fn database_first_error(
    regs: Seq<EventDatabaseHandlerRegistration>,
    queues: Seq<(String, crate::config::QueueConfiguration)>,
    n: nat,
) -> Option<(BusErrorKind, Seq<char>)>
    decreases n,
{
    if n == 0 {
        None
    } else {
        match database_first_error(regs, queues, (n - 1) as nat) {
            Some(e) => Some(e),
            None => database_handler_error(regs, queues, n - 1),
        }
    }
}

proof fn lemma_first_error_database_stays(
    regs: Seq<EventDatabaseHandlerRegistration>,
    queues: Seq<(String, crate::config::QueueConfiguration)>,
    n: nat,
    m: nat,
)
    requires
        n <= m,
        database_first_error(regs, queues, n) is Some,
    ensures
        database_first_error(regs, queues, m) == database_first_error(regs, queues, n),
    decreases m - n,
{
    if n < m {
        lemma_first_error_database_stays(regs, queues, n, (m - 1) as nat);
    }
}

/// The database handlers grouped by event, with the hash of each handler and the
/// handler of each hash.
#[derive(Debug)]
pub struct DatabaseHandlers {
    pub groups: HandlerGroups,
    pub hashes: Vec<i64>,
    /// The index of the handler with each hash.
    pub by_hash: HashMap<i64, usize>,
}

fn queue_missing_message(reg: &EventDatabaseHandlerRegistration) -> (s: String)
    ensures
        s@ == "Handler '"@ + reg.handler_identity@ + "' points to queue '"@ + reg.queue@
            + "', but it is not configured. Add .add_queue(\""@ + reg.queue@ + "\", ...) to builder."@,
{
    let mut s = String::new();
    s.append("Handler '");
    s.append(reg.handler_identity.as_str());
    s.append("' points to queue '");
    s.append(reg.queue.as_str());
    s.append("', but it is not configured. Add .add_queue(\"");
    s.append(reg.queue.as_str());
    s.append("\", ...) to builder.");
    s
}

/// Groups the database handlers by event (`init_database_handlers`). A handler whose
/// queue is not configured, or whose hash an earlier handler has, is refused.
pub fn group_database_handlers<C>(
    regs: &Vec<EventDatabaseHandlerRegistration>,
    builder: &BusQueueConfigurationBuilder<C>,
) -> (r: Result<DatabaseHandlers, BusError>)
    ensures
        r matches Ok(d) ==> database_first_error(regs@, builder.spec_queues(), regs@.len()) is None
            && d.groups.groups(database_ids(regs@))
            && d.hashes@.len() == regs@.len()
            && (forall|i: int| 0 <= i < regs@.len() ==> #[trigger] d.hashes@[i] == type_hash(regs@[i]))
            && (forall|i: int| 0 <= i < regs@.len() ==> d.by_hash@.contains_key(#[trigger] type_hash(regs@[i]))
                && d.by_hash@[type_hash(regs@[i])] == i)
            && (forall|h: i64| d.by_hash@.contains_key(h) ==> exists|i: int| 0 <= i < regs@.len() && #[trigger] type_hash(regs@[i]) == h),
        r matches Err(e) ==> database_first_error(regs@, builder.spec_queues(), regs@.len()) == Some(e@),
{
    broadcast use vstd::std_specs::hash::group_hash_axioms;

    let ghost ids = database_ids(regs@);
    let ghost queues = builder.spec_queues();
    let mut events: Vec<String> = Vec::new();
    let mut first: Vec<usize> = Vec::new();
    let mut group_of: Vec<usize> = Vec::new();
    let mut hashes: Vec<i64> = Vec::new();
    let mut by_hash: HashMap<i64, usize> = HashMap::new();
    let mut i: usize = 0;
    assert(ids.take(0) =~= Seq::<Seq<char>>::empty());
    while i < regs.len()
        invariant
            i <= regs@.len(),
            ids == database_ids(regs@),
            ids.len() == regs@.len(),
            queues == builder.spec_queues(),
            groups_of(ids.take(i as int), events@, first@, group_of@),
            forall|k: int| 0 <= k < events@.len() ==> first_index_of(ids, events@[k]@) == first@[k],
            hashes@.len() == i,
            forall|k: int| 0 <= k < i ==> #[trigger] hashes@[k] == type_hash(regs@[k]),
            forall|k: int| 0 <= k < i ==> by_hash@.contains_key(#[trigger] type_hash(regs@[k]))
                && by_hash@[type_hash(regs@[k])] == k,
            forall|h: i64| by_hash@.contains_key(h) ==> exists|k: int| 0 <= k < i && #[trigger] type_hash(regs@[k]) == h,
            database_first_error(regs@, queues, i as nat) is None,
        decreases regs@.len() - i,
    {
        let reg = &regs[i];
        assert(ids[i as int] == reg.event_identity@);
        if !builder.has_queue(reg.queue.as_str()) {
            let e = BusError::Configuration(queue_missing_message(reg));
            proof {
                lemma_first_error_database_stays(regs@, queues, (i + 1) as nat, regs@.len());
            }
            return Err(e);
        }
        let found = find_group(&events, &reg.event_identity);
        let ghost old_events = events@;
        let ghost old_first = first@;
        let ghost old_group_of = group_of@;
        let g: usize = match found {
            Some(g) => g,
            None => {
                let g = events.len();
                events.push(reg.event_identity.clone());
                first.push(i);
                assert(events@.drop_last() =~= old_events);
                g
            },
        };
        group_of.push(g);
        proof {
            lemma_groups_extend(ids, i, old_events, old_first, old_group_of, events@, first@, group_of@, g);
        }
        let h = crate::outside::xxh3_64_pair(reg.handler_identity.as_str(), reg.event_identity.as_str());
        assert(h == type_hash(*reg));
        let ghost before = by_hash@;
        if by_hash.insert(h, i).is_some() {
            let mut s = String::new();
            s.append("Hash collision detected for handler '");
            s.append(reg.handler_identity.as_str());
            s.append("'. This is extremely rare, but you might need to rename it.");
            assert(s@ =~= "Hash collision detected for handler '"@ + reg.handler_identity@
                + "'. This is extremely rare, but you might need to rename it."@);
            let e = BusError::Configuration(s);
            proof {
                let k = choose|k: int| 0 <= k < i && #[trigger] type_hash(regs@[k]) == h;
                assert(type_hash(regs@[k]) == type_hash(regs@[i as int]));
                assert(database_handler_error(regs@, queues, i as int) == Some(e@));
                lemma_first_error_database_stays(regs@, queues, (i + 1) as nat, regs@.len());
            }
            return Err(e);
        }
        assert(!exists|j: int| 0 <= j < i && #[trigger] type_hash(regs@[j]) == type_hash(regs@[i as int])) by {
            assert forall|j: int| 0 <= j < i implies #[trigger] type_hash(regs@[j]) != type_hash(regs@[i as int]) by {
                assert(before.contains_key(type_hash(regs@[j])));
            }
        }
        assert forall|hh: i64| by_hash@.contains_key(hh) implies exists|k: int| 0 <= k < i + 1 && #[trigger] type_hash(regs@[k]) == hh by {
            if hh == h {
                assert(type_hash(regs@[i as int]) == hh);
            } else {
                assert(before.contains_key(hh));
            }
        }
        hashes.push(h);
        i = i + 1;
    }
    assert(ids.take(i as int) =~= ids);
    Ok(DatabaseHandlers { groups: HandlerGroups { events, first, group_of }, hashes, by_hash })
}

} // verus!
