//! The metadata that travels with an event: request, correlation and causation
//! identifiers, and extra values by key.
use crate::error::{BusError, BusErrorKind};
use crate::text::str_eq;
use vstd::prelude::*;

verus! {

/// The keys that hold identifiers rather than extra values.
pub open spec fn is_id_key(key: Seq<char>) -> bool {
    key == "request_id"@ || key == "correlation_id"@ || key == "causation_id"@
}

/// The extra value under a key, looked up from the front.
pub open spec fn find_extra(extra: Seq<(String, String)>, key: Seq<char>) -> Option<Seq<char>>
    decreases extra.len(),
{
    if extra.len() == 0 {
        None
    } else if extra[0].0@ == key {
        Some(extra[0].1@)
    } else {
        find_extra(extra.drop_first(), key)
    }
}

/// No two extra values share a key.
pub open spec fn distinct_keys(extra: Seq<(String, String)>) -> bool {
    forall|i: int, j: int| 0 <= i < j < extra.len() ==> extra[i].0@ != extra[j].0@
}

proof fn lemma_find_extra(extra: Seq<(String, String)>, key: Seq<char>, i: int)
    requires
        distinct_keys(extra),
        0 <= i < extra.len(),
        extra[i].0@ == key,
    ensures
        find_extra(extra, key) == Some(extra[i].1@),
    decreases extra.len(),
{
    if i > 0 {
        assert(extra[0].0@ != key);
        lemma_find_extra(extra.drop_first(), key, i - 1);
    }
}

proof fn lemma_find_extra_none(extra: Seq<(String, String)>, key: Seq<char>)
    requires
        forall|i: int| 0 <= i < extra.len() ==> extra[i].0@ != key,
    ensures
        find_extra(extra, key) is None,
    decreases extra.len(),
{
    if extra.len() > 0 {
        lemma_find_extra_none(extra.drop_first(), key);
    }
}

/// The metadata of an event. Identifiers are UUIDs held as 128-bit numbers; extra
/// values are held as JSON text, under distinct keys.
#[derive(Debug)]
pub struct BusMetadata {
    request_id: Option<u128>,
    correlation_id: Option<u128>,
    causation_id: Option<u128>,
    extra: Vec<(String, String)>,
}

impl BusMetadata {
    #[verifier::type_invariant]
    spec fn inv(self) -> bool {
        distinct_keys(self.extra@)
    }

    pub closed spec fn spec_request_id(self) -> Option<u128> {
        self.request_id
    }

    pub closed spec fn spec_correlation_id(self) -> Option<u128> {
        self.correlation_id
    }

    pub closed spec fn spec_causation_id(self) -> Option<u128> {
        self.causation_id
    }

    pub fn request_id(&self) -> (r: Option<u128>)
        ensures
            r == self.spec_request_id(),
    {
        self.request_id
    }

    pub fn correlation_id(&self) -> (r: Option<u128>)
        ensures
            r == self.spec_correlation_id(),
    {
        self.correlation_id
    }

    pub fn causation_id(&self) -> (r: Option<u128>)
        ensures
            r == self.spec_causation_id(),
    {
        self.causation_id
    }

    /// The extra values, in the order they were first added.
    pub closed spec fn spec_extra(self) -> Seq<(String, String)> {
        self.extra@
    }

    /// The extra value under a key.
    pub open spec fn spec_get(self, key: Seq<char>) -> Option<Seq<char>> {
        find_extra(self.spec_extra(), key)
    }

    /// Metadata with the given identifiers and extra values (none when `extra` is `None`).
    pub fn new(
        request_id: Option<u128>,
        correlation_id: Option<u128>,
        causation_id: Option<u128>,
        extra: Option<Vec<(String, String)>>,
    ) -> (m: Self)
        requires
            extra matches Some(e) ==> distinct_keys(e@),
        ensures
            m.spec_request_id() == request_id,
            m.spec_correlation_id() == correlation_id,
            m.spec_causation_id() == causation_id,
            m.spec_extra() == (match extra {
                Some(e) => e@,
                None => Seq::empty(),
            }),
    {
        let extra = match extra {
            Some(e) => e,
            None => Vec::new(),
        };
        BusMetadata { request_id, correlation_id, causation_id, extra }
    }

    /// Metadata with no identifiers and no extra values.
    pub fn empty() -> (m: Self)
        ensures
            m.spec_request_id() is None,
            m.spec_correlation_id() is None,
            m.spec_causation_id() is None,
            m.spec_extra().len() == 0,
    {
        BusMetadata { request_id: None, correlation_id: None, causation_id: None, extra: Vec::new() }
    }

    /// The extra values, in the order they were first added.
    pub fn extra(&self) -> (r: &Vec<(String, String)>)
        ensures
            r@ == self.spec_extra(),
            distinct_keys(r@),
    {
        proof {
            use_type_invariant(self);
        }
        &self.extra
    }

    /// Sets the extra value of a key: the value of a key already present is replaced
    /// in place, a new key goes last.
    fn put_extra(&mut self, key: &str, value: String)
        ensures
            final(self).spec_request_id() == old(self).spec_request_id(),
            final(self).spec_correlation_id() == old(self).spec_correlation_id(),
            final(self).spec_causation_id() == old(self).spec_causation_id(),
            final(self).spec_get(key@) == Some(value@),
            forall|k: Seq<char>| k != key@ ==> #[trigger] final(self).spec_get(k) == old(self).spec_get(k),
    {
        proof {
            use_type_invariant(&*self);
        }
        let ghost before = self.extra@;
        let mut i: usize = 0;
        while i < self.extra.len()
            invariant
                i <= self.extra@.len(),
                *self == *old(self),
                self.extra@ == before,
                distinct_keys(before),
                forall|j: int| 0 <= j < i ==> before[j].0@ != key@,
            decreases self.extra@.len() - i,
        {
            if str_eq(self.extra[i].0.as_str(), key) {
                let k = self.extra[i].0.clone();
                let mut extra: Vec<(String, String)> = Vec::new();
                std::mem::swap(&mut extra, &mut self.extra);
                extra.set(i, (k, value));
                let ghost after = extra@;
                assert(distinct_keys(after)) by {
                    assert forall|a: int, b: int| 0 <= a < b < after.len() implies after[a].0@ != after[b].0@ by {
                        assert(after[a].0@ == before[a].0@);
                        assert(after[b].0@ == before[b].0@);
                    }
                }
                proof {
                    lemma_find_extra(after, key@, i as int);
                    assert forall|k2: Seq<char>| k2 != key@ implies #[trigger] find_extra(after, k2) == find_extra(before, k2) by {
                        if exists|j: int| 0 <= j < before.len() && before[j].0@ == k2 {
                            let j = choose|j: int| 0 <= j < before.len() && before[j].0@ == k2;
                            lemma_find_extra(before, k2, j);
                            assert(after[j].0@ == k2);
                            lemma_find_extra(after, k2, j);
                        } else {
                            lemma_find_extra_none(before, k2);
                            assert forall|j: int| 0 <= j < after.len() implies after[j].0@ != k2 by {
                                assert(after[j].0@ == before[j].0@);
                            }
                            lemma_find_extra_none(after, k2);
                        }
                    }
                }
                self.extra = extra;
                return;
            }
            i = i + 1;
        }
        let mut extra: Vec<(String, String)> = Vec::new();
                std::mem::swap(&mut extra, &mut self.extra);
        extra.push((crate::text::concat2(key, ""), value));
        let ghost after = extra@;
        assert(after.drop_last() =~= before);
        assert(distinct_keys(after)) by {
            assert forall|a: int, b: int| 0 <= a < b < after.len() implies after[a].0@ != after[b].0@ by {
                if b == after.len() - 1 {
                    assert(after[a] == before[a]);
                    assert(key@ + ""@ =~= key@) by {
                        reveal_strlit("");
                    }
                } else {
                    assert(after[a] == before[a] && after[b] == before[b]);
                }
            }
        }
        proof {
            reveal_strlit("");
            assert(after.last().0@ =~= key@);
            lemma_find_extra(after, key@, after.len() - 1);
            assert forall|k2: Seq<char>| k2 != key@ implies #[trigger] find_extra(after, k2) == find_extra(before, k2) by {
                if exists|j: int| 0 <= j < before.len() && before[j].0@ == k2 {
                    let j = choose|j: int| 0 <= j < before.len() && before[j].0@ == k2;
                    lemma_find_extra(before, k2, j);
                    assert(after[j] == before[j]);
                    lemma_find_extra(after, k2, j);
                } else {
                    lemma_find_extra_none(before, k2);
                    assert forall|j: int| 0 <= j < after.len() implies after[j].0@ != k2 by {
                        if j < before.len() {
                            assert(after[j] == before[j]);
                        }
                    }
                    lemma_find_extra_none(after, k2);
                }
            }
        }
        self.extra = extra;
    }

    /// Adds a value, given as the JSON text it serializes to. The keys `request_id`,
    /// `correlation_id` and `causation_id` take a UUID and set that identifier; any
    /// other key sets an extra value.
    pub fn add(&mut self, key: &str, json_value: String) -> (r: Result<(), BusError>)
        ensures
            is_id_key(key@) ==> (r is Ok <==> crate::outside::uuid_from_json(json_value@) is Ok),
            !is_id_key(key@) ==> r is Ok,
            r matches Err(e) ==> (crate::outside::uuid_from_json(json_value@) matches Err(detail)
                && e@ == (BusErrorKind::MetaData, "Metadata key '"@ + key@ + "' expects a valid UUID, but got: "@
                    + json_value@ + ". Error: "@ + detail)),
            r is Err ==> *final(self) == *old(self),
            r is Ok && key@ == "request_id"@ ==> (crate::outside::uuid_from_json(json_value@) matches Ok(v)
                && final(self).spec_request_id() == Some(v))
                && final(self).spec_correlation_id() == old(self).spec_correlation_id()
                && final(self).spec_causation_id() == old(self).spec_causation_id()
                && final(self).spec_extra() == old(self).spec_extra(),
            r is Ok && key@ == "correlation_id"@ ==> (crate::outside::uuid_from_json(json_value@) matches Ok(v)
                && final(self).spec_correlation_id() == Some(v))
                && final(self).spec_request_id() == old(self).spec_request_id()
                && final(self).spec_causation_id() == old(self).spec_causation_id()
                && final(self).spec_extra() == old(self).spec_extra(),
            r is Ok && key@ == "causation_id"@ ==> (crate::outside::uuid_from_json(json_value@) matches Ok(v)
                && final(self).spec_causation_id() == Some(v))
                && final(self).spec_request_id() == old(self).spec_request_id()
                && final(self).spec_correlation_id() == old(self).spec_correlation_id()
                && final(self).spec_extra() == old(self).spec_extra(),
            !is_id_key(key@) ==> final(self).spec_request_id() == old(self).spec_request_id()
                && final(self).spec_correlation_id() == old(self).spec_correlation_id()
                && final(self).spec_causation_id() == old(self).spec_causation_id()
                && final(self).spec_get(key@) == Some(json_value@)
                && (forall|k: Seq<char>| k != key@ ==> #[trigger] final(self).spec_get(k) == old(self).spec_get(k)),
    {
        proof {
            use_type_invariant(&*self);
            reveal_strlit("request_id");
            reveal_strlit("correlation_id");
            reveal_strlit("causation_id");
            assert("request_id"@[0] != "correlation_id"@[0]);
            assert("request_id"@[0] != "causation_id"@[0]);
            assert("correlation_id"@[1] != "causation_id"@[1]);
        }
        let is_request = str_eq(key, "request_id");
        let is_correlation = str_eq(key, "correlation_id");
        let is_causation = str_eq(key, "causation_id");
        if is_request || is_correlation || is_causation {
            let id = match crate::outside::parse_uuid_json(json_value.as_str()) {
                Ok(id) => id,
                Err(detail) => {
                    let mut s = String::new();
                    s.append("Metadata key '");
                    s.append(key);
                    s.append("' expects a valid UUID, but got: ");
                    s.append(json_value.as_str());
                    s.append(". Error: ");
                    s.append(detail.as_str());
                    assert(s@ =~= "Metadata key '"@ + key@ + "' expects a valid UUID, but got: "@ + json_value@
                        + ". Error: "@ + detail@);
                    return Err(BusError::MetaData(s));
                },
            };
            if is_request {
                self.request_id = Some(id);
            } else if is_correlation {
                self.correlation_id = Some(id);
            } else {
                self.causation_id = Some(id);
            }
            Ok(())
        } else {
            self.put_extra(key, json_value);
            Ok(())
        }
    }

    /// The JSON text of the extra value under a key, if any.
    pub fn get(&self, key: &str) -> (r: Option<String>)
        ensures
            r matches Some(v) ==> self.spec_get(key@) == Some(v@),
            r is None ==> self.spec_get(key@) is None,
    {
        proof {
            use_type_invariant(self);
        }
        let mut i: usize = 0;
        assert(self.extra@.skip(0) =~= self.extra@);
        while i < self.extra.len()
            invariant
                i <= self.extra@.len(),
                find_extra(self.extra@, key@) == find_extra(self.extra@.skip(i as int), key@),
            decreases self.extra@.len() - i,
        {
            assert(self.extra@.skip(i as int).drop_first() =~= self.extra@.skip(i + 1));
            if str_eq(self.extra[i].0.as_str(), key) {
                return Some(self.extra[i].1.clone());
            }
            i = i + 1;
        }
        None
    }

    /// The JSON text of the extra value under a key, or an error naming the key.
    pub fn try_get(&self, key: &str) -> (r: Result<String, BusError>)
        ensures
            r matches Ok(v) ==> self.spec_get(key@) == Some(v@),
            r matches Err(e) ==> self.spec_get(key@) is None
                && e@ == (BusErrorKind::MetaData, "Metadata key '"@ + key@ + "' not found"@),
    {
        match self.get(key) {
            Some(v) => Ok(v),
            None => Err(BusError::MetaData(crate::text::concat3("Metadata key '", key, "' not found"))),
        }
    }
}

/// The error of a stored value that does not read as the type asked for.
pub fn type_mismatch_error(key: &str, detail: &str) -> (e: BusError)
    ensures
        e@ == (BusErrorKind::MetaData, "Metadata type mismatch for '"@ + key@ + "': "@ + detail@),
{
    let mut s = String::new();
    s.append("Metadata type mismatch for '");
    s.append(key);
    s.append("': ");
    s.append(detail);
    assert(s@ =~= "Metadata type mismatch for '"@ + key@ + "': "@ + detail@);
    BusError::MetaData(s)
}

} // verus!
