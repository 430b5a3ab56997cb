use std::collections::HashMap;
use vstd::prelude::*;
use vstd::std_specs::iter::IteratorSpec;

verus! {

broadcast use vstd::std_specs::hash::group_hash_axioms;

/// A globally unique external id (the 128-bit value of a uuid).
pub type ExternalId = u128;

/// The map that registering `ids` in order builds: each id is given the
/// position of its first occurrence (later duplicates are ignored).
pub open spec fn registered_ids(ids: Seq<ExternalId>) -> Map<ExternalId, u32>
    decreases ids.len(),
{
    if ids.len() == 0 {
        Map::empty()
    } else {
        let before = registered_ids(ids.drop_last());
        if before.contains_key(ids.last()) {
            before
        } else {
            before.insert(ids.last(), (ids.len() - 1) as u32)
        }
    }
}

/// The map after registering `id` as `internal_id`: unchanged if `id` is
/// already registered.
pub open spec fn after_add(m: Map<ExternalId, u32>, id: ExternalId, internal_id: u32) -> Map<
    ExternalId,
    u32,
> {
    if m.contains_key(id) {
        m
    } else {
        m.insert(id, internal_id)
    }
}

/// The first registration of an id wins: once `id` is registered, registering
/// it again changes nothing, and it keeps the internal id it was first given.
pub proof fn law_first_registration_wins(
    m: Map<ExternalId, u32>,
    id: ExternalId,
    first: u32,
    second: u32,
)
    ensures
        after_add(after_add(m, id, first), id, second) == after_add(m, id, first),
        after_add(m, id, first).contains_key(id),
        after_add(m, id, first)[id] == if m.contains_key(id) {
            m[id]
        } else {
            first
        },
        forall|other: ExternalId|
            other != id ==> after_add(m, id, first).contains_key(other) == m.contains_key(other)
                && after_add(m, id, first)[other] == m[other],
{
}

/// The ids registered are exactly the ids of the sequence.
pub proof fn lemma_registered_ids_domain(ids: Seq<ExternalId>)
    ensures
        registered_ids(ids).dom() == ids.to_set(),
    decreases ids.len(),
{
    if ids.len() > 0 {
        lemma_registered_ids_domain(ids.drop_last());
        assert(ids.to_set() =~= ids.drop_last().to_set().insert(ids.last())) by {
            assert forall|x: ExternalId| ids.to_set().contains(x) implies ids.drop_last().to_set().insert(x) == ids.drop_last().to_set().insert(x) && (x == ids.last() || ids.drop_last().to_set().contains(x)) by {
                let i = choose|i: int| 0 <= i < ids.len() && ids[i] == x;
                if i < ids.len() - 1 {
                    assert(ids.drop_last()[i] == x);
                }
            }
            assert forall|x: ExternalId| ids.drop_last().to_set().contains(x) implies ids.to_set().contains(x) by {
                let i = choose|i: int| 0 <= i < ids.len() - 1 && ids.drop_last()[i] == x;
                assert(ids[i] == x);
            }
            assert(ids.to_set().contains(ids.last())) by {
                assert(ids[ids.len() - 1] == ids.last());
            }
        }
    }
}

/// An id is mapped to the index of its first occurrence.
pub proof fn law_registered_at_first_position(ids: Seq<ExternalId>, i: int)
    requires
        0 <= i < ids.len(),
        ids.len() <= u32::MAX + 1,
        forall|j: int| 0 <= j < i ==> ids[j] != ids[i],
    ensures
        registered_ids(ids).contains_key(ids[i]),
        registered_ids(ids)[ids[i]] == i,
    decreases ids.len(),
{
    lemma_registered_ids_domain(ids.drop_last());
    if i < ids.len() - 1 {
        law_registered_at_first_position(ids.drop_last(), i);
    } else {
        assert(!ids.drop_last().to_set().contains(ids[i])) by {
            if ids.drop_last().to_set().contains(ids[i]) {
                let j = choose|j: int| 0 <= j < ids.len() - 1 && ids.drop_last()[j] == ids[i];
                assert(ids[j] == ids[i]);
            }
        }
    }
}

/// Collects the keys of a map into a vector; each key of the map occurs exactly once.
pub fn map_keys<V>(m: &HashMap<u32, V>) -> (r: Vec<u32>)
    ensures
        r@.to_set() == m@.dom(),
        r@.no_duplicates(),
{
    let mut r: Vec<u32> = Vec::new();
    let ghost all = vstd::std_specs::hash::spec_keys_iter(m).remaining();
    for k in it: m.keys()
        invariant
            r@ == it.seq().take(it.index()).map_values(|k: &u32| *k),
            it.seq() == all,
    {
        r.push(*k);
    }
    proof {
        assert(r@ =~= all.map_values(|k: &u32| *k));
        assert(r@ =~= all.unref());
    }
    r
}

/// `id` is the value of a random (version 4) uuid: its version nibble is 4
/// and its variant bits are `10`.
pub open spec fn is_random_uuid_value(id: ExternalId) -> bool {
    id & 0x0000_0000_0000_f000_c000_0000_0000_0000u128 == 0x0000_0000_0000_4000_8000_0000_0000_0000u128
}

/// A fresh random external id: the value (`as_u128`) of `uuid::Uuid::new_v4()`.
/// Its bits come from the operating system's random source, so nothing is
/// claimed of them but what `new_v4` sets on every outcome: the version nibble
/// is 4 and the variant bits are `10`. (`new_v4` panics where the random
/// source fails; no input of the library can rule that out.)
#[verifier::external_body]
pub(crate) fn new_external_id() -> (r: ExternalId)
    ensures
        is_random_uuid_value(r),
{
    uuid::Uuid::new_v4().as_u128()
}

/// Maps external ids (uuids) to the engine's internal ids, which are mostly
/// indexes into resource vectors.
pub struct InternalIdMap {
    map: HashMap<ExternalId, u32>,
}

impl View for InternalIdMap {
    type V = Map<ExternalId, u32>;

    closed spec fn view(&self) -> Map<ExternalId, u32> {
        self.map@
    }
}

impl Clone for InternalIdMap {
    fn clone(&self) -> (r: Self)
        ensures
            r@ == self@,
    {
        InternalIdMap { map: self.map.clone() }
    }
}

impl InternalIdMap {
    pub fn new() -> (r: Self)
        ensures
            r@ == Map::<ExternalId, u32>::empty(),
    {
        InternalIdMap { map: HashMap::new() }
    }

    /// The internal id registered for `id`, if any.
    pub fn get_internal_id(&self, id: &ExternalId) -> (r: Option<u32>)
        ensures
            r == (if self@.contains_key(*id) {
                Some(self@[*id])
            } else {
                None
            }),
    {
        match self.map.get(id) {
            Some(v) => Some(*v),
            None => None,
        }
    }

    /// Registers `id` as `internal_id` unless `id` is already registered,
    /// in which case the map is left as it is: the first registration wins.
    pub fn add(&mut self, id: &ExternalId, internal_id: u32)
        ensures
            final(self)@ == after_add(old(self)@, *id, internal_id),
    {
        if !self.map.contains_key(id) {
            self.map.insert(*id, internal_id);
        }
    }

    /// Registers `ids[k]` as `k` for each position `k` in order.
    pub fn from_ids(ids: &Vec<ExternalId>) -> (r: Self)
        requires
            ids@.len() <= u32::MAX + 1,
        ensures
            r@ == registered_ids(ids@),
    {
        let mut m = InternalIdMap::new();
        let mut i: usize = 0;
        while i < ids.len()
            invariant
                i <= ids@.len() <= u32::MAX + 1,
                m@ == registered_ids(ids@.take(i as int)),
            decreases ids@.len() - i,
        {
            proof {
                assert(ids@.take(i + 1).drop_last() =~= ids@.take(i as int));
            }
            m.add(&ids[i], i as u32);
            i = i + 1;
        }
        proof {
            assert(ids@.take(i as int) =~= ids@);
        }
        m
    }
}

} // verus!
