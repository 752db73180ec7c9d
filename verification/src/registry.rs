//! The registry of running instances: a map from instance identifier to the
//! handle of the engine instance that runs under it.
//!
//! The map is a `dashmap::DashMap`. Every operation that changes it borrows
//! the registry exclusively, so each one is a single step from one set of
//! entries to the next, and a reader never sees an entry half written.

use dashmap::DashMap;
use std::collections::hash_map::RandomState;
use vstd::prelude::*;

verus! {

/// The number under which the host keeps one running engine instance. The
/// registry owns the handle from insertion to removal; whoever removes it
/// tears the instance down.
pub type InstanceHandle = u64;

/// `dashmap::DashMap`, declared so that it can stand in a field. Nothing is
/// known of what is inside one but what the functions below say.
#[verifier::external_type_specification]
#[verifier::external_body]
#[verifier::reject_recursive_types(K)]
#[verifier::reject_recursive_types(V)]
#[verifier::reject_recursive_types(S)]
pub struct ExDashMap<K, V, S>(DashMap<K, V, S>);

/// The entries that a map holds: each key by its characters, with its value.
pub uninterp spec fn map_entries(m: DashMap<String, u64, RandomState>) -> Map<Seq<char>, u64>;

/// The registry's contents before any instance has been started.
pub open spec fn no_entries() -> Map<Seq<char>, u64> {
    Map::empty()
}

/// What a listing of a map must be: every listed pair is an entry, no key is
/// listed twice, and every key of the map is listed. The order is left open.
pub open spec fn lists_entries(pairs: Seq<(String, u64)>, entries: Map<Seq<char>, u64>) -> bool {
    &&& forall|i: int| 0 <= i < pairs.len() ==> entries.contains_pair(#[trigger] pairs[i].0@, pairs[i].1)
    &&& forall|i: int, j: int|
        0 <= i < j < pairs.len() ==> (#[trigger] pairs[i]).0@ != (#[trigger] pairs[j]).0@
    &&& forall|k: Seq<char>| #[trigger]
        entries.dom().contains(k) ==> exists|i: int| 0 <= i < pairs.len() && (#[trigger] pairs[i]).0@ == k
}

/// `DashMap::new`: a map without entries.
#[verifier::external_body]
fn map_new() -> (m: DashMap<String, u64, RandomState>)
    ensures
        map_entries(m) == no_entries(),
{
    DashMap::new()
}

/// `DashMap::contains_key`: whether an entry stands under the key.
#[verifier::external_body]
fn map_contains_key(m: &DashMap<String, u64, RandomState>, key: &str) -> (b: bool)
    ensures
        b == map_entries(*m).dom().contains(key@),
{
    m.contains_key(key)
}

/// `DashMap::get`: the value under the key, if an entry stands there.
#[verifier::external_body]
fn map_get(m: &DashMap<String, u64, RandomState>, key: &str) -> (found: Option<u64>)
    ensures
        found == (if map_entries(*m).dom().contains(key@) {
            Some(map_entries(*m)[key@])
        } else {
            None
        }),
{
    m.get(key).map(|entry| *entry.value())
}

/// `DashMap::insert`: puts the value under the key and returns the value that
/// stood there before, if there was one.
#[verifier::external_body]
fn map_insert(m: &mut DashMap<String, u64, RandomState>, key: String, value: u64) -> (prev: Option<u64>)
    ensures
        map_entries(*final(m)) == map_entries(*old(m)).insert(key@, value),
        prev == (if map_entries(*old(m)).dom().contains(key@) {
            Some(map_entries(*old(m))[key@])
        } else {
            None
        }),
{
    m.insert(key, value)
}

/// `DashMap::remove`: takes the entry under the key out of the map and
/// returns its value; a map without such an entry stays as it is.
#[verifier::external_body]
fn map_remove(m: &mut DashMap<String, u64, RandomState>, key: &str) -> (removed: Option<u64>)
    ensures
        map_entries(*final(m)) == map_entries(*old(m)).remove(key@),
        removed == (if map_entries(*old(m)).dom().contains(key@) {
            Some(map_entries(*old(m))[key@])
        } else {
            None
        }),
{
    m.remove(key).map(|pair| pair.1)
}

/// `DashMap::iter`: walks every entry once, in an order that the map does
/// not promise. Each entry is handed out as a copy of its key and value.
#[verifier::external_body]
fn map_pairs(m: &DashMap<String, u64, RandomState>) -> (pairs: Vec<(String, u64)>)
    ensures
        lists_entries(pairs@, map_entries(*m)),
{
    m.iter().map(|entry| (entry.key().clone(), *entry.value())).collect()
}

/// A concurrency-safe map from instance identifier to instance handle.
pub struct Registry {
    map: DashMap<String, u64, RandomState>,
}

impl View for Registry {
    type V = Map<Seq<char>, InstanceHandle>;

    closed spec fn view(&self) -> Map<Seq<char>, InstanceHandle> {
        map_entries(self.map)
    }
}

/// The identifiers of a listing, in the listing's order.
pub open spec fn listed_ids(pairs: Seq<(String, InstanceHandle)>) -> Seq<Seq<char>> {
    Seq::new(pairs.len(), |i: int| pairs[i].0@)
}

/// A listing of a finite map has as many pairs as the map has keys.
pub proof fn lemma_listing_len(pairs: Seq<(String, InstanceHandle)>, entries: Map<Seq<char>, InstanceHandle>)
    requires
        lists_entries(pairs, entries),
    ensures
        entries.dom().finite(),
        pairs.len() == entries.dom().len(),
        listed_ids(pairs).no_duplicates(),
        listed_ids(pairs).to_set() == entries.dom(),
{
    let ids = listed_ids(pairs);
    assert(ids.no_duplicates()) by {
        assert forall|i: int, j: int| 0 <= i < ids.len() && 0 <= j < ids.len() && i != j implies ids[i] != ids[j] by {
            if i < j {
                assert(pairs[i].0@ != pairs[j].0@);
            } else {
                assert(pairs[j].0@ != pairs[i].0@);
            }
        }
    }
    assert(ids.to_set() =~= entries.dom()) by {
        assert forall|k: Seq<char>| ids.to_set().contains(k) implies entries.dom().contains(k) by {
            let i = choose|i: int| 0 <= i < ids.len() && ids[i] == k;
            assert(entries.contains_pair(pairs[i].0@, pairs[i].1));
        }
        assert forall|k: Seq<char>| entries.dom().contains(k) implies ids.to_set().contains(k) by {
            let i = choose|i: int| 0 <= i < pairs.len() && (#[trigger] pairs[i]).0@ == k;
            assert(ids[i] == k);
        }
    }
    vstd::seq_lib::seq_to_set_is_finite(ids);
    ids.unique_seq_to_set();
}

impl Registry {
    /// A registry without instances.
    pub fn new() -> (r: Registry)
        ensures
            r@ == no_entries(),
    {
        Registry { map: map_new() }
    }

    /// Whether an instance runs under `id`.
    pub fn contains(&self, id: &str) -> (b: bool)
        ensures
            b == self@.dom().contains(id@),
    {
        map_contains_key(&self.map, id)
    }

    /// The handle of the instance that runs under `id`.
    pub fn get(&self, id: &str) -> (found: Option<InstanceHandle>)
        ensures
            found == (if self@.dom().contains(id@) {
                Some(self@[id@])
            } else {
                None
            }),
    {
        map_get(&self.map, id)
    }

    /// How many instances run.
    pub fn len(&self) -> (n: usize)
        ensures
            self@.dom().finite(),
            n == self@.dom().len(),
    {
        let pairs = map_pairs(&self.map);
        proof {
            lemma_listing_len(pairs@, self@);
        }
        pairs.len()
    }

    /// Registers `handle` under `id` unless an instance already runs there.
    /// Returns whether it did; a registry that already holds `id` is left as
    /// it was.
    pub fn insert_if_absent(&mut self, id: String, handle: InstanceHandle) -> (inserted: bool)
        ensures
            inserted == !old(self)@.dom().contains(id@),
            final(self)@ == (if inserted {
                old(self)@.insert(id@, handle)
            } else {
                old(self)@
            }),
    {
        if map_contains_key(&self.map, id.as_str()) {
            false
        } else {
            let _ = map_insert(&mut self.map, id, handle);
            true
        }
    }

    /// Takes the instance under `id` out of the registry and hands its handle
    /// to the caller for teardown. An absent `id` is no error: nothing is
    /// returned and nothing changes.
    pub fn remove(&mut self, id: &str) -> (removed: Option<InstanceHandle>)
        ensures
            final(self)@ == old(self)@.remove(id@),
            removed == (if old(self)@.dom().contains(id@) {
                Some(old(self)@[id@])
            } else {
                None
            }),
            !old(self)@.dom().contains(id@) ==> final(self)@ == old(self)@,
    {
        let removed = map_remove(&mut self.map, id);
        proof {
            if !old(self)@.dom().contains(id@) {
                assert(old(self)@.remove(id@) =~= old(self)@);
            }
        }
        removed
    }

    /// Every instance that runs at the moment of the call, each with its
    /// identifier and handle, in no particular order.
    pub fn snapshot_iterate(&self) -> (pairs: Vec<(String, InstanceHandle)>)
        ensures
            lists_entries(pairs@, self@),
            self@.dom().finite(),
            pairs@.len() == self@.dom().len(),
    {
        let pairs = map_pairs(&self.map);
        proof {
            lemma_listing_len(pairs@, self@);
        }
        pairs
    }
}

} // verus!
