//! The session registry: the set of live preedit-surface identities,
//! owned by the server handler.
//!
//! The registry is a hash map of the `ahash` crate, keyed by the surface's
//! window identity. Verus sees the map only through the trusted wrappers
//! below, whose contracts speak of `registry_ids`, the set of keys the map
//! holds.

use vstd::prelude::*;

verus! {

#[verifier::external_type_specification]
#[verifier::external_body]
#[verifier::reject_recursive_types(K)]
#[verifier::reject_recursive_types(V)]
#[verifier::reject_recursive_types(S)]
pub struct ExAHashMap<K, V, S>(ahash::AHashMap<K, V, S>);

#[verifier::external_type_specification]
#[verifier::external_body]
pub struct ExRandomState(ahash::RandomState);

/// The set of keys a registry map holds.
pub uninterp spec fn registry_ids(m: ahash::AHashMap<u32, ()>) -> Set<u32>;

/// Relies on ahash::AHashMap::new: the new map holds no entry.
#[verifier::external_body]
fn map_new() -> (m: ahash::AHashMap<u32, ()>)
    ensures
        registry_ids(m) == Set::<u32>::empty(),
{
    ahash::AHashMap::new()
}

/// Relies on ahash::AHashMap::insert, which hands through to std's
/// HashMap::insert: after the call the map holds the key, and no other
/// key changed.
#[verifier::external_body]
fn map_insert(m: &mut ahash::AHashMap<u32, ()>, id: u32)
    ensures
        registry_ids(*final(m)) == registry_ids(*old(m)).insert(id),
{
    m.insert(id, ());
}

/// Relies on std's HashMap::contains_key, reached through AHashMap's
/// Deref: true iff the map holds the key.
#[verifier::external_body]
fn map_contains(m: &ahash::AHashMap<u32, ()>, id: u32) -> (r: bool)
    ensures
        r == registry_ids(*m).contains(id),
{
    m.contains_key(&id)
}

/// Relies on ahash::AHashMap::remove, which hands through to std's
/// HashMap::remove: the key leaves the map, no other key changes, and
/// the returned entry says whether the key was held.
#[verifier::external_body]
fn map_remove(m: &mut ahash::AHashMap<u32, ()>, id: u32) -> (had: bool)
    ensures
        registry_ids(*final(m)) == registry_ids(*old(m)).remove(id),
        had == registry_ids(*old(m)).contains(id),
{
    m.remove(&id).is_some()
}

/// The set of live preedit surfaces, by window identity.
///
/// An identity is present iff a surface-rendered session owns a live
/// surface under it; it enters at session creation and leaves exactly
/// once, at that session's destruction.
pub struct Registry {
    map: ahash::AHashMap<u32, ()>,
}

impl Registry {
    /// The identities the registry holds.
    pub closed spec fn ids(self) -> Set<u32> {
        registry_ids(self.map)
    }

    /// An empty registry.
    pub fn new() -> (r: Registry)
        ensures
            r.ids() == Set::<u32>::empty(),
    {
        Registry { map: map_new() }
    }

    /// Record a live surface under its identity.
    pub fn insert(&mut self, id: u32)
        ensures
            final(self).ids() == old(self).ids().insert(id),
    {
        map_insert(&mut self.map, id);
    }

    /// Is a surface live under this identity?
    pub fn contains(&self, id: u32) -> (r: bool)
        ensures
            r == self.ids().contains(id),
    {
        map_contains(&self.map, id)
    }

    /// Drop the entry of an identity, handing back whether one was held.
    pub fn remove(&mut self, id: u32) -> (had: bool)
        ensures
            final(self).ids() == old(self).ids().remove(id),
            had == old(self).ids().contains(id),
    {
        map_remove(&mut self.map, id)
    }
}

} // verus!
