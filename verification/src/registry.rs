//! The connection registry: which identity is reached through which
//! delivery endpoint.
//!
//! The registry is the one piece of state that connections share. It is a
//! plain value here: whoever shares it between tasks puts it behind a lock
//! and hands `&Registry` to readers and `&mut Registry` to writers.

use crate::channel::Endpoint;
use std::collections::HashMap;
use vstd::prelude::*;
use vstd::std_specs::iter::IteratorSpec;

verus! {

/// A mapping from identity to delivery endpoint. Its view is that mapping.
pub struct Registry {
    endpoints: HashMap<usize, Endpoint>,
}

impl View for Registry {
    type V = Map<usize, Endpoint>;

    closed spec fn view(&self) -> Map<usize, Endpoint> {
        self.endpoints@
    }
}

/// Whether `entries` lists every entry of `map` exactly once: each listed
/// pair is an entry of the map, no identity is listed twice, and no
/// identity of the map is missing.
pub open spec fn lists_each_once(entries: Seq<(usize, &Endpoint)>, map: Map<usize, Endpoint>) -> bool {
    &&& entries.len() == map.dom().len()
    &&& forall|i: int|
        0 <= i < entries.len() ==> map.contains_key((#[trigger] entries[i]).0) && map[entries[i].0]
            == *entries[i].1
    &&& forall|i: int, j: int|
        0 <= i < j < entries.len() ==> (#[trigger] entries[i]).0 != (#[trigger] entries[j]).0
    &&& forall|id: usize|
        map.contains_key(id) ==> exists|i: int|
            0 <= i < entries.len() && (#[trigger] entries[i]).0 == id
}

impl Registry {
    /// An empty registry.
    pub fn new() -> (registry: Registry)
        ensures
            registry@ == Map::<usize, Endpoint>::empty(),
    {
        Registry { endpoints: HashMap::new() }
    }

    /// Registers `endpoint` under `id`. An endpoint that was registered
    /// under `id` before is replaced.
    pub fn register(&mut self, id: usize, endpoint: Endpoint)
        ensures
            final(self)@ == old(self)@.insert(id, endpoint),
    {
        self.endpoints.insert(id, endpoint);
    }

    /// Removes `id`. Where `id` is not registered nothing changes.
    pub fn remove(&mut self, id: usize)
        ensures
            final(self)@ == old(self)@.remove(id),
    {
        self.endpoints.remove(&id);
    }

    /// Whether `id` is registered.
    pub fn contains(&self, id: usize) -> (registered: bool)
        ensures
            registered == self@.contains_key(id),
    {
        self.endpoints.contains_key(&id)
    }

    /// The number of registered identities.
    pub fn len(&self) -> (n: usize)
        ensures
            n == self@.dom().len(),
    {
        self.endpoints.len()
    }

    /// Whether no identity is registered.
    pub fn is_empty(&self) -> (empty: bool)
        ensures
            empty == (self@.dom().len() == 0),
    {
        self.endpoints.len() == 0
    }

    /// The current mapping as a list, for walking over it. The order of the
    /// list is not specified.
    pub fn snapshot(&self) -> (entries: Vec<(usize, &Endpoint)>)
        ensures
            lists_each_once(entries@, self@),
    {
        let mut entries: Vec<(usize, &Endpoint)> = Vec::new();
        let ghost all = self.endpoints.iter().remaining();
        for pair in it: self.endpoints.iter()
            invariant
                it.seq() == all,
                all == self.endpoints.iter().remaining(),
                all.no_duplicates(),
                entries@.len() == it.index(),
                forall|i: int|
                    0 <= i < entries@.len() ==> (#[trigger] entries@[i]).0 == *all[i].0
                        && entries@[i].1 == all[i].1,
        {
            let (id, endpoint) = pair;
            entries.push((*id, endpoint));
        }
        proof {
            let m = self.endpoints@;
            assert forall|i: int, j: int| 0 <= i < j < entries@.len() implies (
            #[trigger] entries@[i]).0 != (#[trigger] entries@[j]).0 by {
                if entries@[i].0 == entries@[j].0 {
                    assert(m.contains_key(*all[i].0));
                    assert(m.contains_key(*all[j].0));
                    assert(all[i] == all[j]);
                }
            }
            assert forall|id: usize| m.contains_key(id) implies exists|i: int|
                0 <= i < entries@.len() && (#[trigger] entries@[i]).0 == id by {
                assert(all.contains((&id, &m[id])));
                let i = choose|i: int| 0 <= i < all.len() && all[i] == (&id, &m[id]);
                assert(entries@[i].0 == id);
            }
        }
        entries
    }
}

/// Takes `my_id` out of the registry, so that no later broadcast targets
/// it. The connection itself is left alone. Where `my_id` is not registered
/// nothing changes.
pub fn disconnect(my_id: usize, users: &mut Registry)
    ensures
        final(users)@ == old(users)@.remove(my_id),
{
    users.remove(my_id);
}

/// Disconnecting is idempotent: a second disconnect of the same identity
/// leaves the registry as the first left it, and the disconnect of an
/// identity that is not registered leaves the registry as it was.
pub proof fn disconnect_is_idempotent(users: Map<usize, Endpoint>, id: usize)
    ensures
        users.remove(id).remove(id) == users.remove(id),
        !users.contains_key(id) ==> users.remove(id) == users,
        !users.remove(id).contains_key(id),
        forall|other: usize|
            other != id ==> (users.remove(id).contains_key(other) <==> users.contains_key(other)),
{
    assert(users.remove(id).remove(id) =~= users.remove(id));
    if !users.contains_key(id) {
        assert(users.remove(id) =~= users);
    }
}

} // verus!
