use vstd::prelude::*;

use std::collections::HashMap;

use crate::connection::Connection;

verus! {

broadcast use vstd::std_specs::hash::group_hash_axioms;

/// The table of logical connections, keyed by connection id.
pub struct Registry {
    connections: HashMap<u16, Connection>,
}

impl View for Registry {
    type V = Map<u16, Connection>;

    closed spec fn view(&self) -> Map<u16, Connection> {
        self.connections@
    }
}

/// The registry that a sequence of registrations leaves behind, starting
/// from `start`.
pub open spec fn registry_after(start: Map<u16, Connection>, puts: Seq<(u16, Connection)>) -> Map<
    u16,
    Connection,
>
    decreases puts.len(),
{
    if puts.len() == 0 {
        start
    } else {
        let last = puts.last();
        registry_after(start, puts.drop_last()).insert(last.0, last.1)
    }
}

/// The record of the last registration under `id`, if any.
pub open spec fn last_put(puts: Seq<(u16, Connection)>, id: u16) -> Option<Connection>
    decreases puts.len(),
{
    if puts.len() == 0 {
        None
    } else if puts.last().0 == id {
        Some(puts.last().1)
    } else {
        last_put(puts.drop_last(), id)
    }
}

/// What a lookup of `id` in a table with view `m` gives.
pub open spec fn lookup(m: Map<u16, Connection>, id: u16) -> Option<Connection> {
    if m.contains_key(id) {
        Some(m[id])
    } else {
        None
    }
}

impl Registry {
    pub fn new() -> (r: Registry)
        ensures
            r@ == Map::<u16, Connection>::empty(),
    {
        Registry { connections: HashMap::new() }
    }

    /// Registers `conn` under `id`, replacing what was there.
    pub fn put(&mut self, id: u16, conn: Connection)
        ensures
            final(self)@ == old(self)@.insert(id, conn),
    {
        self.connections.insert(id, conn);
    }

    /// A copy of the record registered under `id`, if any.
    pub fn get(&self, id: u16) -> (r: Option<Connection>)
        ensures
            r == lookup(self@, id),
    {
        match self.connections.get(&id) {
            Some(c) => Some(*c),
            None => None,
        }
    }
}

/// After any sequence of registrations on an empty registry, looking up an
/// id gives the record of the last registration that used it, and nothing
/// for an id that no registration used.
pub proof fn lemma_last_registration_wins(puts: Seq<(u16, Connection)>, id: u16)
    ensures
        lookup(registry_after(Map::empty(), puts), id) == last_put(puts, id),
    decreases puts.len(),
{
    if puts.len() > 0 {
        lemma_last_registration_wins(puts.drop_last(), id);
    }
}

} // verus!
