//! The node registry: the table of registered nodes and the operations that
//! keep it consistent under reconnects.
//!
//! The table is modelled as a `Map` from node identifier to record. Each
//! operation has a spec function on that model, and the executable
//! operation is proved to compute it.

use std::collections::HashMap;
use vstd::prelude::*;
use crate::address::Address;
use crate::node::{Node, NodeId, NodeView, RegisterTime};

verus! {

broadcast use vstd::std_specs::hash::group_hash_axioms;

/// The model of a registry.
pub type Table = Map<NodeId, NodeView>;

/// Every record is filed under its own identifier, so no identifier has
/// more than one record.
pub open spec fn well_keyed(table: Table) -> bool {
    forall|id: NodeId| table.contains_key(id) ==> (#[trigger] table[id]).id == id
}

/// The table after `node` has been registered: its record replaces whatever
/// was on file for its identifier.
pub open spec fn registered(table: Table, node: NodeView) -> Table {
    table.insert(node.id, node)
}

/// The table has `id` on file with exactly `addr` as its observed address.
pub open spec fn holds_address(table: Table, id: NodeId, addr: Address) -> bool {
    table.contains_key(id) && table[id].source_udp_addr == Some(addr)
}

/// The table after `addr` has been observed for `id`: the record of a
/// registered node takes the address, an unknown identifier changes nothing.
pub open spec fn address_updated(table: Table, id: NodeId, addr: Address) -> Table {
    if table.contains_key(id) {
        table.insert(id, table[id].observed_at(addr))
    } else {
        table
    }
}

/// The table has `id` on file, with another observed address than `addr` or
/// with none: a heartbeat of `id` from `addr` brings news.
pub open spec fn address_differs(table: Table, id: NodeId, addr: Address) -> bool {
    table.contains_key(id) && table[id].source_udp_addr != Some(addr)
}

/// The record on file for `id` stems from the registration with `token`.
pub open spec fn is_current(table: Table, id: NodeId, token: RegisterTime) -> bool {
    table.contains_key(id) && table[id].register_time == token
}

/// The table after the registration `token` of `id` has been withdrawn: the
/// record leaves only if it still stems from that registration.
pub open spec fn removed_if(table: Table, id: NodeId, token: RegisterTime) -> Table {
    if is_current(table, id, token) {
        table.remove(id)
    } else {
        table
    }
}

/// The model of a map of nodes.
pub open spec fn table_of(nodes: Map<NodeId, Node>) -> Table {
    nodes.map_values(|node: Node| node@)
}

/// A copy of the whole registry at one instant.
#[derive(Debug)]
pub struct Snapshot {
    nodes: HashMap<NodeId, Node>,
}

impl View for Snapshot {
    type V = Table;

    closed spec fn view(&self) -> Table {
        table_of(self.nodes@)
    }
}

impl Snapshot {
    #[verifier::type_invariant]
    spec fn inv(self) -> bool {
        well_keyed(self@)
    }

    /// The records of the snapshot, each under its node's identifier.
    pub fn nodes(&self) -> (nodes: &HashMap<NodeId, Node>)
        ensures
            table_of(nodes@) == self@,
            well_keyed(self@),
    {
        proof {
            use_type_invariant(self);
        }
        &self.nodes
    }

    /// The number of records.
    pub fn len(&self) -> (n: usize)
        ensures
            n == self@.len(),
    {
        proof {
            lemma_table_len(self.nodes@);
        }
        self.nodes.len()
    }

    /// The record of `id`, if the snapshot has one.
    pub fn get(&self, id: NodeId) -> (found: Option<&Node>)
        ensures
            match found {
                Some(node) => self@.contains_key(id) && node@ == self@[id] && node.id == id,
                None => !self@.contains_key(id),
            },
    {
        proof {
            use_type_invariant(self);
        }
        self.nodes.get(&id)
    }
}

/// The table of registered nodes.
#[derive(Debug)]
pub struct Registry {
    nodes: HashMap<NodeId, Node>,
}

impl View for Registry {
    type V = Table;

    closed spec fn view(&self) -> Table {
        table_of(self.nodes@)
    }
}

proof fn lemma_table_len(nodes: Map<NodeId, Node>)
    requires
        nodes.dom().finite(),
    ensures
        table_of(nodes).len() == nodes.len(),
{
    assert(table_of(nodes).dom() =~= nodes.dom());
}

proof fn lemma_table_insert(nodes: Map<NodeId, Node>, id: NodeId, node: Node)
    ensures
        table_of(nodes.insert(id, node)) == table_of(nodes).insert(id, node@),
{
    assert(table_of(nodes.insert(id, node)) =~= table_of(nodes).insert(id, node@));
}

proof fn lemma_address_updated_well_keyed(table: Table, id: NodeId, addr: Address)
    requires
        well_keyed(table),
    ensures
        well_keyed(address_updated(table, id, addr)),
{
}

proof fn lemma_table_remove(nodes: Map<NodeId, Node>, id: NodeId)
    ensures
        table_of(nodes.remove(id)) == table_of(nodes).remove(id),
{
    assert(table_of(nodes.remove(id)) =~= table_of(nodes).remove(id));
}

impl Registry {
    #[verifier::type_invariant]
    spec fn inv(self) -> bool {
        well_keyed(self@)
    }

    /// An empty registry.
    pub fn new() -> (registry: Registry)
        ensures
            registry@ == Table::empty(),
    {
        let nodes: HashMap<NodeId, Node> = HashMap::new();
        assert(table_of(nodes@) =~= Table::empty());
        Registry { nodes }
    }

    /// The number of registered nodes.
    pub fn len(&self) -> (n: usize)
        ensures
            n == self@.len(),
    {
        proof {
            lemma_table_len(self.nodes@);
        }
        self.nodes.len()
    }

    /// Whether `id` is registered.
    pub fn contains(&self, id: NodeId) -> (known: bool)
        ensures
            known == self@.contains_key(id),
    {
        self.nodes.contains_key(&id)
    }

    /// The record of `id`, if it is registered.
    pub fn get(&self, id: NodeId) -> (found: Option<&Node>)
        ensures
            match found {
                Some(node) => self@.contains_key(id) && node@ == self@[id] && node.id == id,
                None => !self@.contains_key(id),
            },
    {
        proof {
            use_type_invariant(self);
        }
        self.nodes.get(&id)
    }

    /// Files `node` under its identifier, in place of any record that was
    /// there.
    pub fn insert(&mut self, node: Node)
        ensures
            final(self)@ == registered(old(self)@, node@),
            well_keyed(final(self)@),
    {
        proof {
            use_type_invariant(&*self);
            lemma_table_insert(self.nodes@, node.id, node);
        }
        let mut nodes: HashMap<NodeId, Node> = HashMap::new();
        std::mem::swap(&mut nodes, &mut self.nodes);
        nodes.insert(node.id, node);
        self.nodes = nodes;
    }

    /// Whether `id` is registered with exactly `addr` as its observed
    /// address.
    pub fn address_matches(&self, id: NodeId, addr: Address) -> (same: bool)
        ensures
            same == holds_address(self@, id, addr),
    {
        match self.nodes.get(&id) {
            Some(node) => node.seen_at(addr),
            None => false,
        }
    }

    /// Records `addr` as the observed address of `id`. Returns whether `id`
    /// is registered; an unknown identifier changes nothing.
    pub fn update_address(&mut self, id: NodeId, addr: Address) -> (known: bool)
        ensures
            known == old(self)@.contains_key(id),
            final(self)@ == address_updated(old(self)@, id, addr),
            well_keyed(final(self)@),
    {
        proof {
            use_type_invariant(&*self);
        }
        let mut nodes: HashMap<NodeId, Node> = HashMap::new();
        std::mem::swap(&mut nodes, &mut self.nodes);
        let ghost before = nodes@;
        let known = match nodes.remove(&id) {
            Some(node) => {
                let updated = node.observed_at(addr);
                proof {
                    lemma_table_insert(nodes@, id, updated);
                    assert(table_of(before.remove(id)).insert(id, updated@) =~= table_of(
                        before,
                    ).insert(id, updated@));
                }
                nodes.insert(id, updated);
                true
            },
            None => {
                assert(nodes@ =~= before);
                false
            },
        };
        proof {
            lemma_address_updated_well_keyed(table_of(before), id, addr);
            assert(table_of(nodes@) == address_updated(table_of(before), id, addr));
        }
        self.nodes = nodes;
        known
    }

    /// Withdraws the registration `expected_register_time` of `id`: the
    /// record is removed only if it still carries that token. Returns whether
    /// it was removed.
    pub fn remove_if(&mut self, id: NodeId, expected_register_time: RegisterTime) -> (removed: bool)
        ensures
            removed == is_current(old(self)@, id, expected_register_time),
            final(self)@ == removed_if(old(self)@, id, expected_register_time),
            well_keyed(final(self)@),
    {
        proof {
            use_type_invariant(&*self);
        }
        let current = match self.nodes.get(&id) {
            Some(node) => node.register_time == expected_register_time,
            None => false,
        };
        if current {
            proof {
                lemma_table_remove(self.nodes@, id);
            }
            let mut nodes: HashMap<NodeId, Node> = HashMap::new();
            std::mem::swap(&mut nodes, &mut self.nodes);
            nodes.remove(&id);
            assert(well_keyed(table_of(nodes@)));
            self.nodes = nodes;
        }
        current
    }

    /// A copy of the registry as it stands.
    pub fn snapshot(&self) -> (snapshot: Snapshot)
        ensures
            snapshot@ == self@,
            well_keyed(snapshot@),
    {
        proof {
            use_type_invariant(self);
        }
        Snapshot { nodes: self.nodes.clone() }
    }

    /// Whether a heartbeat of `id` from `addr` brings news: `id` is
    /// registered and `addr` is not the address on file.
    pub fn address_differs(&self, id: NodeId, addr: Address) -> (differs: bool)
        ensures
            differs == address_differs(self@, id, addr),
    {
        match self.nodes.get(&id) {
            Some(node) => !node.seen_at(addr),
            None => false,
        }
    }

    /// Registers `node` and returns the snapshot to publish. A registration
    /// always publishes.
    pub fn register(&mut self, node: Node) -> (snapshot: Snapshot)
        ensures
            final(self)@ == registered(old(self)@, node@),
            snapshot@ == final(self)@,
            well_keyed(snapshot@),
    {
        self.insert(node);
        self.snapshot()
    }

    /// Records `addr` for `id` and returns the snapshot to publish, if `id`
    /// is registered. This is the second half of a heartbeat: it does not ask
    /// again whether the address is new.
    pub fn refresh_address(&mut self, id: NodeId, addr: Address) -> (published: Option<Snapshot>)
        ensures
            final(self)@ == address_updated(old(self)@, id, addr),
            published is Some <==> old(self)@.contains_key(id),
            published matches Some(snapshot) ==> snapshot@ == final(self)@ && well_keyed(
                snapshot@,
            ),
    {
        if self.update_address(id, addr) {
            Some(self.snapshot())
        } else {
            None
        }
    }

    /// Handles a heartbeat of `id` seen to come from `addr`.
    ///
    /// Nothing happens, and nothing is published, if `id` is unknown or
    /// `addr` is the address already on file. Otherwise the record takes the
    /// address and the new snapshot is returned for publishing.
    pub fn heartbeat(&mut self, id: NodeId, addr: Address) -> (published: Option<Snapshot>)
        ensures
            final(self)@ == address_updated(old(self)@, id, addr),
            published is Some <==> address_differs(old(self)@, id, addr),
            published is None ==> final(self)@ == old(self)@,
            published matches Some(snapshot) ==> snapshot@ == final(self)@ && well_keyed(
                snapshot@,
            ),
    {
        if self.address_differs(id, addr) {
            self.refresh_address(id, addr)
        } else {
            proof {
                assert(address_updated(self@, id, addr) =~= self@);
            }
            None
        }
    }

    /// Tears down the registration `register_time` of `id` and returns the
    /// snapshot to publish if the record was removed. A record that stems
    /// from another registration stays, and nothing is published.
    pub fn deregister(&mut self, id: NodeId, register_time: RegisterTime) -> (published: Option<
        Snapshot,
    >)
        ensures
            final(self)@ == removed_if(old(self)@, id, register_time),
            published is Some <==> is_current(old(self)@, id, register_time),
            published is None ==> final(self)@ == old(self)@,
            published matches Some(snapshot) ==> snapshot@ == final(self)@ && well_keyed(
                snapshot@,
            ),
    {
        if self.remove_if(id, register_time) {
            Some(self.snapshot())
        } else {
            None
        }
    }
}

} // verus!
