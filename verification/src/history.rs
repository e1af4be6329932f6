//! Histories: what holds of the registry after any sequence of changes.
//!
//! Three things change a registry: a session registers its node, a heartbeat
//! brings an address, a session tears its registration down. A history is a
//! sequence of such changes in the order in which the registry took them.
//! The laws below are stated on the model of the registry and hold for every
//! history.

use vstd::prelude::*;
use crate::address::Address;
use crate::node::{NodeId, NodeView, RegisterTime};
use crate::registry::{
    address_differs, address_updated, holds_address, is_current, registered, removed_if,
    well_keyed, Table,
};

verus! {

/// One change to the registry.
pub enum Change {
    /// A session registers this node: `Registry::register`.
    Register(NodeView),
    /// A heartbeat of this node is seen to come from this address:
    /// `Registry::heartbeat`.
    Heartbeat(NodeId, Address),
    /// The session that registered this node with this token tears its
    /// registration down: `Registry::deregister`.
    Teardown(NodeId, RegisterTime),
}

/// The table after `change`.
pub open spec fn applied(table: Table, change: Change) -> Table {
    match change {
        Change::Register(node) => registered(table, node),
        Change::Heartbeat(id, addr) => address_updated(table, id, addr),
        Change::Teardown(id, token) => removed_if(table, id, token),
    }
}

/// `change`, made on `table`, publishes a snapshot.
pub open spec fn announced(table: Table, change: Change) -> bool {
    match change {
        Change::Register(_) => true,
        Change::Heartbeat(id, addr) => address_differs(table, id, addr),
        Change::Teardown(id, token) => is_current(table, id, token),
    }
}

/// The table after all of `changes`, first to last.
pub open spec fn applied_all(table: Table, changes: Seq<Change>) -> Table
    decreases changes.len(),
{
    if changes.len() == 0 {
        table
    } else {
        applied(applied_all(table, changes.drop_last()), changes.last())
    }
}

/// The snapshot published last in the course of `changes`, made on `table`
/// one after the other; `latest` if none of them publishes.
pub open spec fn latest_published(latest: Table, table: Table, changes: Seq<Change>) -> Table
    decreases changes.len(),
{
    if changes.len() == 0 {
        latest
    } else {
        let before = applied_all(table, changes.drop_last());
        if announced(before, changes.last()) {
            applied(before, changes.last())
        } else {
            latest_published(latest, table, changes.drop_last())
        }
    }
}

/// `change` leaves the registration `token` of `id` alone: it neither
/// registers `id` anew nor tears that registration down.
pub open spec fn spares(change: Change, id: NodeId, token: RegisterTime) -> bool {
    match change {
        Change::Register(node) => node.id != id,
        Change::Heartbeat(_, _) => true,
        Change::Teardown(other, withdrawn) => !(other == id && withdrawn == token),
    }
}

/// No two records of `table` are of the same node.
pub open spec fn one_record_per_node(table: Table) -> bool {
    forall|a: NodeId, b: NodeId|
        table.contains_key(a) && table.contains_key(b) && (#[trigger] table[a]).id == (
        #[trigger] table[b]).id ==> a == b
}

/// A change keeps every record under its own identifier.
pub proof fn lemma_change_keeps_well_keyed(table: Table, change: Change)
    requires
        well_keyed(table),
    ensures
        well_keyed(applied(table, change)),
{
}

/// Whatever the history, the registry never holds two records of one node.
pub proof fn lemma_one_record_per_node(table: Table, changes: Seq<Change>)
    requires
        well_keyed(table),
    ensures
        well_keyed(applied_all(table, changes)),
        one_record_per_node(applied_all(table, changes)),
    decreases changes.len(),
{
    if changes.len() > 0 {
        lemma_one_record_per_node(table, changes.drop_last());
        lemma_change_keeps_well_keyed(applied_all(table, changes.drop_last()), changes.last());
    }
}

/// The last registration wins: once a node has registered, and as long as
/// no later change registers it anew or tears that very registration down,
/// the registry holds the node under that registration, whatever stale
/// teardowns and heartbeats follow.
pub proof fn lemma_last_registration_wins(
    table: Table,
    changes: Seq<Change>,
    at: int,
    node: NodeView,
)
    requires
        0 <= at < changes.len(),
        changes[at] == Change::Register(node),
        forall|later: int|
            at < later < changes.len() ==> spares(
                #[trigger] changes[later],
                node.id,
                node.register_time,
            ),
    ensures
        is_current(applied_all(table, changes), node.id, node.register_time),
        applied_all(table, changes)[node.id].id == node.id,
        applied_all(table, changes)[node.id].payload == node.payload,
    decreases changes.len(),
{
    if at < changes.len() - 1 {
        let earlier = changes.drop_last();
        assert(earlier[at] == changes[at]);
        assert forall|later: int| at < later < earlier.len() implies spares(
            #[trigger] earlier[later],
            node.id,
            node.register_time,
        ) by {
            assert(earlier[later] == changes[later]);
        }
        lemma_last_registration_wins(table, earlier, at, node);
        assert(spares(changes[changes.len() - 1], node.id, node.register_time));
    }
}

/// A teardown never removes a record that stems from another registration
/// than the one it withdraws: it leaves the registry as it was.
pub proof fn lemma_teardown_spares_other_registration(
    table: Table,
    id: NodeId,
    token: RegisterTime,
)
    requires
        table.contains_key(id),
        table[id].register_time != token,
    ensures
        removed_if(table, id, token) == table,
        !announced(table, Change::Teardown(id, token)),
{
}

/// A node that reconnects is safe from the teardown of its earlier session:
/// if `stale` registers, `current` registers the same node with another
/// token, and only then the first session tears down, the registry still
/// holds `current`.
pub proof fn lemma_reconnect_survives_stale_teardown(
    table: Table,
    stale: NodeView,
    current: NodeView,
)
    requires
        stale.id == current.id,
        stale.register_time != current.register_time,
    ensures
        removed_if(
            registered(registered(table, stale), current),
            stale.id,
            stale.register_time,
        ) == registered(table, current),
{
    assert(registered(registered(table, stale), current) =~= registered(table, current));
}

/// A heartbeat never inserts a record: the registry holds the same
/// identifiers after it as before, and a heartbeat of an unknown node
/// changes nothing and publishes nothing.
pub proof fn lemma_heartbeat_never_inserts(table: Table, id: NodeId, addr: Address)
    ensures
        address_updated(table, id, addr).dom() == table.dom(),
        !table.contains_key(id) ==> address_updated(table, id, addr) == table && !announced(
            table,
            Change::Heartbeat(id, addr),
        ),
{
    assert(address_updated(table, id, addr).dom() =~= table.dom());
}

/// A heartbeat that repeats the address on file changes nothing and
/// publishes nothing. A heartbeat of a registered node from another address
/// publishes, and the next heartbeat from that address does not.
pub proof fn lemma_heartbeat_publishes_on_change_only(table: Table, id: NodeId, addr: Address)
    ensures
        holds_address(table, id, addr) ==> address_updated(table, id, addr) == table && !announced(
            table,
            Change::Heartbeat(id, addr),
        ),
        table.contains_key(id) && !holds_address(table, id, addr) ==> announced(
            table,
            Change::Heartbeat(id, addr),
        ),
        table.contains_key(id) ==> holds_address(address_updated(table, id, addr), id, addr)
            && !announced(address_updated(table, id, addr), Change::Heartbeat(id, addr)),
{
    if holds_address(table, id, addr) {
        assert(address_updated(table, id, addr) =~= table);
    }
}

/// No change goes unpublished: a change that publishes nothing leaves the
/// registry as it was.
pub proof fn lemma_silent_change_changes_nothing(table: Table, change: Change)
    requires
        !announced(table, change),
    ensures
        applied(table, change) == table,
{
    match change {
        Change::Register(_) => {},
        Change::Heartbeat(id, addr) => {
            assert(address_updated(table, id, addr) =~= table);
        },
        Change::Teardown(_, _) => {},
    }
}

/// The snapshot published last is the registry: if the latest snapshot showed
/// the registry before a history, the one published last in its course shows
/// the registry as all of its changes left it, never an older one.
pub proof fn lemma_latest_snapshot_is_current(table: Table, changes: Seq<Change>)
    ensures
        latest_published(table, table, changes) == applied_all(table, changes),
    decreases changes.len(),
{
    if changes.len() > 0 {
        let before = applied_all(table, changes.drop_last());
        lemma_latest_snapshot_is_current(table, changes.drop_last());
        if !announced(before, changes.last()) {
            lemma_silent_change_changes_nothing(before, changes.last());
        }
    }
}

} // verus!
