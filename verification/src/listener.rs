//! The heartbeat listener's rule: which datagrams count, and what one does
//! to the registry.

use vstd::prelude::*;
use crate::address::Address;
use crate::message::Msg;
use crate::node::NodeId;
use crate::registry::{
    address_differs, address_updated, holds_address, well_keyed, Registry, Snapshot, Table,
};
use crate::shared::SharedRegistry;

verus! {

/// What came in on the connectionless endpoint.
#[derive(Debug, PartialEq, Eq)]
pub enum Datagram {
    /// Bytes that did not decrypt or decode to a message.
    Undecodable,
    /// A message, and the transport-level address it was seen to come from.
    Message { msg: Msg, from: Address },
}

/// The heartbeat that a datagram carries: the node it names and the address
/// it came from. Datagrams that do not decode, and messages of any other
/// kind, carry none.
pub open spec fn heartbeat_of(datagram: Datagram) -> Option<(NodeId, Address)> {
    match datagram {
        Datagram::Message { msg: Msg::Heartbeat(id), from } => Some((id, from)),
        _ => None,
    }
}

/// The table after `datagram` has been handled.
pub open spec fn received(table: Table, datagram: Datagram) -> Table {
    match heartbeat_of(datagram) {
        Some((id, from)) => address_updated(table, id, from),
        None => table,
    }
}

/// Handling `datagram` publishes a snapshot: it is a heartbeat of a
/// registered node from another address than the one on file.
pub open spec fn publishes_on(table: Table, datagram: Datagram) -> bool {
    match heartbeat_of(datagram) {
        Some((id, from)) => address_differs(table, id, from),
        None => false,
    }
}

/// The heartbeat that `datagram` carries.
pub fn heartbeat_in(datagram: &Datagram) -> (found: Option<(NodeId, Address)>)
    ensures
        found == heartbeat_of(*datagram),
{
    match datagram {
        Datagram::Message { msg: Msg::Heartbeat(id), from } => Some((*id, *from)),
        _ => None,
    }
}

/// Handles one datagram on `registry`. A heartbeat of a registered node from
/// a new address updates the record and returns the snapshot to publish;
/// everything else is dropped without effect.
pub fn receive(registry: &mut Registry, datagram: &Datagram) -> (published: Option<Snapshot>)
    ensures
        final(registry)@ == received(old(registry)@, *datagram),
        published is Some <==> publishes_on(old(registry)@, *datagram),
        published is None ==> final(registry)@ == old(registry)@,
        published matches Some(snapshot) ==> snapshot@ == final(registry)@ && well_keyed(
            snapshot@,
        ),
{
    match heartbeat_in(datagram) {
        Some((id, from)) => registry.heartbeat(id, from),
        None => None,
    }
}

/// Handles one datagram on a shared registry. Whatever other tasks do
/// meanwhile, only a heartbeat can publish, and the snapshot it publishes
/// shows its node at the address it came from.
pub fn receive_shared(registry: &SharedRegistry, datagram: &Datagram) -> (published: Option<
    Snapshot,
>)
    ensures
        heartbeat_of(*datagram) is None ==> published is None,
        published matches Some(snapshot) ==> {
            &&& heartbeat_of(*datagram) matches Some((id, from))
            &&& holds_address(snapshot@, id, from)
            &&& well_keyed(snapshot@)
        },
{
    match heartbeat_in(datagram) {
        Some((id, from)) => registry.heartbeat(id, from),
        None => None,
    }
}

} // verus!
