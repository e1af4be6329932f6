//! Node records.

use vstd::prelude::*;
use crate::address::Address;

verus! {

/// Identifier of a node, assigned outside this crate and stable while the
/// node is registered.
pub type NodeId = u32;

/// Generation token of one registration. Every registration of a node,
/// reconnects included, carries a token of its own.
pub type RegisterTime = i64;

/// What the registry knows of one node.
#[derive(Debug, PartialEq, Eq)]
pub struct Node {
    pub id: NodeId,
    /// Token of the registration that wrote this record.
    pub register_time: RegisterTime,
    /// Address the node's heartbeats were last seen to come from.
    pub source_udp_addr: Option<Address>,
    /// Application data, carried along and never looked into.
    pub payload: Vec<u8>,
}

/// The mathematical value of a [`Node`].
pub struct NodeView {
    pub id: NodeId,
    pub register_time: RegisterTime,
    pub source_udp_addr: Option<Address>,
    pub payload: Seq<u8>,
}

impl NodeView {
    /// This record with `addr` as the observed address.
    pub open spec fn observed_at(self, addr: Address) -> NodeView {
        NodeView { source_udp_addr: Some(addr), ..self }
    }
}

impl View for Node {
    type V = NodeView;

    open spec fn view(&self) -> NodeView {
        NodeView {
            id: self.id,
            register_time: self.register_time,
            source_udp_addr: self.source_udp_addr,
            payload: self.payload@,
        }
    }
}

impl Clone for Node {
    fn clone(&self) -> (copy: Node)
        ensures
            copy@ == self@,
    {
        Node {
            id: self.id,
            register_time: self.register_time,
            source_udp_addr: self.source_udp_addr,
            payload: self.payload.clone(),
        }
    }
}

impl Node {
    /// A record that has not been seen on the heartbeat channel yet.
    pub fn new(id: NodeId, register_time: RegisterTime, payload: Vec<u8>) -> (node: Node)
        ensures
            node@ == (NodeView { id, register_time, source_udp_addr: None, payload: payload@ }),
    {
        Node { id, register_time, source_udp_addr: None, payload }
    }

    /// This record with `addr` as the observed address.
    pub fn observed_at(self, addr: Address) -> (node: Node)
        ensures
            node@ == self@.observed_at(addr),
    {
        Node {
            id: self.id,
            register_time: self.register_time,
            source_udp_addr: Some(addr),
            payload: self.payload,
        }
    }

    /// Whether the record holds exactly `addr` as the observed address.
    pub fn seen_at(&self, addr: Address) -> (same: bool)
        ensures
            same == (self@.source_udp_addr == Some(addr)),
    {
        match self.source_udp_addr {
            Some(known) => known == addr,
            None => false,
        }
    }
}

} // verus!
