//! The messages that nodes and the service exchange.

use vstd::prelude::*;
use crate::node::{Node, NodeId};

verus! {

/// A decoded message. Framing and encryption are the caller's.
#[derive(Debug, PartialEq, Eq)]
pub enum Msg {
    /// Liveness announcement of a registered node, sent as a datagram.
    Heartbeat(NodeId),
    /// Registration, sent once by a node when its session starts.
    Register(Node),
    /// An encoded registry snapshot, sent by the service to a node.
    NodeMapSerde(Vec<u8>),
}

} // verus!
