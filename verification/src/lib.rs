//! Membership core of a rendezvous service for a mesh of nodes.
//!
//! Nodes register over a connection, announce liveness with heartbeats, and
//! every change of the membership table yields a snapshot for all connected
//! nodes. This crate holds the table, the rules that guard it against
//! reconnect races, and the per-connection session protocol. Sockets, framing
//! and the encoding of snapshots belong to the caller.

pub mod address;
pub mod history;
pub mod listener;
pub mod message;
pub mod node;
pub mod registry;
pub mod session;
pub mod shared;
