//! Network addresses as plain values.

use vstd::prelude::*;

verus! {

/// A transport-level socket address.
///
/// Two addresses are equal when they are of the same family and agree on
/// every field.
#[derive(Clone, Copy, Debug, PartialEq, Eq, Structural, Hash)]
pub enum Address {
    /// An IPv4 host, its four octets read as one big-endian number, and a
    /// port.
    V4 { host: u32, port: u16 },
    /// An IPv6 host, its sixteen octets read as one big-endian number, a
    /// port, the flow label and the scope.
    V6 { host6: u128, port: u16, flowinfo: u32, scope_id: u32 },
}

} // verus!
