//! Transport-level addresses.
use vstd::prelude::*;

verus! {

/// Where a datagram came from, or where one is to be sent: an IP address and
/// a port, with the flow label and scope that an IPv6 endpoint carries.
///
/// Two addresses are the same endpoint exactly when they are the same variant
/// and agree on every field. This is the only key by which the relay
/// recognizes a returning sender.
#[derive(Clone, Copy, Debug, PartialEq, Eq, Hash, Structural)]
#[allow(inconsistent_fields)]
pub enum Address {
    /// An IPv4 endpoint; `ip` holds the four octets in network order, the
    /// first octet in the most significant byte.
    V4 { ip: u32, port: u16 },
    /// An IPv6 endpoint; `ip` holds the sixteen octets in network order.
    V6 { ip: u128, port: u16, flowinfo: u32, scope_id: u32 },
}

} // verus!
