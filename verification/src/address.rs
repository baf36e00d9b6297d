//! Client identities and peer addresses as plain values.

use vstd::prelude::*;

verus! {

/// A client's identifier: the virtual IPv4 address assigned to it.
pub type ClientId = u32;

/// The bearer value a client presents with every packet.
pub type ClientToken = u64;

/// The live binding of an identifier: the token that must accompany it and
/// the address its packets are sent to.
pub type ClientMetadata = (ClientToken, SocketAddress);

/// An IPv4 address, in host order: `10.0.0.5` is `0x0A00_0005`.
pub type Ipv4Address = u32;

/// The address of a UDP peer: an IP address and a port, with the two
/// extra words an IPv6 socket address carries.
#[derive(Clone, Copy, Debug, PartialEq, Eq, Structural, Hash)]
#[allow(inconsistent_fields)]
pub enum SocketAddress {
    V4 { ip: u32, port: u16 },
    V6 { ip: u128, port: u16, flowinfo: u32, scope_id: u32 },
}

} // verus!
