//! Addresses as plain values: an address family, and a socket address with
//! its port.

use vstd::prelude::*;

verus! {

/// The two address families that a socket can be made for.
#[derive(Clone, Copy, Debug, PartialEq, Eq, Structural)]
pub enum IpAddrKind {
    V4,
    V6,
}

/// A socket address. An IPv4 address is held as its 32 bits, an IPv6 address
/// as its 128 bits, both in network order: `127.0.0.1` is `0x7f00_0001`.
#[derive(Clone, Copy, Debug, PartialEq, Eq, Structural)]
#[allow(inconsistent_fields)]
pub enum SocketAddress {
    V4 { bits: u32, port: u16 },
    V6 { bits: u128, port: u16, flowinfo: u32, scope_id: u32 },
}

/// The bits of the IPv4 address `a.b.c.d`.
pub open spec fn v4_bits(a: u8, b: u8, c: u8, d: u8) -> int {
    a * 0x100_0000 + b * 0x1_0000 + c * 0x100 + d
}

impl SocketAddress {
    /// The IPv4 address `a.b.c.d` with the given port.
    pub fn v4(a: u8, b: u8, c: u8, d: u8, port: u16) -> (r: SocketAddress)
        ensures
            r == (SocketAddress::V4 { bits: v4_bits(a, b, c, d) as u32, port }),
            v4_bits(a, b, c, d) <= u32::MAX,
    {
        let hi: u32 = a as u32 * 0x100_0000 + b as u32 * 0x1_0000;
        let lo: u32 = c as u32 * 0x100 + d as u32;
        SocketAddress::V4 { bits: hi + lo, port }
    }

    /// The family of the address.
    pub open spec fn spec_family(&self) -> IpAddrKind {
        match self {
            SocketAddress::V4 { .. } => IpAddrKind::V4,
            SocketAddress::V6 { .. } => IpAddrKind::V6,
        }
    }

    /// The family of the address.
    #[verifier::when_used_as_spec(spec_family)]
    pub fn family(&self) -> (r: IpAddrKind)
        ensures
            r == self.spec_family(),
    {
        match self {
            SocketAddress::V4 { .. } => IpAddrKind::V4,
            SocketAddress::V6 { .. } => IpAddrKind::V6,
        }
    }

    /// The port of the address.
    pub open spec fn spec_port(&self) -> u16 {
        match self {
            SocketAddress::V4 { port, .. } => *port,
            SocketAddress::V6 { port, .. } => *port,
        }
    }

    /// The port of the address.
    #[verifier::when_used_as_spec(spec_port)]
    pub fn port(&self) -> (r: u16)
        ensures
            r == self.spec_port(),
    {
        match self {
            SocketAddress::V4 { port, .. } => *port,
            SocketAddress::V6 { port, .. } => *port,
        }
    }
}

} // verus!
