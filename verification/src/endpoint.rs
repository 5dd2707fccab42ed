//! UDP endpoints as plain values.
//!
//! The forwarder compares the sender of a datagram with the upstream
//! resolver's address and remembers where a reply has to go. For both it needs
//! an address only as a value that can be compared and handed back, so the
//! library keeps the numbers and leaves the socket types to the caller.

use vstd::prelude::*;

verus! {

/// An IP address and port, with the two extra fields that an IPv6 socket
/// address carries. Two endpoints are equal when all their fields are.
#[derive(Clone, Copy, Debug, PartialEq, Eq, Hash, Structural)]
#[allow(inconsistent_fields)]
pub enum Endpoint {
    /// An IPv4 address, as the 32-bit number of its four octets in network
    /// order, and a port.
    V4 { ip: u32, port: u16 },
    /// An IPv6 address, as the 128-bit number of its sixteen octets in network
    /// order, a port, the flow label and the scope identifier.
    V6 { ip: u128, port: u16, flowinfo: u32, scope_id: u32 },
}

/// The 32-bit number of the IPv4 address `a.b.c.d`.
pub open spec fn ipv4_number(a: u8, b: u8, c: u8, d: u8) -> u32 {
    (a as int * 0x100_0000 + b as int * 0x1_0000 + c as int * 0x100 + d as int) as u32
}

impl Endpoint {
    /// The endpoint `a.b.c.d:port`.
    pub open spec fn spec_v4(a: u8, b: u8, c: u8, d: u8, port: u16) -> Endpoint {
        Endpoint::V4 { ip: ipv4_number(a, b, c, d), port }
    }

    /// The endpoint `a.b.c.d:port`.
    #[verifier::when_used_as_spec(spec_v4)]
    pub fn v4(a: u8, b: u8, c: u8, d: u8, port: u16) -> (endpoint: Endpoint)
        ensures
            endpoint == Endpoint::spec_v4(a, b, c, d, port),
    {
        let ip: u32 = (a as u32) * 0x100_0000 + (b as u32) * 0x1_0000 + (c as u32) * 0x100 + (
        d as u32);
        Endpoint::V4 { ip, port }
    }

    /// The port of the endpoint.
    pub open spec fn spec_port(&self) -> u16 {
        match *self {
            Endpoint::V4 { port, .. } => port,
            Endpoint::V6 { port, .. } => port,
        }
    }

    /// The port of the endpoint.
    #[verifier::when_used_as_spec(spec_port)]
    pub fn port(&self) -> (port: u16)
        ensures
            port == self.spec_port(),
    {
        match *self {
            Endpoint::V4 { port, .. } => port,
            Endpoint::V6 { port, .. } => port,
        }
    }
}

} // verus!
