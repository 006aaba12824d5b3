//! Addresses as plain values.

use vstd::prelude::*;

verus! {

/// An IP address, version 4 or 6, by its octets or its 16-bit groups.
#[derive(Clone, Copy, Debug, PartialEq, Eq, Structural)]
pub enum IpAddress {
    V4(u8, u8, u8, u8),
    V6(u16, u16, u16, u16, u16, u16, u16, u16),
}

impl IpAddress {
    /// The unspecified IPv4 address, `0.0.0.0`.
    pub fn unspecified_v4() -> (r: IpAddress)
        ensures
            r == IpAddress::V4(0, 0, 0, 0),
    {
        IpAddress::V4(0, 0, 0, 0)
    }
}

/// An IP address together with a port.
#[derive(Clone, Copy, Debug, PartialEq, Eq, Structural)]
pub struct SocketAddress {
    pub ip: IpAddress,
    pub port: u16,
}

/// The address `0.0.0.0:port`, where a local port is bound on every interface.
pub open spec fn any_interface(port: u16) -> SocketAddress {
    SocketAddress { ip: IpAddress::V4(0, 0, 0, 0), port }
}

} // verus!
