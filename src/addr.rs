use vstd::prelude::*;

verus! {

/// An IP address held as plain integers.
#[derive(Clone, Copy, Debug, PartialEq, Eq, Structural)]
pub enum IpAddress {
    /// An IPv4 address, most significant octet first.
    V4(u32),
    /// An IPv6 address, most significant octet first.
    V6(u128),
}

/// The address of a peer or of a local socket: an IP address and a port.
#[derive(Clone, Copy, Debug, PartialEq, Eq, Structural)]
pub struct SocketAddress {
    pub ip: IpAddress,
    pub port: u16,
}

impl SocketAddress {
    /// Makes an IPv4 socket address.
    pub fn v4(ip: u32, port: u16) -> (r: SocketAddress)
        ensures
            r.ip == IpAddress::V4(ip),
            r.port == port,
    {
        SocketAddress { ip: IpAddress::V4(ip), port }
    }

    /// Makes an IPv6 socket address.
    pub fn v6(ip: u128, port: u16) -> (r: SocketAddress)
        ensures
            r.ip == IpAddress::V6(ip),
            r.port == port,
    {
        SocketAddress { ip: IpAddress::V6(ip), port }
    }
}

} // verus!
