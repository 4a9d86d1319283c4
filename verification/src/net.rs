//! Network addresses as plain values.
use vstd::prelude::*;

verus! {

/// An IP address: IPv4 as a 32-bit number, IPv6 as a 128-bit number (network order).
#[derive(Debug, Clone, Copy, PartialEq, Eq)]
pub enum IpAddress {
    V4(u32),
    V6(u128),
}

/// An IP address and a port.
#[derive(Debug, Clone, Copy, PartialEq, Eq)]
pub struct SocketAddress {
    pub ip: IpAddress,
    pub port: u16,
}

impl SocketAddress {
    /// The address `ip` with port `port`.
    pub fn new(ip: IpAddress, port: u16) -> (a: SocketAddress)
        ensures
            a.ip == ip,
            a.port == port,
    {
        SocketAddress { ip, port }
    }
}

} // verus!
