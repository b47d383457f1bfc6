use vstd::prelude::*;

verus! {

/// An IP address held as its integer value: the four octets of IPv4 in
/// network order in a `u32`, the sixteen of IPv6 in a `u128`.
#[derive(Debug, Clone, Copy, PartialEq, Eq, Structural)]
pub enum IpAddress {
    V4(u32),
    V6(u128),
}

} // verus!

verus! {

/// An IP address and a port.
#[derive(Debug, Clone, Copy, PartialEq, Eq, Structural)]
pub struct SocketAddress {
    pub ip: IpAddress,
    pub port: u16,
}

} // verus!
