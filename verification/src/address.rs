use vstd::prelude::*;

verus! {

/// A socket address held as plain integers: an IPv4 address with a port,
/// or an IPv6 address with a port, a flow label and a scope.
/// The address bytes are read big-endian, first octet highest.
#[derive(Clone, Copy, Debug, PartialEq, Eq, Structural)]
pub enum SocketAddress {
    V4 { ip4: u32, port: u16 },
    V6 { ip6: u128, port: u16, flowinfo: u32, scope_id: u32 },
}

} // verus!
