use vstd::prelude::*;

use crate::address::SocketAddress;

verus! {

/// A route to a peer: its address and its smoothed round trip time.
#[derive(Clone, Copy, Debug, PartialEq, Eq, Structural)]
pub struct RouteInfo {
    rtt: u64,
    address: SocketAddress,
}

impl RouteInfo {
    /// The round trip time that the route holds.
    pub closed spec fn spec_rtt(&self) -> u64 {
        self.rtt
    }

    /// The address that the route leads to.
    pub closed spec fn spec_address(&self) -> SocketAddress {
        self.address
    }

    /// A route to `address` with round trip time `rtt`.
    pub fn new(rtt: u64, address: SocketAddress) -> (r: RouteInfo)
        ensures
            r.spec_rtt() == rtt,
            r.spec_address() == address,
    {
        RouteInfo { rtt: rtt, address: address }
    }

    /// The address that the route leads to.
    pub fn address(&self) -> (a: SocketAddress)
        ensures
            a == self.spec_address(),
    {
        self.address
    }

    /// The smoothed round trip time of the route.
    pub fn average_rtt(&self) -> (rtt: u64)
        ensures
            rtt == self.spec_rtt(),
    {
        self.rtt
    }
}

} // verus!
