use vstd::prelude::*;

use crate::address::SocketAddress;

verus! {

/// The length of the buffers that an event loop hands out by default.
pub const DEFAULT_BUFFER_SIZE: usize = 1500;

/// The default number of messages that the loop's channel holds.
pub const DEFAULT_CHANNEL_CAPACITY: usize = 4096;

/// The default number of timeouts that the loop can hold.
pub const DEFAULT_TIMER_CAPACITY: usize = 65536;

/// Builder for specifying attributes of an event loop.
#[derive(Clone, Copy, Debug, PartialEq, Eq, Structural)]
pub struct ELoopBuilder {
    pub channel_capacity: usize,
    pub timer_capacity: usize,
    pub buffer_size: usize,
    pub bind_address: SocketAddress,
}

impl ELoopBuilder {
    /// Create a new event loop builder: the default capacities and buffer
    /// length, bound to port 0 of every IPv4 interface (0.0.0.0:0).
    pub fn new() -> (b: ELoopBuilder)
        ensures
            b.channel_capacity == DEFAULT_CHANNEL_CAPACITY,
            b.timer_capacity == DEFAULT_TIMER_CAPACITY,
            b.buffer_size == DEFAULT_BUFFER_SIZE,
            b.bind_address == (SocketAddress::V4 { ip4: 0, port: 0 }),
    {
        let default_addr = SocketAddress::V4 { ip4: 0, port: 0 };
        ELoopBuilder {
            channel_capacity: DEFAULT_CHANNEL_CAPACITY,
            timer_capacity: DEFAULT_TIMER_CAPACITY,
            buffer_size: DEFAULT_BUFFER_SIZE,
            bind_address: default_addr,
        }
    }

    /// Manually set the maximum channel message capacity.
    pub fn channel_capacity(self, capacity: usize) -> (b: ELoopBuilder)
        ensures
            b == (ELoopBuilder { channel_capacity: capacity, ..self }),
    {
        let mut b = self;
        b.channel_capacity = capacity;
        b
    }

    /// Manually set the maximum timer capacity.
    pub fn timer_capacity(self, capacity: usize) -> (b: ELoopBuilder)
        ensures
            b == (ELoopBuilder { timer_capacity: capacity, ..self }),
    {
        let mut b = self;
        b.timer_capacity = capacity;
        b
    }

    /// Manually set the bind address for the udp socket in the event loop.
    pub fn bind_address(self, address: SocketAddress) -> (b: ELoopBuilder)
        ensures
            b == (ELoopBuilder { bind_address: address, ..self }),
    {
        let mut b = self;
        b.bind_address = address;
        b
    }

    /// Manually set the length of buffers provided by the event loop.
    pub fn buffer_length(self, length: usize) -> (b: ELoopBuilder)
        ensures
            b == (ELoopBuilder { buffer_size: length, ..self }),
    {
        let mut b = self;
        b.buffer_size = length;
        b
    }
}

} // verus!
