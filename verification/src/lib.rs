//! Message based readiness API: the bookkeeping of a single UDP socket
//! event loop (reusable buffers, the queue of outgoing datagrams, the
//! interest that the socket is registered with, and the messages that
//! clients hand to the loop), each with the contract it keeps.

pub mod address;
pub mod buffer;
pub mod client;
pub mod dispatcher;
pub mod eloop;
mod outside;
pub mod route;

pub use address::SocketAddress;
pub use buffer::{Buffer, BufferPool};
pub use client::{convert_message, new_sender, notification, notify_error, ClientSender, DispatchMessage, SendError};
pub use dispatcher::{
    outgoing_message, ready_actions, received, DispatchState, Readiness, ReadyActions,
    UDP_SOCKET_TOKEN,
};
pub use eloop::{
    ELoopBuilder, DEFAULT_BUFFER_SIZE, DEFAULT_CHANNEL_CAPACITY, DEFAULT_TIMER_CAPACITY,
};
pub use route::RouteInfo;
