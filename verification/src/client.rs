use vstd::prelude::*;

use crate::address::SocketAddress;
use crate::buffer::Buffer;

verus! {

/// What travels through the event loop's channel: a client's message for
/// the dispatcher, or a filled buffer to send to an address.
#[derive(Debug)]
pub enum DispatchMessage<M> {
    DispatchNotify(M),
    DispatchOutgoing(Buffer, SocketAddress),
}

/// Why a message could not be handed to the event loop. A message that the
/// loop refused comes back to the sender.
#[derive(Debug)]
pub enum SendError<M> {
    /// Waking the event loop failed.
    Io(std::io::Error),
    /// The loop's queue is full; the message comes back.
    Full(M),
    /// The loop has hung up; the message comes back where it can be had.
    Closed(Option<M>),
}

/// Hands `msg` to the event loop through mio's `Sender::send`.
///
/// Whether it is taken depends on the state of the loop's queue, so no
/// clause says when it succeeds. mio's source hands a refused message back
/// as it was given: `NotifyError::Full(value)` and `NotifyError::Closed(Some(value))`
/// carry the very value passed in. The wrapper only renames mio's error
/// variants to those of [`SendError`], one for one.
#[verifier::external_body]
fn channel_send<T: Send>(channel: &mio::Sender<T>, msg: T) -> (res: Result<(), SendError<T>>)
    ensures
        res matches Err(SendError::Full(m)) ==> m == msg,
        res matches Err(SendError::Closed(Some(m))) ==> m == msg,
{
    match channel.send(msg) {
        Ok(()) => Ok(()),
        Err(mio::NotifyError::Io(e)) => Err(SendError::Io(e)),
        Err(mio::NotifyError::Full(m)) => Err(SendError::Full(m)),
        Err(mio::NotifyError::Closed(m)) => Err(SendError::Closed(m)),
    }
}

/// Creates a new Sender for the client to utilize.
pub fn new_sender<M: Send>(send: mio::Sender<DispatchMessage<M>>) -> (s: ClientSender<M>)
    ensures
        s.channel() == send,
{
    ClientSender { send: send }
}

/// Sender for notifying the Dispatcher of events.
#[derive(Clone, Debug)]
#[verifier::reject_recursive_types(M)]
pub struct ClientSender<M: Send> {
    send: mio::Sender<DispatchMessage<M>>,
}

impl<M: Send> ClientSender<M> {
    /// The event loop channel behind this sender.
    pub closed spec fn channel(&self) -> mio::Sender<DispatchMessage<M>> {
        self.send
    }

    /// Notify the dispatcher with `msg`: the event loop's channel is handed
    /// `notification(msg)`. A message that the event loop refuses comes back
    /// in the error as it was given.
    pub fn send(&self, msg: M) -> (res: Result<(), SendError<M>>)
        ensures
            res matches Err(SendError::Full(m)) ==> m == msg && notification_of(m)
                == notification_of(msg),
            res matches Err(SendError::Closed(Some(m))) ==> m == msg && notification_of(m)
                == notification_of(msg),
    {
        let wrapped = notification(msg);
        match channel_send(&self.send, wrapped) {
            Ok(()) => Ok(()),
            Err(e) => Err(notify_error(e)),
        }
    }
}

/// What the event loop's channel carries for a client's message.
pub open spec fn notification_of<M>(msg: M) -> DispatchMessage<M> {
    DispatchMessage::DispatchNotify(msg)
}

/// The notification that carries a client's message to the dispatcher.
pub fn notification<M>(msg: M) -> (n: DispatchMessage<M>)
    ensures
        n == notification_of(msg),
{
    DispatchMessage::DispatchNotify(msg)
}

/// The error of a refused notification, with the client's message taken
/// back out of the notification that carried it.
pub fn notify_error<M>(err: SendError<DispatchMessage<M>>) -> (res: SendError<M>)
    requires
        err matches SendError::Full(m) ==> m is DispatchNotify,
        err matches SendError::Closed(Some(m)) ==> m is DispatchNotify,
    ensures
        match err {
            SendError::Io(e) => res == SendError::<M>::Io(e),
            SendError::Full(m) => res matches SendError::Full(c) && m
                == DispatchMessage::<M>::DispatchNotify(c),
            SendError::Closed(None) => res == SendError::<M>::Closed(None),
            SendError::Closed(Some(m)) => res matches SendError::Closed(Some(c)) && m
                == DispatchMessage::<M>::DispatchNotify(c),
        },
{
    match err {
        SendError::Io(e) => SendError::Io(e),
        SendError::Full(m) => SendError::Full(convert_message(m)),
        SendError::Closed(opt) => match opt {
            Some(m) => SendError::Closed(Some(convert_message(m))),
            None => SendError::Closed(None),
        },
    }
}

/// The client message inside a notification.
pub fn convert_message<M>(msg: DispatchMessage<M>) -> (m: M)
    requires
        msg is DispatchNotify,
    ensures
        msg == DispatchMessage::<M>::DispatchNotify(m),
{
    match msg {
        DispatchMessage::DispatchNotify(m) => m,
        DispatchMessage::DispatchOutgoing(_, _) => vstd::pervasive::unreached(),
    }
}

} // verus!
