use vstd::prelude::*;

use crate::address::SocketAddress;
use crate::buffer::{Buffer, BufferView};
use crate::client::DispatchMessage;

verus! {

/// The token under which the event loop reports the UDP socket.
pub const UDP_SOCKET_TOKEN: usize = 2;

/// A set of readiness kinds, as the event loop reports them for the socket
/// and as the socket is registered for.
#[derive(Clone, Copy, Debug, PartialEq, Eq, Structural)]
pub struct Readiness {
    pub readable: bool,
    pub writable: bool,
    pub error: bool,
    pub hup: bool,
}

/// Which halves of the work a readiness report for a token calls for.
#[derive(Clone, Copy, Debug, PartialEq, Eq, Structural)]
pub struct ReadyActions {
    /// Send the oldest queued datagram.
    pub write: bool,
    /// Receive a datagram and hand it to the dispatcher.
    pub read: bool,
}

/// What a readiness report calls for: nothing for a token other than the
/// socket's; for the socket, a write when it is writable and a read when it
/// is readable, the write first.
pub fn ready_actions(token: usize, events: Readiness) -> (actions: ReadyActions)
    ensures
        token != UDP_SOCKET_TOKEN ==> !actions.write && !actions.read,
        token == UDP_SOCKET_TOKEN ==> actions.write == events.writable && actions.read
            == events.readable,
{
    if token != UDP_SOCKET_TOKEN {
        return ReadyActions { write: false, read: false };
    }
    ReadyActions { write: events.writable, read: events.readable }
}

/// The interest that the socket is registered with: always reading, and
/// writing too while datagrams wait to go out.
pub open spec fn interest_for(has_outgoing: bool) -> Readiness {
    Readiness { readable: true, writable: has_outgoing, error: false, hup: false }
}

/// The abstract state of a [`DispatchState`].
pub struct DispatchView {
    /// Datagrams waiting to be sent, oldest first.
    pub out_queue: Seq<(BufferView, SocketAddress)>,
    /// The interest that the socket was last registered with.
    pub current_set: Readiness,
}

impl DispatchView {
    /// Every queued buffer can be read out.
    pub open spec fn all_wf(self) -> bool {
        forall|i: int| 0 <= i < self.out_queue.len() ==> (#[trigger] self.out_queue[i]).0.wf()
    }

    /// The state after a datagram is queued.
    pub open spec fn queued(self, b: BufferView, addr: SocketAddress) -> DispatchView {
        DispatchView { out_queue: self.out_queue.push((b, addr)), current_set: self.current_set }
    }

    /// The state after the oldest datagram leaves, and that datagram.
    pub open spec fn dequeued(self) -> (DispatchView, Option<(BufferView, SocketAddress)>) {
        if self.out_queue.len() > 0 {
            (
                DispatchView { out_queue: self.out_queue.drop_first(), current_set: self.current_set },
                Some(self.out_queue.first()),
            )
        } else {
            (self, None)
        }
    }

    /// The state after a tick: the interest follows the queue.
    pub open spec fn ticked(self) -> DispatchView {
        DispatchView {
            out_queue: self.out_queue,
            current_set: interest_for(self.out_queue.len() > 0),
        }
    }
}

/// Datagrams leave in the order they were queued: a datagram queued behind
/// others waits until they have left, and one queued on an empty queue is
/// the next to leave.
pub proof fn lemma_queue_fifo(v: DispatchView, b: BufferView, addr: SocketAddress)
    ensures
        v.out_queue.len() > 0 ==> v.queued(b, addr).dequeued() == (
            v.dequeued().0.queued(b, addr),
            v.dequeued().1,
        ),
        v.out_queue.len() == 0 ==> v.queued(b, addr).dequeued() == (v, Some((b, addr))),
{
    if v.out_queue.len() > 0 {
        assert(v.queued(b, addr).dequeued().0.out_queue =~= v.dequeued().0.queued(
            b,
            addr,
        ).out_queue);
    } else {
        assert(v.queued(b, addr).dequeued().0.out_queue =~= v.out_queue);
    }
}

/// Taking from an empty queue gives nothing and changes nothing, whatever
/// the registered interest; taking from a queue that holds datagrams gives
/// the oldest one and leaves the rest, in order, with the interest kept.
pub proof fn lemma_dequeue_takes_oldest(v: DispatchView)
    ensures
        v.out_queue.len() == 0 ==> v.dequeued() == (v, None::<(BufferView, SocketAddress)>),
        v.out_queue.len() > 0 ==> v.dequeued().1 == Some(v.out_queue[0]) && v.dequeued().0.out_queue
            == v.out_queue.subrange(1, v.out_queue.len() as int),
        v.dequeued().0.current_set == v.current_set,
{
}

/// Queueing puts the datagram behind all those that wait, keeps them and
/// the interest as they were.
pub proof fn lemma_queue_appends(v: DispatchView, b: BufferView, addr: SocketAddress)
    ensures
        v.queued(b, addr).out_queue.len() == v.out_queue.len() + 1,
        v.queued(b, addr).out_queue[v.out_queue.len() as int] == (b, addr),
        forall|i: int|
            0 <= i < v.out_queue.len() ==> #[trigger] v.queued(b, addr).out_queue[i]
                == v.out_queue[i],
        v.queued(b, addr).current_set == v.current_set,
{
}

/// A tick leaves the queue as it is and registers reading, and writing
/// exactly while a datagram waits, never errors or hang-ups.
pub proof fn lemma_tick_keeps_queue(v: DispatchView)
    ensures
        v.ticked().out_queue == v.out_queue,
        v.ticked().current_set == (Readiness {
            readable: true,
            writable: v.out_queue.len() > 0,
            error: false,
            hup: false,
        }),
{
}

/// After a tick the socket is registered for reading, and for writing
/// exactly while a datagram waits: a queued datagram makes the next tick
/// ask for writability, and sending the last one makes it stop asking.
pub proof fn lemma_tick_follows_queue(v: DispatchView, b: BufferView, addr: SocketAddress)
    ensures
        v.ticked().current_set.readable,
        v.ticked().current_set.writable <==> v.out_queue.len() > 0,
        v.queued(b, addr).ticked().current_set.writable,
        v.out_queue.len() == 1 ==> !v.dequeued().0.ticked().current_set.writable,
{
}

/// The decisions of the socket's event handler: the queue of datagrams
/// waiting to go out, and the interest that the socket is registered with.
pub struct DispatchState {
    out_queue: std::collections::VecDeque<(Buffer, SocketAddress)>,
    current_set: Readiness,
}

impl View for DispatchState {
    type V = DispatchView;

    closed spec fn view(&self) -> DispatchView {
        DispatchView {
            out_queue: self.out_queue@.map_values(|e: (Buffer, SocketAddress)| (e.0@, e.1)),
            current_set: self.current_set,
        }
    }
}

impl DispatchState {
    #[verifier::type_invariant]
    spec fn inv(self) -> bool {
        forall|i: int|
            0 <= i < self.out_queue@.len() ==> (#[trigger] self.out_queue@[i]).0@.wf()
    }

    /// No datagram waiting, and the socket registered for reading.
    pub fn new() -> (s: DispatchState)
        ensures
            s@ == (DispatchView { out_queue: Seq::empty(), current_set: interest_for(false) }),
            s@.out_queue.len() == 0,
            s@.current_set == (Readiness { readable: true, writable: false, error: false, hup: false }),
    {
        let s = DispatchState {
            out_queue: std::collections::VecDeque::new(),
            current_set: Readiness { readable: true, writable: false, error: false, hup: false },
        };
        assert(s@.out_queue =~= Seq::empty());
        s
    }

    /// The interest that the socket was last registered with.
    pub fn current_set(&self) -> (r: Readiness)
        ensures
            r == self@.current_set,
    {
        self.current_set
    }

    /// Queue a filled buffer to be sent to `addr` once the socket is writable.
    pub fn queue_outgoing(&mut self, buffer: Buffer, addr: SocketAddress)
        requires
            buffer@.wf(),
        ensures
            final(self)@ == old(self)@.queued(buffer@, addr),
            final(self)@.all_wf(),
            final(self)@.out_queue == old(self)@.out_queue.push((buffer@, addr)),
            final(self)@.current_set == old(self)@.current_set,
    {
        proof {
            use_type_invariant(&*self);
        }
        let ghost before = self.out_queue@;
        let mut queue = std::collections::VecDeque::new();
        std::mem::swap(&mut queue, &mut self.out_queue);
        queue.push_back((buffer, addr));
        proof {
            assert forall|i: int| 0 <= i < queue@.len() implies (#[trigger] queue@[i]).0@.wf() by {
                if i < before.len() {
                    assert(before[i].0@.wf());
                }
            }
        }
        self.out_queue = queue;
        assert(self.out_queue@.map_values(|e: (Buffer, SocketAddress)| (e.0@, e.1))
            =~= before.map_values(|e: (Buffer, SocketAddress)| (e.0@, e.1)).push((buffer@, addr)));
    }

    /// Take the oldest queued datagram, to be sent now.
    pub fn handle_write(&mut self) -> (out: Option<(Buffer, SocketAddress)>)
        ensures
            (final(self)@, match out {
                Some(e) => Some((e.0@, e.1)),
                None => None::<(BufferView, SocketAddress)>,
            }) == old(self)@.dequeued(),
            final(self)@.all_wf(),
            out matches Some(e) ==> e.0@.wf(),
            old(self)@.out_queue.len() == 0 ==> out is None && final(self)@ == old(self)@,
            old(self)@.out_queue.len() > 0 ==> (out matches Some(e) && (e.0@, e.1)
                == old(self)@.out_queue[0] && final(self)@.out_queue == old(self)@.out_queue.subrange(
                1,
                old(self)@.out_queue.len() as int,
            )),
            final(self)@.current_set == old(self)@.current_set,
    {
        proof {
            use_type_invariant(&*self);
        }
        let ghost before = self.out_queue@;
        let mut queue = std::collections::VecDeque::new();
        std::mem::swap(&mut queue, &mut self.out_queue);
        let out = queue.pop_front();
        proof {
            assert forall|i: int| 0 <= i < queue@.len() implies (#[trigger] queue@[i]).0@.wf() by {
                assert(before[i + 1].0@.wf());
            }
            if out is Some {
                assert(before[0].0@.wf());
            }
        }
        self.out_queue = queue;
        assert(self.out_queue@.map_values(|e: (Buffer, SocketAddress)| (e.0@, e.1))
            =~= before.map_values(|e: (Buffer, SocketAddress)| (e.0@, e.1)).subrange(
            before.len() - self.out_queue@.len(),
            before.len() as int,
        ));
        out
    }

    /// Refresh the interest from the queue and give it, for the socket to be
    /// registered with.
    pub fn tick(&mut self) -> (interest: Readiness)
        ensures
            final(self)@ == old(self)@.ticked(),
            interest == final(self)@.current_set,
            final(self)@.out_queue == old(self)@.out_queue,
            interest.readable,
            interest.writable == (old(self)@.out_queue.len() > 0),
            !interest.error && !interest.hup,
    {
        proof {
            use_type_invariant(&*self);
        }
        let has_outgoing = self.out_queue.len() > 0;
        self.current_set = Readiness { readable: true, writable: has_outgoing, error: false, hup: false };
        self.current_set
    }
}

/// What the handler makes of a receive into a buffer from the pool: the
/// buffer with the received bytes marked written, and the sender's address;
/// or nothing when no datagram came, the buffer being dropped.
pub fn received(buffer: Buffer, got: Option<(usize, SocketAddress)>) -> (res: Option<
    (Buffer, SocketAddress),
>)
    ensures
        match got {
            Some((n, a)) => res matches Some((b, x)) && b@ == (BufferView {
                data: buffer@.data,
                written: n as nat,
            }) && x == a,
            None => res is None,
        },
{
    match got {
        Some((bytes, addr)) => {
            let mut buffer = buffer;
            buffer.set_written(bytes);
            Some((buffer, addr))
        },
        None => None,
    }
}

/// What a worker makes of a buffer after a client filled it: a message to
/// send it to the address with the bytes written, or, when the client has
/// nothing to send, the buffer back for the pool.
pub fn outgoing_message<M>(buffer: Buffer, out: Option<(usize, SocketAddress)>) -> (res: Result<
    DispatchMessage<M>,
    Buffer,
>)
    ensures
        match out {
            Some((bytes, addr)) => res matches Ok(DispatchMessage::DispatchOutgoing(b, a)) && b@
                == (BufferView { data: buffer@.data, written: bytes as nat }) && a == addr,
            None => res == Err::<DispatchMessage<M>, Buffer>(buffer),
        },
{
    match out {
        Some((bytes, addr)) => {
            let mut buffer = buffer;
            buffer.set_written(bytes);
            Ok(DispatchMessage::DispatchOutgoing(buffer, addr))
        },
        None => Err(buffer),
    }
}

} // verus!
