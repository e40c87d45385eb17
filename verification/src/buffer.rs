use vstd::prelude::*;

verus! {

/// The abstract state of a [`Buffer`]: its whole storage and how many of
/// its leading bytes hold a message.
pub struct BufferView {
    pub data: Seq<u8>,
    pub written: nat,
}

impl BufferView {
    /// The bytes that hold the message.
    pub open spec fn filled(self) -> Seq<u8> {
        self.data.take(self.written as int)
    }

    /// The region still free for writing.
    pub open spec fn free(self) -> Seq<u8> {
        self.data.skip(self.written as int)
    }

    /// The write position lies within the storage.
    pub open spec fn wf(self) -> bool {
        self.written <= self.data.len()
    }

    /// The same storage with its write position back at the start.
    pub open spec fn reset(self) -> BufferView {
        BufferView { data: self.data, written: 0 }
    }
}

/// The written bytes and the free region split the storage at the written
/// mark: `as_ref` and `as_mut` together cover the buffer, and the written
/// count is the length of what `as_ref` gives.
pub proof fn lemma_buffer_halves(b: BufferView)
    requires
        b.wf(),
    ensures
        b.filled() + b.free() == b.data,
        b.filled().len() == b.written,
        b.free().len() == b.data.len() - b.written,
{
    assert(b.filled() + b.free() =~= b.data);
}

/// The message is the storage up to the written count and the free region
/// is the storage after it, byte for byte; a reset keeps the storage and
/// moves the written count to zero.
pub proof fn lemma_buffer_regions(b: BufferView)
    requires
        b.wf(),
    ensures
        forall|i: int| 0 <= i < b.written ==> #[trigger] b.filled()[i] == b.data[i],
        forall|i: int| 0 <= i < b.data.len() - b.written ==> #[trigger] b.free()[i] == b.data[b.written + i],
        b.reset().data == b.data,
        b.reset().written == 0,
{
}

/// A fresh buffer holds `len` bytes, all zero, and nothing written.
pub proof fn lemma_fresh_buffer_zeroed(len: nat)
    ensures
        fresh_buffer(len).data.len() == len,
        forall|i: int| 0 <= i < len ==> #[trigger] fresh_buffer(len).data[i] == 0u8,
        fresh_buffer(len).written == 0,
{
}

/// A storage of `len` zero bytes with nothing written.
pub open spec fn fresh_buffer(len: nat) -> BufferView {
    BufferView { data: Seq::new(len, |i: int| 0u8), written: 0 }
}

/// Reusable region of memory for incoming and outgoing messages.
#[derive(Debug)]
pub struct Buffer {
    buffer: Vec<u8>,
    bytes_written: usize,
}

impl View for Buffer {
    type V = BufferView;

    closed spec fn view(&self) -> BufferView {
        BufferView { data: self.buffer@, written: self.bytes_written as nat }
    }
}

impl Buffer {
    /// A buffer of `len` zero bytes with nothing written.
    pub fn new(len: usize) -> (b: Buffer)
        ensures
            b@ == fresh_buffer(len as nat),
            b@.data.len() == len,
            forall|i: int| 0 <= i < len ==> #[trigger] b@.data[i] == 0u8,
            b@.written == 0,
    {
        let b = Buffer { buffer: vec![0u8; len], bytes_written: 0 };
        assert(b@.data =~= fresh_buffer(len as nat).data);
        b
    }

    /// Move the write position back to the start of the buffer.
    pub fn reset_position(&mut self)
        ensures
            final(self)@ == old(self)@.reset(),
            final(self)@.data == old(self)@.data,
            final(self)@.written == 0,
    {
        self.set_written(0);
    }

    /// Update the number of bytes written to the buffer. A count past the
    /// end of the storage is recorded as given; the buffer then cannot be
    /// sliced until the count is set again.
    pub fn set_written(&mut self, bytes: usize)
        ensures
            final(self)@ == (BufferView { data: old(self)@.data, written: bytes as nat }),
    {
        self.bytes_written = bytes;
    }

    /// The whole length of the storage.
    pub fn capacity(&self) -> (n: usize)
        ensures
            n == self@.data.len(),
    {
        self.buffer.len()
    }

    /// The number of bytes written so far.
    pub fn written(&self) -> (n: usize)
        ensures
            n == self@.written,
    {
        self.bytes_written
    }

    /// The bytes written so far.
    pub fn as_ref(&self) -> (s: &[u8])
        requires
            self@.wf(),
        ensures
            s@ == self@.filled(),
            s@.len() == self@.written,
            forall|i: int| 0 <= i < self@.written ==> #[trigger] s@[i] == self@.data[i],
    {
        vstd::slice::slice_subrange(self.buffer.as_slice(), 0, self.bytes_written)
    }

    /// The region after the bytes written so far, for writing into.
    pub fn as_mut(&mut self) -> (s: &mut [u8])
        requires
            old(self)@.wf(),
        ensures
            s@ == old(self)@.free(),
            s@.len() == old(self)@.data.len() - old(self)@.written,
            forall|i: int| 0 <= i < s@.len() ==> #[trigger] s@[i] == old(self)@.data[old(self)@.written + i],
            final(self)@.written == old(self)@.written,
            forall|i: int| 0 <= i < old(self)@.written ==> #[trigger] final(self)@.data[i] == old(self)@.data[i],
            forall|i: int| 0 <= i < final(s)@.len() ==> #[trigger] final(self)@.data[old(self)@.written + i] == final(s)@[i],
            final(self)@ == (BufferView {
                data: old(self)@.filled() + final(s)@,
                written: old(self)@.written,
            }),
    {
        let at = self.bytes_written;
        let whole = self.buffer.as_mut_slice();
        let (_, free) = whole.split_at_mut(at);
        free
    }
}

/// The abstract state of a [`BufferPool`]: the buffers waiting for reuse,
/// the most recently returned last, and the length of the buffers it makes.
pub struct PoolView {
    pub buffers: Seq<BufferView>,
    pub buffer_size: nat,
}

impl PoolView {
    /// What `pop` leaves in the pool and hands out: the most recently
    /// returned buffer, or a fresh one when none waits.
    pub open spec fn popped(self) -> (PoolView, BufferView) {
        if self.buffers.len() > 0 {
            (
                PoolView { buffers: self.buffers.drop_last(), buffer_size: self.buffer_size },
                self.buffers.last(),
            )
        } else {
            (self, fresh_buffer(self.buffer_size))
        }
    }

    /// What `push` leaves in the pool: the buffer on top, its position reset.
    pub open spec fn pushed(self, b: BufferView) -> PoolView {
        PoolView { buffers: self.buffers.push(b.reset()), buffer_size: self.buffer_size }
    }

    /// Every buffer waiting in the pool has the pool's buffer length.
    pub open spec fn uniform(self) -> bool {
        forall|i: int|
            0 <= i < self.buffers.len() ==> (#[trigger] self.buffers[i]).data.len()
                == self.buffer_size
    }

    /// Every buffer waiting in the pool has nothing written.
    pub open spec fn all_reset(self) -> bool {
        forall|i: int| 0 <= i < self.buffers.len() ==> #[trigger] self.buffers[i].written == 0
    }
}

/// Popping keeps the pool's buffer length. From a pool with buffers waiting
/// it hands out the last one returned and keeps the others in order; from
/// an empty pool it hands out `buffer_size` zero bytes with nothing written
/// and the pool stays empty.
pub proof fn lemma_pop_behaviour(p: PoolView)
    ensures
        p.popped().0.buffer_size == p.buffer_size,
        p.buffers.len() > 0 ==> p.popped().1 == p.buffers[p.buffers.len() - 1]
            && p.popped().0.buffers == p.buffers.subrange(0, p.buffers.len() - 1),
        p.buffers.len() == 0 ==> p.popped().0.buffers.len() == 0 && p.popped().1.written == 0
            && p.popped().1.data.len() == p.buffer_size && forall|i: int|
            0 <= i < p.buffer_size ==> #[trigger] p.popped().1.data[i] == 0u8,
{
}

/// Pushing keeps the pool's buffer length and the waiting buffers, and puts
/// the returned buffer's storage on top with nothing written.
pub proof fn lemma_push_behaviour(p: PoolView, b: BufferView)
    ensures
        p.pushed(b).buffer_size == p.buffer_size,
        p.pushed(b).buffers.len() == p.buffers.len() + 1,
        p.pushed(b).buffers[p.buffers.len() as int] == (BufferView { data: b.data, written: 0 }),
        forall|i: int|
            0 <= i < p.buffers.len() ==> #[trigger] p.pushed(b).buffers[i] == p.buffers[i],
{
}

/// A buffer returned to the pool is the next one handed out, with its
/// storage intact and its write position back at the start, and the pool
/// is then as it was before.
pub proof fn lemma_push_then_pop(p: PoolView, b: BufferView)
    ensures
        p.pushed(b).popped() == (p, b.reset()),
{
    assert(p.pushed(b).popped().0.buffers =~= p.buffers);
}

/// A pool that only takes back buffers of its own length only hands out
/// buffers of that length, each with nothing written: all of its storage
/// is free for writing.
pub proof fn lemma_pool_hands_out_full_buffers(p: PoolView, b: BufferView)
    requires
        p.uniform(),
        p.all_reset(),
        b.data.len() == p.buffer_size,
    ensures
        p.popped().0.uniform(),
        p.popped().0.all_reset(),
        p.popped().1.data.len() == p.buffer_size,
        p.popped().1.written == 0,
        p.popped().1.free().len() == p.buffer_size,
        p.pushed(b).uniform(),
        p.pushed(b).all_reset(),
{
    if p.buffers.len() > 0 {
        let last = p.buffers.len() - 1;
        assert(p.buffers[last].data.len() == p.buffer_size);
        assert(p.buffers[last].written == 0);
        let q = p.popped().0;
        assert forall|i: int| 0 <= i < q.buffers.len() implies #[trigger] q.buffers[i].data.len()
            == q.buffer_size && q.buffers[i].written == 0 by {
            assert(q.buffers[i] == p.buffers[i]);
        }
    }
    let r = p.pushed(b);
    assert forall|i: int| 0 <= i < r.buffers.len() implies #[trigger] r.buffers[i].data.len()
        == r.buffer_size && r.buffers[i].written == 0 by {
        if i < p.buffers.len() {
            assert(r.buffers[i] == p.buffers[i]);
        }
    }
}

/// A stack of reusable buffers, so that the buffer used last is reused first.
pub struct BufferPool {
    buffers: Vec<Buffer>,
    buffer_size: usize,
}

impl View for BufferPool {
    type V = PoolView;

    closed spec fn view(&self) -> PoolView {
        PoolView {
            buffers: self.buffers@.map_values(|b: Buffer| b@),
            buffer_size: self.buffer_size as nat,
        }
    }
}

impl BufferPool {
    #[verifier::type_invariant]
    spec fn inv(self) -> bool {
        forall|i: int| 0 <= i < self.buffers@.len() ==> #[trigger] self.buffers@[i]@.written == 0
    }

    /// An empty pool that makes buffers of `buffer_size` bytes.
    pub fn new(buffer_size: usize) -> (pool: BufferPool)
        ensures
            pool@ == (PoolView { buffers: Seq::empty(), buffer_size: buffer_size as nat }),
            pool@.buffers.len() == 0,
            pool@.buffer_size == buffer_size,
    {
        let buffers = Vec::new();
        let pool = BufferPool { buffers: buffers, buffer_size: buffer_size };
        assert(pool@.buffers =~= Seq::empty());
        pool
    }

    /// The length of the buffers that the pool makes.
    pub fn buffer_size(&self) -> (n: usize)
        ensures
            n == self@.buffer_size,
    {
        self.buffer_size
    }

    /// Take the most recently returned buffer, or a fresh one when none waits.
    pub fn pop(&mut self) -> (b: Buffer)
        ensures
            (final(self)@, b@) == old(self)@.popped(),
            final(self)@.all_reset(),
            b@.written == 0,
            final(self)@.buffer_size == old(self)@.buffer_size,
            old(self)@.buffers.len() == 0 ==> final(self)@.buffers.len() == 0 && b@.data.len()
                == old(self)@.buffer_size && forall|i: int|
                0 <= i < b@.data.len() ==> #[trigger] b@.data[i] == 0u8,
            old(self)@.buffers.len() > 0 ==> b@ == old(self)@.buffers[old(self)@.buffers.len() - 1]
                && final(self)@.buffers == old(self)@.buffers.subrange(
                0,
                old(self)@.buffers.len() - 1,
            ),
    {
        proof {
            use_type_invariant(&*self);
        }
        let ghost before = self.buffers@;
        let mut buffers = Vec::new();
        std::mem::swap(&mut buffers, &mut self.buffers);
        let popped = buffers.pop();
        proof {
            if popped is Some {
                assert(before[before.len() - 1]@.written == 0);
            }
            assert forall|i: int| 0 <= i < buffers@.len() implies #[trigger] buffers@[i]@.written
                == 0 by {
                assert(before[i]@.written == 0);
            }
        }
        self.buffers = buffers;
        assert(self.buffers@.map_values(|b: Buffer| b@) =~= before.map_values(|b: Buffer| b@).take(
            self.buffers@.len() as int,
        ));
        match popped {
            Some(b) => b,
            None => Buffer::new(self.buffer_size),
        }
    }

    /// Return a buffer to the pool, its write position back at the start.
    pub fn push(&mut self, buffer: Buffer)
        ensures
            final(self)@ == old(self)@.pushed(buffer@),
            final(self)@.all_reset(),
            final(self)@.buffer_size == old(self)@.buffer_size,
            final(self)@.buffers.len() == old(self)@.buffers.len() + 1,
            final(self)@.buffers[old(self)@.buffers.len() as int] == (BufferView {
                data: buffer@.data,
                written: 0,
            }),
            forall|i: int|
                0 <= i < old(self)@.buffers.len() ==> #[trigger] final(self)@.buffers[i]
                    == old(self)@.buffers[i],
    {
        proof {
            use_type_invariant(&*self);
        }
        let mut buffer = buffer;
        buffer.reset_position();
        let ghost before = self.buffers@;
        let mut buffers = Vec::new();
        std::mem::swap(&mut buffers, &mut self.buffers);
        buffers.push(buffer);
        proof {
            assert forall|i: int| 0 <= i < buffers@.len() implies #[trigger] buffers@[i]@.written
                == 0 by {
                if i < before.len() {
                    assert(before[i]@.written == 0);
                }
            }
        }
        self.buffers = buffers;
        assert(self.buffers@.map_values(|b: Buffer| b@) =~= before.map_values(|b: Buffer| b@).push(
            buffer@,
        ));
    }
}

} // verus!
