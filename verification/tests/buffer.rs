use umio::{Buffer, BufferPool};

const DEFAULT_BUFFER_SIZE: usize = 1500;

#[test]
fn positive_buffer_pool_buffer_len() {
    let mut buffers = BufferPool::new(DEFAULT_BUFFER_SIZE);
    let mut buffer = buffers.pop();

    assert_eq!(buffer.as_mut().len(), DEFAULT_BUFFER_SIZE);
    assert_eq!(buffer.as_ref().len(), 0);
}

#[test]
fn positive_buffer_len_update() {
    let mut buffer = Buffer::new(DEFAULT_BUFFER_SIZE);
    buffer.set_written(DEFAULT_BUFFER_SIZE - 1);

    assert_eq!(buffer.as_mut().len(), 1);
    assert_eq!(buffer.as_ref().len(), DEFAULT_BUFFER_SIZE - 1);
}

#[test]
fn fresh_buffer_is_zeroed_and_empty() {
    let mut buffer = Buffer::new(4);
    assert_eq!(buffer.capacity(), 4);
    assert_eq!(buffer.written(), 0);
    assert_eq!(buffer.as_mut(), &[0u8, 0, 0, 0][..]);
}

#[test]
fn writes_through_free_region_become_message() {
    let mut buffer = Buffer::new(6);
    buffer.as_mut()[..3].copy_from_slice(b"abc");
    buffer.set_written(3);
    assert_eq!(buffer.as_ref(), b"abc");
    buffer.as_mut()[..2].copy_from_slice(b"de");
    buffer.set_written(5);
    assert_eq!(buffer.as_ref(), b"abcde");
    assert_eq!(buffer.as_mut().len(), 1);
}

#[test]
fn halves_cover_the_storage() {
    let mut buffer = Buffer::new(10);
    for n in 0..=10 {
        buffer.set_written(n);
        let filled = buffer.as_ref().len();
        let free = buffer.as_mut().len();
        assert_eq!(filled, n);
        assert_eq!(filled + free, buffer.capacity());
    }
}

#[test]
fn reset_position_empties_message() {
    let mut buffer = Buffer::new(8);
    buffer.as_mut()[0] = 7;
    buffer.set_written(5);
    buffer.reset_position();
    assert_eq!(buffer.written(), 0);
    assert_eq!(buffer.as_ref().len(), 0);
    assert_eq!(buffer.as_mut()[0], 7);
}

#[test]
fn pool_reuses_last_returned_buffer_first() {
    let mut pool = BufferPool::new(16);
    assert_eq!(pool.buffer_size(), 16);
    let mut a = Buffer::new(3);
    a.as_mut()[0] = 1;
    a.set_written(2);
    let mut b = Buffer::new(5);
    b.as_mut()[0] = 2;
    b.set_written(4);
    pool.push(a);
    pool.push(b);

    let mut first = pool.pop();
    assert_eq!(first.capacity(), 5);
    assert_eq!(first.written(), 0);
    assert_eq!(first.as_mut()[0], 2);

    let mut second = pool.pop();
    assert_eq!(second.capacity(), 3);
    assert_eq!(second.written(), 0);
    assert_eq!(second.as_mut()[0], 1);

    let third = pool.pop();
    assert_eq!(third.capacity(), 16);
    assert_eq!(third.written(), 0);
}

#[test]
fn push_then_pop_round_trip() {
    let mut pool = BufferPool::new(4);
    let mut buffer = pool.pop();
    buffer.as_mut().copy_from_slice(b"wxyz");
    buffer.set_written(4);
    pool.push(buffer);
    let mut again = pool.pop();
    assert_eq!(again.as_ref().len(), 0);
    assert_eq!(again.as_mut(), b"wxyz");
}

#[test]
fn pool_of_zero_length_buffers() {
    let mut pool = BufferPool::new(0);
    let mut buffer = pool.pop();
    assert_eq!(buffer.as_mut().len(), 0);
    assert_eq!(buffer.as_ref().len(), 0);
}
