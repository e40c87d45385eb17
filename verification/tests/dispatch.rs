use umio::{
    outgoing_message, ready_actions, Buffer, DispatchMessage, DispatchState, Readiness,
    ReadyActions, SocketAddress, UDP_SOCKET_TOKEN,
};

fn events(readable: bool, writable: bool) -> Readiness {
    Readiness { readable, writable, error: false, hup: false }
}

fn addr(port: u16) -> SocketAddress {
    SocketAddress::V4 { ip4: 0x7f00_0001, port }
}

fn filled(bytes: &[u8]) -> Buffer {
    let mut b = Buffer::new(bytes.len() + 2);
    b.as_mut()[..bytes.len()].copy_from_slice(bytes);
    b.set_written(bytes.len());
    b
}

#[test]
fn other_tokens_are_ignored() {
    assert_eq!(UDP_SOCKET_TOKEN, 2);
    for token in [0usize, 1, 3, 100] {
        assert_eq!(ready_actions(token, events(true, true)), ReadyActions { write: false, read: false });
    }
}

#[test]
fn socket_token_follows_events() {
    assert_eq!(ready_actions(2, events(true, true)), ReadyActions { write: true, read: true });
    assert_eq!(ready_actions(2, events(true, false)), ReadyActions { write: false, read: true });
    assert_eq!(ready_actions(2, events(false, true)), ReadyActions { write: true, read: false });
    let hup = Readiness { readable: false, writable: false, error: true, hup: true };
    assert_eq!(ready_actions(2, hup), ReadyActions { write: false, read: false });
}

#[test]
fn new_state_reads_only() {
    let mut state = DispatchState::new();
    assert_eq!(state.current_set(), events(true, false));
    assert!(state.handle_write().is_none());
    assert_eq!(state.tick(), events(true, false));
}

#[test]
fn outgoing_leave_in_queue_order() {
    let mut state = DispatchState::new();
    state.queue_outgoing(filled(b"one"), addr(1));
    state.queue_outgoing(filled(b"two"), addr(2));
    let (b1, a1) = state.handle_write().unwrap();
    state.queue_outgoing(filled(b"three"), addr(3));
    let (b2, a2) = state.handle_write().unwrap();
    let (b3, a3) = state.handle_write().unwrap();
    assert!(state.handle_write().is_none());
    assert_eq!((b1.as_ref(), a1), (&b"one"[..], addr(1)));
    assert_eq!((b2.as_ref(), a2), (&b"two"[..], addr(2)));
    assert_eq!((b3.as_ref(), a3), (&b"three"[..], addr(3)));
}

#[test]
fn tick_asks_for_writes_while_queue_holds_datagrams() {
    let mut state = DispatchState::new();
    state.queue_outgoing(filled(b"x"), addr(9));
    assert_eq!(state.current_set(), events(true, false));
    assert_eq!(state.tick(), events(true, true));
    assert_eq!(state.current_set(), events(true, true));
    let _ = state.handle_write();
    assert_eq!(state.tick(), events(true, false));
}

#[test]
fn outgoing_with_bytes_becomes_message() {
    let mut buffer = Buffer::new(8);
    buffer.as_mut()[..4].copy_from_slice(b"ping");
    match outgoing_message::<u32>(buffer, Some((4, addr(7)))) {
        Ok(DispatchMessage::DispatchOutgoing(b, a)) => {
            assert_eq!(b.as_ref(), b"ping");
            assert_eq!(b.capacity(), 8);
            assert_eq!(a, addr(7));
        }
        _ => panic!("expected an outgoing message"),
    }
}

#[test]
fn outgoing_without_bytes_returns_buffer() {
    let buffer = Buffer::new(8);
    match outgoing_message::<u32>(buffer, None) {
        Err(b) => {
            assert_eq!(b.capacity(), 8);
            assert_eq!(b.written(), 0);
        }
        Ok(_) => panic!("expected the buffer back"),
    }
}

#[test]
fn received_datagram_is_marked_written() {
    let mut buffer = Buffer::new(8);
    buffer.as_mut()[..3].copy_from_slice(b"abc");
    match umio::received(buffer, Some((3, addr(4)))) {
        Some((b, a)) => {
            assert_eq!(b.as_ref(), b"abc");
            assert_eq!(b.capacity(), 8);
            assert_eq!(a, addr(4));
        }
        None => panic!("expected the datagram"),
    }
}

#[test]
fn nothing_received_gives_nothing() {
    assert!(umio::received(Buffer::new(8), None).is_none());
}
