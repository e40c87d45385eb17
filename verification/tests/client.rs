use mio::{EventLoop, EventLoopConfig, Handler};
use umio::{convert_message, new_sender, DispatchMessage, SendError};

struct Sink;

impl Handler for Sink {
    type Timeout = ();
    type Message = DispatchMessage<u32>;
}

fn small_loop() -> EventLoop<Sink> {
    let mut config = EventLoopConfig::new();
    config.notify_capacity(2);
    EventLoop::configured(config).unwrap()
}

#[test]
fn convert_message_unwraps_notification() {
    assert_eq!(convert_message(DispatchMessage::DispatchNotify(42u32)), 42);
}

#[test]
fn full_channel_hands_message_back() {
    let event_loop = small_loop();
    let sender = new_sender(event_loop.channel());
    assert!(sender.send(1).is_ok());
    assert!(sender.send(2).is_ok());
    match sender.send(3) {
        Err(SendError::Full(m)) => assert_eq!(m, 3),
        other => panic!("expected a full channel, got {:?}", other),
    }
}

#[test]
fn closed_channel_hands_message_back() {
    let event_loop = small_loop();
    let sender = new_sender(event_loop.channel());
    let copy = sender.clone();
    drop(event_loop);
    match copy.send(11) {
        Err(SendError::Closed(Some(m))) => assert_eq!(m, 11),
        other => panic!("expected a closed channel, got {:?}", other),
    }
}

#[test]
fn notify_error_takes_message_out() {
    match umio::notify_error(SendError::Full(DispatchMessage::DispatchNotify(5u8))) {
        SendError::Full(m) => assert_eq!(m, 5),
        other => panic!("unexpected {:?}", other),
    }
    match umio::notify_error(SendError::Closed(Some(DispatchMessage::DispatchNotify(6u8)))) {
        SendError::Closed(Some(m)) => assert_eq!(m, 6),
        other => panic!("unexpected {:?}", other),
    }
    match umio::notify_error::<u8>(SendError::Closed(None)) {
        SendError::Closed(None) => {}
        other => panic!("unexpected {:?}", other),
    }
    let io = std::io::Error::new(std::io::ErrorKind::Other, "wake");
    match umio::notify_error::<u8>(SendError::Io(io)) {
        SendError::Io(e) => assert_eq!(e.kind(), std::io::ErrorKind::Other),
        other => panic!("unexpected {:?}", other),
    }
}

#[test]
fn notification_wraps_client_message() {
    match umio::notification(9u16) {
        DispatchMessage::DispatchNotify(m) => assert_eq!(m, 9),
        _ => panic!("expected a notification"),
    }
}
