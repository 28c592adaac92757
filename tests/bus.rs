use interax_tui_fwk::bus::{MessageBus, TaskMessage, TrySendError, BUS_CAPACITY};

#[test]
fn message_is_tagged_and_payload_recovered() {
    let mut bus: MessageBus<String> = MessageBus::new();
    let tx = bus.register("worker");
    let mut rx = bus.take_receiver().expect("first take");
    assert!(tx.try_send("hello".to_string()).is_ok());
    let msg = rx.try_recv().expect("a message");
    assert_eq!(msg.task_name, "worker");
    let (name, payload) = msg.into_parts();
    assert_eq!(name, "worker");
    assert_eq!(payload, "hello");
}

#[test]
fn wrap_tags_with_sender_name() {
    let mut bus: MessageBus<u32> = MessageBus::new();
    let tx = bus.register("ticker");
    let m = tx.wrap(7);
    assert_eq!(m.task_name, "ticker");
    assert_eq!(m.payload, 7);
    assert_eq!(tx.task_name(), "ticker");
    let copy = tx.clone_sender();
    assert_eq!(copy.task_name(), "ticker");
}

#[test]
fn bounded_capacity_full_then_closed() {
    let mut bus: MessageBus<usize> = MessageBus::new();
    let tx = bus.register("flood");
    let rx = bus.take_receiver().expect("first take");
    for i in 0..BUS_CAPACITY {
        assert!(tx.try_send(i).is_ok());
    }
    match tx.try_send(999) {
        Err(TrySendError::Full(v)) => assert_eq!(v, 999),
        _ => panic!("expected Full"),
    }
    drop(rx);
    match tx.try_send(1000) {
        Err(TrySendError::Closed(v)) => assert_eq!(v, 1000),
        _ => panic!("expected Closed"),
    }
}

#[test]
fn capacity_is_four_channel_sizes() {
    assert_eq!(BUS_CAPACITY, 128);
}

#[test]
fn receiver_taken_only_once() {
    let mut bus: MessageBus<u8> = MessageBus::new();
    assert!(bus.take_receiver().is_some());
    assert!(bus.take_receiver().is_none());
}

#[test]
fn registry_tracks_names() {
    let mut bus: MessageBus<u8> = MessageBus::new();
    assert_eq!(bus.task_count(), 0);
    let _a = bus.register("a");
    let _b = bus.register("b");
    let _a2 = bus.register("a");
    assert_eq!(bus.task_count(), 2);
    assert!(bus.has_task("a"));
    assert!(!bus.has_task("c"));
    assert!(bus.sender("b").is_some());
    assert_eq!(bus.sender("b").map(|s| s.task_name()), Some("b"));
    assert!(bus.sender("c").is_none());
}

#[test]
fn messages_from_two_senders_keep_their_names() {
    let mut bus: MessageBus<i32> = MessageBus::new();
    let one = bus.register("one");
    let two = bus.register("two");
    let mut rx = bus.take_receiver().expect("receiver");
    assert!(two.try_send(2).is_ok());
    assert!(one.try_send(1).is_ok());
    let first = rx.try_recv().expect("first");
    let second = rx.try_recv().expect("second");
    assert_eq!((first.task_name, first.payload), ("two", 2));
    assert_eq!((second.task_name, second.payload), ("one", 1));
}

#[test]
fn try_send_error_helpers() {
    let full: TrySendError<u8> = TrySendError::Full(3);
    assert!(full.is_full());
    assert_eq!(full.into_inner(), 3);
    let closed: TrySendError<u8> = TrySendError::Closed(4);
    assert!(!closed.is_full());
    assert_eq!(closed.into_inner(), 4);
}

#[test]
fn task_message_new_holds_fields() {
    let m = TaskMessage::new("src", vec![1u8, 2]);
    assert_eq!(m.task_name, "src");
    assert_eq!(m.payload, vec![1u8, 2]);
}
