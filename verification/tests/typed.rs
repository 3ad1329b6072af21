use oneshot::error::ProtocolViolation;
use oneshot::typed::channel;

#[test]
fn typed_hello_world_scenario() {
    let (sender, mut receiver) = channel();
    sender.send(&mut receiver, "hello world!");
    while !receiver.is_ready() {}
    assert_eq!(receiver.receive(), Ok("hello world!"));
}

#[test]
fn typed_is_ready_can_be_asked_repeatedly() {
    let (sender, mut receiver) = channel();
    assert!(!receiver.is_ready());
    assert!(!receiver.is_ready());
    sender.send(&mut receiver, 5u8);
    assert!(receiver.is_ready());
    assert!(receiver.is_ready());
    assert_eq!(receiver.receive(), Ok(5));
}

#[test]
fn typed_sender_dropped_without_sending_is_a_violation() {
    let (sender, receiver) = channel::<String>();
    drop(sender);
    assert!(!receiver.is_ready());
    assert_eq!(receiver.receive(), Err(ProtocolViolation::NothingToReceive));
}
