use oneshot::checked::Channel;
use oneshot::error::ProtocolViolation;

#[test]
fn checked_hello_world_scenario() {
    let mut channel = Channel::new();
    assert_eq!(channel.send("hello world!"), Ok(()));
    while !channel.is_ready() {}
    assert_eq!(channel.receive(), Ok("hello world!"));
}

#[test]
fn checked_double_send_is_a_violation() {
    let mut channel = Channel::new();
    assert_eq!(channel.send(1u32), Ok(()));
    assert_eq!(channel.send(2u32), Err(ProtocolViolation::DoubleSend));
    // the rejected send changed nothing: the first value is still there
    assert!(channel.is_ready());
    assert_eq!(channel.receive(), Ok(1));
}

#[test]
fn checked_receive_without_send_is_a_violation() {
    let mut channel = Channel::<u32>::new();
    assert!(!channel.is_ready());
    assert_eq!(channel.receive(), Err(ProtocolViolation::NothingToReceive));
}

#[test]
fn checked_receive_succeeds_at_most_once() {
    let mut channel = Channel::new();
    assert_eq!(channel.send(42u64), Ok(()));
    assert_eq!(channel.receive(), Ok(42));
    assert!(!channel.is_ready());
    assert_eq!(channel.receive(), Err(ProtocolViolation::NothingToReceive));
    // the guard flag stays spent: even after the receive, no second send
    assert_eq!(channel.send(43u64), Err(ProtocolViolation::DoubleSend));
}
