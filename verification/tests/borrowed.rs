use oneshot::borrowed::Channel;
use oneshot::error::ProtocolViolation;

#[test]
fn borrowed_hello_world_scenario() {
    let mut channel = Channel::new();
    let (sender, receiver) = channel.split();
    sender.send(&mut channel, "hello world!");
    while !receiver.is_ready(&channel) {}
    assert_eq!(receiver.receive(&mut channel), Ok("hello world!"));
}

#[test]
fn borrowed_reuse_cycles_are_independent() {
    let mut channel = Channel::new();
    for k in 0u32..3 {
        let (sender, receiver) = channel.split();
        assert!(!receiver.is_ready(&channel));
        sender.send(&mut channel, k * 10);
        assert_eq!(receiver.receive(&mut channel), Ok(k * 10));
    }
}

#[test]
fn borrowed_receive_without_send_is_a_violation() {
    let mut channel = Channel::<u32>::new();
    let (sender, receiver) = channel.split();
    assert_eq!(receiver.receive(&mut channel), Err(ProtocolViolation::NothingToReceive));
    // the failed receive changed nothing: the send of this generation still lands
    sender.send(&mut channel, 7);
    // the sent value was never received; the next generation starts empty all the same
    let (sender2, receiver2) = channel.split();
    assert!(!receiver2.is_ready(&channel));
    sender2.send(&mut channel, 8);
    assert_eq!(receiver2.receive(&mut channel), Ok(8));
}
