use oneshot::blocking::Attempt;
use oneshot::blocking::Channel;
use oneshot::blocking::ThreadId;

#[test]
fn blocking_hello_world_scenario() {
    let mut channel = Channel::new();
    let (sender, receiver) = channel.split(ThreadId(1));
    let wake = sender.send(&mut channel, "hello world!");
    assert_eq!(wake, ThreadId(1));
    match receiver.receive(&mut channel) {
        Attempt::Received(message) => assert_eq!(message, "hello world!"),
        Attempt::Pending(_) => panic!("a published value must be received at once"),
    }
}

#[test]
fn blocking_receive_before_send_parks_then_gets_the_value() {
    let mut channel = Channel::new();
    let (sender, receiver) = channel.split(ThreadId(7));
    // the attempt before the send finds nothing: the receiving thread would park here
    let receiver = match receiver.receive(&mut channel) {
        Attempt::Pending(receiver) => receiver,
        Attempt::Received(_) => panic!("nothing was sent yet"),
    };
    let wake = sender.send(&mut channel, 99u64);
    assert_eq!(wake, ThreadId(7));
    // woken, the retry returns the value promptly
    match receiver.receive(&mut channel) {
        Attempt::Received(message) => assert_eq!(message, 99),
        Attempt::Pending(_) => panic!("the value was published before the retry"),
    }
}

#[test]
fn blocking_send_records_the_thread_named_at_split() {
    let mut channel = Channel::new();
    let (sender, receiver) = channel.split(ThreadId(31));
    assert!(!receiver.is_ready(&channel));
    let wake = sender.send(&mut channel, 5u8);
    assert_eq!(wake, ThreadId(31));
    assert!(receiver.is_ready(&channel));
    match receiver.receive(&mut channel) {
        Attempt::Received(message) => assert_eq!(message, 5),
        Attempt::Pending(_) => panic!("a published value must be received at once"),
    }
}

#[test]
fn blocking_reuse_cycles_are_independent() {
    let mut channel = Channel::new();
    for k in 0u64..3 {
        let (sender, receiver) = channel.split(ThreadId(k));
        assert!(!receiver.is_ready(&channel));
        let wake = sender.send(&mut channel, k + 100);
        assert_eq!(wake, ThreadId(k));
        match receiver.receive(&mut channel) {
            Attempt::Received(message) => assert_eq!(message, k + 100),
            Attempt::Pending(_) => panic!("a published value must be received at once"),
        }
    }
}
