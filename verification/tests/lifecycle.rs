use std::cell::Cell;
use std::rc::Rc;

use oneshot::borrowed::Channel as ReusableChannel;
use oneshot::checked::Channel;

struct DropCounter {
    drops: Rc<Cell<u32>>,
}

impl Drop for DropCounter {
    fn drop(&mut self) {
        self.drops.set(self.drops.get() + 1);
    }
}

#[test]
fn unreceived_value_is_dropped_exactly_once_at_teardown() {
    let drops = Rc::new(Cell::new(0));
    let mut channel = Channel::new();
    let sent = channel.send(DropCounter { drops: Rc::clone(&drops) });
    assert!(sent.is_ok());
    assert_eq!(drops.get(), 0);
    drop(channel);
    assert_eq!(drops.get(), 1);
}

#[test]
fn received_value_is_not_dropped_again_by_the_channel() {
    let drops = Rc::new(Cell::new(0));
    let mut channel = Channel::new();
    let sent = channel.send(DropCounter { drops: Rc::clone(&drops) });
    assert!(sent.is_ok());
    let received = channel.receive();
    assert!(received.is_ok());
    // ownership moved out at the receive: tearing the channel down drops nothing
    drop(channel);
    assert_eq!(drops.get(), 0);
    drop(received);
    assert_eq!(drops.get(), 1);
}

#[test]
fn split_drops_the_previous_generations_unread_value_exactly_once() {
    let drops = Rc::new(Cell::new(0));
    let mut channel = ReusableChannel::new();
    let (sender, _receiver) = channel.split();
    sender.send(&mut channel, DropCounter { drops: Rc::clone(&drops) });
    assert_eq!(drops.get(), 0);
    // the unread value of the old generation is destructed by the reset, once
    let (_sender2, receiver2) = channel.split();
    assert_eq!(drops.get(), 1);
    assert!(!receiver2.is_ready(&channel));
    drop(channel);
    assert_eq!(drops.get(), 1);
}
