//! The single-use channel variant: `send` and `receive` each consume their
//! handle, so a second send or a second receive is a compile-time error and
//! no guard flag is needed.
//!
//! The receiver owns the channel core; the sender is a pure capability. A
//! send writes through an exclusive borrow of the receiving half, which
//! stands for the producer's momentary exclusive access to the shared slot.
//! The one runtime condition left is a receive while nothing was ever
//! published — the sender was dropped unused — reported as a
//! [`ProtocolViolation`].

use std::marker::PhantomData;

use vstd::prelude::*;

use crate::channel_core;
use crate::channel_core::ChannelCore;
use crate::error::ProtocolViolation;

verus! {

/// The sending half: the capability to publish one value, spent by `send`.
pub struct Sender<T> {
    _handle: PhantomData<T>,
}

/// The receiving half: owns the channel core and is spent by `receive`.
pub struct Receiver<T> {
    core: ChannelCore<T>,
}

/// A fresh channel, as a pair of single-use halves.
pub fn channel<T>() -> (r: (Sender<T>, Receiver<T>))
    ensures
        r.1.wf(),
        r.1.is_empty(),
{
    (Sender { _handle: PhantomData }, Receiver { core: ChannelCore::new() })
}

impl<T> Receiver<T> {
    /// The stored value, if one has been published and not yet consumed.
    pub closed spec fn slot(self) -> Option<T> {
        self.core.slot()
    }

    /// Whether a published value is currently awaiting this receiver.
    pub closed spec fn is_published(self) -> bool {
        self.core.is_published()
    }

    /// No value is currently published.
    pub open spec fn is_empty(self) -> bool {
        !self.is_published()
    }

    /// Well-formed: the core's ready flag gates its slot.
    pub closed spec fn wf(self) -> bool {
        self.core.wf()
    }

    /// The receiving half after its paired sender published `message`.
    pub closed spec fn after_publish(self, message: T) -> Receiver<T> {
        Receiver { core: channel_core::published_core(message) }
    }

    /// What `receive` reports: the published value if there is one, the
    /// violation otherwise.
    pub closed spec fn receive_outcome(self) -> Result<T, ProtocolViolation> {
        match self.slot() {
            Some(message) => Ok(message),
            None => Err(ProtocolViolation::NothingToReceive),
        }
    }

    /// Reports whether a value is ready to be received. Callable any number
    /// of times before `receive` finally consumes the half.
    pub fn is_ready(&self) -> (r: bool)
        ensures
            r == self.is_published(),
    {
        self.core.poll_ready()
    }

    /// Takes the published value out, consuming the receiving half: no
    /// second receive can be written. Fails with
    /// [`ProtocolViolation::NothingToReceive`] if the paired sender was
    /// dropped without ever sending.
    pub fn receive(self) -> (r: Result<T, ProtocolViolation>)
        requires
            self.wf(),
        ensures
            r == self.receive_outcome(),
            self.slot() matches Some(message) ==> r == Ok::<T, ProtocolViolation>(message),
            self.is_empty() ==> r == Err::<T, ProtocolViolation>(
                ProtocolViolation::NothingToReceive,
            ),
    {
        let mut this = self;
        match this.core.consume() {
            Some(message) => Ok(message),
            None => Err(ProtocolViolation::NothingToReceive),
        }
    }
}

impl<T> Sender<T> {
    /// Publishes `message` to the paired receiving half, consuming the
    /// sending half: no second send can be written, so no guard flag is
    /// needed and a send never fails.
    pub fn send(self, receiver: &mut Receiver<T>, message: T)
        requires
            old(receiver).wf(),
            old(receiver).is_empty(),
        ensures
            *final(receiver) == old(receiver).after_publish(message),
            final(receiver).wf(),
            final(receiver).is_published(),
            final(receiver).slot() == Some(message),
    {
        receiver.core.write_and_publish(message);
    }
}

/// Once a value is sent, the receiving half reports ready and receiving
/// returns exactly the sent value.
pub proof fn lemma_send_then_receive<T>(receiver: Receiver<T>, message: T)
    requires
        receiver.wf(),
        receiver.is_empty(),
    ensures
        receiver.after_publish(message).is_published(),
        receiver.after_publish(message).receive_outcome() == Ok::<T, ProtocolViolation>(message),
{
    channel_core::lemma_published_core(message);
}

/// A receive while nothing was ever published reports the violation.
pub proof fn lemma_receive_without_send_fails<T>(receiver: Receiver<T>)
    requires
        receiver.wf(),
        receiver.is_empty(),
    ensures
        receiver.receive_outcome() == Err::<T, ProtocolViolation>(
            ProtocolViolation::NothingToReceive,
        ),
{
}

} // verus!
