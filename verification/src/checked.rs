//! The runtime-checked channel variant: one channel value serves both sides,
//! and misuse is reported as a [`ProtocolViolation`] instead of being ruled
//! out by the type system.
//!
//! A guard flag, separate from the core's ready flag, enforces that `send`
//! is accepted at most once per channel; `receive` is accepted only while a
//! value is published. Both checks are fatal contract violations for the
//! caller, not retryable conditions.

use vstd::prelude::*;

use crate::channel_core;
use crate::channel_core::ChannelCore;
use crate::error::ProtocolViolation;

verus! {

/// A one-shot channel whose at-most-once rules are checked at runtime.
pub struct Channel<T> {
    core: ChannelCore<T>,
    in_use: bool,
}

impl<T> Channel<T> {
    /// The stored value, if one has been published and not yet consumed.
    pub closed spec fn slot(self) -> Option<T> {
        self.core.slot()
    }

    /// Whether a published value is currently awaiting its consumer.
    pub closed spec fn is_published(self) -> bool {
        self.core.is_published()
    }

    /// No value is currently published.
    pub open spec fn is_empty(self) -> bool {
        !self.is_published()
    }

    /// Whether the one permitted `send` has already been spent.
    pub closed spec fn send_called(self) -> bool {
        self.in_use
    }

    /// Well-formed: the core is well-formed, and a value can only have been
    /// published through the one permitted send.
    pub closed spec fn wf(self) -> bool {
        &&& self.core.wf()
        &&& self.core.is_published() ==> self.in_use
    }

    /// The channel state after `send(message)`: unchanged if the send is
    /// rejected, otherwise published with the guard flag spent.
    pub closed spec fn after_send(self, message: T) -> Channel<T> {
        if self.send_called() {
            self
        } else {
            Channel { core: channel_core::published_core(message), in_use: true }
        }
    }

    /// What `send` reports: rejected once the guard flag is spent.
    pub closed spec fn send_outcome(self) -> Result<(), ProtocolViolation> {
        if self.send_called() {
            Err(ProtocolViolation::DoubleSend)
        } else {
            Ok(())
        }
    }

    /// The channel state after `receive`: the slot vacated, the guard flag
    /// untouched.
    pub closed spec fn after_receive(self) -> Channel<T> {
        Channel { core: channel_core::empty_core(), in_use: self.in_use }
    }

    /// What `receive` reports: the published value if there is one, the
    /// violation otherwise.
    pub closed spec fn receive_outcome(self) -> Result<T, ProtocolViolation> {
        match self.slot() {
            Some(message) => Ok(message),
            None => Err(ProtocolViolation::NothingToReceive),
        }
    }

    /// A fresh channel: nothing published, the one permitted send unspent.
    pub fn new() -> (r: Self)
        ensures
            r.wf(),
            r.is_empty(),
            !r.send_called(),
    {
        Channel { core: ChannelCore::new(), in_use: false }
    }

    /// Publishes `message`, unless `send` was already called on this
    /// channel: the guard flag makes the second and every later send fail
    /// with [`ProtocolViolation::DoubleSend`], leaving the channel unchanged.
    pub fn send(&mut self, message: T) -> (r: Result<(), ProtocolViolation>)
        requires
            old(self).wf(),
        ensures
            final(self).wf(),
            *final(self) == old(self).after_send(message),
            r == old(self).send_outcome(),
            old(self).send_called() ==> r == Err::<(), ProtocolViolation>(
                ProtocolViolation::DoubleSend,
            ) && *final(self) == *old(self),
            !old(self).send_called() ==> r == Ok::<(), ProtocolViolation>(())
                && final(self).is_published() && final(self).slot() == Some(message)
                && final(self).send_called(),
    {
        if self.in_use {
            Err(ProtocolViolation::DoubleSend)
        } else {
            self.in_use = true;
            self.core.write_and_publish(message);
            Ok(())
        }
    }

    /// Reports whether a value is ready to be received. Advisory: a `true`
    /// answer means `receive` will succeed, a `false` answer that it would
    /// fail right now.
    pub fn is_ready(&self) -> (r: bool)
        ensures
            r == self.is_published(),
    {
        self.core.poll_ready()
    }

    /// Takes the published value out, leaving the channel empty. Fails with
    /// [`ProtocolViolation::NothingToReceive`], leaving the channel
    /// unchanged, if no value is available: none was ever sent, or the one
    /// that was sent has already been received.
    pub fn receive(&mut self) -> (r: Result<T, ProtocolViolation>)
        requires
            old(self).wf(),
        ensures
            final(self).wf(),
            *final(self) == old(self).after_receive(),
            final(self).is_empty(),
            r == old(self).receive_outcome(),
            old(self).slot() matches Some(message) ==> r == Ok::<T, ProtocolViolation>(message),
            old(self).is_empty() ==> r == Err::<T, ProtocolViolation>(
                ProtocolViolation::NothingToReceive,
            ) && *final(self) == *old(self),
    {
        match self.core.consume() {
            Some(message) => Ok(message),
            None => Err(ProtocolViolation::NothingToReceive),
        }
    }
}

/// Once a value is sent, the channel reports ready, a receive returns
/// exactly the sent value, and the channel is empty afterwards.
pub proof fn lemma_send_then_receive<T>(channel: Channel<T>, message: T)
    requires
        channel.wf(),
        !channel.send_called(),
    ensures
        channel.after_send(message).is_published(),
        channel.after_send(message).receive_outcome() == Ok::<T, ProtocolViolation>(message),
        channel.after_send(message).after_receive().is_empty(),
{
    channel_core::lemma_published_core(message);
    channel_core::lemma_empty_core::<T>();
}

/// At most one receive succeeds per generation: whatever the state, once a
/// receive has run the next receive reports the violation.
pub proof fn lemma_receive_at_most_once<T>(channel: Channel<T>)
    requires
        channel.wf(),
    ensures
        channel.after_receive().receive_outcome() == Err::<T, ProtocolViolation>(
            ProtocolViolation::NothingToReceive,
        ),
{
    channel_core::lemma_empty_core::<T>();
}

/// A second send fails with the violation and changes nothing: the state
/// after the rejected send is exactly the state after the first.
pub proof fn lemma_no_double_send<T>(channel: Channel<T>, first: T, second: T)
    requires
        channel.wf(),
        !channel.send_called(),
    ensures
        channel.after_send(first).send_outcome() == Err::<(), ProtocolViolation>(
            ProtocolViolation::DoubleSend,
        ),
        channel.after_send(first).after_send(second) == channel.after_send(first),
{
}

/// A polling consumer is safe in either order: every receive attempt made
/// before the send fails and leaves the channel unchanged, and the first
/// attempt after the send returns exactly the sent value.
pub proof fn lemma_poll_until_ready<T>(channel: Channel<T>, message: T)
    requires
        channel.wf(),
        channel.is_empty(),
        !channel.send_called(),
    ensures
        channel.receive_outcome() == Err::<T, ProtocolViolation>(
            ProtocolViolation::NothingToReceive,
        ),
        channel.after_receive() == channel,
        channel.after_send(message).receive_outcome() == Ok::<T, ProtocolViolation>(message),
{
    channel_core::lemma_empty_core_unique(channel.core);
    channel_core::lemma_published_core(message);
}

} // verus!
