//! The reusable channel variant: one long-lived channel is split, again and
//! again, into a fresh pair of single-use halves.
//!
//! Each `split` begins a new generation: it resets the core (needing
//! exclusive access to the channel, so no half of an earlier generation can
//! be mid-operation) and stamps the two halves it returns with the new
//! generation. Every operation of a half requires that its stamp still
//! matches the channel's, so halves left over from an earlier generation are
//! unusable — the ghost stamp plays the role of the handles' bounded scope.
//! No allocation is involved, and a new generation's state owes nothing to
//! the one before it.

use std::marker::PhantomData;

use vstd::prelude::*;

use crate::channel_core;
use crate::channel_core::ChannelCore;
use crate::error::ProtocolViolation;

verus! {

/// A long-lived one-shot channel, reusable one generation at a time.
pub struct Channel<T> {
    core: ChannelCore<T>,
    generation: Ghost<nat>,
}

/// The sending half of one generation, spent by `send`.
pub struct Sender<T> {
    generation: Ghost<nat>,
    _handle: PhantomData<T>,
}

/// The receiving half of one generation, spent by `receive`.
pub struct Receiver<T> {
    generation: Ghost<nat>,
    _handle: PhantomData<T>,
}

impl<T> Channel<T> {
    /// The stored value, if one has been published and not yet consumed in
    /// the current generation.
    pub closed spec fn slot(self) -> Option<T> {
        self.core.slot()
    }

    /// Whether a published value is currently awaiting its consumer.
    pub closed spec fn is_published(self) -> bool {
        self.core.is_published()
    }

    /// No value is currently published.
    pub open spec fn is_empty(self) -> bool {
        !self.is_published()
    }

    /// Well-formed: the core's ready flag gates its slot.
    pub closed spec fn wf(self) -> bool {
        self.core.wf()
    }

    /// The current generation: which pair of halves is entitled to operate.
    pub closed spec fn generation(self) -> nat {
        self.generation@
    }

    /// The channel state after `split`: a fresh empty generation, whatever
    /// went before.
    pub closed spec fn after_split(self) -> Channel<T> {
        Channel { core: channel_core::empty_core(), generation: Ghost(self.generation@ + 1) }
    }

    /// The channel state after the current generation's send of `message`.
    pub closed spec fn after_publish(self, message: T) -> Channel<T> {
        Channel { core: channel_core::published_core(message), generation: self.generation }
    }

    /// The channel state after the current generation's receive.
    pub closed spec fn after_receive(self) -> Channel<T> {
        Channel { core: channel_core::empty_core(), generation: self.generation }
    }

    /// What a receive in the current state reports.
    pub closed spec fn receive_outcome(self) -> Result<T, ProtocolViolation> {
        match self.slot() {
            Some(message) => Ok(message),
            None => Err(ProtocolViolation::NothingToReceive),
        }
    }

    /// A fresh channel, not yet split: no half is entitled to operate until
    /// the first `split`.
    pub fn new() -> (r: Self)
        ensures
            r.wf(),
            r.is_empty(),
    {
        Channel { core: ChannelCore::new(), generation: Ghost(0) }
    }

    /// Begins a new generation and hands out its two single-use halves.
    /// Exclusive access to the channel guarantees that no half of an earlier
    /// generation is mid-operation; the stamps keep any such leftover half
    /// from ever operating again. The new generation starts empty no matter
    /// what the previous one left behind; a published value that was never
    /// consumed is dropped here, exactly once.
    pub fn split(&mut self) -> (r: (Sender<T>, Receiver<T>))
        ensures
            *final(self) == old(self).after_split(),
            final(self).wf(),
            final(self).is_empty(),
            final(self).generation() != old(self).generation(),
            r.0.generation() == final(self).generation(),
            r.1.generation() == final(self).generation(),
    {
        self.core.reset();
        self.generation = Ghost(self.generation@ + 1);
        (
            Sender { generation: Ghost(self.generation@), _handle: PhantomData },
            Receiver { generation: Ghost(self.generation@), _handle: PhantomData },
        )
    }
}

impl<T> Sender<T> {
    /// The generation this half belongs to.
    pub closed spec fn generation(self) -> nat {
        self.generation@
    }

    /// Publishes `message` on the channel this half was split from,
    /// consuming the half: one send per generation, enforced at compile
    /// time, so a send never fails.
    pub fn send(self, channel: &mut Channel<T>, message: T)
        requires
            old(channel).wf(),
            old(channel).is_empty(),
            self.generation() == old(channel).generation(),
        ensures
            *final(channel) == old(channel).after_publish(message),
            final(channel).wf(),
            final(channel).is_published(),
            final(channel).slot() == Some(message),
            final(channel).generation() == old(channel).generation(),
    {
        channel.core.write_and_publish(message);
    }
}

impl<T> Receiver<T> {
    /// The generation this half belongs to.
    pub closed spec fn generation(self) -> nat {
        self.generation@
    }

    /// Reports whether a value is ready to be received. Callable any number
    /// of times before `receive` finally consumes the half.
    pub fn is_ready(&self, channel: &Channel<T>) -> (r: bool)
        requires
            self.generation() == channel.generation(),
        ensures
            r == channel.is_published(),
    {
        channel.core.poll_ready()
    }

    /// Takes the published value out, consuming the receiving half and
    /// leaving the channel empty for its next `split`. Fails with
    /// [`ProtocolViolation::NothingToReceive`], changing nothing, if the
    /// generation's sender was dropped without ever sending.
    pub fn receive(self, channel: &mut Channel<T>) -> (r: Result<T, ProtocolViolation>)
        requires
            old(channel).wf(),
            self.generation() == old(channel).generation(),
        ensures
            *final(channel) == old(channel).after_receive(),
            final(channel).wf(),
            final(channel).is_empty(),
            final(channel).generation() == old(channel).generation(),
            r == old(channel).receive_outcome(),
            old(channel).slot() matches Some(message) ==> r == Ok::<T, ProtocolViolation>(message),
            old(channel).is_empty() ==> r == Err::<T, ProtocolViolation>(
                ProtocolViolation::NothingToReceive,
            ) && *final(channel) == *old(channel),
    {
        match channel.core.consume() {
            Some(message) => Ok(message),
            None => Err(ProtocolViolation::NothingToReceive),
        }
    }
}

/// A split leaves no trace of the past: whatever two channels went through,
/// the generations they begin at their next splits are indistinguishable —
/// both empty, holding nothing.
pub proof fn lemma_split_no_state_leaks<T>(a: Channel<T>, b: Channel<T>)
    ensures
        a.after_split().slot() == b.after_split().slot(),
        a.after_split().is_empty() && b.after_split().is_empty(),
        a.after_split().receive_outcome() == b.after_split().receive_outcome(),
{
    channel_core::lemma_empty_core::<T>();
}

/// At most one receive succeeds per generation: whatever the state, once a
/// receive has run, a further receive in the same generation would report
/// the violation.
pub proof fn lemma_receive_at_most_once<T>(channel: Channel<T>)
    requires
        channel.wf(),
    ensures
        channel.after_receive().receive_outcome() == Err::<T, ProtocolViolation>(
            ProtocolViolation::NothingToReceive,
        ),
{
    channel_core::lemma_empty_core::<T>();
}

/// One full cycle on a channel with any history behaves as on an independent
/// fresh channel: after a split, the send publishes, the receive returns
/// exactly the sent value, and the channel is empty again, ready for the
/// next cycle.
pub proof fn lemma_reuse_cycle<T>(channel: Channel<T>, message: T)
    ensures
        channel.after_split().is_empty(),
        channel.after_split().after_publish(message).is_published(),
        channel.after_split().after_publish(message).receive_outcome() == Ok::<
            T,
            ProtocolViolation,
        >(message),
        channel.after_split().after_publish(message).after_receive().is_empty(),
        channel.after_split().after_publish(message).after_receive().receive_outcome() == Err::<
            T,
            ProtocolViolation,
        >(ProtocolViolation::NothingToReceive),
{
    channel_core::lemma_empty_core::<T>();
    channel_core::lemma_published_core(message);
}

} // verus!
