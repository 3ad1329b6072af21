//! The blocking channel variant: like the reusable one, but built for a
//! receiver that suspends instead of failing.
//!
//! The one datum taken from the environment is thread identity. The caller
//! of `split` names the thread that will receive; the sending half records
//! it, and `send` hands it back as the thread to wake. A receive attempt
//! that finds nothing published does not fail: it returns the receiving half
//! so that the caller can park the receiving thread and, once woken, attempt
//! again — the loop of park and retry is the caller's, since suspending a
//! thread is outside this library. There is no violation to report on this
//! path, only a liveness debt: a receiver whose sending half is dropped
//! without sending will wait forever.

use std::marker::PhantomData;

use vstd::prelude::*;

use crate::channel_core;
use crate::channel_core::ChannelCore;

verus! {

/// The identity of a thread, as the caller's environment numbers its
/// threads: opaque to the channel, recorded at `split` and handed back by
/// `send` as the thread to wake.
#[derive(Clone, Copy, Debug, PartialEq, Eq, Structural)]
pub struct ThreadId(pub u64);

/// A long-lived one-shot channel for a blocking receiver, reusable one
/// generation at a time.
pub struct Channel<T> {
    core: ChannelCore<T>,
    generation: Ghost<nat>,
}

/// The sending half of one generation: records the thread to wake, and is
/// spent by `send`.
pub struct Sender<T> {
    generation: Ghost<nat>,
    receiving_thread: ThreadId,
    _handle: PhantomData<T>,
}

/// The receiving half of one generation, spent by a successful receive
/// attempt and handed back by an unsuccessful one.
pub struct Receiver<T> {
    generation: Ghost<nat>,
    _handle: PhantomData<T>,
}

/// The outcome of one receive attempt: either the published value, or the
/// receiving half handed back so that the caller can park its thread and
/// attempt again once woken.
pub enum Attempt<T> {
    /// A value was published: here it is, and the generation is over.
    Received(T),
    /// Nothing is published yet: park, then retry with the returned half.
    Pending(Receiver<T>),
}

impl<T> Channel<T> {
    /// The stored value, if one has been published and not yet consumed in
    /// the current generation.
    pub closed spec fn slot(self) -> Option<T> {
        self.core.slot()
    }

    /// Whether a published value is currently awaiting its consumer.
    pub closed spec fn is_published(self) -> bool {
        self.core.is_published()
    }

    /// No value is currently published.
    pub open spec fn is_empty(self) -> bool {
        !self.is_published()
    }

    /// Well-formed: the core's ready flag gates its slot.
    pub closed spec fn wf(self) -> bool {
        self.core.wf()
    }

    /// The current generation: which pair of halves is entitled to operate.
    pub closed spec fn generation(self) -> nat {
        self.generation@
    }

    /// The channel state after `split`: a fresh empty generation, whatever
    /// went before.
    pub closed spec fn after_split(self) -> Channel<T> {
        Channel { core: channel_core::empty_core(), generation: Ghost(self.generation@ + 1) }
    }

    /// The channel state after the current generation's send of `message`.
    pub closed spec fn after_publish(self, message: T) -> Channel<T> {
        Channel { core: channel_core::published_core(message), generation: self.generation }
    }

    /// The channel state after a receive attempt: emptied if a value was
    /// taken, untouched otherwise — and an attempt on an empty channel
    /// touches nothing, so the two cases coincide.
    pub closed spec fn after_receive(self) -> Channel<T> {
        Channel { core: channel_core::empty_core(), generation: self.generation }
    }

    /// What a receive attempt in the current state yields: the value, or
    /// nothing — upon which the receiving thread parks.
    pub closed spec fn receive_outcome(self) -> Option<T> {
        self.slot()
    }

    /// A fresh channel, not yet split: no half is entitled to operate until
    /// the first `split`.
    pub fn new() -> (r: Self)
        ensures
            r.wf(),
            r.is_empty(),
    {
        Channel { core: ChannelCore::new(), generation: Ghost(0) }
    }

    /// Begins a new generation and hands out its two single-use halves,
    /// recording `receiving_thread` — the thread that will call receive — in
    /// the sending half as the thread its send must wake. Exclusive access
    /// guarantees no half of an earlier generation is mid-operation, and the
    /// stamps keep leftover halves from operating; the new generation starts
    /// empty no matter what the previous one left behind.
    pub fn split(&mut self, receiving_thread: ThreadId) -> (r: (Sender<T>, Receiver<T>))
        ensures
            *final(self) == old(self).after_split(),
            final(self).wf(),
            final(self).is_empty(),
            final(self).generation() != old(self).generation(),
            r.0.generation() == final(self).generation(),
            r.1.generation() == final(self).generation(),
            r.0.receiving_thread() == receiving_thread,
    {
        self.core.reset();
        self.generation = Ghost(self.generation@ + 1);
        (
            Sender {
                generation: Ghost(self.generation@),
                receiving_thread,
                _handle: PhantomData,
            },
            Receiver { generation: Ghost(self.generation@), _handle: PhantomData },
        )
    }
}

impl<T> Sender<T> {
    /// The generation this half belongs to.
    pub closed spec fn generation(self) -> nat {
        self.generation@
    }

    /// The thread recorded at `split` as the one to wake after sending.
    pub closed spec fn receiving_thread(self) -> ThreadId {
        self.receiving_thread
    }

    /// Publishes `message`, consuming the sending half, and returns the
    /// recorded receiving thread: the caller must wake that thread, since it
    /// may already be parked waiting for this value.
    pub fn send(self, channel: &mut Channel<T>, message: T) -> (wake: ThreadId)
        requires
            old(channel).wf(),
            old(channel).is_empty(),
            self.generation() == old(channel).generation(),
        ensures
            *final(channel) == old(channel).after_publish(message),
            final(channel).wf(),
            final(channel).is_published(),
            final(channel).slot() == Some(message),
            final(channel).generation() == old(channel).generation(),
            wake == self.receiving_thread(),
    {
        channel.core.write_and_publish(message);
        self.receiving_thread
    }
}

impl<T> Receiver<T> {
    /// The generation this half belongs to.
    pub closed spec fn generation(self) -> nat {
        self.generation@
    }

    /// Reports whether a value is ready to be received.
    pub fn is_ready(&self, channel: &Channel<T>) -> (r: bool)
        requires
            self.generation() == channel.generation(),
        ensures
            r == channel.is_published(),
    {
        channel.core.poll_ready()
    }

    /// One receive attempt. If a value is published it is returned and the
    /// receiving half is spent; otherwise the channel is left untouched and
    /// the half comes back in [`Attempt::Pending`], the sign for the caller
    /// to park the receiving thread and attempt again once woken. There is
    /// no failure: a receiver whose sending half never sends waits forever.
    pub fn receive(self, channel: &mut Channel<T>) -> (r: Attempt<T>)
        requires
            old(channel).wf(),
            self.generation() == old(channel).generation(),
        ensures
            final(channel).wf(),
            final(channel).is_empty(),
            final(channel).generation() == old(channel).generation(),
            old(channel).slot() matches Some(message) ==> r == Attempt::Received(message)
                && *final(channel) == old(channel).after_receive(),
            old(channel).is_empty() ==> *final(channel) == *old(channel) && (r matches
                Attempt::Pending(receiver) && receiver.generation() == self.generation()),
    {
        match channel.core.consume() {
            Some(message) => Attempt::Received(message),
            None => Attempt::Pending(self),
        }
    }
}

/// A receive attempt made before the send finds nothing — the receiver can
/// only park — and changes nothing, so the send still lands afterwards and
/// the woken receiver's retry returns exactly the sent value. An attempt
/// made after the send returns the value at once, with no parking.
pub proof fn lemma_receive_waits_for_send<T>(channel: Channel<T>, message: T)
    requires
        channel.wf(),
        channel.is_empty(),
    ensures
        channel.receive_outcome() is None,
        channel.after_publish(message).is_published(),
        channel.after_publish(message).receive_outcome() == Some(message),
        channel.after_publish(message).after_receive().is_empty(),
{
    channel_core::lemma_published_core(message);
    channel_core::lemma_empty_core::<T>();
}

/// At most one attempt per generation receives a value: after one has, every
/// further attempt finds nothing and the receiving thread blocks until the
/// next generation.
pub proof fn lemma_receive_at_most_once<T>(channel: Channel<T>)
    requires
        channel.wf(),
    ensures
        channel.after_receive().receive_outcome() is None,
        channel.after_receive().is_empty(),
{
    channel_core::lemma_empty_core::<T>();
}

/// A split leaves no trace of the past: whatever two channels went through,
/// the generations they begin at their next splits are indistinguishable.
pub proof fn lemma_split_no_state_leaks<T>(a: Channel<T>, b: Channel<T>)
    ensures
        a.after_split().slot() == b.after_split().slot(),
        a.after_split().is_empty() && b.after_split().is_empty(),
        a.after_split().receive_outcome() == b.after_split().receive_outcome(),
{
    channel_core::lemma_empty_core::<T>();
}

} // verus!
