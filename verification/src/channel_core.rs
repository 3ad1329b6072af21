//! The channel core shared by every variant: a storage slot holding at most
//! one value, gated by a ready flag.
//!
//! The flag is `false` while no value is published and `true` exactly while a
//! published value awaits its consumer. A value enters the slot strictly
//! before the flag is raised (`write_and_publish`), and leaves it atomically
//! with the flag being lowered (`consume`), so the flag alone decides whether
//! the slot may be read. One lifetime of the core between construction or
//! `reset` and the next `reset` is a generation: the slot is written at most
//! once and read at most once per generation.

use vstd::prelude::*;

verus! {

/// A storage slot paired with the ready flag that gates it.
pub struct ChannelCore<T> {
    message: Option<T>,
    ready: bool,
}

/// The core state at the start of a generation: flag lowered, slot vacant.
pub closed spec fn empty_core<T>() -> ChannelCore<T> {
    ChannelCore { message: None, ready: false }
}

/// The core state after `message` has been published and not yet consumed.
pub closed spec fn published_core<T>(message: T) -> ChannelCore<T> {
    ChannelCore { message: Some(message), ready: true }
}

/// An empty core holds no value and reports itself unpublished.
pub proof fn lemma_empty_core<T>()
    ensures
        empty_core::<T>().wf(),
        empty_core::<T>().is_empty(),
        empty_core::<T>().slot() is None,
{
}

/// A published core holds exactly the published value.
pub proof fn lemma_published_core<T>(message: T)
    ensures
        published_core(message).wf(),
        published_core(message).is_published(),
        published_core(message).slot() == Some(message),
{
}

/// There is only one well-formed empty core state: emptiness carries no
/// memory of earlier generations.
pub proof fn lemma_empty_core_unique<T>(core: ChannelCore<T>)
    requires
        core.wf(),
        core.is_empty(),
    ensures
        core == empty_core::<T>(),
{
}

impl<T> ChannelCore<T> {
    /// The stored value, if one has been published and not yet consumed.
    pub closed spec fn slot(self) -> Option<T> {
        self.message
    }

    /// The ready flag: `true` exactly while a published value awaits its
    /// consumer.
    pub closed spec fn is_published(self) -> bool {
        self.ready
    }

    /// No value is currently published: either none was ever sent this
    /// generation, or the one that was sent has been consumed.
    pub open spec fn is_empty(self) -> bool {
        !self.is_published()
    }

    /// Well-formed: the ready flag gates the slot, so a value is stored if
    /// and only if it has been published.
    pub open spec fn wf(self) -> bool {
        self.is_published() <==> self.slot() is Some
    }

    /// A fresh core, beginning its first generation empty.
    pub fn new() -> (r: Self)
        ensures
            r == empty_core::<T>(),
            r.wf(),
            r.is_empty(),
    {
        ChannelCore { message: None, ready: false }
    }

    /// Stores `message` in the slot, then raises the ready flag, publishing
    /// the value to the consumer. The slot must be vacant: each generation
    /// carries at most one value.
    pub fn write_and_publish(&mut self, message: T)
        requires
            old(self).wf(),
            old(self).is_empty(),
        ensures
            *final(self) == published_core(message),
            final(self).wf(),
            final(self).is_published(),
            final(self).slot() == Some(message),
    {
        self.message = Some(message);
        self.ready = true;
    }

    /// Reads the ready flag. Advisory only: a `true` result permits a
    /// `consume` attempt, which re-checks the flag itself.
    pub fn poll_ready(&self) -> (r: bool)
        ensures
            r == self.is_published(),
    {
        self.ready
    }

    /// Lowers the ready flag and takes the stored value out, if one was
    /// published; reports nothing otherwise. After a successful consume the
    /// slot is vacant again: ownership of the value has moved to the caller,
    /// and the core will never touch it again.
    pub fn consume(&mut self) -> (r: Option<T>)
        requires
            old(self).wf(),
        ensures
            *final(self) == empty_core::<T>(),
            final(self).wf(),
            final(self).is_empty(),
            r == old(self).slot(),
            old(self).is_empty() ==> *final(self) == *old(self) && r is None,
    {
        if self.ready {
            self.ready = false;
            self.message.take()
        } else {
            None
        }
    }

    /// Begins a new generation: lowers the flag and vacates the slot. Needs
    /// exclusive access, so no handle of the prior generation can still be
    /// in use. A published value that was never consumed is dropped here,
    /// exactly once, when the slot is overwritten.
    pub fn reset(&mut self)
        ensures
            *final(self) == empty_core::<T>(),
            final(self).wf(),
            final(self).is_empty(),
    {
        self.ready = false;
        self.message = None;
    }
}

} // verus!
