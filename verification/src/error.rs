//! The one error category a channel can report: a caller broke the
//! at-most-once protocol.

use vstd::prelude::*;

verus! {

/// A violation of the channel protocol by the caller. These are contract
/// violations, not recoverable runtime conditions: once one is reported, the
/// at-most-once invariant of the generation has already been broken.
#[derive(Clone, Copy, Debug, PartialEq, Eq, Structural)]
pub enum ProtocolViolation {
    /// `send` was called a second time on the same generation.
    DoubleSend,
    /// `receive` was called while no value had been published.
    NothingToReceive,
}

} // verus!
