//! A one-shot channel: a single-value, single-use handoff from one producer
//! to one consumer, modeled as an explicit storage slot gated by a ready
//! flag, in four variants of increasing static safety.
//!
//! - [`checked`]: one shared channel value; misuse (a second send, a receive
//!   with nothing available) is reported at runtime as a
//!   [`error::ProtocolViolation`].
//! - [`typed`]: single-use sender and receiver handles; a second send or a
//!   second receive is impossible because the handles are consumed.
//! - [`borrowed`]: a long-lived channel that can be split into a fresh pair
//!   of single-use handles again and again, one generation at a time.
//! - [`blocking`]: like [`borrowed`], but the sender records which thread to
//!   wake and a receive attempt that finds nothing asks its caller to park
//!   instead of failing.

pub mod blocking;
pub mod borrowed;
pub mod channel_core;
pub mod checked;
pub mod error;
pub mod typed;
