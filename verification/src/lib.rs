//! Continuous payment streams: a sender locks a balance that unlocks to a
//! recipient at a fixed rate per second, and both parties settle against the
//! amount accrued so far.
//!
//! The [`ledger::Ledger`] keeps the streams and the [`template::Registry`] the
//! templates from which streams can be made. Neither reads a clock nor asks
//! who is calling: every request carries the caller's identity and the
//! current time, in seconds, as plain arguments.

pub mod error;
pub mod greeting;
pub mod identity;
pub mod laws;
pub mod ledger;
pub mod stream;
pub mod template;

pub use error::{error_text, Operation, StreamError};
pub use greeting::greet;
pub use identity::Identity;
pub use ledger::Ledger;
pub use stream::{CancelResult, Role, Stream, StreamStatus, FEE_DIVISOR, RECLAIM_TIMEOUT_SECS};
pub use template::{Registry, StreamTemplate};
