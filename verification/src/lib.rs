//! Client-side messaging for a capability-addressed microkernel.
//!
//! The crate holds the decisions of the messaging layer and leaves the system
//! calls to its caller: every function here turns plain values into the
//! message to send, or a received reply into the value the caller asked for.

pub mod com;
pub mod graphics;
pub mod status;
pub mod text;
pub mod wire;
