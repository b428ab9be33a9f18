//! A bridge between a local request layer and a single peer process that speaks
//! length-prefixed JSON over a byte stream: commands are tagged with an
//! identity, queued in submission order, framed and written by one writer;
//! replies are framed, read back and routed to the waiter registered for
//! their identity.
pub mod frame;
pub mod correlator;
pub mod queue;
pub mod envelope;
pub mod json;
pub mod bridge;
pub mod install;
