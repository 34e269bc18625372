//! A single-writer logging core.
//!
//! Producers hand messages to a [`queue::MessageQueue`]; one
//! [`worker::Worker`] drains it in order and decides, for each message, what
//! goes to standard output, to the primary log file and to the debug file.
//! The background thread that is joined exactly once at teardown is guarded
//! by a [`lifecycle::JoinOnce`].
pub mod lifecycle;
pub mod message;
pub mod queue;
pub mod worker;
