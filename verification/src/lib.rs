//! Supervision of the background task that drives a session.
//!
//! A session's protocol steps only make progress while its driver runs. This
//! library holds the receiving end of the driver's report, decides how a step in
//! progress ends when the driver ends first, and turns the report into the final
//! result once the protocol is over.
//!
//! * [`error`]: the error type of the SDK.
//! * [`channel`]: the one-shot channel that carries the report, and the claims
//!   about it that the proofs rest on.
//! * [`driver`]: [`driver::DriverTask`] and the decisions around it.
//! * [`laws`]: what holds across several polls.
//! * [`operations`]: what each operation does, from its arguments to its result, and
//!   what a chain of them does from end to end.

pub mod channel;
pub mod driver;
pub mod error;
pub mod laws;
pub mod operations;
