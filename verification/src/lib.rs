//! Verified process-bootstrap components for a logging-centric command-line
//! scaffold: per-user log-directory resolution, a rotating log sink with a
//! bounded retention policy, a non-blocking bounded record queue, a reloadable
//! log filter with a safe fallback, a panic-to-abort hook chain, and the
//! sequencer that wires them together in a fixed order.

pub mod bootstrap;
pub mod bytes;
pub mod cli;
pub mod filter;
pub mod identity;
pub mod panic_abort;
pub mod queue;
pub mod rotation;
