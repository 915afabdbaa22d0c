//! Decision core of an unattended repository synchronisation daemon.
//!
//! Every step that touches the repository, the network or the clock is
//! performed by the caller; this crate decides what to do next from what the
//! caller observed, and states those decisions as verified contracts.
pub mod config;
pub mod refs;
pub mod conflicts;
pub mod attempt;
pub mod schedule;
pub mod laws;
pub mod notify;
