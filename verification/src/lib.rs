//! Watches the per-network availability of one exchange asset and decides when
//! subscribers are told about a change.
//!
//! The crate holds the decisions: what a snapshot is, how two snapshots differ,
//! what a notification says, and how the polling loop moves between its states.
//! Fetching, sending and sleeping are left to the program that drives the loop.

pub mod config;
pub mod error;
pub mod fetch;
pub mod json;
pub mod notes;
pub mod notify;
pub mod poll_loop;
pub mod report;
pub mod snapshot;
pub mod stamp;
pub mod text;
