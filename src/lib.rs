//! A single-worker notification executor, as a verified core.
//!
//! The executor hands "mix" notifications, each a pair of text identifiers,
//! from any number of producers to one background worker, which passes them
//! to an optional callback in the order they were sent. Threads, the channel
//! and the callback itself live outside this crate; here stand the decisions
//! that each side takes, with their contracts, and the laws of the protocol
//! that those decisions make up.
pub mod executor;
pub mod laws;
pub mod message;
pub mod text;
pub mod worker;
