//! The contract between a connection and the handler that runs on it, and the
//! behaviour that keeps every connection alive without doing anything else.
//!
//! - [`handler`] holds the vocabulary of a connection handler: the keep-alive
//!   verdict, the substream descriptor, the events in both directions and the
//!   trait itself.
//! - [`behaviour`] holds the same for the swarm-wide behaviour.
//! - [`upgrade`] says which protocol names an upgrade offers.
//! - [`connection`] is the arena that owns one handler per open connection
//!   and refuses every call on a connection that has been closed.
//! - [`keep_alive`] is the pair that does nothing but keep connections open.
//! - [`task`] is the result of a poll.
//! - [`foreign`] lists what is taken on trust from other crates.

pub mod behaviour;
pub mod connection;
pub mod foreign;
pub mod handler;
pub mod keep_alive;
pub mod task;
pub mod upgrade;
