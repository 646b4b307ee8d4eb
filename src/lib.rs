//! A broadcast chat relay: every line a client sends is prefixed with the
//! client's address and handed to a process-wide bus, and every message the
//! bus delivers to a connection is written back to that client verbatim.
//!
//! This crate holds the relay's decisions. The socket and bus work itself is
//! performed by the caller, which feeds outcomes back in as events.
pub mod handler;
pub mod laws;
pub mod listener;
pub mod message;
