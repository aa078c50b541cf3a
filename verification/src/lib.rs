//! Client-side logic for a remote data-availability storage service.
//!
//! A caller submits opaque byte payloads ("blobs"). Payloads larger than the
//! per-call ceiling are split into ordered chunks; each submission is then
//! polled until the service reports a terminal status or a timeout elapses.
//! This crate holds the decision logic of that protocol: the chunking policy,
//! the size check, the status state machine and the poll-step rules. The
//! network transport that carries the requests lives outside the library and
//! feeds the replies in as plain values.

pub mod chunk;
pub mod client;
pub mod errors;
pub mod poll;
pub mod status;
