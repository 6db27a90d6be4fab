//! Core of a terminal-attached client for a remote interactive session.
//!
//! The library holds the parts of the client that have exact semantics:
//! the translation of local input events into the byte sequences a remote
//! shell expects, the derivation of the session's control endpoints from a
//! duplex-channel address, the framing and classification of duplex-channel
//! messages, and the session loop's state machine.  The surrounding process
//! (terminal handling, sockets, task scheduling) lives outside the library
//! and talks to it in plain values.

pub mod backfill;
pub mod encoder;
pub mod endpoints;
pub mod frame;
pub mod inbound;
pub mod keys;
pub mod session;
pub mod text;
