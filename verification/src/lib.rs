//! A client core for publishing rich-presence status to a locally running
//! desktop client over an inter-process channel.
//!
//! The crate covers the transport-independent heart of the protocol: the
//! length-prefixed frame codec, discovery of the peer's local endpoint,
//! the handshake, and the one-way update and close commands. All byte-level
//! and state-machine behaviour is stated in contracts and verified; the
//! actual socket or pipe I/O is left to the embedding program.

pub mod activities;
pub mod error;
pub mod frame;
pub mod json;
pub mod locator;
pub mod session;

pub use error::Error;
