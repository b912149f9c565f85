//! The kinds of failure the library reports.

use vstd::prelude::*;

verus! {

/// Classifies every failure of connecting, framing, handshaking and sending.
#[derive(Clone, Copy, Debug, PartialEq, Eq, Structural)]
pub enum Error {
    /// Reading from or writing to the transport failed, or the stream ended
    /// before a full frame was available.
    Io,
    /// A payload could not be encoded to or decoded from JSON, or its length
    /// does not fit the 32-bit length field of a frame.
    Serialization,
    /// No candidate endpoint could be connected.
    ConnectionNotFound,
    /// A handshake response was received and parsed but did not carry the
    /// expected ready acknowledgement.
    HandshakeFailed,
}

} // verus!
