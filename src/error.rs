//! Error kinds of the keyer library.

use vstd::prelude::*;

verus! {

/// Declares std's I/O error so that the transport's own failures can be
/// carried through unchanged; nothing is assumed of its contents.
#[verifier::external_type_specification]
#[verifier::external_body]
pub struct ExIoError(std::io::Error);

/// What can go wrong while talking to the keyer.
#[derive(Debug)]
pub enum Error {
    /// Underlying transport failure during the handshake.
    Transport(String),
    /// Unrecognised version byte or broken response framing.
    Protocol(String),
    /// A read or a reply did not come in time.
    Timeout,
    /// The operation needs a newer keyer.
    Unsupported(String),
    /// An argument lies outside its permitted range.
    InvalidParameter(String),
    /// The I/O engine is no longer running.
    NotConnected,
    /// The engine saw the connection end mid-session.
    ConnectionLost,
    /// The keyer kept XOFF asserted past the deadline.
    BufferFull,
    /// A lower-level I/O failure, passed through.
    Io(std::io::Error),
}

/// Results of keyer operations.
pub type Result<T> = std::result::Result<T, Error>;

} // verus!
