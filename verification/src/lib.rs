//! A minimal SIP call-initiation engine: builds the three protocol messages
//! of one call dialog (invite, authenticated invite, cancel), computes the
//! digest-authentication response, parses the server's challenge, and drives
//! the timed invite -> ring -> cancel sequence as a state machine.
use vstd::prelude::*;

pub mod decimal;
pub mod digest;
pub mod message;
pub mod parse;
pub mod session;
pub mod trigger;

verus! {

/// Everything that can go wrong during one call. Every error is fatal to the
/// call in progress; none is retried.
#[derive(Clone, Copy, Debug, PartialEq, Eq, Structural)]
pub enum SipError {
    /// A required configuration field is missing or invalid.
    ConfigurationError,
    /// The remote signaling endpoint is unreachable or refused the connection.
    ConnectionError,
    /// A write on the transport connection failed.
    WriteError,
    /// A read on the transport connection failed.
    ReadError,
    /// The response bytes are not valid text.
    InvalidEncoding,
    /// The response carries no `realm="...", nonce="..."` challenge.
    ChallengeNotFound,
    /// The challenge pattern matched but its realm is empty.
    RealmMissing,
    /// The challenge pattern matched but its nonce is empty.
    NonceMissing,
}

/// The authentication challenge extracted from the first server response:
/// consumed immediately to compute the digest, never persisted past the call.
#[derive(Debug)]
pub struct AuthChallenge {
    pub realm: String,
    pub nonce: String,
}

/// Data needed to initiate one SIP call.
pub struct SipCallData {
    pub source: String,
    pub server: String,
    pub port: i32,
    pub target: String,
    pub username: String,
    pub password: String,
}

impl SipCallData {
    /// Invariant: every text field is non-empty and the port is a valid
    /// TCP port number.
    pub open spec fn well_formed(&self) -> bool {
        &&& self.source@.len() > 0
        &&& self.server@.len() > 0
        &&& self.target@.len() > 0
        &&& self.username@.len() > 0
        &&& self.password@.len() > 0
        &&& 0 <= self.port <= 65535
    }
}

} // verus!
