//! Error taxonomy for the session manager.
//!
//! Construction-time failures are fatal and never retried; handshake
//! failures are per-attempt; close failures are best-effort.

use vstd::prelude::*;

verus! {

/// A fatal error raised while constructing a listener or a dialer.
///
/// Construction aborts on the first such error: there is no partial or
/// degraded state to fall back to.
#[derive(Clone, Copy, Debug, PartialEq, Eq, Structural)]
pub enum ConstructionError {
    /// The textual `host:port` address could not be parsed.
    InvalidAddress,
    /// Generating the ephemeral self-signed identity failed, or the
    /// generated material was rejected when building the transport
    /// configuration.
    IdentityGeneration,
    /// Binding the local address failed (for example, the port is in use).
    BindFailure,
}

impl ConstructionError {
    /// A short human-readable description of the error.
    pub fn describe(&self) -> (s: &'static str)
        ensures
            self is InvalidAddress ==> s@ == "invalid address"@,
            self is IdentityGeneration ==> s@ == "identity generation failed"@,
            self is BindFailure ==> s@ == "bind failure"@,
    {
        match self {
            ConstructionError::InvalidAddress => "invalid address",
            ConstructionError::IdentityGeneration => "identity generation failed",
            ConstructionError::BindFailure => "bind failure",
        }
    }
}

/// A failure of one handshake attempt.
///
/// On the listener side such a failure is non-fatal: the attempt is dropped
/// and the accept loop continues. On the dialer side it is fatal for the
/// single connect call that suspended on the handshake.
#[derive(Clone, Copy, Debug, PartialEq, Eq, Structural)]
pub enum HandshakeError {
    /// The peer or the trust policy rejected the handshake.
    Rejected,
    /// The peer could not be reached.
    Unreachable,
    /// The handshake did not complete in time.
    Timeout,
    /// The attempt was malformed and never became a handshake.
    Malformed,
}

} // verus!
