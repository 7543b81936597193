//! The dialer-side trust policy: the decision procedure for whether a
//! presented server identity is acceptable.
//!
//! The only policy shipped here, [`SkipServerVerification`], approves every
//! presented identity. It exists so that a dialer can reach a listener whose
//! ephemeral self-signed identity has no independent chain of trust — a
//! deliberate, clearly named trade-off for local and test topologies only.
//! Production configurations must substitute a real verifier.

use vstd::prelude::*;

verus! {

/// The decision a trust policy returns for a presented server identity.
#[derive(Clone, Copy, Debug, PartialEq, Eq, Structural)]
pub enum CertVerdict {
    /// The identity is acceptable; the handshake may proceed.
    Accepted,
    /// The identity is not acceptable; the handshake must be rejected.
    Rejected,
}

/// The capability to decide whether a presented server identity is
/// acceptable. The dialer consults its policy once per handshake with the
/// server's DER-encoded end-entity certificate and the name it dialled.
pub trait TrustPolicy {
    /// Decides whether the DER-encoded certificate `cert_der`, presented by
    /// a server dialled under `server_name`, is acceptable.
    fn verify_server_cert(&self, cert_der: &Vec<u8>, server_name: &str) -> CertVerdict;
}

/// A trust policy that skips verification: every presented server identity
/// is approved, whatever its bytes and whatever name was dialled.
///
/// This defeats the purpose of the trust handshake and is unsafe for
/// production; it is intended only for topologies where the listener's
/// self-signed identity cannot be distributed out of band.
#[derive(Clone, Copy, Debug, PartialEq, Eq, Structural)]
pub struct SkipServerVerification;

impl SkipServerVerification {
    /// The insecure accept-any policy.
    pub fn new() -> (s: Self) {
        SkipServerVerification
    }
}

impl TrustPolicy for SkipServerVerification {
    /// Approves unconditionally: the verdict is `Accepted` for every
    /// certificate and every server name.
    fn verify_server_cert(&self, cert_der: &Vec<u8>, server_name: &str) -> (v: CertVerdict)
        ensures
            v is Accepted,
    {
        CertVerdict::Accepted
    }
}

} // verus!
