//! Identity bootstrap: the ephemeral self-signed identity a listener
//! presents to connecting peers.
//!
//! Each listener generates a fresh certificate/key pair at construction,
//! bound to a fixed loopback-style subject name. The material is not
//! persisted and no external authority countersigns it; a dialer accepts it
//! only if its own trust policy allows (see [`crate::trust`]). The
//! generation itself and the transport configuration built from the
//! material come from outside collaborators and are relied on, not proved.

use vstd::prelude::*;
use vstd::string::StringSliceAdditionalSpecFns;

use crate::errors::ConstructionError;

verus! {

/// Ephemeral identity material for one listener: a DER-encoded self-signed
/// certificate, its DER-encoded PKCS#8 private key, and the subject name
/// the certificate is bound to. Lifetime-bound to the listener that
/// produced it.
#[derive(Debug, PartialEq, Eq)]
pub struct SelfSignedIdentity {
    /// The certificate, DER-encoded.
    pub cert_der: Vec<u8>,
    /// The private key, DER-encoded PKCS#8.
    pub key_der: Vec<u8>,
    /// The subject name the certificate was generated for.
    pub subject: &'static str,
}

/// The fixed subject name every listener identity is bound to: a
/// loopback-style placeholder, matched by the server-name token the dialer
/// presents.
pub fn listener_subject() -> (s: &'static str)
    ensures
        s@ == "localhost"@,
{
    "localhost"
}

#[verifier::external_type_specification]
#[verifier::external_body]
pub struct ExServerConfig(quinn::ServerConfig);

/// Relies on `rcgen::generate_simple_self_signed`: a fresh key pair and a
/// certificate self-signed with it for the given subject name, returned
/// DER-encoded (certificate, then PKCS#8 key). The material is randomized,
/// so nothing is promised of the bytes; a generation failure maps to
/// `IdentityGeneration`.
#[verifier::external_body]
fn rcgen_self_signed_der(subject: &str) -> (r: Result<(Vec<u8>, Vec<u8>), ConstructionError>)
    ensures
        r matches Err(e) ==> e is IdentityGeneration,
{
    match rcgen::generate_simple_self_signed(vec![subject.to_string()]) {
        Ok(ck) => Ok((ck.cert.der().to_vec(), ck.signing_key.serialize_der())),
        Err(_) => Err(ConstructionError::IdentityGeneration),
    }
}

/// Relies on `quinn::ServerConfig::with_single_cert`: a server-side
/// transport configuration presenting the given certificate chain and
/// private key. The configuration is opaque here; a rejection of the
/// material maps to `IdentityGeneration`.
#[verifier::external_body]
pub(crate) fn quinn_server_config_single_cert(cert_der: &Vec<u8>, key_der: &Vec<u8>) -> (r: Result<
    quinn::ServerConfig,
    ConstructionError,
>)
    ensures
        r matches Err(e) ==> e is IdentityGeneration,
{
    let cert = rustls::pki_types::CertificateDer::from(cert_der.clone());
    let key = rustls::pki_types::PrivateKeyDer::Pkcs8(rustls::pki_types::PrivatePkcs8KeyDer::from(
        key_der.clone(),
    ));
    match quinn::ServerConfig::with_single_cert(vec![cert], key) {
        Ok(c) => Ok(c),
        Err(_) => Err(ConstructionError::IdentityGeneration),
    }
}

/// Generates the ephemeral self-signed identity for a listener: fresh
/// material bound to the fixed subject name, valid immediately, with no
/// external authority involved. Used exactly once per listener
/// construction; a failure is fatal and propagates to the constructor.
pub fn generate_self_signed_cert() -> (r: Result<SelfSignedIdentity, ConstructionError>)
    ensures
        match r {
            Ok(id) => id.subject@ == "localhost"@,
            Err(e) => e is IdentityGeneration,
        },
{
    let subject = listener_subject();
    match rcgen_self_signed_der(subject) {
        Ok(pair) => Ok(SelfSignedIdentity { cert_der: pair.0, key_der: pair.1, subject }),
        Err(e) => Err(e),
    }
}

} // verus!
