//! The server identity: a self-signed certificate and its private key,
//! created once at startup, immutable for the server's lifetime. The
//! certificate bytes are public and handed to clients out of band for
//! pinning; the key stays with the server.

use vstd::prelude::*;
use vstd::utf8::is_ascii_chars;

verus! {

/// A failure to produce the server identity. Fatal to server startup: no
/// identity, no listening.
#[derive(Clone, Copy, Debug, PartialEq, Eq, Structural)]
pub enum IdentityError {
    GenerationFailed,
}

/// The server identity: certificate and matching private key, both in DER
/// form.
pub struct Identity {
    cert_der: Vec<u8>,
    key_der: Vec<u8>,
}

impl Identity {
    /// The certificate bytes held.
    pub closed spec fn spec_cert_der(&self) -> Seq<u8> {
        self.cert_der@
    }

    /// The private key bytes held.
    pub closed spec fn spec_key_der(&self) -> Seq<u8> {
        self.key_der@
    }

    /// Bundle certificate and key bytes into an identity, verbatim.
    pub fn new(cert_der: Vec<u8>, key_der: Vec<u8>) -> (r: Identity)
        ensures
            r.spec_cert_der() == cert_der@,
            r.spec_key_der() == key_der@,
    {
        Identity { cert_der, key_der }
    }

    /// The certificate, exactly as held, for out-of-band distribution to the
    /// clients that will pin it.
    pub fn certificate_der(&self) -> (r: &Vec<u8>)
        ensures
            r@ == self.spec_cert_der(),
    {
        &self.cert_der
    }

    /// The private key, exactly as held, for configuring the server's
    /// transport.
    pub fn private_key_der(&self) -> (r: &Vec<u8>)
        ensures
            r@ == self.spec_key_der(),
    {
        &self.key_der
    }
}

/// Relies on rcgen::generate_simple_self_signed, Certificate::serialize_der
/// and Certificate::serialize_private_key_der: a fresh key pair and a
/// self-signed certificate binding it to the given subject name, both in DER
/// form. The subject must be ASCII: a subject that is no IP address is
/// written into the certificate as a DNS name, whose DER writer admits only
/// ASCII and panics otherwise. The key material is freshly drawn, so nothing
/// is promised of the bytes beyond being non-empty: the certificate is a DER
/// sequence and the key a PKCS#8 document, and neither serializes to nothing.
#[verifier::external_body]
fn generate_self_signed_der(subject: String) -> (r: Result<(Vec<u8>, Vec<u8>), IdentityError>)
    requires
        is_ascii_chars(subject@),
    ensures
        r matches Ok(p) ==> p.0@.len() > 0 && p.1@.len() > 0,
{
    let cert = match rcgen::generate_simple_self_signed(vec![subject]) {
        Ok(c) => c,
        Err(_) => {
            return Err(IdentityError::GenerationFailed);
        },
    };
    match cert.serialize_der() {
        Ok(cert_der) => Ok((cert_der, cert.serialize_private_key_der())),
        Err(_) => Err(IdentityError::GenerationFailed),
    }
}

/// Produce a fresh self-signed identity for the given subject name. A subject
/// that is not ASCII cannot be written into a certificate and is rejected up
/// front; otherwise whatever certificate and key material come back — both
/// non-empty — are carried verbatim into the identity. Generation itself is
/// outside work and may fail, which the server treats as fatal at startup.
pub fn issue_self_signed(subject: String) -> (r: Result<Identity, IdentityError>)
    ensures
        r matches Ok(id) ==> id.spec_cert_der().len() > 0 && id.spec_key_der().len() > 0,
        !is_ascii_chars(subject@) ==> r == Err::<Identity, IdentityError>(
            IdentityError::GenerationFailed,
        ),
{
    if !subject.as_str().is_ascii() {
        return Err(IdentityError::GenerationFailed);
    }
    match generate_self_signed_der(subject) {
        Ok((cert_der, key_der)) => Ok(Identity::new(cert_der, key_der)),
        Err(e) => Err(e),
    }
}

} // verus!
