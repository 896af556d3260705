//! Trust-anchor certificates loaded from PEM (single or bundle) or
//! binary DER encoding. All three constructors are fallible and validate
//! on construction — the PEM framing and the DER encoding of every
//! certificate — so an invalid certificate can never exist as a live
//! value.

use vstd::prelude::*;

use rustls_pki_types::pem::PemObject;

use crate::error::{ClientError, ErrorModel};

verus! {

/// Declares the error type of the PEM parser, returned by the trusted
/// bundle reader below.
#[verifier::external_type_specification]
#[verifier::external_body]
pub struct ExPemError(rustls_pki_types::pem::Error);

/// Whether `b` is a well-formed PEM certificate bundle and, if so, the
/// DER bytes of its certificate sections in input order: what the PEM
/// parser decides, a function of the input bytes alone.
pub uninterp spec fn pem_bundle_ders(b: Seq<u8>) -> Option<Seq<Seq<u8>>>;

/// Whether `b` is one well-formed DER-encoded X.509 certificate: what
/// the trust-store parser decides, a function of the bytes alone.
pub uninterp spec fn der_cert_ok(b: Seq<u8>) -> bool;

/// Whether every byte string of `ds` is a well-formed DER certificate.
pub open spec fn all_der_certs_ok(ds: Seq<Seq<u8>>) -> bool {
    forall|i: int| 0 <= i < ds.len() ==> der_cert_ok(#[trigger] ds[i])
}

/// Relies on `rustls_pki_types::CertificateDer::pem_slice_iter` (the
/// parser behind reqwest's certificate loading): yields the DER bytes of
/// each certificate section of the input, in input order, and fails
/// exactly when a section is malformed. An input without any certificate
/// section yields an empty collection, not an error.
#[verifier::external_body]
fn parse_pem_bundle(pem: &[u8]) -> (r: Result<Vec<Vec<u8>>, rustls_pki_types::pem::Error>)
    ensures
        r matches Ok(v) ==> pem_bundle_ders(pem@) == Some(v.deep_view()),
        r is Ok <==> pem_bundle_ders(pem@) is Some,
{
    rustls_pki_types::CertificateDer::pem_slice_iter(pem)
        .map(|section| section.map(|cert| cert.as_ref().to_vec()))
        .collect()
}

/// Relies on `webpki::anchor_from_trusted_cert`, the same parse the
/// transport's trust store applies when a root certificate is installed:
/// accepts exactly the well-formed DER-encoded certificates, deciding by
/// the bytes alone.
#[verifier::external_body]
fn validate_der_cert(der: &Vec<u8>) -> (r: bool)
    ensures
        r == der_cert_ok(der@),
{
    let cert = rustls_pki_types::CertificateDer::from(der.as_slice());
    webpki::anchor_from_trusted_cert(&cert).is_ok()
}

/// Relies on the `Display` implementation of
/// `rustls_pki_types::pem::Error` to describe a malformed PEM input.
#[verifier::external_body]
fn pem_error_message(e: &rustls_pki_types::pem::Error) -> String {
    format!("{}", e)
}

/// A CA certificate provided by the user, held as its binary DER
/// encoding, validated on construction.
///
/// Used to configure the client to trust a specific certificate, for
/// example one that is self-signed. Values are immutable and can be
/// shared across any number of client configurations.
#[derive(Debug, Clone)]
pub struct Certificate {
    der: Vec<u8>,
}

impl View for Certificate {
    type V = Seq<u8>;

    /// A certificate is modeled as its DER bytes.
    closed spec fn view(&self) -> Seq<u8> {
        self.der@
    }
}

impl Certificate {
    /// Create a `Certificate` from a PEM encoded certificate. The input
    /// must hold exactly one well-formed certificate section whose DER
    /// bytes parse as a certificate; anything else is an error.
    pub fn from_pem(pem: &[u8]) -> (r: Result<Certificate, ClientError>)
        ensures
            match pem_bundle_ders(pem@) {
                Option::Some(ds) => if ds.len() == 1 && der_cert_ok(ds[0]) {
                    r matches Ok(c) && c@ == ds[0]
                } else {
                    r matches Err(e) && e@ is Generic
                },
                Option::None => r matches Err(e) && e@ is Generic,
            },
    {
        match Certificate::from_pem_bundle(pem) {
            Result::Err(e) => Err(e),
            Result::Ok(mut v) => {
                if v.len() == 1 {
                    match v.pop() {
                        Option::Some(c) => Ok(c),
                        Option::None => Err(
                            ClientError::Generic {
                                message: "expected exactly one certificate in PEM input".to_owned(),
                            },
                        ),
                    }
                } else {
                    Err(
                        ClientError::Generic {
                            message: "expected exactly one certificate in PEM input".to_owned(),
                        },
                    )
                }
            },
        }
    }

    /// Create a collection of `Certificate` from a PEM encoded
    /// certificate bundle: one value per certificate section, in input
    /// order, each validated as a DER certificate. A bundle without any
    /// certificate section yields an empty collection; malformed PEM
    /// bytes or a section that is no certificate are an error.
    pub fn from_pem_bundle(pem_bundle: &[u8]) -> (r: Result<Vec<Certificate>, ClientError>)
        ensures
            match pem_bundle_ders(pem_bundle@) {
                Option::Some(ds) => if all_der_certs_ok(ds) {
                    r matches Ok(v) && v@.len() == ds.len() && (forall|i: int|
                        0 <= i < ds.len() ==> (#[trigger] v@[i])@ == ds[i])
                } else {
                    r matches Err(e) && e@ is Generic
                },
                Option::None => r matches Err(e) && e@ is Generic,
            },
    {
        match parse_pem_bundle(pem_bundle) {
            Result::Err(e) => Err(ClientError::Generic { message: pem_error_message(&e) }),
            Result::Ok(v) => {
                let ghost ds = v.deep_view();
                let n = v.len();
                let mut rest = v;
                let mut out: Vec<Certificate> = Vec::new();
                while rest.len() > 0
                    invariant
                        pem_bundle_ders(pem_bundle@) == Some(ds),
                        out@.len() + rest@.len() == n,
                        ds.len() == n,
                        forall|i: int| 0 <= i < out@.len() ==> (#[trigger] out@[i])@ == ds[i],
                        forall|i: int| 0 <= i < out@.len() ==> der_cert_ok(#[trigger] ds[i]),
                        forall|i: int|
                            0 <= i < rest@.len() ==> (#[trigger] rest@[i])@ == ds[
                                out@.len() + i
                            ],
                    decreases rest@.len(),
                {
                    let c = rest.remove(0);
                    if !validate_der_cert(&c) {
                        proof {
                            let bad = out@.len() as int;
                            assert(0 <= bad < ds.len());
                            assert(!der_cert_ok(ds[bad]));
                            assert(!all_der_certs_ok(ds));
                        }
                        return Err(
                            ClientError::Generic {
                                message: "certificate section is not a well-formed DER certificate".to_owned(),
                            },
                        );
                    }
                    out.push(Certificate { der: c });
                }
                Ok(out)
            },
        }
    }

    /// Create a `Certificate` from a binary DER encoded certificate. The
    /// bytes are validated on construction: anything that is not a
    /// well-formed DER certificate is an error.
    pub fn from_der(der: &[u8]) -> (r: Result<Certificate, ClientError>)
        ensures
            if der_cert_ok(der@) {
                r matches Ok(c) && c@ == der@
            } else {
                r matches Err(e) && e@ is Generic
            },
    {
        let bytes = vstd::slice::slice_to_vec(der);
        if !validate_der_cert(&bytes) {
            return Err(
                ClientError::Generic {
                    message: "input is not a well-formed DER certificate".to_owned(),
                },
            );
        }
        Ok(Certificate { der: bytes })
    }

    /// The DER bytes of this certificate.
    pub fn der_bytes(&self) -> (r: &Vec<u8>)
        ensures
            r@ == self@,
    {
        &self.der
    }

    /// An explicit copy holding the same bytes.
    pub fn duplicate(&self) -> (r: Certificate)
        ensures
            r@ == self@,
    {
        Certificate { der: self.der.clone() }
    }
}

} // verus!
