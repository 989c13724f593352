//! P-256 keys, the certificates made from them, and the key inside a peer's certificate.
//!
//! A private key is held as its scalar: 32 bytes, most significant first.
use crate::encoding::bytes_view;
use p256::pkcs8::{DecodePrivateKey, EncodePrivateKey, EncodePublicKey};
use vstd::prelude::*;
use x509_cert::der::{Decode, Encode};

verus! {

/// The bytes of a private scalar.
pub const SCALAR_LEN: usize = 32;

/// The first second of the year 0, the earliest a certificate can name.
pub const EARLIEST_CERTIFICATE_SECOND: i64 = -62_167_219_200;

/// The last second of the year 9999, the latest a certificate can name.
pub const LATEST_CERTIFICATE_SECOND: i64 = 253_402_300_799;

/// The PKCS#8 DER document of the key with this scalar, or why there is none.
pub uninterp spec fn pkcs8_document(scalar: Seq<u8>) -> Result<Seq<u8>, Seq<char>>;

/// The PKCS#8 PEM text of the key with this scalar, with line feeds, or why there is none.
pub uninterp spec fn pkcs8_pem(scalar: Seq<u8>) -> Result<Seq<char>, Seq<char>>;

/// The SubjectPublicKeyInfo DER document of the public key that belongs to this scalar, or why
/// there is none.
pub uninterp spec fn spki_document(scalar: Seq<u8>) -> Result<Seq<u8>, Seq<char>>;

/// The scalar in a PKCS#8 DER document, or why it has none.
pub uninterp spec fn pkcs8_scalar(der: Seq<u8>) -> Result<Seq<u8>, Seq<char>>;

/// The scalar in a SEC1 DER document, or why it has none.
pub uninterp spec fn sec1_scalar(der: Seq<u8>) -> Result<Seq<u8>, Seq<char>>;

/// The SubjectPublicKeyInfo DER document in a DER certificate, where it is one.
pub uninterp spec fn certificate_spki(der: Seq<u8>) -> Option<Seq<u8>>;

/// Whether `certificate` is the PEM text of a certificate that `rcgen` may issue for the key in
/// `key_pem`, signed by that key, naming no host, and valid between the two Unix times. Since
/// signing draws random numbers there is more than one such text.
pub uninterp spec fn self_signed_by(
    key_pem: Seq<char>,
    not_before: int,
    not_after: int,
    certificate: Seq<char>,
) -> bool;

/// The views of a text or of a complaint.
pub open spec fn text_view(r: Result<String, String>) -> Result<Seq<char>, Seq<char>> {
    match r {
        Ok(text) => Ok(text@),
        Err(complaint) => Err(complaint@),
    }
}

/// Draws a key with `p256::ecdsa::SigningKey::random` from the operating system's generator and
/// takes its scalar with `SigningKey::to_bytes`.
///
/// Trusted: a scalar has 32 bytes, and since it is never zero the key with this scalar has a PKCS#8
/// and a SubjectPublicKeyInfo document. Which one it is is chance. The call panics where the system
/// has no random bytes.
#[verifier::external_body]
pub(crate) fn random_scalar() -> (r: Vec<u8>)
    ensures
        r@.len() == SCALAR_LEN,
        pkcs8_document(r@) is Ok,
        spki_document(r@) is Ok,
{
    p256::ecdsa::SigningKey::random(&mut p256::elliptic_curve::rand_core::OsRng).to_bytes().to_vec()
}

/// Calls `to_pkcs8_der` on the `p256::ecdsa::SigningKey` with this scalar.
///
/// Trusted: the document depends on the scalar alone, and `from_pkcs8_der` finds the whole
/// scalar in it again.
#[verifier::external_body]
pub(crate) fn encode_pkcs8(scalar: &[u8]) -> (r: Result<Vec<u8>, String>)
    ensures
        bytes_view(r) == pkcs8_document(scalar@),
        r matches Ok(der) ==> (scalar@.len() == SCALAR_LEN ==> pkcs8_scalar(der@) == Ok::<
            Seq<u8>,
            Seq<char>,
        >(scalar@)),
{
    let key = p256::ecdsa::SigningKey::from_slice(scalar).map_err(|e| e.to_string())?;
    key.to_pkcs8_der().map(|der| der.as_bytes().to_vec()).map_err(|e| e.to_string())
}

/// Calls `to_pkcs8_pem` with line feeds on the `p256::ecdsa::SigningKey` with this scalar.
///
/// Trusted: the text depends on the scalar alone.
#[verifier::external_body]
pub(crate) fn encode_pkcs8_pem(scalar: &[u8]) -> (r: Result<String, String>)
    ensures
        text_view(r) == pkcs8_pem(scalar@),
{
    let key = p256::ecdsa::SigningKey::from_slice(scalar).map_err(|e| e.to_string())?;
    key.to_pkcs8_pem(p256::pkcs8::LineEnding::LF).map(|pem| pem.to_string()).map_err(|e| e.to_string())
}

/// Calls `to_public_key_der` on the `verifying_key` of the `p256::ecdsa::SigningKey` with this
/// scalar.
///
/// Trusted: the document depends on the scalar alone.
#[verifier::external_body]
pub(crate) fn encode_spki(scalar: &[u8]) -> (r: Result<Vec<u8>, String>)
    ensures
        bytes_view(r) == spki_document(scalar@),
{
    let key = p256::ecdsa::SigningKey::from_slice(scalar).map_err(|e| e.to_string())?;
    key.verifying_key().to_public_key_der().map(|der| der.as_bytes().to_vec()).map_err(|e| e.to_string())
}

/// Calls `p256::ecdsa::SigningKey::from_pkcs8_der` and takes the scalar with `to_bytes`.
///
/// Trusted: the outcome depends on the document alone, and a scalar has 32 bytes. A document that
/// is read is no SEC1 document: what follows the version is a SEQUENCE here and an OCTET STRING
/// there. The scalar is that of a key, so it has a PKCS#8 PEM text, whose size is fixed.
#[verifier::external_body]
pub(crate) fn decode_pkcs8(der: &[u8]) -> (r: Result<Vec<u8>, String>)
    ensures
        bytes_view(r) == pkcs8_scalar(der@),
        r matches Ok(scalar) ==> scalar@.len() == SCALAR_LEN && pkcs8_pem(scalar@) is Ok,
        r is Ok ==> sec1_scalar(der@) is Err,
{
    p256::ecdsa::SigningKey::from_pkcs8_der(der).map(|key| key.to_bytes().to_vec()).map_err(|e| e.to_string())
}

/// Calls `p256::SecretKey::from_sec1_der` and takes the scalar with `to_bytes`.
///
/// Trusted: the outcome depends on the document alone, and a scalar has 32 bytes. The scalar is that
/// of a key, so it has a PKCS#8 PEM text, whose size is fixed.
#[verifier::external_body]
pub(crate) fn decode_sec1(der: &[u8]) -> (r: Result<Vec<u8>, String>)
    ensures
        bytes_view(r) == sec1_scalar(der@),
        r matches Ok(scalar) ==> scalar@.len() == SCALAR_LEN && pkcs8_pem(scalar@) is Ok,
{
    p256::SecretKey::from_sec1_der(der).map(|key| key.to_bytes().to_vec()).map_err(|e| e.to_string())
}

/// Calls `x509_cert::Certificate::from_der` and encodes the SubjectPublicKeyInfo of what it
/// read with `to_der`.
///
/// Trusted: the outcome depends on the document alone.
#[verifier::external_body]
pub(crate) fn peer_spki(certificate_der: &[u8]) -> (r: Option<Vec<u8>>)
    ensures
        match certificate_spki(certificate_der@) {
            Some(spki) => r matches Some(der) && der@ == spki,
            None => r is None,
        },
{
    let certificate = x509_cert::Certificate::from_der(certificate_der).ok()?;
    certificate.tbs_certificate().subject_public_key_info().to_der().ok()
}

/// What can go wrong when a certificate is issued.
#[derive(Debug)]
pub enum CertificateFault {
    /// The private key could not be loaded.
    KeyPair(String),
    /// The parameters could not be made.
    Params(String),
    /// The certificate could not be signed.
    Signing(String),
}

/// Issues a certificate with `rcgen`: `KeyPair::from_pem`, `CertificateParams::new` with no host
/// names, `CertificateParams::self_signed` and `Certificate::pem`.
///
/// Trusted: which key and which times went into a certificate. Loading the key and signing draw
/// random numbers, so nothing is claimed of when the call fails, nor with which fault. It panics on
/// times outside the years 0 to 9999.
#[verifier::external_body]
pub(crate) fn self_signed_certificate(key_pem: &str, not_before: i64, not_after: i64) -> (r: Result<
    String,
    CertificateFault,
>)
    requires
        EARLIEST_CERTIFICATE_SECOND <= not_before <= LATEST_CERTIFICATE_SECOND,
        EARLIEST_CERTIFICATE_SECOND <= not_after <= LATEST_CERTIFICATE_SECOND,
    ensures
        r matches Ok(text) ==> self_signed_by(
            key_pem@,
            not_before as int,
            not_after as int,
            text@,
        ),
{
    let key = rcgen::KeyPair::from_pem(key_pem).map_err(|e| CertificateFault::KeyPair(e.to_string()))?;
    let mut params = rcgen::CertificateParams::new(Vec::<String>::new())
        .map_err(|e| CertificateFault::Params(e.to_string()))?;
    params.not_before = time::OffsetDateTime::from_unix_timestamp(not_before)
        .map_err(|e| CertificateFault::Params(e.to_string()))?;
    params.not_after = time::OffsetDateTime::from_unix_timestamp(not_after)
        .map_err(|e| CertificateFault::Params(e.to_string()))?;
    let issued = params.self_signed(&key).map_err(|e| CertificateFault::Signing(e.to_string()))?;
    Ok(issued.pem())
}

} // verus!
