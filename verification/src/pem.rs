use vstd::prelude::*;

use crate::error::ErrorKind;
use crate::error::TlsError;

verus! {

/// The DER payloads of every `CERTIFICATE` PEM section of `bytes`, or `None`
/// where a section cannot be decoded. Named here because the decoding is a
/// function of the bytes alone; `pemfile_certs` relies on it.
pub uninterp spec fn pem_certs(bytes: Seq<u8>) -> Option<Seq<Seq<u8>>>;

/// The DER payloads of every `PRIVATE KEY` (PKCS#8) PEM section of `bytes`,
/// or `None` where a section cannot be decoded.
pub uninterp spec fn pem_pkcs8_keys(bytes: Seq<u8>) -> Option<Seq<Seq<u8>>>;

/// The DER payloads of every `RSA PRIVATE KEY` PEM section of `bytes`, or
/// `None` where a section cannot be decoded.
pub uninterp spec fn pem_rsa_keys(bytes: Seq<u8>) -> Option<Seq<Seq<u8>>>;

/// Relies on `rustls::internal::pemfile::certs`: reading from an in-memory
/// buffer, it returns the base64-decoded body of each certificate section,
/// and fails exactly when some section's body does not decode.
#[verifier::external_body]
fn pemfile_certs(bytes: &Vec<u8>) -> (r: Result<Vec<Vec<u8>>, ()>)
    ensures
        r matches Ok(certs) ==> pem_certs(bytes@) == Some(certs.deep_view()),
        r is Err ==> pem_certs(bytes@) is None,
{
    let mut rd = std::io::Cursor::new(bytes.as_slice());
    rustls::internal::pemfile::certs(&mut rd)
        .map(|certs| certs.into_iter().map(|c| c.0).collect())
}

/// Relies on `rustls::internal::pemfile::pkcs8_private_keys`: reading from an
/// in-memory buffer, it returns the base64-decoded body of each PKCS#8
/// section, and fails exactly when some section's body does not decode.
#[verifier::external_body]
fn pemfile_pkcs8_keys(bytes: &Vec<u8>) -> (r: Result<Vec<Vec<u8>>, ()>)
    ensures
        r matches Ok(keys) ==> pem_pkcs8_keys(bytes@) == Some(keys.deep_view()),
        r is Err ==> pem_pkcs8_keys(bytes@) is None,
{
    let mut rd = std::io::Cursor::new(bytes.as_slice());
    rustls::internal::pemfile::pkcs8_private_keys(&mut rd)
        .map(|keys| keys.into_iter().map(|k| k.0).collect())
}

/// Relies on `rustls::internal::pemfile::rsa_private_keys`: reading from an
/// in-memory buffer, it returns the base64-decoded body of each RSA key
/// section, and fails exactly when some section's body does not decode.
#[verifier::external_body]
fn pemfile_rsa_keys(bytes: &Vec<u8>) -> (r: Result<Vec<Vec<u8>>, ()>)
    ensures
        r matches Ok(keys) ==> pem_rsa_keys(bytes@) == Some(keys.deep_view()),
        r is Err ==> pem_rsa_keys(bytes@) is None,
{
    let mut rd = std::io::Cursor::new(bytes.as_slice());
    rustls::internal::pemfile::rsa_private_keys(&mut rd)
        .map(|keys| keys.into_iter().map(|k| k.0).collect())
}

/// The private keys that a key file resolves to: the PKCS#8 sections where
/// decoding them succeeds and yields at least one key, otherwise the RSA
/// sections under the same proviso, otherwise nothing.
pub open spec fn resolved_keys(bytes: Seq<u8>) -> Option<Seq<Seq<u8>>> {
    if pem_pkcs8_keys(bytes) matches Some(keys) && keys.len() > 0 {
        pem_pkcs8_keys(bytes)
    } else if pem_rsa_keys(bytes) matches Some(keys) && keys.len() > 0 {
        pem_rsa_keys(bytes)
    } else {
        None
    }
}

/// Law: for every key file whose PKCS#8 sections decode to at least one key,
/// the file resolves to exactly those keys; the RSA fallback is never taken.
pub proof fn lemma_pkcs8_keys_resolve(key_pem: Seq<u8>)
    requires
        pem_pkcs8_keys(key_pem) matches Some(keys) && keys.len() > 0,
    ensures
        resolved_keys(key_pem) == pem_pkcs8_keys(key_pem),
{
}

/// Law: for every key file without a usable PKCS#8 key whose RSA sections
/// decode to at least one key, the file still resolves, to exactly the RSA
/// keys, over the same bytes.
pub proof fn lemma_rsa_fallback(key_pem: Seq<u8>)
    requires
        !(pem_pkcs8_keys(key_pem) matches Some(keys) && keys.len() > 0),
        pem_rsa_keys(key_pem) matches Some(keys) && keys.len() > 0,
    ensures
        resolved_keys(key_pem) == pem_rsa_keys(key_pem),
{
}

/// The DER certificate chain of a PEM certificate file, or an invalid-input
/// error where some section cannot be decoded. A file with no certificate
/// section yields an empty chain here; resolution rejects such a chain, as
/// no certificate was found.
pub fn load_certs(pem: &Vec<u8>) -> (r: Result<Vec<Vec<u8>>, TlsError>)
    ensures
        r matches Ok(certs) ==> pem_certs(pem@) == Some(certs.deep_view()),
        r matches Err(e) ==> pem_certs(pem@) is None && e.kind == ErrorKind::InvalidInput
            && e.message@ == "invalid cert"@,
{
    match pemfile_certs(pem) {
        Ok(certs) => Ok(certs),
        Err(()) => Err(TlsError::invalid_input("invalid cert")),
    }
}

/// The DER private keys of a PEM key file: the PKCS#8 sections when they
/// yield at least one key, with a fallback to the RSA sections over the same
/// bytes, and an invalid-input error when neither yields a key.
pub fn load_keys(pem: &Vec<u8>) -> (r: Result<Vec<Vec<u8>>, TlsError>)
    ensures
        r matches Ok(keys) ==> resolved_keys(pem@) == Some(keys.deep_view()) && keys.len() > 0,
        r matches Err(e) ==> resolved_keys(pem@) is None && e.kind == ErrorKind::InvalidInput
            && e.message@ == "invalid key"@,
{
    if let Ok(pkcs8) = pemfile_pkcs8_keys(pem) {
        if pkcs8.len() > 0 {
            assert(pkcs8.deep_view().len() > 0);
            return Ok(pkcs8);
        }
    }

    if let Ok(rsa) = pemfile_rsa_keys(pem) {
        if rsa.len() > 0 {
            assert(rsa.deep_view().len() > 0);
            return Ok(rsa);
        }
    }

    Err(TlsError::invalid_input("invalid key"))
}

} // verus!
