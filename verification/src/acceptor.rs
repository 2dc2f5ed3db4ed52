use vstd::prelude::*;

use crate::error::ErrorKind;
use crate::error::TlsError;
use crate::pem::load_certs;
use crate::pem::load_keys;
use crate::pem::pem_certs;
use crate::pem::resolved_keys;

verus! {

#[verifier::external_type_specification]
#[verifier::external_body]
pub struct ExServerConfig(rustls::ServerConfig);

#[verifier::external_type_specification]
#[verifier::external_body]
pub struct ExRustlsError(rustls::TLSError);

#[verifier::external_type_specification]
#[verifier::external_body]
pub struct ExTlsAcceptor(async_rustls::TlsAcceptor);

/// Whether rustls can sign with the DER-encoded private key `key_der`. Named
/// here because support depends on the key bytes alone;
/// `config_set_single_cert` relies on it.
pub uninterp spec fn private_key_supported(key_der: Seq<u8>) -> bool;

/// Relies on `rustls::ServerConfig::new` applied to
/// `rustls::NoClientAuth::new()`: a fresh server-side TLS configuration that
/// requires no client certificate.
#[verifier::external_body]
fn new_server_config() -> rustls::ServerConfig {
    rustls::ServerConfig::new(rustls::NoClientAuth::new())
}

/// Relies on `rustls::ServerConfig::set_single_cert`: installs the chain and
/// key, and fails exactly when `rustls::sign::any_supported_type` rejects the
/// key, which depends on the key bytes alone.
#[verifier::external_body]
fn config_set_single_cert(
    config: &mut rustls::ServerConfig,
    cert_chain: Vec<Vec<u8>>,
    key_der: Vec<u8>,
) -> (r: Result<(), rustls::TLSError>)
    ensures
        r is Ok <==> private_key_supported(key_der@),
{
    config.set_single_cert(
        cert_chain.into_iter().map(rustls::Certificate).collect(),
        rustls::PrivateKey(key_der),
    )
}

/// Relies on `async_rustls::TlsAcceptor`'s `From<Arc<ServerConfig>>` impl:
/// wraps a finished server configuration; it cannot fail.
#[verifier::external_body]
pub(crate) fn acceptor_from_config(config: rustls::ServerConfig) -> async_rustls::TlsAcceptor {
    async_rustls::TlsAcceptor::from(std::sync::Arc::new(config))
}

/// A ready acceptance capability: either the standard acceptor built from
/// certificate and key material or a prebuilt configuration, or a
/// caller-supplied custom acceptance strategy used as-is.
pub enum ResolvedAcceptor<A> {
    /// The standard TLS negotiation, backed by a rustls server configuration.
    Standard(async_rustls::TlsAcceptor),
    /// A custom acceptance strategy owning the whole negotiation.
    Custom(A),
}

/// Whether the certificate file bytes decode to a chain with at least one
/// certificate: a file whose sections all decode but which holds no
/// certificate section has none to offer, and resolution rejects it.
pub open spec fn certs_found(cert_pem: Seq<u8>) -> bool {
    pem_certs(cert_pem) matches Some(certs) && certs.len() > 0
}

/// Whether certificate file bytes and key file bytes resolve to a standard
/// acceptance capability: the certificate file decodes to a non-empty chain,
/// the key file resolves to at least one key, and rustls supports the first
/// resolved key.
pub open spec fn standard_config_ok(cert_pem: Seq<u8>, key_pem: Seq<u8>) -> bool {
    &&& certs_found(cert_pem)
    &&& resolved_keys(key_pem) matches Some(keys) && private_key_supported(keys[0])
}

/// Law: for every certificate file that decodes to a non-empty chain and
/// every key file that resolves to keys whose first key rustls supports,
/// standard resolution is owed success, whichever encoding the key file
/// used.
pub proof fn lemma_standard_resolution_succeeds(cert_pem: Seq<u8>, key_pem: Seq<u8>)
    requires
        certs_found(cert_pem),
        resolved_keys(key_pem) matches Some(keys) && private_key_supported(keys[0]),
    ensures
        standard_config_ok(cert_pem, key_pem),
{
}

/// What the error of a failed standard resolution reports, for the given
/// certificate file bytes and key file bytes: an invalid-input error naming
/// the first input that was rejected. A certificate file with an
/// undecodable section and one with no certificate at all are both reported
/// as an invalid certificate.
pub open spec fn standard_error(cert_pem: Seq<u8>, key_pem: Seq<u8>, e: TlsError) -> bool {
    &&& e.kind == ErrorKind::InvalidInput
    &&& !certs_found(cert_pem) ==> e.message@ == "invalid cert"@
    &&& certs_found(cert_pem) && resolved_keys(key_pem) is None
        ==> e.message@ == "invalid key"@
    &&& certs_found(cert_pem) && resolved_keys(key_pem) is Some
        ==> e.message@ == "invalid private key"@
}

/// The standard acceptance capability for the given certificate file bytes
/// and key file bytes: the certificate chain and the first resolved private
/// key are installed into a server configuration requiring no client
/// certificate, and the configuration is wrapped into an acceptor. A
/// certificate file in which no certificate is found is a format error.
pub fn standard_acceptor(cert_pem: &Vec<u8>, key_pem: &Vec<u8>) -> (r: Result<
    async_rustls::TlsAcceptor,
    TlsError,
>)
    ensures
        r is Ok <==> standard_config_ok(cert_pem@, key_pem@),
        r matches Err(e) ==> standard_error(cert_pem@, key_pem@, e),
{
    let certs = match load_certs(cert_pem) {
        Ok(certs) => certs,
        Err(e) => {
            return Err(e);
        },
    };
    if certs.len() == 0 {
        return Err(TlsError::invalid_input("invalid cert"));
    }
    let mut keys = match load_keys(key_pem) {
        Ok(keys) => keys,
        Err(e) => {
            return Err(e);
        },
    };
    let key = keys.remove(0);
    assert(key@ == resolved_keys(key_pem@).unwrap()[0]);
    let mut config = new_server_config();
    match config_set_single_cert(&mut config, certs, key) {
        Ok(()) => Ok(acceptor_from_config(config)),
        Err(_) => Err(TlsError::invalid_input("invalid private key")),
    }
}

} // verus!
