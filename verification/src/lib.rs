//! A TLS-terminating TCP listener core.
//!
//! The crate models the lifecycle of a TLS listener: a builder that validates
//! mutually exclusive configuration inputs, a configuration state machine that
//! resolves certificate and key material into a ready acceptance capability
//! exactly once, a connection source that is bound exactly once, and the
//! decision logic of the accept loop (transient-error filtering and
//! backoff-on-persistent-error). Certificate chains and private keys are
//! parsed from PEM by rustls; the resolved capability wraps an
//! `async_rustls::TlsAcceptor`. The asynchronous accept loop itself, the
//! per-connection handshake, and the HTTP layer live outside this crate and
//! drive it through the functions here.

mod accept;
mod acceptor;
mod builder;
mod config;
mod connection;
mod error;
mod listener;
mod pem;

pub use accept::accept_step;
pub use accept::is_transient_error;
pub use accept::negotiation_step;
pub use accept::AcceptAction;
pub use accept::AcceptEvent;
pub use accept::HandlerAction;
pub use accept::NegotiationOutcome;
pub use accept::BACKOFF_MILLIS;
pub use acceptor::certs_found;
pub use acceptor::lemma_standard_resolution_succeeds;
pub use acceptor::private_key_supported;
pub use acceptor::standard_acceptor;
pub use acceptor::standard_config_ok;
pub use acceptor::standard_error;
pub use acceptor::ResolvedAcceptor;
pub use builder::TlsListenerBuilder;
pub use config::TlsListenerConfig;
pub use connection::https_url;
pub use connection::https_url_text;
pub use connection::joined_urls;
pub use connection::TcpConnection;
pub use error::ErrorKind;
pub use error::TlsError;
pub use listener::TlsListener;
pub use pem::lemma_pkcs8_keys_resolve;
pub use pem::lemma_rsa_fallback;
pub use pem::load_certs;
pub use pem::load_keys;
pub use pem::pem_certs;
pub use pem::pem_pkcs8_keys;
pub use pem::pem_rsa_keys;
pub use pem::resolved_keys;
