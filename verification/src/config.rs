use vstd::prelude::*;
use vstd::string::StringExecFns;

use crate::acceptor::ResolvedAcceptor;

verus! {

/// The textual form of the path-based configuration state, with the two
/// paths quoted.
pub open spec fn paths_text(cert: Seq<char>, key: Seq<char>) -> Seq<char> {
    "TlsListenerConfig::Paths { cert: \""@ + cert + "\", key: \""@ + key + "\" }"@
}

/// The acceptor configuration of a listener. Exactly one of the supplied
/// states (`Paths`, `ServerConfig`, or a ready `Acceptor`) is chosen at
/// construction time by the builder; resolution replaces the supplied state
/// by `Acceptor` at most once and is idempotent thereafter.
pub enum TlsListenerConfig<A> {
    /// No TLS configuration has been supplied yet.
    Unconfigured,
    /// Paths of a PEM certificate-chain file and a PEM private-key file,
    /// waiting to be read and resolved.
    Paths {
        /// The path of the certificate-chain file.
        cert: String,
        /// The path of the private-key file.
        key: String,
    },
    /// A prebuilt rustls server configuration, waiting to be wrapped.
    ServerConfig(rustls::ServerConfig),
    /// A ready acceptance capability: the resolved state.
    Acceptor(ResolvedAcceptor<A>),
}

impl<A> TlsListenerConfig<A> {
    /// Whether the configuration has resolved to a ready acceptance
    /// capability.
    pub open spec fn is_resolved(&self) -> bool {
        self is Acceptor
    }

    /// The textual form of the configuration: its state, and for the
    /// path-based state the two paths; what a capability or a prebuilt
    /// configuration holds is elided.
    pub fn describe(&self) -> (r: String)
        ensures
            *self is Unconfigured ==> r@ == "TlsListenerConfig::Unconfigured"@,
            *self is Acceptor ==> r@ == "TlsListenerConfig::Acceptor(..)"@,
            *self is ServerConfig ==> r@ == "TlsListenerConfig::ServerConfig(..)"@,
            self matches TlsListenerConfig::Paths { cert, key } ==> r@ == paths_text(cert@, key@),
    {
        match self {
            TlsListenerConfig::Unconfigured => "TlsListenerConfig::Unconfigured".to_owned(),
            TlsListenerConfig::Acceptor(_) => "TlsListenerConfig::Acceptor(..)".to_owned(),
            TlsListenerConfig::ServerConfig(_) => "TlsListenerConfig::ServerConfig(..)".to_owned(),
            TlsListenerConfig::Paths { cert, key } => {
                let mut out = "TlsListenerConfig::Paths { cert: \"".to_owned();
                out.append(cert.as_str());
                out.append("\", key: \"");
                out.append(key.as_str());
                out.append("\" }");
                out
            },
        }
    }
}

impl<A> Default for TlsListenerConfig<A> {
    /// The initial state of a configuration: unconfigured.
    fn default() -> (r: Self)
        ensures
            r is Unconfigured,
    {
        TlsListenerConfig::Unconfigured
    }
}

} // verus!
