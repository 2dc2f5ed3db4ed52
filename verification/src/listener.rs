use vstd::prelude::*;

use crate::acceptor::acceptor_from_config;
use crate::acceptor::standard_acceptor;
use crate::acceptor::standard_config_ok;
use crate::acceptor::standard_error;
use crate::acceptor::ResolvedAcceptor;
use crate::builder::TlsListenerBuilder;
use crate::config::TlsListenerConfig;
use crate::connection::TcpConnection;
use crate::error::ErrorKind;
use crate::error::TlsError;

verus! {

/// A TLS listener: one connection source and one acceptor configuration.
/// The caller that runs the accept loop first resolves both, exactly once
/// each, through `configure` and through `bind_addrs`/`socket_bound`, and
/// then pulls connections from the socket and hands each to the resolved
/// acceptance capability.
pub struct TlsListener<A> {
    /// The connection source: addresses to bind, or the bound socket.
    pub connection: TcpConnection,
    /// The acceptor configuration and, once resolved, the capability.
    pub config: TlsListenerConfig<A>,
}

impl<A> TlsListener<A> {
    pub(crate) fn new(connection: TcpConnection, config: TlsListenerConfig<A>) -> (r: Self)
        ensures
            r.connection == connection,
            r.config == config,
    {
        TlsListener { connection, config }
    }

    /// The entry point for creating a listener: a builder with no input
    /// supplied.
    pub fn build() -> (r: TlsListenerBuilder<A>)
        ensures
            r.key is None,
            r.cert is None,
            r.config is None,
            r.tls_acceptor is None,
            r.tcp is None,
            r.addrs is None,
    {
        TlsListenerBuilder::new()
    }

    /// Resolve the acceptor configuration to a ready acceptance capability,
    /// exactly once; once resolved, further calls change nothing and
    /// succeed. For the path-based state the caller supplies the contents of
    /// the certificate file and of the key file in `files`; every other
    /// state needs none. On a failed path-based resolution the configuration
    /// is left unconfigured, as the supplied state was already consumed.
    pub fn configure(&mut self, files: Option<(Vec<u8>, Vec<u8>)>) -> (r: Result<(), TlsError>)
        requires
            old(self).config is Paths ==> files is Some,
        ensures
            final(self).connection == old(self).connection,
            old(self).config is Acceptor ==> r is Ok && final(self).config == old(self).config,
            old(self).config is Unconfigured ==> {
                &&& r matches Err(e) && e.kind == ErrorKind::Other
                    && e.message@ == "could not configure tlslistener"@
                &&& final(self).config is Unconfigured
            },
            old(self).config is ServerConfig ==> r is Ok,
            r is Ok && !(old(self).config is Acceptor) ==> (final(self).config matches
                TlsListenerConfig::Acceptor(a) && a is Standard),
            old(self).config is Paths ==> (files matches Some((cert_pem, key_pem)) && {
                &&& r is Ok <==> standard_config_ok(cert_pem@, key_pem@)
                &&& r matches Err(e) ==> standard_error(cert_pem@, key_pem@, e)
                    && final(self).config is Unconfigured
            }),
    {
        let mut taken = TlsListenerConfig::Unconfigured;
        core::mem::swap(&mut taken, &mut self.config);
        match taken {
            TlsListenerConfig::Paths { cert, key } => {
                let (cert_pem, key_pem) = files.unwrap();
                match standard_acceptor(&cert_pem, &key_pem) {
                    Ok(acceptor) => {
                        self.config = TlsListenerConfig::Acceptor(
                            ResolvedAcceptor::Standard(acceptor),
                        );
                        Ok(())
                    },
                    Err(e) => Err(e),
                }
            },
            TlsListenerConfig::ServerConfig(config) => {
                let acceptor = acceptor_from_config(config);
                self.config = TlsListenerConfig::Acceptor(ResolvedAcceptor::Standard(acceptor));
                Ok(())
            },
            TlsListenerConfig::Acceptor(acceptor) => {
                self.config = TlsListenerConfig::Acceptor(acceptor);
                Ok(())
            },
            TlsListenerConfig::Unconfigured => {
                Err(TlsError::new(ErrorKind::Other, "could not configure tlslistener"))
            },
        }
    }

    /// The resolved acceptance capability, once `configure` has succeeded.
    pub fn acceptor(&self) -> (r: Option<&ResolvedAcceptor<A>>)
        ensures
            r is Some <==> self.config is Acceptor,
            self.config matches TlsListenerConfig::Acceptor(a)
                ==> r matches Some(x) && *x == a,
    {
        match &self.config {
            TlsListenerConfig::Acceptor(acceptor) => Some(acceptor),
            _ => None,
        }
    }

    /// The addresses that still must be bound, or nothing once the listener
    /// owns a socket. The caller binds a listening socket against them, in
    /// order, and hands it back through `socket_bound`.
    pub fn bind_addrs(&self) -> (r: Option<&Vec<String>>)
        ensures
            r is Some <==> self.connection is Addrs,
            r matches Some(addrs) ==> addrs@ == self.connection->Addrs_0@,
    {
        self.connection.bind_addrs()
    }

    /// Adopt the listening socket that was bound for this listener: the
    /// one-directional transition of the connection source, taken at most
    /// once.
    pub fn socket_bound(&mut self, tcp: async_std::net::TcpListener)
        requires
            old(self).connection is Addrs,
        ensures
            final(self).connection matches TcpConnection::Connected(t) && t == tcp,
            final(self).config == old(self).config,
    {
        self.connection.socket_bound(tcp);
    }

    /// The textual form of the listener: that of its connection source.
    pub fn connection_string(&self) -> (r: String)
        ensures
            self.connection matches TcpConnection::Addrs(addrs)
                ==> r@ == crate::connection::joined_urls(addrs.deep_view()),
            self.connection is Connected
                ==> exists|a: Seq<char>| r@ == #[trigger] crate::connection::https_url(a),
    {
        self.connection.connection_string()
    }

    /// The listening socket, once the connection source is connected.
    pub fn socket(&self) -> (r: Option<&async_std::net::TcpListener>)
        ensures
            r is Some <==> self.connection is Connected,
            r matches Some(tcp) ==> *tcp == self.connection->Connected_0,
    {
        self.connection.socket()
    }
}

} // verus!
