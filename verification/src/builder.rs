use vstd::prelude::*;
use vstd::string::StringExecFns;

use crate::acceptor::ResolvedAcceptor;
use crate::config::TlsListenerConfig;
use crate::connection::TcpConnection;
use crate::error::ErrorKind;
use crate::error::TlsError;
use crate::listener::TlsListener;

verus! {

/// The quoted form of a text.
pub open spec fn quoted(s: Seq<char>) -> Seq<char> {
    "\""@ + s + "\""@
}

/// The textual form of an optional path: its quoted text, or `None`.
pub open spec fn opt_quoted_text(o: Option<Seq<char>>) -> Seq<char> {
    match o {
        Some(s) => "Some(\""@ + s + "\")"@,
        None => "None"@,
    }
}

/// The quoted forms of a list of texts, joined by a comma and a space.
pub open spec fn quoted_list(items: Seq<Seq<char>>) -> Seq<char>
    decreases items.len(),
{
    if items.len() == 0 {
        Seq::empty()
    } else if items.len() == 1 {
        quoted(items[0])
    } else {
        quoted_list(items.drop_last()) + ", "@ + quoted(items.last())
    }
}

/// The textual form of an optional address list: the quoted addresses in
/// brackets, or `None`.
pub open spec fn opt_addrs_text(o: Option<Seq<Seq<char>>>) -> Seq<char> {
    match o {
        Some(items) => "Some(["@ + quoted_list(items) + "])"@,
        None => "None"@,
    }
}

/// The view of an optional text.
pub open spec fn opt_view(o: Option<String>) -> Option<Seq<char>> {
    match o {
        Some(s) => Some(s@),
        None => None,
    }
}

/// Append the textual form of an optional path.
fn append_opt_quoted(out: &mut String, o: &Option<String>)
    ensures
        final(out)@ == old(out)@ + opt_quoted_text(opt_view(*o)),
{
    match o {
        Some(s) => {
            out.append("Some(\"");
            out.append(s.as_str());
            out.append("\")");
            assert(out@ =~= old(out)@ + opt_quoted_text(opt_view(*o)));
        },
        None => {
            out.append("None");
        },
    }
}

/// Append the quoted forms of a list of addresses, joined by a comma and a
/// space.
fn append_quoted_list(out: &mut String, items: &Vec<String>)
    ensures
        final(out)@ == old(out)@ + quoted_list(items.deep_view()),
{
    let ghost dv = items.deep_view();
    let mut i: usize = 0;
    assert(out@ =~= old(out)@ + quoted_list(dv.take(0)));
    while i < items.len()
        invariant
            i <= items.len(),
            dv == items.deep_view(),
            out@ == old(out)@ + quoted_list(dv.take(i as int)),
        decreases items.len() - i,
    {
        if i > 0 {
            out.append(", ");
        }
        out.append("\"");
        out.append(items[i].as_str());
        out.append("\"");
        proof {
            let prev = dv.take(i as int);
            let next = dv.take(i as int + 1);
            assert(next.drop_last() =~= prev);
            assert(next.last() == dv[i as int]);
            assert(out@ =~= old(out)@ + quoted_list(next));
        }
        i = i + 1;
    }
    proof {
        assert(dv.take(items.len() as int) =~= dv);
    }
}

/// A builder for listeners: a transient, consumed-on-use aggregation of the
/// optional configuration inputs. `finish` validates that exactly one input
/// of each mutually exclusive group was supplied and produces a listener, or
/// fails with an invalid-input error.
pub struct TlsListenerBuilder<A> {
    /// The path of a PEM private-key file, in either PKCS#8 or RSA encoding.
    pub key: Option<String>,
    /// The path of a PEM certificate-chain file.
    pub cert: Option<String>,
    /// A prebuilt rustls server configuration.
    pub config: Option<rustls::ServerConfig>,
    /// A custom acceptance strategy that owns the whole TLS negotiation.
    pub tls_acceptor: Option<A>,
    /// An already-listening socket to adopt.
    pub tcp: Option<async_std::net::TcpListener>,
    /// Socket addresses, as `host:port` text, to bind in order.
    pub addrs: Option<Vec<String>>,
}

impl<A> Default for TlsListenerBuilder<A> {
    /// A builder with no input supplied.
    fn default() -> (r: Self)
        ensures
            r.key is None,
            r.cert is None,
            r.config is None,
            r.tls_acceptor is None,
            r.tcp is None,
            r.addrs is None,
    {
        TlsListenerBuilder {
            key: None,
            cert: None,
            config: None,
            tls_acceptor: None,
            tcp: None,
            addrs: None,
        }
    }
}

impl<A> TlsListenerBuilder<A> {
    pub(crate) fn new() -> (r: Self)
        ensures
            r.key is None,
            r.cert is None,
            r.config is None,
            r.tls_acceptor is None,
            r.tcp is None,
            r.addrs is None,
    {
        Self::default()
    }

    /// Supply the path of a private-key file, in either PKCS#8 or RSA
    /// encoding. Mutually exclusive with a prebuilt configuration, and used
    /// together with `cert`.
    pub fn key(self, path: &str) -> (r: Self)
        ensures
            r.key matches Some(p) && p@ == path@,
            r.cert == self.cert,
            r.config == self.config,
            r.tls_acceptor == self.tls_acceptor,
            r.tcp == self.tcp,
            r.addrs == self.addrs,
    {
        TlsListenerBuilder { key: Some(path.to_owned()), ..self }
    }

    /// Supply the path of a certificate-chain file. Mutually exclusive with a
    /// prebuilt configuration, and used together with `key`.
    pub fn cert(self, path: &str) -> (r: Self)
        ensures
            r.cert matches Some(p) && p@ == path@,
            r.key == self.key,
            r.config == self.config,
            r.tls_acceptor == self.tls_acceptor,
            r.tcp == self.tcp,
            r.addrs == self.addrs,
    {
        TlsListenerBuilder { cert: Some(path.to_owned()), ..self }
    }

    /// Supply a prebuilt rustls server configuration. Mutually exclusive with
    /// `key` and `cert`, but open to any configuration choice.
    pub fn config(self, config: rustls::ServerConfig) -> (r: Self)
        ensures
            r.config matches Some(c) && c == config,
            r.key == self.key,
            r.cert == self.cert,
            r.tls_acceptor == self.tls_acceptor,
            r.tcp == self.tcp,
            r.addrs == self.addrs,
    {
        TlsListenerBuilder { config: Some(config), ..self }
    }

    /// Supply a custom acceptance strategy. Mutually exclusive with `key`,
    /// `cert` and `config`, but it owns the whole TLS negotiation, including
    /// multiplexing other protocols that the HTTP layer should ignore.
    pub fn tls_acceptor(self, acceptor: A) -> (r: Self)
        ensures
            r.tls_acceptor matches Some(a) && a == acceptor,
            r.key == self.key,
            r.cert == self.cert,
            r.config == self.config,
            r.tcp == self.tcp,
            r.addrs == self.addrs,
    {
        TlsListenerBuilder { tls_acceptor: Some(acceptor), ..self }
    }

    /// Supply an already-listening socket to build this listener on.
    /// Mutually exclusive with `addrs`, but one of the two is mandatory.
    pub fn tcp(self, tcp: async_std::net::TcpListener) -> (r: Self)
        ensures
            r.tcp matches Some(t) && t == tcp,
            r.key == self.key,
            r.cert == self.cert,
            r.config == self.config,
            r.tls_acceptor == self.tls_acceptor,
            r.addrs == self.addrs,
    {
        TlsListenerBuilder { tcp: Some(tcp), ..self }
    }

    /// Supply the socket addresses to bind, as `host:port` text, in order.
    /// Mutually exclusive with `tcp`, but one of the two is mandatory.
    pub fn addrs(self, addrs: Vec<String>) -> (r: Self)
        ensures
            r.addrs matches Some(a) && a == addrs,
            r.key == self.key,
            r.cert == self.cert,
            r.config == self.config,
            r.tls_acceptor == self.tls_acceptor,
            r.tcp == self.tcp,
    {
        TlsListenerBuilder { addrs: Some(addrs), ..self }
    }

    /// The textual form of the builder's fields: the paths and addresses in
    /// full; for a prebuilt configuration, a custom acceptance strategy and
    /// an adopted socket, only their presence.
    pub open spec fn describe_text(&self) -> Seq<char> {
        "TlsListenerBuilder { key: "@ + opt_quoted_text(opt_view(self.key)) + ", cert: "@
            + opt_quoted_text(opt_view(self.cert)) + ", config: "@
            + (if self.config is Some { "Some(ServerConfig { .. })"@ } else { "None"@ })
            + ", tls_acceptor: "@
            + (if self.tls_acceptor is Some { "Some(_)"@ } else { "None"@ })
            + ", tcp: "@ + (if self.tcp is Some { "Some(_)"@ } else { "None"@ })
            + ", addrs: "@
            + opt_addrs_text(match self.addrs {
                Some(addrs) => Some(addrs.deep_view()),
                None => None,
            }) + " }"@
    }

    /// The textual form of the builder, for inspection while configuring.
    pub fn describe(&self) -> (r: String)
        ensures
            r@ == self.describe_text(),
    {
        let mut out = "TlsListenerBuilder { key: ".to_owned();
        append_opt_quoted(&mut out, &self.key);
        out.append(", cert: ");
        append_opt_quoted(&mut out, &self.cert);
        out.append(", config: ");
        if self.config.is_some() {
            out.append("Some(ServerConfig { .. })");
        } else {
            out.append("None");
        }
        out.append(", tls_acceptor: ");
        if self.tls_acceptor.is_some() {
            out.append("Some(_)");
        } else {
            out.append("None");
        }
        out.append(", tcp: ");
        if self.tcp.is_some() {
            out.append("Some(_)");
        } else {
            out.append("None");
        }
        out.append(", addrs: ");
        match &self.addrs {
            Some(addrs) => {
                out.append("Some([");
                append_quoted_list(&mut out, addrs);
                out.append("])");
            },
            None => {
                out.append("None");
            },
        }
        out.append(" }");
        assert(out@ =~= self.describe_text());
        out
    }

    /// Whether exactly one TLS input was supplied: either the cert and key
    /// paths together, or a prebuilt configuration, or a custom acceptance
    /// strategy.
    pub open spec fn tls_input_valid(&self) -> bool {
        ||| self.key is Some && self.cert is Some && self.config is None
            && self.tls_acceptor is None
        ||| self.key is None && self.cert is None && self.config is Some
            && self.tls_acceptor is None
        ||| self.key is None && self.cert is None && self.config is None
            && self.tls_acceptor is Some
    }

    /// Whether exactly one connection input was supplied: an already-bound
    /// socket, or a set of at least one address to bind. An empty address
    /// list supplies nothing to bind, so it counts as no input.
    pub open spec fn socket_input_valid(&self) -> bool {
        ||| self.tcp is Some && self.addrs is None
        ||| self.tcp is None && (self.addrs matches Some(addrs) && addrs.len() > 0)
    }

    /// Finish building: validate the mutually exclusive inputs and produce a
    /// listener, or fail with an invalid-input error. Succeeds exactly when
    /// one TLS input and one connection input were supplied, where a
    /// connection input is an adopted socket or at least one address.
    pub fn finish(self) -> (r: Result<TlsListener<A>, TlsError>)
        ensures
            r is Ok <==> self.tls_input_valid() && self.socket_input_valid(),
            r matches Ok(l) ==> {
                &&& self.key matches Some(k) ==> (self.cert matches Some(c)
                    && l.config matches TlsListenerConfig::Paths { cert, key }
                    && cert == c && key == k)
                &&& self.config matches Some(c)
                    ==> l.config matches TlsListenerConfig::ServerConfig(x) && x == c
                &&& self.tls_acceptor matches Some(a)
                    ==> l.config matches TlsListenerConfig::Acceptor(x)
                    && x matches ResolvedAcceptor::Custom(y) && y == a
                &&& self.tcp matches Some(t)
                    ==> l.connection matches TcpConnection::Connected(x) && x == t
                &&& self.addrs matches Some(a)
                    ==> l.connection matches TcpConnection::Addrs(x) && x == a
            },
            r matches Err(e) ==> {
                &&& e.kind == ErrorKind::InvalidInput
                &&& !self.tls_input_valid()
                    ==> e.message@ == "need exactly one of cert + key, ServerConfig, or TLS acceptor"@
                &&& self.tls_input_valid() && !self.socket_input_valid()
                    ==> e.message@ == "either tcp or addrs are required"@
            },
    {
        let TlsListenerBuilder { key, cert, config, tls_acceptor, tcp, addrs } = self;

        let config = match (key, cert, config, tls_acceptor) {
            (Some(key), Some(cert), None, None) => TlsListenerConfig::Paths { key, cert },
            (None, None, Some(config), None) => TlsListenerConfig::ServerConfig(config),
            (None, None, None, Some(tls_acceptor)) => TlsListenerConfig::Acceptor(
                ResolvedAcceptor::Custom(tls_acceptor),
            ),
            _ => {
                return Err(TlsError::invalid_input(
                    "need exactly one of cert + key, ServerConfig, or TLS acceptor",
                ));
            },
        };

        let connection = match (tcp, addrs) {
            (Some(tcp), None) => TcpConnection::Connected(tcp),
            (None, Some(addrs)) => {
                if addrs.len() == 0 {
                    return Err(TlsError::invalid_input("either tcp or addrs are required"));
                }
                TcpConnection::Addrs(addrs)
            },
            _ => {
                return Err(TlsError::invalid_input("either tcp or addrs are required"));
            },
        };

        Ok(TlsListener::new(connection, config))
    }
}

} // verus!
