use vstd::prelude::*;
use vstd::string::StringExecFns;

verus! {

/// The textual form of one address as served over TLS.
pub open spec fn https_url(addr: Seq<char>) -> Seq<char> {
    "https://"@ + addr
}

/// The textual form of a list of addresses as served over TLS: the URL of
/// each address, joined by a comma and a space.
pub open spec fn joined_urls(addrs: Seq<Seq<char>>) -> Seq<char>
    decreases addrs.len(),
{
    if addrs.len() == 0 {
        Seq::empty()
    } else if addrs.len() == 1 {
        https_url(addrs[0])
    } else {
        joined_urls(addrs.drop_last()) + ", "@ + https_url(addrs.last())
    }
}

/// Relies on `async_std::net::TcpListener::local_addr`: the text of the
/// address the socket is bound to. What the socket reports depends on the
/// system, so nothing more is stated.
#[verifier::external_body]
fn listener_local_addr_text(tcp: &async_std::net::TcpListener) -> Option<String> {
    tcp.local_addr().ok().map(|addr| addr.to_string())
}

/// The `https://` URL for an address text, with `[unknown]` standing in for
/// an address that could not be read.
pub fn https_url_text(addr: Option<&String>) -> (r: String)
    ensures
        addr matches Some(a) ==> r@ == https_url(a@),
        addr is None ==> r@ == https_url("[unknown]"@),
{
    let mut out = "https://".to_owned();
    match addr {
        Some(a) => {
            out.append(a.as_str());
        },
        None => {
            out.append("[unknown]");
        },
    }
    out
}

#[verifier::external_type_specification]
#[verifier::external_body]
pub struct ExTcpListener(async_std::net::TcpListener);

/// The connection source of a listener: either addresses still waiting to be
/// bound, or an owned, already-listening socket. Once `Connected`, the source
/// never reverts; the transition happens at most once, on the first start of
/// the accept loop.
pub enum TcpConnection {
    /// Socket addresses, as `host:port` text, in the order in which binding
    /// is to be attempted.
    Addrs(Vec<String>),
    /// An owned, already-listening socket.
    Connected(async_std::net::TcpListener),
}

impl TcpConnection {
    /// Whether the source holds a listening socket.
    pub open spec fn is_connected(&self) -> bool {
        self is Connected
    }

    /// The addresses that still must be bound, or nothing once the source
    /// holds a socket. The caller binds a listening socket against them, in
    /// order, and hands it back through `socket_bound`.
    pub fn bind_addrs(&self) -> (r: Option<&Vec<String>>)
        ensures
            r is Some <==> *self is Addrs,
            r matches Some(addrs) ==> addrs@ == self->Addrs_0@,
    {
        match self {
            TcpConnection::Addrs(addrs) => Some(addrs),
            TcpConnection::Connected(_) => None,
        }
    }

    /// Adopt the listening socket that was bound for this source: the
    /// one-directional transition from `Addrs` to `Connected`.
    pub fn socket_bound(&mut self, tcp: async_std::net::TcpListener)
        requires
            *old(self) is Addrs,
        ensures
            *final(self) matches TcpConnection::Connected(t) && t == tcp,
    {
        *self = TcpConnection::Connected(tcp);
    }

    /// The textual form of the connection source, as the listener displays
    /// itself: the URL of every address waiting to be bound, or the URL of
    /// the address the socket reports once the source is connected.
    pub fn connection_string(&self) -> (r: String)
        ensures
            self matches TcpConnection::Addrs(addrs) ==> r@ == joined_urls(addrs.deep_view()),
            *self is Connected ==> exists|a: Seq<char>| r@ == #[trigger] https_url(a),
    {
        match self {
            TcpConnection::Addrs(addrs) => {
                let ghost dv = addrs.deep_view();
                let mut out = String::new();
                let mut i: usize = 0;
                assert(out@ =~= joined_urls(dv.take(0)));
                while i < addrs.len()
                    invariant
                        i <= addrs.len(),
                        dv == addrs.deep_view(),
                        out@ == joined_urls(dv.take(i as int)),
                    decreases addrs.len() - i,
                {
                    if i > 0 {
                        out.append(", ");
                    }
                    out.append("https://");
                    out.append(addrs[i].as_str());
                    proof {
                        let prev = dv.take(i as int);
                        let next = dv.take(i as int + 1);
                        assert(next.drop_last() =~= prev);
                        assert(next.last() == dv[i as int]);
                        assert(out@ =~= joined_urls(next));
                    }
                    i = i + 1;
                }
                proof {
                    assert(dv.take(addrs.len() as int) =~= dv);
                }
                out
            },
            TcpConnection::Connected(tcp) => {
                let text = listener_local_addr_text(tcp);
                match text {
                    Some(addr) => {
                        let r = https_url_text(Some(&addr));
                        proof {
                            assert(r@ == https_url(addr@));
                        }
                        r
                    },
                    None => {
                        let r = https_url_text(None);
                        proof {
                            assert(r@ == https_url("[unknown]"@));
                        }
                        r
                    },
                }
            },
        }
    }

    /// The listening socket, once the source is connected.
    pub fn socket(&self) -> (r: Option<&async_std::net::TcpListener>)
        ensures
            r is Some <==> *self is Connected,
            r matches Some(tcp) ==> *tcp == self->Connected_0,
    {
        match self {
            TcpConnection::Addrs(_) => None,
            TcpConnection::Connected(tcp) => Some(tcp),
        }
    }
}

} // verus!
