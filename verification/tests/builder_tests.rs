use tide_rustls::ErrorKind;
use tide_rustls::ResolvedAcceptor;
use tide_rustls::TcpConnection;
use tide_rustls::TlsListener;
use tide_rustls::TlsListenerBuilder;
use tide_rustls::TlsListenerConfig;

fn prebuilt_config() -> rustls::ServerConfig {
    rustls::ServerConfig::new(rustls::NoClientAuth::new())
}

fn expect_err<T>(r: Result<T, tide_rustls::TlsError>) -> tide_rustls::TlsError {
    match r {
        Ok(_) => panic!("expected a configuration error"),
        Err(e) => e,
    }
}

#[test]
fn build_starts_empty() {
    let builder = TlsListener::<u8>::build();
    assert!(builder.key.is_none());
    assert!(builder.cert.is_none());
    assert!(builder.config.is_none());
    assert!(builder.tls_acceptor.is_none());
    assert!(builder.tcp.is_none());
    assert!(builder.addrs.is_none());
}

#[test]
fn finish_with_cert_key_and_one_addr_succeeds() {
    let listener = TlsListener::<u8>::build()
        .key("key.pem")
        .cert("cert.pem")
        .addrs(vec!["localhost:4433".to_string()])
        .finish()
        .unwrap();
    match &listener.config {
        TlsListenerConfig::Paths { cert, key } => {
            assert_eq!(cert.as_str(), "cert.pem");
            assert_eq!(key.as_str(), "key.pem");
        }
        _ => panic!("expected the path-based configuration"),
    }
    match &listener.connection {
        TcpConnection::Addrs(addrs) => assert_eq!(addrs, &vec!["localhost:4433".to_string()]),
        _ => panic!("expected unbound addresses"),
    }
}

#[test]
fn finish_with_prebuilt_config_succeeds() {
    let listener = TlsListener::<u8>::build()
        .config(prebuilt_config())
        .addrs(vec!["localhost:4433".to_string()])
        .finish()
        .unwrap();
    assert!(matches!(listener.config, TlsListenerConfig::ServerConfig(_)));
}

#[test]
fn finish_with_custom_acceptor_is_already_resolved() {
    let listener = TlsListener::<u8>::build()
        .tls_acceptor(7u8)
        .addrs(vec!["localhost:4433".to_string()])
        .finish()
        .unwrap();
    match listener.config {
        TlsListenerConfig::Acceptor(ResolvedAcceptor::Custom(a)) => assert_eq!(a, 7),
        _ => panic!("expected a resolved custom acceptance strategy"),
    }
}

#[test]
fn finish_with_cert_key_and_prebuilt_config_fails() {
    let err = expect_err(
        TlsListener::<u8>::build()
            .key("key.pem")
            .cert("cert.pem")
            .config(prebuilt_config())
            .addrs(vec!["localhost:4433".to_string()])
            .finish(),
    );
    assert_eq!(err.kind, ErrorKind::InvalidInput);
    assert_eq!(
        err.message,
        "need exactly one of cert + key, ServerConfig, or TLS acceptor"
    );
}

#[test]
fn finish_with_key_but_no_cert_fails() {
    let err = expect_err(
        TlsListener::<u8>::build()
            .key("key.pem")
            .addrs(vec!["localhost:4433".to_string()])
            .finish(),
    );
    assert_eq!(err.kind, ErrorKind::InvalidInput);
}

#[test]
fn finish_with_no_tls_input_fails() {
    let err = expect_err(
        TlsListener::<u8>::build()
            .addrs(vec!["localhost:4433".to_string()])
            .finish(),
    );
    assert_eq!(err.kind, ErrorKind::InvalidInput);
    assert_eq!(
        err.message,
        "need exactly one of cert + key, ServerConfig, or TLS acceptor"
    );
}

#[test]
fn finish_with_config_and_custom_acceptor_fails() {
    let err = expect_err(
        TlsListener::<u8>::build()
            .config(prebuilt_config())
            .tls_acceptor(7u8)
            .addrs(vec!["localhost:4433".to_string()])
            .finish(),
    );
    assert_eq!(err.kind, ErrorKind::InvalidInput);
}

#[test]
fn finish_with_neither_addrs_nor_socket_fails() {
    let err = expect_err(
        TlsListener::<u8>::build()
            .key("key.pem")
            .cert("cert.pem")
            .finish(),
    );
    assert_eq!(err.kind, ErrorKind::InvalidInput);
    assert_eq!(err.message, "either tcp or addrs are required");
}

#[test]
fn finish_with_empty_address_list_fails() {
    let err = expect_err(
        TlsListener::<u8>::build()
            .key("key.pem")
            .cert("cert.pem")
            .addrs(Vec::new())
            .finish(),
    );
    assert_eq!(err.kind, ErrorKind::InvalidInput);
    assert_eq!(err.message, "either tcp or addrs are required");
}

#[test]
fn finish_with_both_socket_and_addrs_fails() {
    let tcp = async_std::task::block_on(async {
        async_std::net::TcpListener::bind("127.0.0.1:0").await.unwrap()
    });
    let err = expect_err(
        TlsListener::<u8>::build()
            .key("key.pem")
            .cert("cert.pem")
            .tcp(tcp)
            .addrs(vec!["localhost:4433".to_string()])
            .finish(),
    );
    assert_eq!(err.kind, ErrorKind::InvalidInput);
    assert_eq!(err.message, "either tcp or addrs are required");
}

#[test]
fn finish_with_adopted_socket_succeeds() {
    let tcp = async_std::task::block_on(async {
        async_std::net::TcpListener::bind("127.0.0.1:0").await.unwrap()
    });
    let listener = TlsListener::<u8>::build()
        .key("key.pem")
        .cert("cert.pem")
        .tcp(tcp)
        .finish()
        .unwrap();
    assert!(matches!(listener.connection, TcpConnection::Connected(_)));
}

#[test]
fn setters_keep_the_other_fields() {
    let builder: TlsListenerBuilder<u8> = TlsListener::build()
        .key("key.pem")
        .cert("cert.pem")
        .addrs(vec!["localhost:4433".to_string()]);
    assert_eq!(builder.key.as_deref(), Some("key.pem"));
    assert_eq!(builder.cert.as_deref(), Some("cert.pem"));
    assert!(builder.config.is_none());
    assert!(builder.tls_acceptor.is_none());
    assert!(builder.tcp.is_none());
}

#[test]
fn describe_shows_paths_and_addresses() {
    let builder = TlsListener::<u8>::build()
        .key("key.pem")
        .addrs(vec!["127.0.0.1:4433".to_string(), "localhost:8443".to_string()]);
    assert_eq!(
        builder.describe(),
        "TlsListenerBuilder { key: Some(\"key.pem\"), cert: None, config: None, \
         tls_acceptor: None, tcp: None, addrs: Some([\"127.0.0.1:4433\", \"localhost:8443\"]) }"
    );
}

#[test]
fn describe_shows_presence_of_opaque_fields() {
    let builder = TlsListener::<u8>::build().config(prebuilt_config());
    assert_eq!(
        builder.describe(),
        "TlsListenerBuilder { key: None, cert: None, config: Some(ServerConfig { .. }), \
         tls_acceptor: None, tcp: None, addrs: None }"
    );
}
