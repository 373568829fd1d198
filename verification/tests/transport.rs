use adbc_flightsql::error::Status;
use adbc_flightsql::transport::{
    create_channel, create_plaintext_channel, create_tls_channel, create_unix_channel,
    tls_config_error, PemFiles, TlsOptions, Transport,
};
use tonic::transport::{Certificate, ClientTlsConfig, Endpoint, Identity};

fn no_files() -> PemFiles {
    PemFiles { ca_cert: None, cert_chain: None, private_key: None }
}

fn read(text: &str) -> Option<Result<String, String>> {
    Some(Ok(text.to_string()))
}

fn failed(text: &str) -> Option<Result<String, String>> {
    Some(Err(text.to_string()))
}

fn own(text: &str) -> Option<String> {
    Some(text.to_string())
}

fn setup(options: &TlsOptions, files: &PemFiles) -> (String, String) {
    let (endpoint, config) = create_tls_channel("host", 443, options, files).ok().unwrap();
    assert!(endpoint.get_tcp_nodelay());
    (endpoint.uri().to_string(), format!("{config:?}"))
}

#[test]
fn plaintext_endpoints_have_their_address() {
    let endpoint = create_plaintext_channel("localhost", 50051).ok().unwrap();
    assert_eq!(endpoint.uri().to_string(), "http://localhost:50051/");
    assert!(endpoint.get_tcp_nodelay());
    let error = create_plaintext_channel("not a host", 1).err().unwrap();
    assert_eq!(error.status, Status::InvalidArguments);
    assert_eq!(
        error.message,
        format!(
            "[adbc_flightsql] could not creating gRPC channel: invalid endpoint: {}",
            Endpoint::from_shared("http://not a host:1").unwrap_err()
        )
    );
}

#[test]
fn unix_endpoints_take_any_path() {
    for path in ["/run/server.sock", "", "/with space"] {
        assert!(create_unix_channel(path).is_ok());
    }
}

#[test]
fn tls_trusts_and_verifies_as_told() {
    let mut options = TlsOptions::default();
    let mut files = no_files();
    let plain = ClientTlsConfig::new().with_native_roots().domain_name("host");
    assert_eq!(
        setup(&options, &files),
        ("https://host:443/".to_string(), format!("{plain:?}"))
    );
    options.override_hostname = own("other");
    let renamed = ClientTlsConfig::new().with_native_roots().domain_name("other");
    assert_eq!(setup(&options, &files).1, format!("{renamed:?}"));
    options.skip_verify = true;
    assert_eq!(setup(&options, &files).1, format!("{plain:?}"));
    options.ca_cert_path = own("/ca");
    files.ca_cert = read("CA");
    let both = ClientTlsConfig::new()
        .ca_certificate(Certificate::from_pem("CA"))
        .with_native_roots()
        .domain_name("host");
    assert_eq!(setup(&options, &files).1, format!("{both:?}"));
    options.skip_verify = false;
    let trusted = ClientTlsConfig::new()
        .ca_certificate(Certificate::from_pem("CA"))
        .domain_name("other");
    assert_eq!(setup(&options, &files).1, format!("{trusted:?}"));
    options.authority = own("authority");
    assert_eq!(setup(&options, &files).0, "https://authority:443/");
    options.mtls_cert_chain = own("/chain");
    options.mtls_private_key = own("/key");
    files.cert_chain = read("CHAIN");
    files.private_key = read("KEY");
    let known = trusted.identity(Identity::from_pem("CHAIN", "KEY"));
    assert_eq!(setup(&options, &files).1, format!("{known:?}"));
}

#[test]
fn unreadable_files_are_reported_in_order() {
    let options = TlsOptions {
        ca_cert_path: own("/ca"),
        mtls_cert_chain: own("/chain"),
        mtls_private_key: own("/key"),
        authority: own("not a host"),
        ..TlsOptions::default()
    };
    let mut files =
        PemFiles { ca_cert: failed("a"), cert_chain: failed("b"), private_key: failed("c") };
    let message =
        |files: &PemFiles| create_tls_channel("host", 1, &options, files).err().unwrap().message;
    let told = |text: &str| format!("[adbc_flightsql] could not creating TLS channel: {text}");
    assert_eq!(message(&files), told("failed to read CA cert: a"));
    files.ca_cert = read("CA");
    assert_eq!(message(&files), told("failed to read mTLS cert chain: b"));
    files.cert_chain = read("CHAIN");
    assert_eq!(message(&files), told("failed to read mTLS private key: c"));
    files.private_key = read("KEY");
    let fault = Endpoint::from_shared("https://not a host:1").unwrap_err();
    assert_eq!(message(&files), told(&format!("invalid endpoint: {fault}")));
    let refused = tls_config_error("odd");
    assert_eq!(refused.status, Status::Internal);
    assert_eq!(refused.message, told("TLS configuration error: odd"));
}

#[test]
fn channels_follow_their_transport() {
    let options = TlsOptions::default();
    let host = "host".to_string();
    let plain = Transport::Plaintext { host: host.clone(), port: 1 };
    let made = create_channel(&plain, &options, &no_files()).ok().unwrap();
    assert!(made.tls.is_none());
    assert_eq!(made.endpoint.uri().to_string(), "http://host:1/");
    let tls = Transport::Tls { host, port: 2 };
    let made = create_channel(&tls, &options, &no_files()).ok().unwrap();
    assert!(made.tls.is_some());
    assert_eq!(made.endpoint.uri().to_string(), "https://host:2/");
    let unix = Transport::Unix { path: "/s".to_string() };
    let made = create_channel(&unix, &options, &no_files()).ok().unwrap();
    assert!(made.tls.is_none());
    let bad = Transport::Plaintext { host: "a b".to_string(), port: 1 };
    assert!(create_channel(&bad, &options, &no_files()).is_err());
}
