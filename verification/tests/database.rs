use adbc_flightsql::connection::{authentication, Authentication};
use adbc_flightsql::database::{
    runtime_error, ConnectStep, FlightSqlDatabase, OAuthOptions, OAuthReply, UrlParts,
};
use adbc_flightsql::driver::FlightSqlDriver;
use adbc_flightsql::error::Status;
use adbc_flightsql::options::{OptionDatabase, OptionValue};
use adbc_flightsql::transport::{TlsOptions, Transport};

fn make_db() -> FlightSqlDatabase {
    FlightSqlDatabase {
        uri: None,
        username: None,
        password: None,
        token: None,
        handle: None,
        tls_opts: TlsOptions::default(),
        oauth: OAuthOptions::default(),
        cookie_middleware: false,
        transport: Transport::Plaintext {
            host: "localhost".to_string(),
            port: 50051,
        },
        tls: false,
        host: "localhost".to_string(),
        port: 50051,
        unix_socket_path: None,
    }
}

fn other(key: &str) -> OptionDatabase {
    OptionDatabase::Other(key.into())
}

fn text(value: &str) -> OptionValue {
    OptionValue::String(value.into())
}

#[test]
fn test_set_and_get_uri_option() {
    let mut db = make_db();
    db.set_option(OptionDatabase::Uri, OptionValue::String("grpc://host:31337".into())).unwrap();
    let uri = db.get_option_string(OptionDatabase::Uri).unwrap();
    assert_eq!(uri, "grpc://host:31337");
}

#[test]
fn test_set_and_get_username_option() {
    let mut db = make_db();
    db.set_option(OptionDatabase::Username, OptionValue::String("alice".into())).unwrap();
    let user = db.get_option_string(OptionDatabase::Username).unwrap();
    assert_eq!(user, "alice");
}

#[test]
fn test_password_is_write_only() {
    let mut db = make_db();
    db.set_option(OptionDatabase::Password, OptionValue::String("secret".into())).unwrap();
    let result = db.get_option_string(OptionDatabase::Password);
    assert!(result.is_err());
    assert_eq!(result.unwrap_err().status, Status::NotFound);
}

#[test]
fn test_set_and_get_token_option() {
    let mut db = make_db();
    db.set_option(
        OptionDatabase::Other("adbc.flightsql.token".into()),
        OptionValue::String("bearer-token-123".into()),
    )
    .unwrap();
    let token =
        db.get_option_string(OptionDatabase::Other("adbc.flightsql.token".into())).unwrap();
    assert_eq!(token, "bearer-token-123");
}

#[test]
fn test_unknown_option_returns_not_implemented() {
    let mut db = make_db();
    let result = db.set_option(
        OptionDatabase::Other("adbc.flightsql.nonexistent".into()),
        OptionValue::String("value".into()),
    );
    assert!(result.is_err());
    assert_eq!(result.unwrap_err().status, Status::NotImplemented);
}

#[test]
fn test_set_ca_cert_path_option() {
    let mut db = make_db();
    db.set_option(
        OptionDatabase::Other("adbc.flightsql.tls.ca_cert_path".into()),
        OptionValue::String("/path/to/ca.pem".into()),
    )
    .unwrap();
    let path = db
        .get_option_string(OptionDatabase::Other("adbc.flightsql.tls.ca_cert_path".into()))
        .unwrap();
    assert_eq!(path, "/path/to/ca.pem");
}

#[test]
fn test_set_uri_parses_host_port_tls() {
    let mut db = make_db();
    db.set_option(OptionDatabase::Uri, OptionValue::String("grpc+tls://myserver:9999".into()))
        .unwrap();
    assert!(matches!(db.transport, Transport::Tls { .. }));
    assert!(db.tls);
    assert_eq!(db.host, "myserver");
    assert_eq!(db.port, 9999);
}

#[test]
fn test_uri_defaults_plaintext_port() {
    let mut db = make_db();
    db.set_option(OptionDatabase::Uri, OptionValue::String("grpc://server".into())).unwrap();
    assert!(!db.tls);
    assert_eq!(db.port, 50051);
}

#[test]
fn test_unix_socket_uri() {
    let mut db = make_db();
    db.set_option(
        OptionDatabase::Uri,
        OptionValue::String("grpc+unix:///var/run/flightsql.sock".into()),
    )
    .unwrap();
    match db.transport {
        Transport::Unix { ref path } => assert_eq!(path, "/var/run/flightsql.sock"),
        _ => panic!("expected Unix transport"),
    }
}

#[test]
fn test_oauth_flow_options() {
    let mut db = make_db();
    db.set_option(
        OptionDatabase::Other("adbc.flightsql.oauth.flow".into()),
        OptionValue::String("client_credentials".into()),
    )
    .unwrap();
    db.set_option(
        OptionDatabase::Other("adbc.flightsql.oauth.client_id".into()),
        OptionValue::String("my-client".into()),
    )
    .unwrap();
    assert_eq!(db.oauth.flow.as_deref(), Some("client_credentials"));
    assert_eq!(db.oauth.client_id.as_deref(), Some("my-client"));
}

#[test]
fn test_oauth_invalid_flow() {
    let mut db = make_db();
    let result = db.set_option(
        OptionDatabase::Other("adbc.flightsql.oauth.flow".into()),
        OptionValue::String("invalid_flow".into()),
    );
    assert!(result.is_err());
}

#[test]
fn test_mtls_options() {
    let mut db = make_db();
    db.set_option(
        OptionDatabase::Other("adbc.flightsql.tls.mtls_cert_chain".into()),
        OptionValue::String("CERT PEM...".into()),
    )
    .unwrap();
    assert_eq!(db.tls_opts.mtls_cert_chain.as_deref(), Some("CERT PEM..."));
}

#[test]
fn test_tls_skip_verify() {
    let mut db = make_db();
    db.set_option(
        OptionDatabase::Other("adbc.flightsql.tls.skip_verify".into()),
        OptionValue::String("true".into()),
    )
    .unwrap();
    assert!(db.tls_opts.skip_verify);
}

#[test]
fn test_cookie_middleware() {
    let mut db = make_db();
    db.set_option(
        OptionDatabase::Other("adbc.flightsql.cookie.middleware".into()),
        OptionValue::String("true".into()),
    )
    .unwrap();
    assert!(db.cookie_middleware);
}

#[test]
fn uris_default_their_hosts_and_ports() {
    let mut db = make_db();
    db.parse_uri("grpc+tls://server").unwrap();
    assert_eq!((db.host.as_str(), db.port, db.tls), ("server", 443, true));
    db.parse_uri("grpc://").unwrap();
    assert_eq!((db.host.as_str(), db.port, db.tls), ("localhost", 50051, false));
    db.parse_uri("grpc+unix:///run/s").unwrap();
    assert_eq!((db.host.as_str(), db.port, db.tls), ("localhost", 0, false));
    assert_eq!(db.unix_socket_path.as_deref(), Some("/run/s"));
    db.apply_url(Ok(UrlParts {
        scheme: "grpc+tls".to_string(),
        host: None,
        port: Some(1),
        path: String::new(),
    }))
    .unwrap();
    assert_eq!((db.host.as_str(), db.port, db.tls), ("localhost", 1, true));
    assert_eq!(db.unix_socket_path, None);
}

#[test]
fn a_refused_uri_changes_nothing() {
    let mut db = make_db();
    let scheme = db.set_option(OptionDatabase::Uri, text("http://host:1")).unwrap_err();
    assert_eq!(scheme.status, Status::InvalidArguments);
    assert_eq!(
        scheme.message,
        "[adbc_flightsql] could not parsing connection URI: unsupported URI scheme: http"
    );
    let broken = db.set_option(OptionDatabase::Uri, text("not a uri")).unwrap_err();
    assert_eq!(broken.status, Status::InvalidArguments);
    assert_eq!(
        broken.message,
        format!(
            "[adbc_flightsql] could not parsing connection URI: invalid URI: {}",
            url::Url::parse("not a uri").unwrap_err()
        )
    );
    let number = db.set_option(OptionDatabase::Uri, OptionValue::Int(1)).unwrap_err();
    assert_eq!(number.message, "[adbc_flightsql] URI option must be a string");
    assert_eq!(db.uri, None);
    assert_eq!((db.host.as_str(), db.port, db.tls), ("localhost", 50051, false));
}

#[test]
fn every_option_reaches_its_field() {
    let mut db = make_db();
    for (key, value) in [
        ("adbc.flightsql.token", "token"),
        ("adbc.flightsql.tls.ca_cert_path", "ca"),
        ("adbc.flightsql.tls.skip_verify", "yes"),
        ("adbc.flightsql.tls.override_hostname", "name"),
        ("adbc.flightsql.tls.mtls_cert_chain", "chain"),
        ("adbc.flightsql.tls.mtls_private_key", "key"),
        ("adbc.connection.authority", "authority"),
        ("adbc.flightsql.oauth.flow", "token_exchange"),
        ("adbc.flightsql.oauth.client_id", "id"),
        ("adbc.flightsql.oauth.client_secret", "secret"),
        ("adbc.flightsql.oauth.token_url", "url"),
        ("adbc.flightsql.oauth.scope", "scope"),
        ("adbc.flightsql.oauth.subject_token", "subject"),
        ("adbc.flightsql.oauth.actor_token", "actor"),
        ("adbc.flightsql.cookie.middleware", "on"),
    ] {
        db.set_option(other(key), text(value)).unwrap();
        let refused = db.set_option(other(key), OptionValue::Int(3)).unwrap_err();
        assert_eq!(
            refused.message,
            format!(
                "[adbc_flightsql] could not invalid option {key:?}=Int(3): must be a string"
            )
        );
    }
    assert_eq!(db.token.as_deref(), Some("token"));
    assert_eq!(db.tls_opts.ca_cert_path.as_deref(), Some("ca"));
    assert!(!db.tls_opts.skip_verify);
    assert_eq!(db.tls_opts.override_hostname.as_deref(), Some("name"));
    assert_eq!(db.tls_opts.mtls_cert_chain.as_deref(), Some("chain"));
    assert_eq!(db.tls_opts.mtls_private_key.as_deref(), Some("key"));
    assert_eq!(db.tls_opts.authority.as_deref(), Some("authority"));
    assert_eq!(db.oauth.flow.as_deref(), Some("token_exchange"));
    assert_eq!(db.oauth.client_id.as_deref(), Some("id"));
    assert_eq!(db.oauth.client_secret.as_deref(), Some("secret"));
    assert_eq!(db.oauth.token_url.as_deref(), Some("url"));
    assert_eq!(db.oauth.scope.as_deref(), Some("scope"));
    assert_eq!(db.oauth.subject_token.as_deref(), Some("subject"));
    assert_eq!(db.oauth.actor_token.as_deref(), Some("actor"));
    assert!(!db.cookie_middleware);
    for (key, value) in [
        ("adbc.flightsql.tls.override_hostname", "name"),
        ("adbc.flightsql.oauth.client_id", "id"),
        ("adbc.flightsql.oauth.flow", "token_exchange"),
    ] {
        assert_eq!(db.get_option_string(other(key)).unwrap(), value);
    }
}

#[test]
fn unset_options_are_reported() {
    let db = make_db();
    for (key, message) in [
        (OptionDatabase::Uri, "URI not set"),
        (OptionDatabase::Username, "Username not set"),
        (OptionDatabase::Password, "Password is write-only"),
        (other("adbc.flightsql.token"), "Token not set"),
        (other("adbc.flightsql.tls.ca_cert_path"), "CA cert path not set"),
        (other("adbc.flightsql.tls.override_hostname"), "TLS hostname override not set"),
        (other("adbc.flightsql.oauth.client_id"), "OAuth client_id not set"),
        (other("adbc.flightsql.oauth.flow"), "OAuth flow not set"),
        (other("what"), "Unknown or unsupported option: Other(\"what\")"),
    ] {
        let error = db.get_option_string(key).unwrap_err();
        assert_eq!(error.status, Status::NotFound);
        assert_eq!(error.message, format!("[adbc_flightsql] {message}"));
    }
    let int = db.get_option_int(OptionDatabase::Uri).unwrap_err();
    assert_eq!((int.message.as_str(), int.status), ("Unrecognized option: Uri", Status::NotFound));
    let bytes = db.get_option_bytes(other("b")).unwrap_err();
    assert_eq!(bytes.message, "Unrecognized option: Other(\"b\")");
    let number = db.get_option_double(OptionDatabase::Password).unwrap_err();
    assert_eq!(number.message, "Unrecognized option: Password");
}

#[test]
fn a_driver_makes_databases() {
    let mut driver = FlightSqlDriver::new(None);
    let db = driver.new_database().unwrap();
    assert_eq!((db.host.as_str(), db.port, db.tls), ("", 50051, false));
    assert!(db.uri.is_none() && db.username.is_none() && db.token.is_none());
    let db = driver
        .new_database_with_opts(vec![
            (OptionDatabase::Uri, text("grpc://a:1")),
            (OptionDatabase::Username, text("u")),
            (OptionDatabase::Username, text("v")),
        ])
        .unwrap();
    assert_eq!((db.host.as_str(), db.port), ("a", 1));
    assert_eq!(db.username.as_deref(), Some("v"));
    let error = driver
        .new_database_with_opts(vec![
            (OptionDatabase::Uri, text("grpc://a:1")),
            (other("bogus"), text("u")),
            (OptionDatabase::Uri, OptionValue::Int(2)),
        ])
        .unwrap_err();
    assert_eq!(error.status, Status::NotImplemented);
    assert_eq!(error.message, "[adbc_flightsql] unknown option \"bogus\"");
    assert!(FlightSqlDriver::default().handle.is_none());
}

#[test]
fn oauth_asks_for_what_is_missing() {
    let mut db = make_db();
    let message = |db: &FlightSqlDatabase| db.exchange_oauth_token().err().unwrap().message;
    assert_eq!(message(&db), "[adbc_flightsql] OAuth client_id required");
    db.oauth.client_id = Some("id".to_string());
    assert_eq!(message(&db), "[adbc_flightsql] OAuth client_secret required");
    db.oauth.client_secret = Some("secret".to_string());
    assert_eq!(message(&db), "[adbc_flightsql] OAuth token_url required");
    db.oauth.token_url = Some("http://t".to_string());
    assert_eq!(
        message(&db),
        "[adbc_flightsql] could not specify 'client_credentials' or 'token_exchange': \
         unsupported OAuth flow: "
    );
    db.oauth.flow = Some("token_exchange".to_string());
    assert_eq!(
        message(&db),
        "[adbc_flightsql] OAuth subject_token required for token_exchange flow"
    );
}

#[test]
fn oauth_requests_carry_their_parameters() {
    let mut db = make_db();
    db.oauth.flow = Some("client_credentials".to_string());
    db.oauth.client_id = Some("id".to_string());
    db.oauth.client_secret = Some("secret".to_string());
    db.oauth.token_url = Some("http://t".to_string());
    let own = |pairs: &[(&str, &str)]| -> Vec<(String, String)> {
        pairs.iter().map(|(k, v)| (k.to_string(), v.to_string())).collect()
    };
    let request = db.exchange_oauth_token().ok().unwrap();
    assert_eq!(request.token_url, "http://t");
    assert_eq!((request.client_id.as_str(), request.client_secret.as_str()), ("id", "secret"));
    assert_eq!(request.params, own(&[("grant_type", "client_credentials")]));
    db.oauth.scope = Some("all".to_string());
    db.oauth.flow = Some("token_exchange".to_string());
    db.oauth.subject_token = Some("s".to_string());
    db.oauth.actor_token = Some("a".to_string());
    let request = db.exchange_oauth_token().ok().unwrap();
    assert_eq!(
        request.params,
        own(&[
            ("grant_type", "urn:ietf:params:oauth:grant-type:token-exchange"),
            ("subject_token", "s"),
            ("subject_token_type", "urn:ietf:params:oauth:token-type:access_token"),
            ("actor_token", "a"),
            ("actor_token_type", "urn:ietf:params:oauth:token-type:access_token"),
            ("scope", "all"),
        ])
    );
}

#[test]
fn connections_are_made_in_order() {
    let mut db = make_db();
    db.token = Some("t".to_string());
    match db.new_connection().ok().unwrap() {
        ConnectStep::Connect(settings) => {
            assert_eq!(settings.token.as_deref(), Some("t"));
            assert!(matches!(authentication(&settings), Authentication::Token(t) if t == "t"));
        }
        ConnectStep::Exchange(_) => panic!("no OAuth flow is set"),
    }
    db.oauth.flow = Some("client_credentials".to_string());
    let both = db.new_connection().err().unwrap();
    assert_eq!(
        both.message,
        "[adbc_flightsql] could not creating database connection: cannot use both OAuth and \
         username/password or token authentication"
    );
    db.token = None;
    db.oauth.client_id = Some("id".to_string());
    db.oauth.client_secret = Some("secret".to_string());
    db.oauth.token_url = Some("http://t".to_string());
    assert!(matches!(db.new_connection(), Ok(ConnectStep::Exchange(_))));
    let settings = db.connect_with_token(OAuthReply::Granted("g".to_string())).ok().unwrap();
    assert_eq!(settings.token.as_deref(), Some("g"));
    db.tls_opts.mtls_cert_chain = Some("chain".to_string());
    let half = db.connect_with_token(OAuthReply::Granted("g".to_string())).err().unwrap();
    assert_eq!(
        half.message,
        "[adbc_flightsql] could not creating database connection: mTLS requires both cert_chain \
         and private_key together"
    );
    let failed = db.connect_with_token(OAuthReply::Failed("down".to_string())).err().unwrap();
    assert_eq!(failed.status, Status::IO);
    assert_eq!(
        failed.message,
        "[adbc_flightsql] could not exchanging OAuth token: OAuth token request failed: down"
    );
    let refused = db
        .connect_with_token(OAuthReply::Refused {
            status: "401 Unauthorized".to_string(),
            body: "no".to_string(),
        })
        .err()
        .unwrap();
    assert_eq!(refused.status, Status::Unauthenticated);
    assert_eq!(
        refused.message,
        "[adbc_flightsql] could not exchanging OAuth token: OAuth token request returned 401 \
         Unauthorized: no"
    );
    let odd = db.connect_with_token(OAuthReply::Unreadable("eof".to_string())).err().unwrap();
    assert_eq!(odd.status, Status::IO);
    assert_eq!(
        odd.message,
        "[adbc_flightsql] could not exchanging OAuth token: failed to parse OAuth token \
         response: eof"
    );
    let runtime = runtime_error("no threads");
    assert_eq!(runtime.status, Status::Internal);
    assert_eq!(
        runtime.message,
        "[adbc_flightsql] could not creating database connection: failed to create tokio \
         runtime: no threads"
    );
}
