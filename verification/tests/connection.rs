use adbc_flightsql::connection::{
    authentication, build_cookie_header, handshake_error, Authentication, FlightSqlConnection,
};
use adbc_flightsql::database::ConnectionSettings;
use adbc_flightsql::double::Duration;
use adbc_flightsql::error::Status;
use adbc_flightsql::options::{Double, Number, OptionConnection, OptionEffect, OptionValue};
use adbc_flightsql::transport::{TlsOptions, Transport};

fn make_connection() -> FlightSqlConnection {
    FlightSqlConnection::new(false)
}

fn other(key: &str) -> OptionConnection {
    OptionConnection::Other(key.into())
}

fn double(x: f64) -> Double {
    Double { bits: x.to_bits(), display: x.to_string(), debug: format!("{x:?}") }
}

#[test]
fn test_set_readonly_true_and_get_back() {
    let mut conn = make_connection();
    conn.set_option(OptionConnection::ReadOnly, OptionValue::String("true".into())).unwrap();
    let v = conn.get_option_int(OptionConnection::ReadOnly).unwrap();
    assert_eq!(v, 1);
}

#[test]
fn test_set_readonly_false_and_get_back() {
    let mut conn = make_connection();
    conn.set_option(OptionConnection::ReadOnly, OptionValue::String("false".into())).unwrap();
    let v = conn.get_option_int(OptionConnection::ReadOnly).unwrap();
    assert_eq!(v, 0);
}

#[test]
fn test_set_autocommit_false_and_get_back() {
    let mut conn = make_connection();
    conn.set_option(OptionConnection::AutoCommit, OptionValue::String("false".into())).unwrap();
    let v = conn.get_option_int(OptionConnection::AutoCommit).unwrap();
    assert_eq!(v, 0);
}

#[test]
fn test_set_current_catalog_and_get_back() {
    let mut conn = make_connection();
    conn.set_option(OptionConnection::CurrentCatalog, OptionValue::String("my_catalog".into()))
        .unwrap();
    let v = conn.get_option_string(OptionConnection::CurrentCatalog).unwrap();
    assert_eq!(v, "my_catalog");
}

#[test]
fn test_set_current_schema_and_get_back() {
    let mut conn = make_connection();
    conn.set_option(OptionConnection::CurrentSchema, OptionValue::String("my_schema".into()))
        .unwrap();
    let v = conn.get_option_string(OptionConnection::CurrentSchema).unwrap();
    assert_eq!(v, "my_schema");
}

#[test]
fn test_set_isolation_level_and_get_back() {
    let mut conn = make_connection();
    conn.set_option(
        OptionConnection::IsolationLevel,
        OptionValue::String("adbc.connection.transaction.isolation.serializable".into()),
    )
    .unwrap();
    let v = conn.get_option_string(OptionConnection::IsolationLevel).unwrap();
    assert_eq!(v, "adbc.connection.transaction.isolation.serializable");
}

#[test]
fn test_unknown_connection_option_returns_not_implemented() {
    let mut conn = make_connection();
    let result = conn.set_option(
        OptionConnection::Other("adbc.flightsql.nonexistent".into()),
        OptionValue::String("value".into()),
    );
    assert!(result.is_err());
    assert_eq!(result.unwrap_err().status, Status::NotImplemented);
}

#[test]
fn test_autocommit_defaults_true() {
    let conn = make_connection();
    assert_eq!(conn.autocommit, Some(true));
}

#[test]
fn session_options_are_kept_apart() {
    let mut conn = make_connection();
    let a = "adbc.flight.sql.session.option.a";
    let b = "adbc.flight.sql.session.option.b";
    conn.set_option(other(a), OptionValue::String("1".into())).unwrap();
    conn.set_option(other(b), OptionValue::String("2".into())).unwrap();
    conn.set_option(other(a), OptionValue::String("3".into())).unwrap();
    assert_eq!(conn.get_option_string(other(a)).unwrap(), "3");
    assert_eq!(conn.get_option_string(other(b)).unwrap(), "2");
    let missing = conn.get_option_string(other("adbc.flight.sql.session.option.c")).unwrap_err();
    assert_eq!(missing.status, Status::NotFound);
    assert_eq!(missing.message, "[adbc_flightsql] Session option c not set");
    let refused = conn.set_option(other(a), OptionValue::Int(1)).unwrap_err();
    assert_eq!(
        refused.message,
        "[adbc_flightsql] could not invalid option \"adbc.flight.sql.session.option.a\"=Int(1): \
         must be a string"
    );
}

#[test]
fn timeouts_are_set_through_options() {
    let mut conn = make_connection();
    let key = "adbc.flight.sql.rpc.timeout_seconds.fetch";
    let done = conn.set_option(other(key), OptionValue::Double(double(1.5))).unwrap();
    assert!(matches!(done, OptionEffect::Done));
    assert_eq!(
        conn.get_option_double(other(key)).unwrap(),
        Duration { secs: 1, nanos: 500_000_000 }
    );
    let convert = conn.set_option(other(key), OptionValue::Int(9)).unwrap();
    assert!(matches!(convert, OptionEffect::ConvertSeconds(Number::Int(9))));
    conn.set_converted_seconds(key, Some(double(9.0))).unwrap();
    assert_eq!(conn.get_option_double(other(key)).unwrap(), Duration::from_secs(9));
    let text = conn.set_option(other(key), OptionValue::String("2.5".into())).unwrap();
    assert!(matches!(text, OptionEffect::ConvertSeconds(Number::Text(t)) if t == "2.5"));
    assert!(conn.set_converted_seconds(key, None).is_err());
    let unknown = "adbc.flight.sql.rpc.timeout_seconds.bogus";
    let set = conn.set_option(other(unknown), OptionValue::Double(double(1.0))).unwrap_err();
    assert_eq!(set.status, Status::InvalidArguments);
    let get = conn.get_option_double(other(unknown)).unwrap_err();
    assert_eq!(get.status, Status::NotFound);
    let elsewhere = conn.get_option_double(OptionConnection::ReadOnly).unwrap_err();
    assert_eq!(elsewhere.message, "[adbc_flightsql] Option ReadOnly not available");
}

#[test]
fn refused_options_are_reported() {
    let mut conn = make_connection();
    let token = conn
        .set_option(other("adbc.flightsql.token"), OptionValue::String("t".into()))
        .unwrap_err();
    assert_eq!(token.status, Status::InvalidState);
    assert_eq!(
        token.message,
        "[adbc_flightsql] Set token via database option before creating connection"
    );
    let auto = conn
        .set_option(OptionConnection::AutoCommit, OptionValue::String("no".into()))
        .unwrap_err();
    assert_eq!(
        auto.message,
        "[adbc_flightsql] could not invalid option AutoCommit=String(\"no\"): must be 'true' or \
         'false'"
    );
    let catalog =
        conn.set_option(OptionConnection::CurrentCatalog, OptionValue::Int(1)).unwrap_err();
    assert_eq!(
        catalog.message,
        "[adbc_flightsql] could not invalid option CurrentCatalog=Int(1): must be a string"
    );
    for (key, message) in [
        (OptionConnection::CurrentCatalog, "CurrentCatalog not set"),
        (OptionConnection::CurrentSchema, "CurrentSchema not set"),
        (OptionConnection::IsolationLevel, "IsolationLevel not set"),
        (OptionConnection::ReadOnly, "Option ReadOnly not retrievable as string"),
        (other("x"), "Option Other(\"x\") not retrievable as string"),
    ] {
        let error = conn.get_option_string(key).unwrap_err();
        assert_eq!(error.status, Status::NotFound);
        assert_eq!(error.message, format!("[adbc_flightsql] {message}"));
    }
    let read_only = conn.get_option_int(OptionConnection::ReadOnly).unwrap_err();
    assert_eq!(read_only.message, "[adbc_flightsql] ReadOnly not set");
    let int = conn.get_option_int(OptionConnection::CurrentSchema).unwrap_err();
    assert_eq!(int.message, "[adbc_flightsql] Option CurrentSchema not retrievable as int");
    let bytes = conn.get_option_bytes(OptionConnection::AutoCommit).unwrap_err();
    assert_eq!(bytes.message, "[adbc_flightsql] Option AutoCommit not available");
    assert_eq!(conn.get_option_int(OptionConnection::AutoCommit).unwrap(), 1);
}

#[test]
fn cookies_are_sent_as_one_header() {
    let own = |pairs: &[(&str, &str)]| -> Vec<(String, String)> {
        pairs.iter().map(|(k, v)| (k.to_string(), v.to_string())).collect()
    };
    assert_eq!(build_cookie_header(&own(&[])), "");
    assert_eq!(build_cookie_header(&own(&[("a", "1")])), "a=1");
    assert_eq!(build_cookie_header(&own(&[("a", "1"), ("b", "2"), ("c", "")])), "a=1; b=2; c=");
    assert_eq!(FlightSqlConnection::new(false).cookie_header(), None);
    let mut conn = FlightSqlConnection::new(true);
    assert_eq!(conn.cookie_header(), None);
    conn.cookies = Some(own(&[("k", "v")]));
    assert_eq!(conn.cookie_header().as_deref(), Some("k=v"));
}

#[test]
fn a_password_goes_before_a_token() {
    let own = |t: Option<&str>| t.map(|s| s.to_string());
    let settings = |username, password, token| ConnectionSettings {
        transport: Transport::Unix { path: "/s".to_string() },
        tls_opts: TlsOptions::default(),
        username: own(username),
        password: own(password),
        token: own(token),
        cookie_middleware: false,
    };
    assert!(matches!(
        authentication(&settings(Some("u"), Some("p"), Some("t"))),
        Authentication::Handshake { username, password } if username == "u" && password == "p"
    ));
    assert!(matches!(
        authentication(&settings(Some("u"), None, Some("t"))),
        Authentication::Token(t) if t == "t"
    ));
    assert!(matches!(
        authentication(&settings(None, Some("p"), None)),
        Authentication::Anonymous
    ));
    let failed = handshake_error("denied");
    assert_eq!(failed.status, Status::Unauthenticated);
    assert_eq!(
        failed.message,
        "[adbc_flightsql] could not authenticating to FlightSQL server: handshake failed: denied"
    );
}

#[test]
fn some_operations_are_not_done() {
    let mut conn = make_connection();
    for (result, message) in [
        (conn.cancel(), "cancel not implemented"),
        (conn.commit(), "commit not implemented"),
        (conn.rollback(), "rollback not implemented"),
        (conn.get_statistics(), "get_statistics not implemented"),
        (conn.get_statistic_names(), "get_statistic_names not implemented"),
    ] {
        let error = result.unwrap_err();
        assert_eq!(error.status, Status::NotImplemented);
        assert_eq!(error.message, format!("[adbc_flightsql] {message}"));
    }
}
