//! A database: where it is, how to authenticate to it, and the options that say so.

use vstd::prelude::*;

use crate::error::{
    adbc, bare, invalid_option, plain_error, unsettable_option, AdbcError, AdbcErrorView,
    ErrorHelper, FlightSqlErrorHelper, Status,
};
use crate::options::{DebugText, Double, OptionDatabase, OptionValue};
use crate::text::{concat2, copy_opt, opt_view, same_text};
use crate::transport::{TlsOptions, TlsOptionsView, Transport, TransportView};

verus! {

pub const OPTION_TOKEN: &'static str = "adbc.flightsql.token";

pub const OPTION_CA_CERT_PATH: &'static str = "adbc.flightsql.tls.ca_cert_path";

pub const OPTION_SKIP_VERIFY: &'static str = "adbc.flightsql.tls.skip_verify";

pub const OPTION_OVERRIDE_HOSTNAME: &'static str = "adbc.flightsql.tls.override_hostname";

pub const OPTION_MTLS_CERT_CHAIN: &'static str = "adbc.flightsql.tls.mtls_cert_chain";

pub const OPTION_MTLS_PRIVATE_KEY: &'static str = "adbc.flightsql.tls.mtls_private_key";

pub const OPTION_AUTHORITY: &'static str = "adbc.connection.authority";

pub const OPTION_OAUTH_FLOW: &'static str = "adbc.flightsql.oauth.flow";

pub const OPTION_OAUTH_CLIENT_ID: &'static str = "adbc.flightsql.oauth.client_id";

pub const OPTION_OAUTH_CLIENT_SECRET: &'static str = "adbc.flightsql.oauth.client_secret";

pub const OPTION_OAUTH_TOKEN_URL: &'static str = "adbc.flightsql.oauth.token_url";

pub const OPTION_OAUTH_SCOPE: &'static str = "adbc.flightsql.oauth.scope";

pub const OPTION_OAUTH_SUBJECT_TOKEN: &'static str = "adbc.flightsql.oauth.subject_token";

pub const OPTION_OAUTH_ACTOR_TOKEN: &'static str = "adbc.flightsql.oauth.actor_token";

pub const OPTION_COOKIE_MIDDLEWARE: &'static str = "adbc.flightsql.cookie.middleware";

/// The parts of a URI that say how a server is reached.
pub struct UrlParts {
    pub scheme: String,
    pub host: Option<String>,
    pub port: Option<u16>,
    pub path: String,
}

/// The content of [`UrlParts`].
#[verifier::ext_equal]
pub struct UrlView {
    pub scheme: Seq<char>,
    pub host: Option<Seq<char>>,
    pub port: Option<u16>,
    pub path: Seq<char>,
}

impl View for UrlParts {
    type V = UrlView;

    open spec fn view(&self) -> UrlView {
        UrlView {
            scheme: self.scheme@,
            host: opt_view(self.host),
            port: self.port,
            path: self.path@,
        }
    }
}

/// The parts of a text that is a URI, or what is wrong with it.
pub uninterp spec fn parsed(uri: Seq<char>) -> Result<UrlView, Seq<char>>;

/// The result of parsing a URI, by its view.
pub open spec fn parse_view(r: Result<UrlParts, String>) -> Result<UrlView, Seq<char>> {
    match r {
        Ok(url) => Ok(url@),
        Err(e) => Err(e@),
    }
}

/// Parses a URI.
///
/// Trusted: what `url::Url::parse` gives depends on the text alone, and so do `scheme`, `host_str`,
/// `port` and `path` of the URL. An error is given here as the text in which it prints.
#[verifier::external_body]
fn parse_url(uri: &str) -> (r: Result<UrlParts, String>)
    ensures
        parse_view(r) == parsed(uri@),
{
    match url::Url::parse(uri) {
        Ok(url) => Ok(
            UrlParts {
                scheme: url.scheme().to_string(),
                host: url.host_str().map(|h| h.to_string()),
                port: url.port(),
                path: url.path().to_string(),
            },
        ),
        Err(e) => Err(e.to_string()),
    }
}

/// OAuth2 authentication.
#[derive(Debug)]
pub struct OAuthOptions {
    pub flow: Option<String>,
    pub client_id: Option<String>,
    pub client_secret: Option<String>,
    pub token_url: Option<String>,
    pub scope: Option<String>,
    pub subject_token: Option<String>,
    pub actor_token: Option<String>,
}

/// The content of [`OAuthOptions`].
#[verifier::ext_equal]
pub struct OAuthView {
    pub flow: Option<Seq<char>>,
    pub client_id: Option<Seq<char>>,
    pub client_secret: Option<Seq<char>>,
    pub token_url: Option<Seq<char>>,
    pub scope: Option<Seq<char>>,
    pub subject_token: Option<Seq<char>>,
    pub actor_token: Option<Seq<char>>,
}

impl View for OAuthOptions {
    type V = OAuthView;

    open spec fn view(&self) -> OAuthView {
        OAuthView {
            flow: opt_view(self.flow),
            client_id: opt_view(self.client_id),
            client_secret: opt_view(self.client_secret),
            token_url: opt_view(self.token_url),
            scope: opt_view(self.scope),
            subject_token: opt_view(self.subject_token),
            actor_token: opt_view(self.actor_token),
        }
    }
}

/// No options at all.
pub open spec fn no_oauth_options() -> OAuthView {
    OAuthView {
        flow: None,
        client_id: None,
        client_secret: None,
        token_url: None,
        scope: None,
        subject_token: None,
        actor_token: None,
    }
}

impl Default for OAuthOptions {
    fn default() -> (r: Self)
        ensures
            r@ == no_oauth_options(),
    {
        OAuthOptions {
            flow: None,
            client_id: None,
            client_secret: None,
            token_url: None,
            scope: None,
            subject_token: None,
            actor_token: None,
        }
    }
}

/// A database of a Flight SQL server.
#[derive(Debug)]
pub struct FlightSqlDatabase {
    pub uri: Option<String>,
    pub username: Option<String>,
    pub password: Option<String>,
    pub token: Option<String>,
    pub handle: Option<tokio::runtime::Handle>,
    pub tls_opts: TlsOptions,
    pub oauth: OAuthOptions,
    pub cookie_middleware: bool,
    pub transport: Transport,
    pub tls: bool,
    pub host: String,
    pub port: u16,
    pub unix_socket_path: Option<String>,
}

/// The content of a [`FlightSqlDatabase`].
#[verifier::ext_equal]
pub struct DatabaseView {
    pub uri: Option<Seq<char>>,
    pub username: Option<Seq<char>>,
    pub password: Option<Seq<char>>,
    pub token: Option<Seq<char>>,
    pub handle: Option<tokio::runtime::Handle>,
    pub tls_opts: TlsOptionsView,
    pub oauth: OAuthView,
    pub cookie_middleware: bool,
    pub transport: TransportView,
    pub tls: bool,
    pub host: Seq<char>,
    pub port: u16,
    pub unix_socket_path: Option<Seq<char>>,
}

impl View for FlightSqlDatabase {
    type V = DatabaseView;

    open spec fn view(&self) -> DatabaseView {
        DatabaseView {
            uri: opt_view(self.uri),
            username: opt_view(self.username),
            password: opt_view(self.password),
            token: opt_view(self.token),
            handle: self.handle,
            tls_opts: self.tls_opts@,
            oauth: self.oauth@,
            cookie_middleware: self.cookie_middleware,
            transport: self.transport@,
            tls: self.tls,
            host: self.host@,
            port: self.port,
            unix_socket_path: opt_view(self.unix_socket_path),
        }
    }
}

/// A host, or the local one.
pub open spec fn host_or_local(host: Option<Seq<char>>) -> Seq<char> {
    match host {
        Some(h) => h,
        None => "localhost"@,
    }
}

/// The transport that a URI stands for, by its scheme. A host defaults to the local one, a port to
/// 50051 in plaintext and to 443 with TLS.
pub open spec fn transport_of(url: UrlView) -> Option<TransportView> {
    if url.scheme == "grpc"@ {
        Some(
            TransportView::Plaintext {
                host: host_or_local(url.host),
                port: match url.port {
                    Some(p) => p,
                    None => 50051,
                },
            },
        )
    } else if url.scheme == "grpc+tls"@ {
        Some(
            TransportView::Tls {
                host: host_or_local(url.host),
                port: match url.port {
                    Some(p) => p,
                    None => 443,
                },
            },
        )
    } else if url.scheme == "grpc+unix"@ {
        Some(TransportView::Unix { path: url.path })
    } else {
        None
    }
}

impl DatabaseView {
    /// With another transport. A Unix domain socket counts as the local host, port 0.
    pub open spec fn with_transport(self, transport: TransportView) -> DatabaseView {
        DatabaseView {
            transport,
            tls: transport is Tls,
            host: match transport {
                TransportView::Plaintext { host, .. } => host,
                TransportView::Tls { host, .. } => host,
                TransportView::Unix { .. } => "localhost"@,
            },
            port: match transport {
                TransportView::Plaintext { port, .. } => port,
                TransportView::Tls { port, .. } => port,
                TransportView::Unix { .. } => 0,
            },
            unix_socket_path: match transport {
                TransportView::Unix { path } => Some(path),
                _ => None,
            },
            ..self
        }
    }

    /// What taking over a parsed URI leads to.
    pub open spec fn at_url(self, url: Result<UrlView, Seq<char>>) -> Result<
        DatabaseView,
        AdbcErrorView,
    > {
        match url {
            Err(text) => Err(
                adbc(
                    bare(Status::InvalidArguments).message("invalid URI: "@ + text).context(
                        "parsing connection URI"@,
                    ),
                ),
            ),
            Ok(url) => match transport_of(url) {
                Some(transport) => Ok(self.with_transport(transport)),
                None => Err(
                    adbc(
                        bare(Status::InvalidArguments).message(
                            "unsupported URI scheme: "@ + url.scheme,
                        ).context("parsing connection URI"@),
                    ),
                ),
            },
        }
    }
}

/// The error for a value that has to be a string.
pub open spec fn must_be_string(name: Seq<char>) -> AdbcErrorView {
    adbc(bare(Status::InvalidArguments).message(name + " option must be a string"@))
}

/// The text that an option value gives under a key.
pub open spec fn string_under(key: Seq<char>, value: OptionValue) -> Result<
    Seq<char>,
    AdbcErrorView,
> {
    match value {
        OptionValue::String(s) => Ok(s@),
        _ => Err(adbc(invalid_option(key, value).message("must be a string"@))),
    }
}

/// The key is one of those whose values are kept.
pub open spec fn is_database_key(key: Seq<char>) -> bool {
    ||| key == OPTION_TOKEN@
    ||| key == OPTION_CA_CERT_PATH@
    ||| key == OPTION_SKIP_VERIFY@
    ||| key == OPTION_OVERRIDE_HOSTNAME@
    ||| key == OPTION_MTLS_CERT_CHAIN@
    ||| key == OPTION_MTLS_PRIVATE_KEY@
    ||| key == OPTION_AUTHORITY@
    ||| key == OPTION_OAUTH_FLOW@
    ||| key == OPTION_OAUTH_CLIENT_ID@
    ||| key == OPTION_OAUTH_CLIENT_SECRET@
    ||| key == OPTION_OAUTH_TOKEN_URL@
    ||| key == OPTION_OAUTH_SCOPE@
    ||| key == OPTION_OAUTH_SUBJECT_TOKEN@
    ||| key == OPTION_OAUTH_ACTOR_TOKEN@
    ||| key == OPTION_COOKIE_MIDDLEWARE@
}

/// The flow is one that OAuth tokens are exchanged by.
pub open spec fn is_flow(flow: Seq<char>) -> bool {
    flow == "client_credentials"@ || flow == "token_exchange"@
}

/// The text says that a switch is on.
pub open spec fn is_true(text: Seq<char>) -> bool {
    text == "true"@
}

impl DatabaseView {
    /// With a text under one of the keys whose values are kept.
    pub open spec fn with_text(self, key: Seq<char>, text: Seq<char>) -> DatabaseView {
        if key == OPTION_TOKEN@ {
            DatabaseView { token: Some(text), ..self }
        } else if key == OPTION_CA_CERT_PATH@ {
            DatabaseView {
                tls_opts: TlsOptionsView { ca_cert_path: Some(text), ..self.tls_opts },
                ..self
            }
        } else if key == OPTION_SKIP_VERIFY@ {
            DatabaseView {
                tls_opts: TlsOptionsView { skip_verify: is_true(text), ..self.tls_opts },
                ..self
            }
        } else if key == OPTION_OVERRIDE_HOSTNAME@ {
            DatabaseView {
                tls_opts: TlsOptionsView { override_hostname: Some(text), ..self.tls_opts },
                ..self
            }
        } else if key == OPTION_MTLS_CERT_CHAIN@ {
            DatabaseView {
                tls_opts: TlsOptionsView { mtls_cert_chain: Some(text), ..self.tls_opts },
                ..self
            }
        } else if key == OPTION_MTLS_PRIVATE_KEY@ {
            DatabaseView {
                tls_opts: TlsOptionsView { mtls_private_key: Some(text), ..self.tls_opts },
                ..self
            }
        } else if key == OPTION_AUTHORITY@ {
            DatabaseView {
                tls_opts: TlsOptionsView { authority: Some(text), ..self.tls_opts },
                ..self
            }
        } else if key == OPTION_OAUTH_FLOW@ {
            DatabaseView { oauth: OAuthView { flow: Some(text), ..self.oauth }, ..self }
        } else if key == OPTION_OAUTH_CLIENT_ID@ {
            DatabaseView { oauth: OAuthView { client_id: Some(text), ..self.oauth }, ..self }
        } else if key == OPTION_OAUTH_CLIENT_SECRET@ {
            DatabaseView { oauth: OAuthView { client_secret: Some(text), ..self.oauth }, ..self }
        } else if key == OPTION_OAUTH_TOKEN_URL@ {
            DatabaseView { oauth: OAuthView { token_url: Some(text), ..self.oauth }, ..self }
        } else if key == OPTION_OAUTH_SCOPE@ {
            DatabaseView { oauth: OAuthView { scope: Some(text), ..self.oauth }, ..self }
        } else if key == OPTION_OAUTH_SUBJECT_TOKEN@ {
            DatabaseView { oauth: OAuthView { subject_token: Some(text), ..self.oauth }, ..self }
        } else if key == OPTION_OAUTH_ACTOR_TOKEN@ {
            DatabaseView { oauth: OAuthView { actor_token: Some(text), ..self.oauth }, ..self }
        } else {
            DatabaseView { cookie_middleware: is_true(text), ..self }
        }
    }

    /// What setting an option leads to.
    pub open spec fn with_option(self, key: OptionDatabase, value: OptionValue) -> Result<
        DatabaseView,
        AdbcErrorView,
    > {
        match key {
            OptionDatabase::Uri => match value {
                OptionValue::String(s) => match self.at_url(parsed(s@)) {
                    Ok(database) => Ok(DatabaseView { uri: Some(s@), ..database }),
                    Err(e) => Err(e),
                },
                _ => Err(must_be_string("URI"@)),
            },
            OptionDatabase::Username => match value {
                OptionValue::String(s) => Ok(DatabaseView { username: Some(s@), ..self }),
                _ => Err(must_be_string("Username"@)),
            },
            OptionDatabase::Password => match value {
                OptionValue::String(s) => Ok(DatabaseView { password: Some(s@), ..self }),
                _ => Err(must_be_string("Password"@)),
            },
            OptionDatabase::Other(key) => if !is_database_key(key@) {
                Err(adbc(unsettable_option(key.debug_view())))
            } else {
                match string_under(key.debug_view(), value) {
                    Err(e) => Err(e),
                    Ok(text) => if key@ == OPTION_OAUTH_FLOW@ && !is_flow(text) {
                        Err(
                            adbc(
                                bare(Status::InvalidArguments).message(
                                    "unsupported OAuth flow: "@ + text,
                                ),
                            ),
                        )
                    } else {
                        Ok(self.with_text(key@, text))
                    },
                }
            },
        }
    }
}

/// The error for an option that is not set.
pub open spec fn unset(message: Seq<char>) -> AdbcErrorView {
    adbc(bare(Status::NotFound).message(message))
}

/// The value of an option, or the error for one that is not set.
pub open spec fn value_or(value: Option<Seq<char>>, message: Seq<char>) -> Result<
    Seq<char>,
    AdbcErrorView,
> {
    match value {
        Some(v) => Ok(v),
        None => Err(unset(message)),
    }
}

impl DatabaseView {
    /// What reading an option as a string leads to.
    pub open spec fn option_string(self, key: OptionDatabase) -> Result<Seq<char>, AdbcErrorView> {
        match key {
            OptionDatabase::Uri => value_or(self.uri, "URI not set"@),
            OptionDatabase::Username => value_or(self.username, "Username not set"@),
            OptionDatabase::Password => Err(unset("Password is write-only"@)),
            OptionDatabase::Other(k) => if k@ == OPTION_TOKEN@ {
                value_or(self.token, "Token not set"@)
            } else if k@ == OPTION_CA_CERT_PATH@ {
                value_or(self.tls_opts.ca_cert_path, "CA cert path not set"@)
            } else if k@ == OPTION_OVERRIDE_HOSTNAME@ {
                value_or(self.tls_opts.override_hostname, "TLS hostname override not set"@)
            } else if k@ == OPTION_OAUTH_CLIENT_ID@ {
                value_or(self.oauth.client_id, "OAuth client_id not set"@)
            } else if k@ == OPTION_OAUTH_FLOW@ {
                value_or(self.oauth.flow, "OAuth flow not set"@)
            } else {
                Err(unset("Unknown or unsupported option: "@ + key.debug_view()))
            },
        }
    }
}

/// The error for an option that is read as something that it is not.
pub open spec fn unrecognized(key: OptionDatabase) -> AdbcErrorView {
    plain_error("Unrecognized option: "@ + key.debug_view(), Status::NotFound)
}

/// Reports an option that is read as something that it is not.
fn unrecognized_option(key: &OptionDatabase) -> (r: AdbcError)
    ensures
        r@ == unrecognized(*key),
{
    AdbcError::with_message_and_status(
        concat2("Unrecognized option: ", key.debug_text().as_str()),
        Status::NotFound,
    )
}

/// The value of an option, or the error for one that is not set.
fn get_or(value: &Option<String>, message: &str) -> (r: Result<String, AdbcError>)
    ensures
        text_result(r) == value_or(opt_view(*value), message@),
{
    match value {
        Some(v) => Ok(v.clone()),
        None => Err(FlightSqlErrorHelper::not_found().message(message).to_adbc()),
    }
}

/// The view of a text or an error.
pub open spec fn text_result(r: Result<String, AdbcError>) -> Result<Seq<char>, AdbcErrorView> {
    match r {
        Ok(s) => Ok(s@),
        Err(e) => Err(e@),
    }
}

impl FlightSqlDatabase {
    /// Takes over a parsed URI.
    pub fn apply_url(&mut self, url: Result<UrlParts, String>) -> (r: Result<(), AdbcError>)
        ensures
            match old(self)@.at_url(parse_view(url)) {
                Ok(database) => r is Ok && final(self)@ == database,
                Err(e) => final(self)@ == old(self)@ && (r matches Err(x) && x@ == e),
            },
    {
        let url = match url {
            Ok(url) => url,
            Err(text) => {
                return Err(
                    FlightSqlErrorHelper::invalid_argument().message(
                        concat2("invalid URI: ", text.as_str()).as_str(),
                    ).context("parsing connection URI").to_adbc(),
                );
            },
        };
        proof {
            reveal_strlit("grpc");
            reveal_strlit("grpc+tls");
            reveal_strlit("grpc+unix");
        }
        let UrlParts { scheme, host, port, path } = url;
        let is_tls = same_text(scheme.as_str(), "grpc+tls");
        if same_text(scheme.as_str(), "grpc") || is_tls {
            let host = match host {
                Some(h) => h,
                None => "localhost".to_owned(),
            };
            let port = match port {
                Some(p) => p,
                None => if is_tls {
                    443
                } else {
                    50051
                },
            };
            self.host = host.clone();
            self.port = port;
            self.tls = is_tls;
            self.unix_socket_path = None;
            self.transport = if is_tls {
                Transport::Tls { host, port }
            } else {
                Transport::Plaintext { host, port }
            };
        } else if same_text(scheme.as_str(), "grpc+unix") {
            self.host = "localhost".to_owned();
            self.port = 0;
            self.tls = false;
            self.unix_socket_path = Some(path.clone());
            self.transport = Transport::Unix { path };
        } else {
            return Err(
                FlightSqlErrorHelper::invalid_argument().message(
                    concat2("unsupported URI scheme: ", scheme.as_str()).as_str(),
                ).context("parsing connection URI").to_adbc(),
            );
        }
        Ok(())
    }

    /// Takes over a URI.
    pub fn parse_uri(&mut self, uri: &str) -> (r: Result<(), AdbcError>)
        ensures
            match old(self)@.at_url(parsed(uri@)) {
                Ok(database) => r is Ok && final(self)@ == database,
                Err(e) => final(self)@ == old(self)@ && (r matches Err(x) && x@ == e),
            },
    {
        self.apply_url(parse_url(uri))
    }

    /// Takes over a text under one of the keys whose values are kept.
    fn keep_text(&mut self, key: &str, text: String)
        requires
            is_database_key(key@),
        ensures
            final(self)@ == old(self)@.with_text(key@, text@),
    {
        if same_text(key, OPTION_TOKEN) {
            self.token = Some(text);
        } else if same_text(key, OPTION_CA_CERT_PATH) {
            self.tls_opts.ca_cert_path = Some(text);
        } else if same_text(key, OPTION_SKIP_VERIFY) {
            self.tls_opts.skip_verify = same_text(text.as_str(), "true");
        } else if same_text(key, OPTION_OVERRIDE_HOSTNAME) {
            self.tls_opts.override_hostname = Some(text);
        } else if same_text(key, OPTION_MTLS_CERT_CHAIN) {
            self.tls_opts.mtls_cert_chain = Some(text);
        } else if same_text(key, OPTION_MTLS_PRIVATE_KEY) {
            self.tls_opts.mtls_private_key = Some(text);
        } else if same_text(key, OPTION_AUTHORITY) {
            self.tls_opts.authority = Some(text);
        } else if same_text(key, OPTION_OAUTH_FLOW) {
            self.oauth.flow = Some(text);
        } else if same_text(key, OPTION_OAUTH_CLIENT_ID) {
            self.oauth.client_id = Some(text);
        } else if same_text(key, OPTION_OAUTH_CLIENT_SECRET) {
            self.oauth.client_secret = Some(text);
        } else if same_text(key, OPTION_OAUTH_TOKEN_URL) {
            self.oauth.token_url = Some(text);
        } else if same_text(key, OPTION_OAUTH_SCOPE) {
            self.oauth.scope = Some(text);
        } else if same_text(key, OPTION_OAUTH_SUBJECT_TOKEN) {
            self.oauth.subject_token = Some(text);
        } else if same_text(key, OPTION_OAUTH_ACTOR_TOKEN) {
            self.oauth.actor_token = Some(text);
        } else {
            self.cookie_middleware = same_text(text.as_str(), "true");
        }
    }

    /// Sets an option.
    pub fn set_option(&mut self, key: OptionDatabase, value: OptionValue) -> (r: Result<
        (),
        AdbcError,
    >)
        ensures
            match old(self)@.with_option(key, value) {
                Ok(database) => r is Ok && final(self)@ == database,
                Err(e) => final(self)@ == old(self)@ && (r matches Err(x) && x@ == e),
            },
    {
        match key {
            OptionDatabase::Uri => match value {
                OptionValue::String(s) => {
                    match self.parse_uri(s.as_str()) {
                        Ok(()) => {
                            self.uri = Some(s);
                            Ok(())
                        },
                        Err(e) => Err(e),
                    }
                },
                _ => Err(string_needed("URI")),
            },
            OptionDatabase::Username => match value {
                OptionValue::String(s) => {
                    self.username = Some(s);
                    Ok(())
                },
                _ => Err(string_needed("Username")),
            },
            OptionDatabase::Password => match value {
                OptionValue::String(s) => {
                    self.password = Some(s);
                    Ok(())
                },
                _ => Err(string_needed("Password")),
            },
            OptionDatabase::Other(key) => {
                if !test_database_key(key.as_str()) {
                    return Err(FlightSqlErrorHelper::set_unknown_option(&key).to_adbc());
                }
                match FlightSqlErrorHelper::option_as_string(&key, &value) {
                    Err(e) => Err(e.to_adbc()),
                    Ok(text) => {
                        if same_text(key.as_str(), OPTION_OAUTH_FLOW) && !test_flow(
                            text.as_str(),
                        ) {
                            return Err(
                                FlightSqlErrorHelper::invalid_argument().message(
                                    concat2("unsupported OAuth flow: ", text.as_str()).as_str(),
                                ).to_adbc(),
                            );
                        }
                        self.keep_text(key.as_str(), text);
                        Ok(())
                    },
                }
            },
        }
    }

    /// Reads an option as a string.
    pub fn get_option_string(&self, key: OptionDatabase) -> (r: Result<String, AdbcError>)
        ensures
            text_result(r) == self@.option_string(key),
    {
        match &key {
            OptionDatabase::Uri => get_or(&self.uri, "URI not set"),
            OptionDatabase::Username => get_or(&self.username, "Username not set"),
            OptionDatabase::Password => get_or(&None, "Password is write-only"),
            OptionDatabase::Other(k) => if same_text(k.as_str(), OPTION_TOKEN) {
                get_or(&self.token, "Token not set")
            } else if same_text(k.as_str(), OPTION_CA_CERT_PATH) {
                get_or(&self.tls_opts.ca_cert_path, "CA cert path not set")
            } else if same_text(k.as_str(), OPTION_OVERRIDE_HOSTNAME) {
                get_or(&self.tls_opts.override_hostname, "TLS hostname override not set")
            } else if same_text(k.as_str(), OPTION_OAUTH_CLIENT_ID) {
                get_or(&self.oauth.client_id, "OAuth client_id not set")
            } else if same_text(k.as_str(), OPTION_OAUTH_FLOW) {
                get_or(&self.oauth.flow, "OAuth flow not set")
            } else {
                Err(
                    FlightSqlErrorHelper::not_found().message(
                        concat2(
                            "Unknown or unsupported option: ",
                            key.debug_text().as_str(),
                        ).as_str(),
                    ).to_adbc(),
                )
            },
        }
    }

    /// Reads an option as bytes: no option is.
    pub fn get_option_bytes(&self, key: OptionDatabase) -> (r: Result<Vec<u8>, AdbcError>)
        ensures
            r matches Err(e) && e@ == unrecognized(key),
    {
        Err(unrecognized_option(&key))
    }

    /// Reads an option as an integer: no option is.
    pub fn get_option_int(&self, key: OptionDatabase) -> (r: Result<i64, AdbcError>)
        ensures
            r matches Err(e) && e@ == unrecognized(key),
    {
        Err(unrecognized_option(&key))
    }

    /// Reads an option as a double: no option is.
    pub fn get_option_double(&self, key: OptionDatabase) -> (r: Result<Double, AdbcError>)
        ensures
            r matches Err(e) && e@ == unrecognized(key),
    {
        Err(unrecognized_option(&key))
    }
}

/// Reports a value that has to be a string.
fn string_needed(name: &str) -> (r: AdbcError)
    ensures
        r@ == must_be_string(name@),
{
    FlightSqlErrorHelper::invalid_argument().message(
        concat2(name, " option must be a string").as_str(),
    ).to_adbc()
}

/// Whether the key is one of those whose values are kept.
fn test_database_key(key: &str) -> (r: bool)
    ensures
        r == is_database_key(key@),
{
    same_text(key, OPTION_TOKEN) || same_text(key, OPTION_CA_CERT_PATH) || same_text(
        key,
        OPTION_SKIP_VERIFY,
    ) || same_text(key, OPTION_OVERRIDE_HOSTNAME) || same_text(key, OPTION_MTLS_CERT_CHAIN)
        || same_text(key, OPTION_MTLS_PRIVATE_KEY) || same_text(key, OPTION_AUTHORITY) || same_text(
        key,
        OPTION_OAUTH_FLOW,
    ) || same_text(key, OPTION_OAUTH_CLIENT_ID) || same_text(key, OPTION_OAUTH_CLIENT_SECRET)
        || same_text(key, OPTION_OAUTH_TOKEN_URL) || same_text(key, OPTION_OAUTH_SCOPE)
        || same_text(key, OPTION_OAUTH_SUBJECT_TOKEN) || same_text(key, OPTION_OAUTH_ACTOR_TOKEN)
        || same_text(key, OPTION_COOKIE_MIDDLEWARE)
}

/// Whether the flow is one that OAuth tokens are exchanged by.
fn test_flow(flow: &str) -> (r: bool)
    ensures
        r == is_flow(flow@),
{
    same_text(flow, "client_credentials") || same_text(flow, "token_exchange")
}

/// A request for an OAuth token: where to send it, the client's credentials, and the parameters of
/// the form.
pub struct OAuthRequest {
    pub token_url: String,
    pub client_id: String,
    pub client_secret: String,
    pub params: Vec<(String, String)>,
}

/// The content of an [`OAuthRequest`].
#[verifier::ext_equal]
pub struct OAuthRequestView {
    pub token_url: Seq<char>,
    pub client_id: Seq<char>,
    pub client_secret: Seq<char>,
    pub params: Seq<(Seq<char>, Seq<char>)>,
}

/// The view of a list of parameters.
pub open spec fn params_view(params: Seq<(String, String)>) -> Seq<(Seq<char>, Seq<char>)> {
    params.map_values(|p: (String, String)| (p.0@, p.1@))
}

impl View for OAuthRequest {
    type V = OAuthRequestView;

    open spec fn view(&self) -> OAuthRequestView {
        OAuthRequestView {
            token_url: self.token_url@,
            client_id: self.client_id@,
            client_secret: self.client_secret@,
            params: params_view(self.params@),
        }
    }
}

/// The error for a setting of OAuth that is missing.
pub open spec fn oauth_needs(message: Seq<char>) -> AdbcErrorView {
    adbc(bare(Status::InvalidArguments).message(message))
}

/// The parameters for a token of the client itself.
pub open spec fn client_params() -> Seq<(Seq<char>, Seq<char>)> {
    seq![("grant_type"@, "client_credentials"@)]
}

/// The parameters for exchanging a subject's token, on behalf of an actor where there is one.
pub open spec fn exchange_params(subject: Seq<char>, actor: Option<Seq<char>>) -> Seq<
    (Seq<char>, Seq<char>),
> {
    let base = seq![
        ("grant_type"@, "urn:ietf:params:oauth:grant-type:token-exchange"@),
        ("subject_token"@, subject),
        ("subject_token_type"@, "urn:ietf:params:oauth:token-type:access_token"@),
    ];
    match actor {
        Some(a) => base.push(("actor_token"@, a)).push(
            ("actor_token_type"@, "urn:ietf:params:oauth:token-type:access_token"@),
        ),
        None => base,
    }
}

/// The parameters with a scope, where there is one.
pub open spec fn scoped(
    params: Seq<(Seq<char>, Seq<char>)>,
    scope: Option<Seq<char>>,
) -> Seq<(Seq<char>, Seq<char>)> {
    match scope {
        Some(s) => params.push(("scope"@, s)),
        None => params,
    }
}

impl OAuthView {
    /// The flow, or nothing where none is set.
    pub open spec fn flow_name(self) -> Seq<char> {
        match self.flow {
            Some(f) => f,
            None => ""@,
        }
    }

    /// The request for a token, or what is missing for it.
    pub open spec fn request(self) -> Result<OAuthRequestView, AdbcErrorView> {
        match (self.client_id, self.client_secret, self.token_url) {
            (None, _, _) => Err(oauth_needs("OAuth client_id required"@)),
            (_, None, _) => Err(oauth_needs("OAuth client_secret required"@)),
            (_, _, None) => Err(oauth_needs("OAuth token_url required"@)),
            (Some(client_id), Some(client_secret), Some(token_url)) => {
                let request = OAuthRequestView {
                    token_url,
                    client_id,
                    client_secret,
                    params: Seq::empty(),
                };
                if self.flow_name() == "client_credentials"@ {
                    Ok(OAuthRequestView { params: scoped(client_params(), self.scope), ..request })
                } else if self.flow_name() == "token_exchange"@ {
                    match self.subject_token {
                        None => Err(
                            oauth_needs("OAuth subject_token required for token_exchange flow"@),
                        ),
                        Some(subject) => Ok(
                            OAuthRequestView {
                                params: scoped(
                                    exchange_params(subject, self.actor_token),
                                    self.scope,
                                ),
                                ..request
                            },
                        ),
                    }
                } else {
                    Err(
                        adbc(
                            bare(Status::InvalidArguments).message(
                                "unsupported OAuth flow: "@ + self.flow_name(),
                            ).context("specify 'client_credentials' or 'token_exchange'"@),
                        ),
                    )
                }
            },
        }
    }
}

/// Adds a parameter.
fn add_param(params: &mut Vec<(String, String)>, name: &str, value: &str)
    ensures
        params_view(final(params)@) == params_view(old(params)@).push((name@, value@)),
{
    let ghost before = params@;
    params.push((name.to_owned(), value.to_owned()));
    assert(params_view(params@) =~= params_view(before).push((name@, value@)));
}

/// Reports a setting of OAuth that is missing.
fn oauth_missing(message: &str) -> (r: AdbcError)
    ensures
        r@ == oauth_needs(message@),
{
    FlightSqlErrorHelper::invalid_argument().message(message).to_adbc()
}

/// What a token server replied.
pub enum OAuthReply {
    /// The request could not be sent.
    Failed(String),
    /// The server answered with a status that is no success.
    Refused { status: String, body: String },
    /// The answer could not be read.
    Unreadable(String),
    /// The server granted a token.
    Granted(String),
}

/// What the reply of a token server leads to.
pub open spec fn oauth_outcome(reply: OAuthReply) -> Result<Seq<char>, AdbcErrorView> {
    let context = "exchanging OAuth token"@;
    match reply {
        OAuthReply::Failed(text) => Err(
            adbc(
                bare(Status::IO).message("OAuth token request failed: "@ + text@).context(context),
            ),
        ),
        OAuthReply::Refused { status, body } => Err(
            adbc(
                bare(Status::Unauthenticated).message(
                    "OAuth token request returned "@ + status@ + ": "@ + body@,
                ).context(context),
            ),
        ),
        OAuthReply::Unreadable(text) => Err(
            adbc(
                bare(Status::IO).message(
                    "failed to parse OAuth token response: "@ + text@,
                ).context(context),
            ),
        ),
        OAuthReply::Granted(token) => Ok(token@),
    }
}

/// Takes the token from the reply of a token server.
pub fn oauth_token(reply: OAuthReply) -> (r: Result<String, AdbcError>)
    ensures
        text_result(r) == oauth_outcome(reply),
{
    match reply {
        OAuthReply::Failed(text) => Err(
            FlightSqlErrorHelper::io().message(
                concat2("OAuth token request failed: ", text.as_str()).as_str(),
            ).context("exchanging OAuth token").to_adbc(),
        ),
        OAuthReply::Refused { status, body } => {
            let mut message = concat2("OAuth token request returned ", status.as_str());
            message.append(": ");
            message.append(body.as_str());
            Err(
                FlightSqlErrorHelper::unauthenticated().message(message.as_str()).context(
                    "exchanging OAuth token",
                ).to_adbc(),
            )
        },
        OAuthReply::Unreadable(text) => Err(
            FlightSqlErrorHelper::io().message(
                concat2("failed to parse OAuth token response: ", text.as_str()).as_str(),
            ).context("exchanging OAuth token").to_adbc(),
        ),
        OAuthReply::Granted(token) => Ok(token),
    }
}

/// What a connection is made with.
pub struct ConnectionSettings {
    pub transport: Transport,
    pub tls_opts: TlsOptions,
    pub username: Option<String>,
    pub password: Option<String>,
    pub token: Option<String>,
    pub cookie_middleware: bool,
}

/// The content of [`ConnectionSettings`].
#[verifier::ext_equal]
pub struct SettingsView {
    pub transport: TransportView,
    pub tls_opts: TlsOptionsView,
    pub username: Option<Seq<char>>,
    pub password: Option<Seq<char>>,
    pub token: Option<Seq<char>>,
    pub cookie_middleware: bool,
}

impl View for ConnectionSettings {
    type V = SettingsView;

    open spec fn view(&self) -> SettingsView {
        SettingsView {
            transport: self.transport@,
            tls_opts: self.tls_opts@,
            username: opt_view(self.username),
            password: opt_view(self.password),
            token: opt_view(self.token),
            cookie_middleware: self.cookie_middleware,
        }
    }
}

/// What is to be done for a new connection.
pub enum ConnectStep {
    /// A token is to be exchanged first.
    Exchange(OAuthRequest),
    /// The connection can be made.
    Connect(ConnectionSettings),
}

/// The content of a [`ConnectStep`].
#[verifier::ext_equal]
pub enum ConnectView {
    Exchange(OAuthRequestView),
    Connect(SettingsView),
}

impl View for ConnectStep {
    type V = ConnectView;

    open spec fn view(&self) -> ConnectView {
        match self {
            ConnectStep::Exchange(request) => ConnectView::Exchange(request@),
            ConnectStep::Connect(settings) => ConnectView::Connect(settings@),
        }
    }
}

/// The view of settings or an error.
pub open spec fn settings_result(r: Result<ConnectionSettings, AdbcError>) -> Result<
    SettingsView,
    AdbcErrorView,
> {
    match r {
        Ok(s) => Ok(s@),
        Err(e) => Err(e@),
    }
}

/// The view of a step or an error.
pub open spec fn step_result(r: Result<ConnectStep, AdbcError>) -> Result<
    ConnectView,
    AdbcErrorView,
> {
    match r {
        Ok(s) => Ok(s@),
        Err(e) => Err(e@),
    }
}

/// The view of a request or an error.
pub open spec fn request_result(r: Result<OAuthRequest, AdbcError>) -> Result<
    OAuthRequestView,
    AdbcErrorView,
> {
    match r {
        Ok(s) => Ok(s@),
        Err(e) => Err(e@),
    }
}

impl DatabaseView {
    /// What a connection with a token is made with: a client certificate needs its key, and a key
    /// its certificate.
    pub open spec fn settings(self, token: Option<Seq<char>>) -> Result<
        SettingsView,
        AdbcErrorView,
    > {
        if self.tls_opts.mtls_cert_chain is Some != self.tls_opts.mtls_private_key is Some {
            Err(
                adbc(
                    bare(Status::InvalidArguments).message(
                        "mTLS requires both cert_chain and private_key together"@,
                    ).context("creating database connection"@),
                ),
            )
        } else {
            Ok(
                SettingsView {
                    transport: self.transport,
                    tls_opts: self.tls_opts,
                    username: self.username,
                    password: self.password,
                    token,
                    cookie_middleware: self.cookie_middleware,
                },
            )
        }
    }

    /// What making a connection leads to first.
    pub open spec fn connection(self) -> Result<ConnectView, AdbcErrorView> {
        if self.oauth.flow is Some {
            if self.username is Some || self.token is Some {
                Err(
                    adbc(
                        bare(Status::InvalidArguments).message(
                            "cannot use both OAuth and username/password or token authentication"@,
                        ).context("creating database connection"@),
                    ),
                )
            } else {
                match self.oauth.request() {
                    Ok(request) => Ok(ConnectView::Exchange(request)),
                    Err(e) => Err(e),
                }
            }
        } else {
            match self.settings(self.token) {
                Ok(settings) => Ok(ConnectView::Connect(settings)),
                Err(e) => Err(e),
            }
        }
    }
}

impl FlightSqlDatabase {
    /// The request for an OAuth token.
    pub fn exchange_oauth_token(&self) -> (r: Result<OAuthRequest, AdbcError>)
        ensures
            request_result(r) == self@.oauth.request(),
    {
        let flow = match &self.oauth.flow {
            Some(f) => f.as_str(),
            None => "",
        };
        let client_id = match &self.oauth.client_id {
            Some(v) => v.clone(),
            None => {
                return Err(oauth_missing("OAuth client_id required"));
            },
        };
        let client_secret = match &self.oauth.client_secret {
            Some(v) => v.clone(),
            None => {
                return Err(oauth_missing("OAuth client_secret required"));
            },
        };
        let token_url = match &self.oauth.token_url {
            Some(v) => v.clone(),
            None => {
                return Err(oauth_missing("OAuth token_url required"));
            },
        };
        let mut params: Vec<(String, String)> = Vec::new();
        assert(params_view(params@) =~= Seq::<(Seq<char>, Seq<char>)>::empty());
        if same_text(flow, "client_credentials") {
            add_param(&mut params, "grant_type", "client_credentials");
            assert(params_view(params@) =~= client_params());
        } else if same_text(flow, "token_exchange") {
            let subject_token = match &self.oauth.subject_token {
                Some(v) => v,
                None => {
                    return Err(
                        oauth_missing("OAuth subject_token required for token_exchange flow"),
                    );
                },
            };
            add_param(
                &mut params,
                "grant_type",
                "urn:ietf:params:oauth:grant-type:token-exchange",
            );
            add_param(&mut params, "subject_token", subject_token.as_str());
            add_param(
                &mut params,
                "subject_token_type",
                "urn:ietf:params:oauth:token-type:access_token",
            );
            assert(params_view(params@) =~= exchange_params(subject_token@, None));
            if let Some(actor) = &self.oauth.actor_token {
                add_param(&mut params, "actor_token", actor.as_str());
                add_param(
                    &mut params,
                    "actor_token_type",
                    "urn:ietf:params:oauth:token-type:access_token",
                );
            }
        } else {
            return Err(
                FlightSqlErrorHelper::invalid_argument().message(
                    concat2("unsupported OAuth flow: ", flow).as_str(),
                ).context("specify 'client_credentials' or 'token_exchange'").to_adbc(),
            );
        }
        if let Some(scope) = &self.oauth.scope {
            add_param(&mut params, "scope", scope.as_str());
        }
        Ok(OAuthRequest { token_url, client_id, client_secret, params })
    }

    /// What a connection with a token is made with.
    fn settings(&self, token: Option<String>) -> (r: Result<ConnectionSettings, AdbcError>)
        ensures
            settings_result(r) == self@.settings(opt_view(token)),
    {
        let has_cert_chain = self.tls_opts.mtls_cert_chain.is_some();
        let has_private_key = self.tls_opts.mtls_private_key.is_some();
        if has_cert_chain != has_private_key {
            return Err(
                FlightSqlErrorHelper::invalid_argument().message(
                    "mTLS requires both cert_chain and private_key together",
                ).context("creating database connection").to_adbc(),
            );
        }
        Ok(
            ConnectionSettings {
                transport: self.transport.clone(),
                tls_opts: self.tls_opts.clone(),
                username: copy_opt(&self.username),
                password: copy_opt(&self.password),
                token,
                cookie_middleware: self.cookie_middleware,
            },
        )
    }

    /// Finds out what is to be done for a new connection.
    pub fn new_connection(&self) -> (r: Result<ConnectStep, AdbcError>)
        ensures
            step_result(r) == self@.connection(),
    {
        if self.oauth.flow.is_some() {
            if self.username.is_some() || self.token.is_some() {
                return Err(
                    FlightSqlErrorHelper::invalid_argument().message(
                        "cannot use both OAuth and username/password or token authentication",
                    ).context("creating database connection").to_adbc(),
                );
            }
            match self.exchange_oauth_token() {
                Ok(request) => Ok(ConnectStep::Exchange(request)),
                Err(e) => Err(e),
            }
        } else {
            match self.settings(copy_opt(&self.token)) {
                Ok(settings) => Ok(ConnectStep::Connect(settings)),
                Err(e) => Err(e),
            }
        }
    }

    /// Goes on with a new connection when a token server replied.
    pub fn connect_with_token(&self, reply: OAuthReply) -> (r: Result<
        ConnectionSettings,
        AdbcError,
    >)
        ensures
            settings_result(r) == (match oauth_outcome(reply) {
                Ok(token) => self@.settings(Some(token)),
                Err(e) => Err(e),
            }),
    {
        match oauth_token(reply) {
            Ok(token) => self.settings(Some(token)),
            Err(e) => Err(e),
        }
    }
}

/// What a failing start of the asynchronous runtime is reported as.
pub fn runtime_error(text: &str) -> (r: AdbcError)
    ensures
        r@ == adbc(
            bare(Status::Internal).message("failed to create tokio runtime: "@ + text@).context(
                "creating database connection"@,
            ),
        ),
{
    FlightSqlErrorHelper::internal_no_location().message(
        concat2("failed to create tokio runtime: ", text).as_str(),
    ).context("creating database connection").to_adbc()
}

/// An option that was set is read back: the URI, the user name, and each text option that can be
/// read.
pub proof fn law_option_is_read_back(
    database: DatabaseView,
    key: OptionDatabase,
    value: OptionValue,
)
    requires
        database.with_option(key, value) is Ok,
        !(key is Password),
        key matches OptionDatabase::Other(k) ==> k@ == OPTION_TOKEN@ || k@ == OPTION_CA_CERT_PATH@
            || k@ == OPTION_OVERRIDE_HOSTNAME@ || k@ == OPTION_OAUTH_CLIENT_ID@ || k@
            == OPTION_OAUTH_FLOW@,
    ensures
        value is String,
        database.with_option(key, value)->Ok_0.option_string(key) == Ok::<Seq<char>, AdbcErrorView>(
            value->String_0@,
        ),
{
    lemma_keys_differ();
}

/// The keys whose values can be read are told apart, from each other and from the switch for TLS.
proof fn lemma_keys_differ()
    ensures
        OPTION_TOKEN@ != OPTION_CA_CERT_PATH@,
        OPTION_TOKEN@ != OPTION_OVERRIDE_HOSTNAME@,
        OPTION_TOKEN@ != OPTION_OAUTH_CLIENT_ID@,
        OPTION_TOKEN@ != OPTION_OAUTH_FLOW@,
        OPTION_CA_CERT_PATH@ != OPTION_OVERRIDE_HOSTNAME@,
        OPTION_CA_CERT_PATH@ != OPTION_OAUTH_CLIENT_ID@,
        OPTION_CA_CERT_PATH@ != OPTION_OAUTH_FLOW@,
        OPTION_OVERRIDE_HOSTNAME@ != OPTION_OAUTH_CLIENT_ID@,
        OPTION_OVERRIDE_HOSTNAME@ != OPTION_OAUTH_FLOW@,
        OPTION_OAUTH_CLIENT_ID@ != OPTION_OAUTH_FLOW@,
        OPTION_SKIP_VERIFY@ != OPTION_OVERRIDE_HOSTNAME@,
        OPTION_SKIP_VERIFY@ != OPTION_OAUTH_CLIENT_ID@,
        OPTION_SKIP_VERIFY@ != OPTION_OAUTH_FLOW@,
        OPTION_MTLS_CERT_CHAIN@ != OPTION_OAUTH_CLIENT_ID@,
        OPTION_MTLS_CERT_CHAIN@ != OPTION_OAUTH_FLOW@,
        OPTION_MTLS_PRIVATE_KEY@ != OPTION_OAUTH_CLIENT_ID@,
        OPTION_MTLS_PRIVATE_KEY@ != OPTION_OAUTH_FLOW@,
        OPTION_AUTHORITY@ != OPTION_OAUTH_CLIENT_ID@,
        OPTION_AUTHORITY@ != OPTION_OAUTH_FLOW@,
{
    reveal_strlit("adbc.flightsql.token");
    reveal_strlit("adbc.flightsql.tls.ca_cert_path");
    reveal_strlit("adbc.flightsql.tls.skip_verify");
    reveal_strlit("adbc.flightsql.tls.override_hostname");
    reveal_strlit("adbc.flightsql.tls.mtls_cert_chain");
    reveal_strlit("adbc.flightsql.tls.mtls_private_key");
    reveal_strlit("adbc.connection.authority");
    reveal_strlit("adbc.flightsql.oauth.flow");
    reveal_strlit("adbc.flightsql.oauth.client_id");
    assert(OPTION_SKIP_VERIFY@[19] != OPTION_CA_CERT_PATH@[19]);
    assert(OPTION_OVERRIDE_HOSTNAME@.len() != OPTION_OAUTH_CLIENT_ID@.len());
    assert(OPTION_MTLS_CERT_CHAIN@[15] != OPTION_OAUTH_CLIENT_ID@[15]);
    assert(OPTION_CA_CERT_PATH@[15] != OPTION_OAUTH_CLIENT_ID@[15]);
    assert(OPTION_SKIP_VERIFY@[15] != OPTION_OAUTH_CLIENT_ID@[15]);
    assert(OPTION_AUTHORITY@[5] != OPTION_OAUTH_FLOW@[5]);
    assert(OPTION_MTLS_PRIVATE_KEY@.len() != OPTION_OAUTH_FLOW@.len());
}

/// A password is never read back.
pub proof fn law_password_is_write_only(database: DatabaseView)
    ensures
        database.option_string(OptionDatabase::Password) == Err::<Seq<char>, AdbcErrorView>(
            unset("Password is write-only"@),
        ),
{
}

/// The host, the port, the TLS switch and the path of the socket that stand beside the transport
/// are those of the transport.
pub open spec fn transport_is_mirrored(database: DatabaseView) -> bool {
    database == database.with_transport(database.transport)
}

/// Setting an option keeps the fields that mirror the transport in step with it.
pub proof fn law_transport_stays_mirrored(
    database: DatabaseView,
    key: OptionDatabase,
    value: OptionValue,
)
    requires
        transport_is_mirrored(database),
        database.with_option(key, value) is Ok,
    ensures
        transport_is_mirrored(database.with_option(key, value)->Ok_0),
{
}

/// OAuth excludes the other ways to authenticate: with a flow set, no connection is made with a
/// user name or a token of the database's own.
pub proof fn law_oauth_excludes_others(database: DatabaseView)
    requires
        database.oauth.flow is Some,
        database.username is Some || database.token is Some,
    ensures
        database.connection() is Err,
{
}

/// Half an identity is refused: no connection is made with a client certificate and no key for it,
/// or with a key and no certificate.
pub proof fn law_half_an_identity_is_refused(database: DatabaseView, token: Option<Seq<char>>)
    requires
        (database.tls_opts.mtls_cert_chain is Some) != (database.tls_opts.mtls_private_key is Some),
    ensures
        database.settings(token) is Err,
        !(database.connection() matches Ok(ConnectView::Connect(_))),
{
}

} // verus!
