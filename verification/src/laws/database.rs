//! Laws of a database: its options, its URI, its OAuth requests and its connections.

use vstd::prelude::*;

use crate::connection::{authentication, Authentication};
use crate::database::{
    oauth_token, parsed, runtime_error, ConnectStep, ConnectionSettings, FlightSqlDatabase,
    OAuthReply, OAuthRequest, OAuthRequestView, UrlParts, UrlView,
};
use crate::error::{AdbcError, AdbcErrorView, Status};
use crate::laws::{holds_text, same_text_field, switches, takes, tells, tells_of};
use crate::options::{DebugText, Double, OptionDatabase, OptionValue};
use crate::transport::{TlsOptions, Transport};

verus! {

/// The key is that text.
pub open spec fn is_key(key: OptionDatabase, name: Seq<char>) -> bool {
    key matches OptionDatabase::Other(k) && k@ == name
}

/// Two transports reach the same server in the same way.
pub open spec fn same_transport(a: Transport, b: Transport) -> bool {
    match (a, b) {
        (Transport::Plaintext { host: g, port: p }, Transport::Plaintext { host: h, port: q }) => g@
            == h@ && p == q,
        (Transport::Tls { host: g, port: p }, Transport::Tls { host: h, port: q }) => g@ == h@ && p
            == q,
        (Transport::Unix { path: p }, Transport::Unix { path: q }) => p@ == q@,
        _ => false,
    }
}

/// Two sets of TLS options are the same.
pub open spec fn same_tls_options(a: TlsOptions, b: TlsOptions) -> bool {
    &&& same_text_field(a.ca_cert_path, b.ca_cert_path)
    &&& same_text_field(a.ca_cert_pem, b.ca_cert_pem)
    &&& a.skip_verify == b.skip_verify
    &&& same_text_field(a.override_hostname, b.override_hostname)
    &&& same_text_field(a.mtls_cert_chain, b.mtls_cert_chain)
    &&& same_text_field(a.mtls_private_key, b.mtls_private_key)
    &&& same_text_field(a.authority, b.authority)
}

/// Two databases are reached in the same way.
pub open spec fn same_place(a: FlightSqlDatabase, b: FlightSqlDatabase) -> bool {
    &&& same_transport(a.transport, b.transport)
    &&& a.tls == b.tls
    &&& a.host@ == b.host@
    &&& a.port == b.port
    &&& same_text_field(a.unix_socket_path, b.unix_socket_path)
}

/// Two databases agree in everything but their URIs and how they are reached.
pub open spec fn same_beside_place(a: FlightSqlDatabase, b: FlightSqlDatabase) -> bool {
    &&& same_text_field(a.username, b.username)
    &&& same_text_field(a.password, b.password)
    &&& same_text_field(a.token, b.token)
    &&& a.handle == b.handle
    &&& same_tls_options(a.tls_opts, b.tls_opts)
    &&& same_text_field(a.oauth.flow, b.oauth.flow)
    &&& same_text_field(a.oauth.client_id, b.oauth.client_id)
    &&& same_text_field(a.oauth.client_secret, b.oauth.client_secret)
    &&& same_text_field(a.oauth.token_url, b.oauth.token_url)
    &&& same_text_field(a.oauth.scope, b.oauth.scope)
    &&& same_text_field(a.oauth.subject_token, b.oauth.subject_token)
    &&& same_text_field(a.oauth.actor_token, b.oauth.actor_token)
    &&& a.cookie_middleware == b.cookie_middleware
}

/// The keys of the options are told apart.
proof fn lemma_keys_are_told_apart()
    ensures
        "adbc.flightsql.token"@.len() == 20,
        "adbc.flightsql.tls.ca_cert_path"@.len() == 31,
        "adbc.flightsql.tls.skip_verify"@.len() == 30,
        "adbc.flightsql.tls.skip_verify"@[15] == 't',
        "adbc.flightsql.tls.override_hostname"@.len() == 36,
        "adbc.flightsql.tls.mtls_cert_chain"@.len() == 34,
        "adbc.flightsql.tls.mtls_cert_chain"@[15] == 't',
        "adbc.flightsql.tls.mtls_private_key"@.len() == 35,
        "adbc.connection.authority"@.len() == 25,
        "adbc.connection.authority"@[5] == 'c',
        "adbc.flightsql.oauth.flow"@.len() == 25,
        "adbc.flightsql.oauth.flow"@[5] == 'f',
        "adbc.flightsql.oauth.client_id"@.len() == 30,
        "adbc.flightsql.oauth.client_id"@[15] == 'o',
        "adbc.flightsql.oauth.client_id"@[21] == 'c',
        "adbc.flightsql.oauth.client_secret"@.len() == 34,
        "adbc.flightsql.oauth.client_secret"@[15] == 'o',
        "adbc.flightsql.oauth.client_secret"@[21] == 'c',
        "adbc.flightsql.oauth.token_url"@.len() == 30,
        "adbc.flightsql.oauth.token_url"@[15] == 'o',
        "adbc.flightsql.oauth.token_url"@[21] == 't',
        "adbc.flightsql.oauth.scope"@.len() == 26,
        "adbc.flightsql.oauth.subject_token"@.len() == 34,
        "adbc.flightsql.oauth.subject_token"@[15] == 'o',
        "adbc.flightsql.oauth.subject_token"@[21] == 's',
        "adbc.flightsql.oauth.actor_token"@.len() == 32,
        "adbc.flightsql.oauth.actor_token"@[15] == 'o',
        "adbc.flightsql.cookie.middleware"@.len() == 32,
        "adbc.flightsql.cookie.middleware"@[15] == 'c',
{
    reveal_strlit("adbc.flightsql.token");
    reveal_strlit("adbc.flightsql.tls.ca_cert_path");
    reveal_strlit("adbc.flightsql.tls.skip_verify");
    reveal_strlit("adbc.flightsql.tls.override_hostname");
    reveal_strlit("adbc.flightsql.tls.mtls_cert_chain");
    reveal_strlit("adbc.flightsql.tls.mtls_private_key");
    reveal_strlit("adbc.connection.authority");
    reveal_strlit("adbc.flightsql.oauth.flow");
    reveal_strlit("adbc.flightsql.oauth.client_id");
    reveal_strlit("adbc.flightsql.oauth.client_secret");
    reveal_strlit("adbc.flightsql.oauth.token_url");
    reveal_strlit("adbc.flightsql.oauth.scope");
    reveal_strlit("adbc.flightsql.oauth.subject_token");
    reveal_strlit("adbc.flightsql.oauth.actor_token");
    reveal_strlit("adbc.flightsql.cookie.middleware");
}

/// An option that is taken reaches its own field and no other: each text field holds the text that
/// was set under its key, and each other field what it held before.
pub proof fn law_option_reaches_its_field(
    database: &mut FlightSqlDatabase,
    key: OptionDatabase,
    value: OptionValue,
    r: Result<(), AdbcError>,
)
    requires
        call_ensures(FlightSqlDatabase::set_option, (database, key, value), r),
        r is Ok,
    ensures
        value is String,
        ({
            let text = value->String_0@;
            let before = *old(database);
            let after = *final(database);
            &&& takes(key is Uri, text, before.uri, after.uri)
            &&& takes(key is Username, text, before.username, after.username)
            &&& takes(key is Password, text, before.password, after.password)
            &&& takes(is_key(key, "adbc.flightsql.token"@), text, before.token, after.token)
            &&& after.handle == before.handle
            &&& switches(
                is_key(key, "adbc.flightsql.cookie.middleware"@),
                text,
                before.cookie_middleware,
                after.cookie_middleware,
            )
            &&& !(key is Uri) ==> same_place(before, after)
        }),
        ({
            let text = value->String_0@;
            let before = old(database).tls_opts;
            let after = final(database).tls_opts;
            &&& takes(
                is_key(key, "adbc.flightsql.tls.ca_cert_path"@),
                text,
                before.ca_cert_path,
                after.ca_cert_path,
            )
            &&& same_text_field(before.ca_cert_pem, after.ca_cert_pem)
            &&& switches(
                is_key(key, "adbc.flightsql.tls.skip_verify"@),
                text,
                before.skip_verify,
                after.skip_verify,
            )
            &&& takes(
                is_key(key, "adbc.flightsql.tls.override_hostname"@),
                text,
                before.override_hostname,
                after.override_hostname,
            )
            &&& takes(
                is_key(key, "adbc.flightsql.tls.mtls_cert_chain"@),
                text,
                before.mtls_cert_chain,
                after.mtls_cert_chain,
            )
            &&& takes(
                is_key(key, "adbc.flightsql.tls.mtls_private_key"@),
                text,
                before.mtls_private_key,
                after.mtls_private_key,
            )
            &&& takes(
                is_key(key, "adbc.connection.authority"@),
                text,
                before.authority,
                after.authority,
            )
        }),
        ({
            let text = value->String_0@;
            let before = old(database).oauth;
            let after = final(database).oauth;
            &&& takes(is_key(key, "adbc.flightsql.oauth.flow"@), text, before.flow, after.flow)
            &&& takes(
                is_key(key, "adbc.flightsql.oauth.client_id"@),
                text,
                before.client_id,
                after.client_id,
            )
            &&& takes(
                is_key(key, "adbc.flightsql.oauth.client_secret"@),
                text,
                before.client_secret,
                after.client_secret,
            )
            &&& takes(
                is_key(key, "adbc.flightsql.oauth.token_url"@),
                text,
                before.token_url,
                after.token_url,
            )
            &&& takes(is_key(key, "adbc.flightsql.oauth.scope"@), text, before.scope, after.scope)
            &&& takes(
                is_key(key, "adbc.flightsql.oauth.subject_token"@),
                text,
                before.subject_token,
                after.subject_token,
            )
            &&& takes(
                is_key(key, "adbc.flightsql.oauth.actor_token"@),
                text,
                before.actor_token,
                after.actor_token,
            )
        }),
{
    lemma_keys_are_told_apart();
}

/// An option that is refused changes nothing.
pub proof fn law_refused_option_changes_nothing(
    database: &mut FlightSqlDatabase,
    key: OptionDatabase,
    value: OptionValue,
    r: Result<(), AdbcError>,
)
    requires
        call_ensures(FlightSqlDatabase::set_option, (database, key, value), r),
        r is Err,
    ensures
        same_text_field(old(database).uri, final(database).uri),
        same_place(*old(database), *final(database)),
        same_beside_place(*old(database), *final(database)),
{
}

/// The scheme is one that the driver knows.
pub open spec fn is_known_scheme(scheme: Seq<char>) -> bool {
    scheme == "grpc"@ || scheme == "grpc+tls"@ || scheme == "grpc+unix"@
}

/// The option is one whose texts are kept as they are.
pub open spec fn is_text_option(key: OptionDatabase) -> bool {
    ||| key is Username
    ||| key is Password
    ||| is_key(key, "adbc.flightsql.token"@)
    ||| is_key(key, "adbc.flightsql.tls.ca_cert_path"@)
    ||| is_key(key, "adbc.flightsql.tls.skip_verify"@)
    ||| is_key(key, "adbc.flightsql.tls.override_hostname"@)
    ||| is_key(key, "adbc.flightsql.tls.mtls_cert_chain"@)
    ||| is_key(key, "adbc.flightsql.tls.mtls_private_key"@)
    ||| is_key(key, "adbc.connection.authority"@)
    ||| is_key(key, "adbc.flightsql.oauth.client_id"@)
    ||| is_key(key, "adbc.flightsql.oauth.client_secret"@)
    ||| is_key(key, "adbc.flightsql.oauth.token_url"@)
    ||| is_key(key, "adbc.flightsql.oauth.scope"@)
    ||| is_key(key, "adbc.flightsql.oauth.subject_token"@)
    ||| is_key(key, "adbc.flightsql.oauth.actor_token"@)
    ||| is_key(key, "adbc.flightsql.cookie.middleware"@)
}

/// Options are taken for known keys and texts alone: a URI if it is one of a known scheme, a flow
/// if it is one of the two, every other text as it is. An unknown key is not implemented, a known
/// one with another value is an invalid argument.
pub proof fn law_options_are_taken_or_refused(
    database: &mut FlightSqlDatabase,
    key: OptionDatabase,
    value: OptionValue,
    r: Result<(), AdbcError>,
)
    requires
        call_ensures(FlightSqlDatabase::set_option, (database, key, value), r),
    ensures
        is_text_option(key) ==> (r is Ok <==> value is String),
        is_key(key, "adbc.flightsql.oauth.flow"@) ==> (r is Ok <==> value is String && (
        value->String_0@ == "client_credentials"@ || value->String_0@ == "token_exchange"@)),
        key is Uri ==> (r is Ok <==> value is String && (parsed(value->String_0@) matches Ok(url)
            && is_known_scheme(url.scheme))),
        key is Uri || is_text_option(key) || is_key(key, "adbc.flightsql.oauth.flow"@) || (
        r matches Err(e) && e.status is NotImplemented),
        r matches Err(e) ==> e.status is NotImplemented || e.status is InvalidArguments,
        r matches Err(e) ==> (e.status is NotImplemented <==> !(key is Uri || is_text_option(key)
            || is_key(key, "adbc.flightsql.oauth.flow"@))),
{
    lemma_keys_are_told_apart();
}

/// A database stands where a URL of a known scheme says: at its host, or the local one; at its
/// port, or 50051 in plaintext and 443 with TLS; or at the socket that its path names.
pub open spec fn stands_at(database: FlightSqlDatabase, url: UrlView) -> bool {
    &&& url.scheme == "grpc"@ || url.scheme == "grpc+tls"@ ==> {
        &&& match url.host {
            Some(h) => database.host@ == h,
            None => database.host@ == "localhost"@,
        }
        &&& match url.port {
            Some(p) => database.port == p,
            None => database.port == (if url.scheme == "grpc"@ {
                50051u16
            } else {
                443u16
            }),
        }
        &&& database.unix_socket_path is None
    }
    &&& url.scheme == "grpc"@ ==> !database.tls && (
    database.transport matches Transport::Plaintext { host, port } && host@ == database.host@
        && port == database.port)
    &&& url.scheme == "grpc+tls"@ ==> database.tls && (
    database.transport matches Transport::Tls { host, port } && host@ == database.host@ && port
        == database.port)
    &&& url.scheme == "grpc+unix"@ ==> {
        &&& !database.tls
        &&& database.host@ == "localhost"@
        &&& database.port == 0
        &&& (database.unix_socket_path matches Some(path) && path@ == url.path)
        &&& (database.transport matches Transport::Unix { path } && path@ == url.path)
    }
}

/// The content of a URL.
pub open spec fn url_of(url: UrlParts) -> UrlView {
    UrlView {
        scheme: url.scheme@,
        host: match url.host {
            Some(h) => Some(h@),
            None => None,
        },
        port: url.port,
        path: url.path@,
    }
}

/// Setting a URI of a known scheme brings the database where the URI says, and changes nothing but
/// that and the URI itself.
pub proof fn law_uri_says_where_a_database_is(
    database: &mut FlightSqlDatabase,
    uri: String,
    r: Result<(), AdbcError>,
)
    requires
        call_ensures(
            FlightSqlDatabase::set_option,
            (database, OptionDatabase::Uri, OptionValue::String(uri)),
            r,
        ),
        r is Ok,
    ensures
        parsed(uri@) matches Ok(url) && stands_at(*final(database), url),
        final(database).uri matches Some(text) && text@ == uri@,
        same_beside_place(*old(database), *final(database)),
{
    lemma_schemes_are_told_apart();
}

/// Taking over a URI brings the database where it says, and leaves the URI of the database alone.
pub proof fn law_parsed_uri_says_where_a_database_is(
    database: &mut FlightSqlDatabase,
    uri: &str,
    r: Result<(), AdbcError>,
)
    requires
        call_ensures(FlightSqlDatabase::parse_uri, (database, uri), r),
    ensures
        r is Ok <==> (parsed(uri@) matches Ok(url) && is_known_scheme(url.scheme)),
        r is Ok ==> stands_at(*final(database), parsed(uri@)->Ok_0),
        r matches Err(e) ==> e.status is InvalidArguments && same_place(
            *old(database),
            *final(database),
        ),
        same_text_field(old(database).uri, final(database).uri),
        same_beside_place(*old(database), *final(database)),
{
    lemma_schemes_are_told_apart();
}

/// Taking over the parts of a URI brings the database where they say; a text that is no URI brings
/// it nowhere.
pub proof fn law_parts_say_where_a_database_is(
    database: &mut FlightSqlDatabase,
    url: Result<UrlParts, String>,
    r: Result<(), AdbcError>,
)
    requires
        call_ensures(FlightSqlDatabase::apply_url, (database, url), r),
    ensures
        r is Ok <==> (url matches Ok(parts) && is_known_scheme(parts.scheme@)),
        r is Ok ==> stands_at(*final(database), url_of(url->Ok_0)),
        r matches Err(e) ==> e.status is InvalidArguments && same_place(
            *old(database),
            *final(database),
        ),
        same_text_field(old(database).uri, final(database).uri),
        same_beside_place(*old(database), *final(database)),
{
    lemma_schemes_are_told_apart();
}

/// The schemes are told apart.
proof fn lemma_schemes_are_told_apart()
    ensures
        "grpc"@.len() == 4,
        "grpc+tls"@.len() == 8,
        "grpc+unix"@.len() == 9,
{
    reveal_strlit("grpc");
    reveal_strlit("grpc+tls");
    reveal_strlit("grpc+unix");
}

/// Reading a text field gives its text, or says that it was not found.
pub open spec fn reads(r: Result<String, AdbcError>, field: Option<String>) -> bool {
    match field {
        Some(text) => r matches Ok(t) && t@ == text@,
        None => r matches Err(e) && e.status is NotFound,
    }
}

/// An option that can be read gives the text of its own field. The password, the secrets of OAuth
/// and everything else cannot be read.
pub proof fn law_option_is_read_from_its_field(
    database: &FlightSqlDatabase,
    key: OptionDatabase,
    r: Result<String, AdbcError>,
)
    requires
        call_ensures(FlightSqlDatabase::get_option_string, (database, key), r),
    ensures
        key is Uri ==> reads(r, database.uri),
        key is Username ==> reads(r, database.username),
        is_key(key, "adbc.flightsql.token"@) ==> reads(r, database.token),
        is_key(key, "adbc.flightsql.tls.ca_cert_path"@) ==> reads(
            r,
            database.tls_opts.ca_cert_path,
        ),
        is_key(key, "adbc.flightsql.tls.override_hostname"@) ==> reads(
            r,
            database.tls_opts.override_hostname,
        ),
        is_key(key, "adbc.flightsql.oauth.client_id"@) ==> reads(r, database.oauth.client_id),
        is_key(key, "adbc.flightsql.oauth.flow"@) ==> reads(r, database.oauth.flow),
        key is Uri || key is Username || is_key(key, "adbc.flightsql.token"@) || is_key(
            key,
            "adbc.flightsql.tls.ca_cert_path"@,
        ) || is_key(key, "adbc.flightsql.tls.override_hostname"@) || is_key(
            key,
            "adbc.flightsql.oauth.client_id"@,
        ) || is_key(key, "adbc.flightsql.oauth.flow"@) || reads(r, None),
{
    lemma_keys_are_told_apart();
}

/// A parameter of that name stands at that place.
pub open spec fn is_named(params: Seq<(String, String)>, i: int, name: Seq<char>) -> bool {
    0 <= i < params.len() && params[i].0@ == name
}

/// The parameters hold that value under the name exactly once, or, without a value, no parameter of
/// that name.
pub open spec fn holds_once(
    params: Seq<(String, String)>,
    name: Seq<char>,
    value: Option<Seq<char>>,
) -> bool {
    match value {
        Some(v) => exists|i: int| #[trigger]
            is_named(params, i, name) && params[i].1@ == v && (forall|j: int| #[trigger]
                is_named(params, j, name) ==> j == i),
        None => forall|j: int| !#[trigger] is_named(params, j, name),
    }
}

/// The names of the parameters are told apart.
proof fn lemma_names_are_told_apart()
    ensures
        "grant_type"@.len() == 10,
        "subject_token"@.len() == 13,
        "subject_token_type"@.len() == 18,
        "actor_token"@.len() == 11,
        "actor_token_type"@.len() == 16,
        "scope"@.len() == 5,
{
    reveal_strlit("grant_type");
    reveal_strlit("subject_token");
    reveal_strlit("subject_token_type");
    reveal_strlit("actor_token");
    reveal_strlit("actor_token_type");
    reveal_strlit("scope");
}

/// The content of a text field.
pub open spec fn text_of(field: Option<String>) -> Option<Seq<char>> {
    match field {
        Some(text) => Some(text@),
        None => None,
    }
}

/// The parameters of a token request hold each thing that the flow needs exactly once, the scope
/// exactly once if one is set, and nothing else.
pub open spec fn asks_for_token(
    database: FlightSqlDatabase,
    params: Seq<(String, String)>,
) -> bool {
    let exchange = holds_text(database.oauth.flow, "token_exchange"@);
    let acts = exchange && database.oauth.actor_token is Some;
    let token_type = Some("urn:ietf:params:oauth:token-type:access_token"@);
    &&& holds_once(params, "scope"@, text_of(database.oauth.scope))
    &&& holds_once(
        params,
        "grant_type"@,
        Some(
            if exchange {
                "urn:ietf:params:oauth:grant-type:token-exchange"@
            } else {
                "client_credentials"@
            },
        ),
    )
    &&& holds_once(
        params,
        "subject_token"@,
        if exchange {
            text_of(database.oauth.subject_token)
        } else {
            None
        },
    )
    &&& holds_once(
        params,
        "subject_token_type"@,
        if exchange {
            token_type
        } else {
            None
        },
    )
    &&& holds_once(
        params,
        "actor_token"@,
        if exchange {
            text_of(database.oauth.actor_token)
        } else {
            None
        },
    )
    &&& holds_once(
        params,
        "actor_token_type"@,
        if acts {
            token_type
        } else {
            None
        },
    )
    &&& params.len() == (if exchange {
        3int
    } else {
        1int
    }) + (if acts {
        2int
    } else {
        0int
    }) + (if database.oauth.scope is Some {
        1int
    } else {
        0int
    })
}

/// The request of the settings of a database goes to its token server in the name of its client,
/// and asks for a token by its flow.
proof fn lemma_token_request(database: FlightSqlDatabase, request: OAuthRequest)
    requires
        database@.oauth.request() == Ok::<OAuthRequestView, AdbcErrorView>(request@),
    ensures
        holds_text(database.oauth.token_url, request.token_url@),
        holds_text(database.oauth.client_id, request.client_id@),
        holds_text(database.oauth.client_secret, request.client_secret@),
        holds_text(database.oauth.flow, "client_credentials"@) || holds_text(
            database.oauth.flow,
            "token_exchange"@,
        ),
        asks_for_token(database, request.params@),
{
    lemma_names_are_told_apart();
    reveal_strlit("client_credentials");
    reveal_strlit("token_exchange");
    reveal_strlit("");
    let params = request.params@;
    let seen = request@.params;
    assert forall|i: int| 0 <= i < params.len() implies #[trigger] params[i].0@ == seen[i].0
        && params[i].1@ == seen[i].1 by {}
    assert(seen.len() == params.len());
    assert(seen[0].0 == "grant_type"@);
    assert(is_named(params, 0, "grant_type"@));
    if database.oauth.scope is Some {
        assert(seen.last().0 == "scope"@);
        assert(is_named(params, params.len() - 1, "scope"@));
    }
    if holds_text(database.oauth.flow, "token_exchange"@) {
        assert(seen[1].0 == "subject_token"@);
        assert(is_named(params, 1, "subject_token"@));
        assert(is_named(params, 2, "subject_token_type"@));
        if database.oauth.actor_token is Some {
            assert(is_named(params, 3, "actor_token"@));
            assert(is_named(params, 4, "actor_token_type"@));
        }
    }
}

/// A token request goes to the URL of the token server with the client's own name and secret, and
/// asks for what the flow and the scope of the database say.
pub proof fn law_token_request_carries_the_settings(
    database: &FlightSqlDatabase,
    r: Result<OAuthRequest, AdbcError>,
)
    requires
        call_ensures(FlightSqlDatabase::exchange_oauth_token, (database,), r),
        r is Ok,
    ensures
        holds_text(database.oauth.token_url, r->Ok_0.token_url@),
        holds_text(database.oauth.client_id, r->Ok_0.client_id@),
        holds_text(database.oauth.client_secret, r->Ok_0.client_secret@),
        holds_text(database.oauth.flow, "client_credentials"@) || holds_text(
            database.oauth.flow,
            "token_exchange"@,
        ),
        asks_for_token(*database, r->Ok_0.params@),
{
    lemma_token_request(*database, r->Ok_0);
}

/// In either flow, a scope that is set is sent exactly once, and none is sent if none is set.
pub proof fn law_scope_is_sent_once(
    database: &FlightSqlDatabase,
    r: Result<OAuthRequest, AdbcError>,
)
    requires
        call_ensures(FlightSqlDatabase::exchange_oauth_token, (database,), r),
        r is Ok,
    ensures
        match database.oauth.scope {
            Some(scope) => exists|i: int| #[trigger]
                is_named(r->Ok_0.params@, i, "scope"@) && r->Ok_0.params@[i].1@ == scope@ && (
                forall|j: int| #[trigger] is_named(r->Ok_0.params@, j, "scope"@) ==> j == i),
            None => forall|j: int| !#[trigger] is_named(r->Ok_0.params@, j, "scope"@),
        },
{
    lemma_token_request(*database, r->Ok_0);
}

/// A token request is made if the client, its secret and the token server are set, and a flow with
/// what it needs; else the first that is missing is told.
pub proof fn law_token_request_needs_its_settings(
    database: &FlightSqlDatabase,
    r: Result<OAuthRequest, AdbcError>,
)
    requires
        call_ensures(FlightSqlDatabase::exchange_oauth_token, (database,), r),
    ensures
        r is Ok <==> database.oauth.client_id is Some && database.oauth.client_secret is Some
            && database.oauth.token_url is Some && (holds_text(
            database.oauth.flow,
            "client_credentials"@,
        ) || (holds_text(database.oauth.flow, "token_exchange"@)
            && database.oauth.subject_token is Some)),
        r matches Err(e) ==> e.status is InvalidArguments,
        database.oauth.client_id is None ==> (r matches Err(e) && tells(
            e,
            Status::InvalidArguments,
            "OAuth client_id required"@,
        )),
        database.oauth.client_id is Some && database.oauth.client_secret is None ==> (
        r matches Err(e) && tells(e, Status::InvalidArguments, "OAuth client_secret required"@)),
        database.oauth.client_id is Some && database.oauth.client_secret is Some
            && database.oauth.token_url is None ==> (r matches Err(e) && tells(
            e,
            Status::InvalidArguments,
            "OAuth token_url required"@,
        )),
{
    reveal_strlit("client_credentials");
    reveal_strlit("token_exchange");
    reveal_strlit("");
}

/// Settings are those of the database, with that token.
pub open spec fn are_settings_of(
    settings: ConnectionSettings,
    database: FlightSqlDatabase,
    token: Option<Seq<char>>,
) -> bool {
    &&& same_transport(settings.transport, database.transport)
    &&& same_tls_options(settings.tls_opts, database.tls_opts)
    &&& same_text_field(settings.username, database.username)
    &&& same_text_field(settings.password, database.password)
    &&& text_of(settings.token) == token
    &&& settings.cookie_middleware == database.cookie_middleware
}

/// The TLS options name a client certificate without its key, or a key without its certificate.
pub open spec fn is_half_an_identity(options: TlsOptions) -> bool {
    options.mtls_cert_chain is Some != options.mtls_private_key is Some
}

/// Without an OAuth flow a connection is made with the settings of the database, its own token
/// among them. Half an identity is refused.
pub proof fn law_connection_has_the_settings(
    database: &FlightSqlDatabase,
    r: Result<ConnectStep, AdbcError>,
)
    requires
        call_ensures(FlightSqlDatabase::new_connection, (database,), r),
        database.oauth.flow is None,
    ensures
        is_half_an_identity(database.tls_opts) ==> (r matches Err(e) && tells_of(
            e,
            Status::InvalidArguments,
            "creating database connection"@,
            "mTLS requires both cert_chain and private_key together"@,
        )),
        !is_half_an_identity(database.tls_opts) ==> (r matches Ok(ConnectStep::Connect(settings))
            && are_settings_of(settings, *database, text_of(database.token))),
{
}

/// With an OAuth flow a connection begins with the request for a token, unless a user name or a
/// token is set beside it.
pub proof fn law_flow_begins_with_a_token_request(
    database: &FlightSqlDatabase,
    r: Result<ConnectStep, AdbcError>,
    asked: Result<OAuthRequest, AdbcError>,
)
    requires
        call_ensures(FlightSqlDatabase::new_connection, (database,), r),
        call_ensures(FlightSqlDatabase::exchange_oauth_token, (database,), asked),
        database.oauth.flow is Some,
    ensures
        database.username is Some || database.token is Some ==> (r matches Err(e) && tells_of(
            e,
            Status::InvalidArguments,
            "creating database connection"@,
            "cannot use both OAuth and username/password or token authentication"@,
        )),
        database.username is None && database.token is None ==> (r is Ok <==> asked is Ok),
        r matches Ok(step) ==> step is Exchange,
        r matches Ok(ConnectStep::Exchange(request)) ==> {
            &&& holds_text(database.oauth.token_url, request.token_url@)
            &&& holds_text(database.oauth.client_id, request.client_id@)
            &&& holds_text(database.oauth.client_secret, request.client_secret@)
            &&& asks_for_token(*database, request.params@)
        },
{
    if let Ok(ConnectStep::Exchange(request)) = r {
        lemma_token_request(*database, request);
    }
}

/// A token that was granted authenticates the connection: the settings are those of the database,
/// with that token. Every other reply of the token server fails.
pub proof fn law_granted_token_is_used(
    database: &FlightSqlDatabase,
    reply: OAuthReply,
    r: Result<ConnectionSettings, AdbcError>,
)
    requires
        call_ensures(FlightSqlDatabase::connect_with_token, (database, reply), r),
    ensures
        r is Ok <==> reply is Granted && !is_half_an_identity(database.tls_opts),
        r matches Ok(settings) ==> are_settings_of(
            settings,
            *database,
            Some(reply->Granted_0@),
        ),
{
}

/// A reply of the token server gives the token that was granted, or says how it failed: a request
/// that failed and an answer that cannot be read are faults of input and output, a refusal is one
/// of authentication.
pub proof fn law_reply_grants_or_fails(reply: OAuthReply, r: Result<String, AdbcError>)
    requires
        call_ensures(oauth_token, (reply,), r),
    ensures
        reply matches OAuthReply::Granted(token) ==> (r matches Ok(t) && t@ == token@),
        reply matches OAuthReply::Failed(text) ==> (r matches Err(e) && tells_of(
            e,
            Status::IO,
            "exchanging OAuth token"@,
            "OAuth token request failed: "@ + text@,
        )),
        reply matches OAuthReply::Refused { status, body } ==> (r matches Err(e) && tells_of(
            e,
            Status::Unauthenticated,
            "exchanging OAuth token"@,
            "OAuth token request returned "@ + status@ + ": "@ + body@,
        )),
        reply matches OAuthReply::Unreadable(text) ==> (r matches Err(e) && tells_of(
            e,
            Status::IO,
            "exchanging OAuth token"@,
            "failed to parse OAuth token response: "@ + text@,
        )),
{
}

/// A connection authenticates by a handshake if it has both a user name and a password, with these
/// two; else by its token, if it has one; else not at all.
pub proof fn law_connection_authenticates(settings: &ConnectionSettings, r: Authentication)
    requires
        call_ensures(authentication, (settings,), r),
    ensures
        r is Handshake <==> settings.username is Some && settings.password is Some,
        r is Token <==> !(r is Handshake) && settings.token is Some,
        r matches Authentication::Handshake { username, password } ==> holds_text(
            settings.username,
            username@,
        ) && holds_text(settings.password, password@),
        r matches Authentication::Token(token) ==> holds_text(settings.token, token@),
{
}

/// A user name and a password that were set on a database authenticate its connections: they are
/// sent by a handshake, each as itself. The settings carry the transport, the TLS options and the
/// cookie switch of the database too.
pub proof fn law_user_name_and_password_authenticate(
    named: &mut FlightSqlDatabase,
    username: String,
    named_r: Result<(), AdbcError>,
    keyed: &mut FlightSqlDatabase,
    password: String,
    keyed_r: Result<(), AdbcError>,
    r: Result<ConnectStep, AdbcError>,
    settings: ConnectionSettings,
    a: Authentication,
)
    requires
        call_ensures(
            FlightSqlDatabase::set_option,
            (named, OptionDatabase::Username, OptionValue::String(username)),
            named_r,
        ),
        *old(keyed) == *final(named),
        call_ensures(
            FlightSqlDatabase::set_option,
            (keyed, OptionDatabase::Password, OptionValue::String(password)),
            keyed_r,
        ),
        call_ensures(FlightSqlDatabase::new_connection, (&*final(keyed),), r),
        old(named).oauth.flow is None,
        !is_half_an_identity(old(named).tls_opts),
        r == Ok::<ConnectStep, AdbcError>(ConnectStep::Connect(settings)),
        call_ensures(authentication, (&settings,), a),
    ensures
        a matches Authentication::Handshake { username: u, password: p } && u@ == username@ && p@
            == password@,
        same_transport(settings.transport, old(named).transport),
        same_tls_options(settings.tls_opts, old(named).tls_opts),
        settings.cookie_middleware == old(named).cookie_middleware,
        same_text_field(settings.token, old(named).token),
{
}

/// A token that was set on a database with no password authenticates its connections.
pub proof fn law_token_authenticates(
    database: &mut FlightSqlDatabase,
    key: OptionDatabase,
    token: String,
    set_r: Result<(), AdbcError>,
    r: Result<ConnectStep, AdbcError>,
    settings: ConnectionSettings,
    a: Authentication,
)
    requires
        is_key(key, "adbc.flightsql.token"@),
        call_ensures(
            FlightSqlDatabase::set_option,
            (database, key, OptionValue::String(token)),
            set_r,
        ),
        call_ensures(FlightSqlDatabase::new_connection, (&*final(database),), r),
        old(database).password is None,
        r == Ok::<ConnectStep, AdbcError>(ConnectStep::Connect(settings)),
        call_ensures(authentication, (&settings,), a),
    ensures
        a matches Authentication::Token(t) && t@ == token@,
{
    lemma_keys_are_told_apart();
}

/// An option that can be read is read back as it was set.
pub proof fn law_set_option_is_read_back(
    database: &mut FlightSqlDatabase,
    key: OptionDatabase,
    value: OptionValue,
    set_r: Result<(), AdbcError>,
    r: Result<String, AdbcError>,
)
    requires
        call_ensures(FlightSqlDatabase::set_option, (database, key, value), set_r),
        set_r is Ok,
        call_ensures(FlightSqlDatabase::get_option_string, (&*final(database), key), r),
        key is Uri || key is Username || is_key(key, "adbc.flightsql.token"@) || is_key(
            key,
            "adbc.flightsql.tls.ca_cert_path"@,
        ) || is_key(key, "adbc.flightsql.tls.override_hostname"@) || is_key(
            key,
            "adbc.flightsql.oauth.client_id"@,
        ) || is_key(key, "adbc.flightsql.oauth.flow"@),
    ensures
        value matches OptionValue::String(s) && (r matches Ok(t) && t@ == s@),
{
    lemma_keys_are_told_apart();
}

/// What is refused is told: a value that is no text, a URI that is none, a scheme or a flow that is
/// not known, a key that is not known.
pub proof fn law_refused_option_is_told(
    database: &mut FlightSqlDatabase,
    key: OptionDatabase,
    value: OptionValue,
    r: Result<(), AdbcError>,
)
    requires
        call_ensures(FlightSqlDatabase::set_option, (database, key, value), r),
        r is Err,
    ensures
        !(value is String) && key is Uri ==> tells(
            r->Err_0,
            Status::InvalidArguments,
            "URI"@ + " option must be a string"@,
        ),
        !(value is String) && key is Username ==> tells(
            r->Err_0,
            Status::InvalidArguments,
            "Username"@ + " option must be a string"@,
        ),
        !(value is String) && key is Password ==> tells(
            r->Err_0,
            Status::InvalidArguments,
            "Password"@ + " option must be a string"@,
        ),
        value is String && is_key(key, "adbc.flightsql.oauth.flow"@) ==> tells(
            r->Err_0,
            Status::InvalidArguments,
            "unsupported OAuth flow: "@ + value->String_0@,
        ),
        value is String && key is Uri ==> (match parsed(value->String_0@) {
            Ok(url) => tells_of(
                r->Err_0,
                Status::InvalidArguments,
                "parsing connection URI"@,
                "unsupported URI scheme: "@ + url.scheme,
            ),
            Err(text) => tells_of(
                r->Err_0,
                Status::InvalidArguments,
                "parsing connection URI"@,
                "invalid URI: "@ + text,
            ),
        }),
        r->Err_0.status is NotImplemented ==> (key matches OptionDatabase::Other(k) && tells(
            r->Err_0,
            Status::NotImplemented,
            "unknown option "@ + k.debug_view(),
        )),
{
}

/// A value that is no text is told with the option and the value.
pub proof fn law_refused_value_is_told(
    database: &mut FlightSqlDatabase,
    key: OptionDatabase,
    value: OptionValue,
    r: Result<(), AdbcError>,
)
    requires
        call_ensures(FlightSqlDatabase::set_option, (database, key, value), r),
        is_text_option(key) || is_key(key, "adbc.flightsql.oauth.flow"@),
        key is Other,
        !(value is String),
    ensures
        r matches Err(e) && tells_of(
            e,
            Status::InvalidArguments,
            "invalid option "@ + key->Other_0.debug_view() + "="@ + value.debug_view(),
            "must be a string"@,
        ),
{
}

/// An option that is not set, or cannot be read, is not found, and that is told.
pub proof fn law_unset_option_is_told(
    database: &FlightSqlDatabase,
    key: OptionDatabase,
    text: Result<String, AdbcError>,
    number: Result<i64, AdbcError>,
    bytes: Result<Vec<u8>, AdbcError>,
    seconds: Result<Double, AdbcError>,
)
    requires
        call_ensures(FlightSqlDatabase::get_option_string, (database, key), text),
        call_ensures(FlightSqlDatabase::get_option_int, (database, key), number),
        call_ensures(FlightSqlDatabase::get_option_bytes, (database, key), bytes),
        call_ensures(FlightSqlDatabase::get_option_double, (database, key), seconds),
    ensures
        text matches Err(e) ==> {
            &&& key is Uri ==> tells(e, Status::NotFound, "URI not set"@)
            &&& key is Username ==> tells(e, Status::NotFound, "Username not set"@)
            &&& key is Password ==> tells(e, Status::NotFound, "Password is write-only"@)
            &&& is_key(key, "adbc.flightsql.token"@) ==> tells(
                e,
                Status::NotFound,
                "Token not set"@,
            )
            &&& is_key(key, "adbc.flightsql.tls.ca_cert_path"@) ==> tells(
                e,
                Status::NotFound,
                "CA cert path not set"@,
            )
            &&& is_key(key, "adbc.flightsql.tls.override_hostname"@) ==> tells(
                e,
                Status::NotFound,
                "TLS hostname override not set"@,
            )
            &&& is_key(key, "adbc.flightsql.oauth.client_id"@) ==> tells(
                e,
                Status::NotFound,
                "OAuth client_id not set"@,
            )
            &&& is_key(key, "adbc.flightsql.oauth.flow"@) ==> tells(
                e,
                Status::NotFound,
                "OAuth flow not set"@,
            )
        },
        number matches Err(e) && e.status is NotFound && e.message@ == "Unrecognized option: "@
            + key.debug_view(),
        bytes matches Err(e) && e.status is NotFound && e.message@ == "Unrecognized option: "@
            + key.debug_view(),
        seconds matches Err(e) && e.status is NotFound && e.message@ == "Unrecognized option: "@
            + key.debug_view(),
{
    lemma_keys_are_told_apart();
}

/// A runtime that does not start is a fault of the driver, and says why.
pub proof fn law_failed_runtime_is_told(text: &str, r: AdbcError)
    requires
        call_ensures(runtime_error, (text,), r),
    ensures
        tells_of(
            r,
            Status::Internal,
            "creating database connection"@,
            "failed to create tokio runtime: "@ + text@,
        ),
{
}

} // verus!
