//! A connection: its options, its session and its cookies.

use vstd::hash_map::StringHashMap;
use vstd::prelude::*;

use crate::database::{
    string_under, text_result, unset, value_or, ConnectionSettings, SettingsView, OPTION_TOKEN,
};
use crate::double::Duration;
use crate::error::{
    adbc, bare, bool_option, not_bool, unsettable_option, AdbcError, AdbcErrorView, ErrorHelper,
    FlightSqlErrorHelper, Status,
};
use crate::options::{DebugText, Double, EffectView, OptionConnection, OptionEffect, OptionValue};
use crate::text::{
    begins_with, concat2, concat3, has_prefix, joined, opt_view, same_text, without_prefix,
};
use crate::timeouts::{no_timeouts, settable, TimeoutOption, OPTION_TIMEOUT_PREFIX};

verus! {

/// What the keys of all session options begin with.
pub const OPTION_SESSION_PREFIX: &'static str = "adbc.flight.sql.session.option.";

/// How a connection authenticates.
pub enum Authentication {
    /// By a handshake with a user name and a password.
    Handshake { username: String, password: String },
    /// By a token that is sent with every call.
    Token(String),
    /// Not at all.
    Anonymous,
}

/// The content of an [`Authentication`].
#[verifier::ext_equal]
pub enum AuthenticationView {
    Handshake { username: Seq<char>, password: Seq<char> },
    Token(Seq<char>),
    Anonymous,
}

impl View for Authentication {
    type V = AuthenticationView;

    open spec fn view(&self) -> AuthenticationView {
        match self {
            Authentication::Handshake { username, password } => AuthenticationView::Handshake {
                username: username@,
                password: password@,
            },
            Authentication::Token(token) => AuthenticationView::Token(token@),
            Authentication::Anonymous => AuthenticationView::Anonymous,
        }
    }
}

/// How a connection with these settings authenticates: a user name with a password goes before a
/// token.
pub open spec fn authentication_of(settings: SettingsView) -> AuthenticationView {
    match (settings.username, settings.password) {
        (Some(username), Some(password)) => AuthenticationView::Handshake { username, password },
        _ => match settings.token {
            Some(token) => AuthenticationView::Token(token),
            None => AuthenticationView::Anonymous,
        },
    }
}

/// Finds out how a connection authenticates.
pub fn authentication(settings: &ConnectionSettings) -> (r: Authentication)
    ensures
        r@ == authentication_of(settings@),
{
    if let Some(username) = &settings.username {
        if let Some(password) = &settings.password {
            return Authentication::Handshake {
                username: username.clone(),
                password: password.clone(),
            };
        }
    }
    match &settings.token {
        Some(token) => Authentication::Token(token.clone()),
        None => Authentication::Anonymous,
    }
}

/// The error for a handshake that failed.
pub fn handshake_error(text: &str) -> (r: AdbcError)
    ensures
        r@ == adbc(
            bare(Status::Unauthenticated).message("handshake failed: "@ + text@).context(
                "authenticating to FlightSQL server"@,
            ),
        ),
{
    FlightSqlErrorHelper::unauthenticated().message(
        concat2("handshake failed: ", text).as_str(),
    ).context("authenticating to FlightSQL server").to_adbc()
}

/// Cookies, in the form in which a header sends them.
pub open spec fn cookie_texts(cookies: Seq<(String, String)>) -> Seq<Seq<char>> {
    cookies.map_values(|c: (String, String)| c.0@ + "="@ + c.1@)
}

/// The header that sends cookies.
pub fn build_cookie_header(cookies: &Vec<(String, String)>) -> (r: String)
    ensures
        r@ == joined(cookie_texts(cookies@), "; "@),
{
    let mut r = String::new();
    let ghost texts = cookie_texts(cookies@);
    let mut i: usize = 0;
    assert(texts.take(0) =~= Seq::<Seq<char>>::empty());
    while i < cookies.len()
        invariant
            i <= cookies.len(),
            texts == cookie_texts(cookies@),
            r@ == joined(texts.take(i as int), "; "@),
        decreases cookies.len() - i,
    {
        proof {
            assert(texts.take(i + 1).drop_last() =~= texts.take(i as int));
        }
        if i > 0 {
            r.append("; ");
        }
        let text = concat3(cookies[i].0.as_str(), "=", cookies[i].1.as_str());
        assert(texts.take(i + 1).last() == text@);
        r.append(text.as_str());
        i += 1;
    }
    assert(texts.take(texts.len() as int) =~= texts);
    r
}

/// A connection to a Flight SQL server.
pub struct FlightSqlConnection {
    pub read_only: Option<bool>,
    pub autocommit: Option<bool>,
    pub current_catalog: Option<String>,
    pub current_schema: Option<String>,
    pub isolation_level: Option<String>,
    pub timeouts: TimeoutOption,
    pub cookies: Option<Vec<(String, String)>>,
    pub session_options: StringHashMap<String>,
}

/// The content of a [`FlightSqlConnection`].
#[verifier::ext_equal]
pub struct ConnectionView {
    pub read_only: Option<bool>,
    pub autocommit: Option<bool>,
    pub current_catalog: Option<Seq<char>>,
    pub current_schema: Option<Seq<char>>,
    pub isolation_level: Option<Seq<char>>,
    pub timeouts: TimeoutOption,
    pub cookies: Option<Seq<Seq<char>>>,
    pub session_options: Map<Seq<char>, Seq<char>>,
}

impl View for FlightSqlConnection {
    type V = ConnectionView;

    open spec fn view(&self) -> ConnectionView {
        ConnectionView {
            read_only: self.read_only,
            autocommit: self.autocommit,
            current_catalog: opt_view(self.current_catalog),
            current_schema: opt_view(self.current_schema),
            isolation_level: opt_view(self.isolation_level),
            timeouts: self.timeouts,
            cookies: match self.cookies {
                Some(cookies) => Some(cookie_texts(cookies@)),
                None => None,
            },
            session_options: self.session_options@.map_values(|v: String| v@),
        }
    }
}

/// A new connection: it commits by itself, and nothing else is set. A jar for cookies is there only
/// if cookies are asked for.
pub open spec fn new_connection(cookie_middleware: bool) -> ConnectionView {
    ConnectionView {
        read_only: None,
        autocommit: Some(true),
        current_catalog: None,
        current_schema: None,
        isolation_level: None,
        timeouts: no_timeouts(),
        cookies: if cookie_middleware {
            Some(Seq::empty())
        } else {
            None
        },
        session_options: Map::empty(),
    }
}

/// The truth value that an option value gives under a key.
pub open spec fn bool_under(key: Seq<char>, value: OptionValue) -> Result<bool, AdbcErrorView> {
    match bool_option(value) {
        Some(b) => Ok(b),
        None => Err(adbc(not_bool(key, value))),
    }
}

/// The name of a session option.
pub open spec fn session_name(key: Seq<char>) -> Seq<char> {
    key.skip(OPTION_SESSION_PREFIX@.len() as int)
}

impl ConnectionView {
    /// With a truth value of an option, or the error for it.
    pub open spec fn with_bool(self, key: OptionConnection, value: OptionValue) -> Result<
        (ConnectionView, EffectView),
        AdbcErrorView,
    > {
        match bool_under(key.debug_view(), value) {
            Err(e) => Err(e),
            Ok(b) => Ok(
                (
                    if key is AutoCommit {
                        ConnectionView { autocommit: Some(b), ..self }
                    } else {
                        ConnectionView { read_only: Some(b), ..self }
                    },
                    EffectView::Done,
                ),
            ),
        }
    }

    /// With a text of an option, or the error for it.
    pub open spec fn with_text(self, key: OptionConnection, value: OptionValue) -> Result<
        (ConnectionView, EffectView),
        AdbcErrorView,
    > {
        match string_under(key.debug_view(), value) {
            Err(e) => Err(e),
            Ok(text) => Ok(
                (
                    match key {
                        OptionConnection::CurrentCatalog => ConnectionView {
                            current_catalog: Some(text),
                            ..self
                        },
                        OptionConnection::CurrentSchema => ConnectionView {
                            current_schema: Some(text),
                            ..self
                        },
                        _ => ConnectionView { isolation_level: Some(text), ..self },
                    },
                    EffectView::Done,
                ),
            ),
        }
    }

    /// What setting an option leads to: the connection after it, and what is left to be done.
    pub open spec fn with_option(self, key: OptionConnection, value: OptionValue) -> Result<
        (ConnectionView, EffectView),
        AdbcErrorView,
    > {
        match key {
            OptionConnection::AutoCommit => self.with_bool(key, value),
            OptionConnection::ReadOnly => self.with_bool(key, value),
            OptionConnection::CurrentCatalog => self.with_text(key, value),
            OptionConnection::CurrentSchema => self.with_text(key, value),
            OptionConnection::IsolationLevel => self.with_text(key, value),
            OptionConnection::Other(k) => if k@ == OPTION_TOKEN@ {
                Err(
                    adbc(
                        bare(Status::InvalidState).message(
                            "Set token via database option before creating connection"@,
                        ),
                    ),
                )
            } else if begins_with(k@, OPTION_TIMEOUT_PREFIX@) {
                match self.timeouts.set_value(k@, value) {
                    Ok((timeouts, effect)) => Ok((ConnectionView { timeouts, ..self }, effect)),
                    Err(e) => Err(e),
                }
            } else if begins_with(k@, OPTION_SESSION_PREFIX@) {
                match string_under(k.debug_view(), value) {
                    Ok(text) => Ok(
                        (
                            ConnectionView {
                                session_options: self.session_options.insert(
                                    session_name(k@),
                                    text,
                                ),
                                ..self
                            },
                            EffectView::Done,
                        ),
                    ),
                    Err(e) => Err(e),
                }
            } else {
                Err(adbc(unsettable_option(k.debug_view())))
            },
        }
    }

    /// What reading an option as a string leads to.
    pub open spec fn option_string(self, key: OptionConnection) -> Result<
        Seq<char>,
        AdbcErrorView,
    > {
        match key {
            OptionConnection::CurrentCatalog => value_or(
                self.current_catalog,
                "CurrentCatalog not set"@,
            ),
            OptionConnection::CurrentSchema => value_or(
                self.current_schema,
                "CurrentSchema not set"@,
            ),
            OptionConnection::IsolationLevel => value_or(
                self.isolation_level,
                "IsolationLevel not set"@,
            ),
            OptionConnection::Other(k) if begins_with(k@, OPTION_SESSION_PREFIX@) => {
                let name = session_name(k@);
                if self.session_options.contains_key(name) {
                    Ok(self.session_options[name])
                } else {
                    Err(unset("Session option "@ + name + " not set"@))
                }
            },
            _ => Err(
                unset("Option "@ + key.debug_view() + " not retrievable as string"@),
            ),
        }
    }

    /// What reading an option as an integer leads to.
    pub open spec fn option_int(self, key: OptionConnection) -> Result<i64, AdbcErrorView> {
        match key {
            OptionConnection::AutoCommit => int_of(self.autocommit, "AutoCommit not set"@),
            OptionConnection::ReadOnly => int_of(self.read_only, "ReadOnly not set"@),
            _ => Err(unset("Option "@ + key.debug_view() + " not retrievable as int"@)),
        }
    }

    /// What reading an option as a double leads to: the span of time of a timeout.
    pub open spec fn option_double(self, key: OptionConnection) -> Result<
        Duration,
        AdbcErrorView,
    > {
        match key {
            OptionConnection::Other(k) if begins_with(
                k@,
                OPTION_TIMEOUT_PREFIX@,
            ) => self.timeouts.get_seconds(k@),
            _ => Err(unset("Option "@ + key.debug_view() + " not available"@)),
        }
    }
}

/// A truth value as an integer, or the error for one that is not set.
pub open spec fn int_of(value: Option<bool>, message: Seq<char>) -> Result<i64, AdbcErrorView> {
    match value {
        Some(true) => Ok(1),
        Some(false) => Ok(0),
        None => Err(unset(message)),
    }
}

/// The view of an integer or an error.
pub open spec fn int_result(r: Result<i64, AdbcError>) -> Result<i64, AdbcErrorView> {
    match r {
        Ok(i) => Ok(i),
        Err(e) => Err(e@),
    }
}

/// The view of a span of time or an error.
pub open spec fn span_result(r: Result<Duration, AdbcError>) -> Result<Duration, AdbcErrorView> {
    match r {
        Ok(d) => Ok(d),
        Err(e) => Err(e@),
    }
}

/// A truth value as an integer, or the error for one that is not set.
fn get_int(value: Option<bool>, message: &str) -> (r: Result<i64, AdbcError>)
    ensures
        int_result(r) == int_of(value, message@),
{
    match value {
        Some(true) => Ok(1),
        Some(false) => Ok(0),
        None => Err(FlightSqlErrorHelper::not_found().message(message).to_adbc()),
    }
}

/// The value of an option, or the error for one that is not set.
fn get_text(value: &Option<String>, message: &str) -> (r: Result<String, AdbcError>)
    ensures
        text_result(r) == value_or(opt_view(*value), message@),
{
    match value {
        Some(v) => Ok(v.clone()),
        None => Err(FlightSqlErrorHelper::not_found().message(message).to_adbc()),
    }
}

/// Reports an option that cannot be read.
fn unreadable(key: &OptionConnection, rest: &str) -> (r: AdbcError)
    ensures
        r@ == unset("Option "@ + key.debug_view() + rest@),
{
    FlightSqlErrorHelper::not_found().message(
        concat3("Option ", key.debug_text().as_str(), rest).as_str(),
    ).to_adbc()
}

/// The error for something that this driver does not do.
pub open spec fn not_done(message: Seq<char>) -> AdbcErrorView {
    adbc(bare(Status::NotImplemented).message(message))
}

impl FlightSqlConnection {
    /// A new connection.
    pub fn new(cookie_middleware: bool) -> (r: Self)
        ensures
            r@ == new_connection(cookie_middleware),
    {
        let cookies: Option<Vec<(String, String)>> = if cookie_middleware {
            Some(Vec::new())
        } else {
            None
        };
        let r = FlightSqlConnection {
            read_only: None,
            autocommit: Some(true),
            current_catalog: None,
            current_schema: None,
            isolation_level: None,
            timeouts: TimeoutOption::new(),
            cookies,
            session_options: StringHashMap::new(),
        };
        proof {
            assert(r@.session_options =~= Map::<Seq<char>, Seq<char>>::empty());
            if cookie_middleware {
                assert(cookie_texts(r.cookies->Some_0@) =~= Seq::<Seq<char>>::empty());
            }
        }
        r
    }

    /// The header that sends the cookies in the jar, if there are any.
    pub fn cookie_header(&self) -> (r: Option<String>)
        ensures
            opt_view(r) == (match self@.cookies {
                Some(cookies) if joined(cookies, "; "@).len() > 0 => Some(joined(cookies, "; "@)),
                _ => None,
            }),
    {
        match &self.cookies {
            Some(jar) => {
                let header = build_cookie_header(jar);
                if header.as_str().is_empty() {
                    None
                } else {
                    Some(header)
                }
            },
            None => None,
        }
    }

    /// Sets an option.
    pub fn set_option(&mut self, key: OptionConnection, value: OptionValue) -> (r: Result<
        OptionEffect,
        AdbcError,
    >)
        requires
            key matches OptionConnection::Other(k) && begins_with(k@, OPTION_TIMEOUT_PREFIX@) ==> (
            value matches OptionValue::Double(seconds) ==> settable(seconds.bits)),
        ensures
            match old(self)@.with_option(key, value) {
                Ok((connection, effect)) => final(self)@ == connection && (r matches Ok(x) && x@
                    == effect),
                Err(e) => final(self)@ == old(self)@ && (r matches Err(x) && x@ == e),
            },
    {
        match &key {
            OptionConnection::AutoCommit => match FlightSqlErrorHelper::option_as_bool(
                &key,
                &value,
            ) {
                Ok(v) => {
                    self.autocommit = Some(v);
                    Ok(OptionEffect::Done)
                },
                Err(e) => Err(e.to_adbc()),
            },
            OptionConnection::ReadOnly => match FlightSqlErrorHelper::option_as_bool(
                &key,
                &value,
            ) {
                Ok(v) => {
                    self.read_only = Some(v);
                    Ok(OptionEffect::Done)
                },
                Err(e) => Err(e.to_adbc()),
            },
            OptionConnection::CurrentCatalog => match FlightSqlErrorHelper::option_as_string(
                &key,
                &value,
            ) {
                Ok(v) => {
                    self.current_catalog = Some(v);
                    Ok(OptionEffect::Done)
                },
                Err(e) => Err(e.to_adbc()),
            },
            OptionConnection::CurrentSchema => match FlightSqlErrorHelper::option_as_string(
                &key,
                &value,
            ) {
                Ok(v) => {
                    self.current_schema = Some(v);
                    Ok(OptionEffect::Done)
                },
                Err(e) => Err(e.to_adbc()),
            },
            OptionConnection::IsolationLevel => match FlightSqlErrorHelper::option_as_string(
                &key,
                &value,
            ) {
                Ok(v) => {
                    self.isolation_level = Some(v);
                    Ok(OptionEffect::Done)
                },
                Err(e) => Err(e.to_adbc()),
            },
            OptionConnection::Other(k) => {
                if same_text(k.as_str(), OPTION_TOKEN) {
                    Err(
                        FlightSqlErrorHelper::invalid_state().message(
                            "Set token via database option before creating connection",
                        ).to_adbc(),
                    )
                } else if has_prefix(k.as_str(), OPTION_TIMEOUT_PREFIX) {
                    self.timeouts.set_timeout_value(k.as_str(), &value)
                } else if has_prefix(k.as_str(), OPTION_SESSION_PREFIX) {
                    match FlightSqlErrorHelper::option_as_string(k, &value) {
                        Ok(v) => {
                            let name = without_prefix(k.as_str(), OPTION_SESSION_PREFIX);
                            let ghost before = self.session_options@;
                            let ghost text = v@;
                            self.session_options.insert(name, v);
                            assert(self@.session_options =~= before.map_values(
                                |s: String| s@,
                            ).insert(session_name(k@), text));
                            Ok(OptionEffect::Done)
                        },
                        Err(e) => Err(e.to_adbc()),
                    }
                } else {
                    Err(FlightSqlErrorHelper::set_unknown_option(k).to_adbc())
                }
            },
        }
    }

    /// Sets a timeout to a converted number.
    pub fn set_converted_seconds(&mut self, key: &str, seconds: Option<Double>) -> (r: Result<
        (),
        AdbcError,
    >)
        requires
            seconds matches Some(d) ==> settable(d.bits),
        ensures
            match old(self)@.timeouts.set_converted(key@, seconds) {
                Ok(timeouts) => r is Ok && final(self)@ == (ConnectionView {
                    timeouts,
                    ..old(self)@
                }),
                Err(e) => final(self)@ == old(self)@ && (r matches Err(x) && x@ == e),
            },
    {
        self.timeouts.set_converted_seconds(key, seconds)
    }

    /// Reads an option as a string.
    pub fn get_option_string(&self, key: OptionConnection) -> (r: Result<String, AdbcError>)
        ensures
            text_result(r) == self@.option_string(key),
    {
        match &key {
            OptionConnection::CurrentCatalog => get_text(
                &self.current_catalog,
                "CurrentCatalog not set",
            ),
            OptionConnection::CurrentSchema => get_text(
                &self.current_schema,
                "CurrentSchema not set",
            ),
            OptionConnection::IsolationLevel => get_text(
                &self.isolation_level,
                "IsolationLevel not set",
            ),
            OptionConnection::Other(k) => {
                if has_prefix(k.as_str(), OPTION_SESSION_PREFIX) {
                    let name = without_prefix(k.as_str(), OPTION_SESSION_PREFIX);
                    match self.session_options.get(name.as_str()) {
                        Some(v) => Ok(v.clone()),
                        None => Err(
                            FlightSqlErrorHelper::not_found().message(
                                concat3("Session option ", name.as_str(), " not set").as_str(),
                            ).to_adbc(),
                        ),
                    }
                } else {
                    Err(unreadable(&key, " not retrievable as string"))
                }
            },
            _ => Err(unreadable(&key, " not retrievable as string")),
        }
    }

    /// Reads an option as an integer.
    pub fn get_option_int(&self, key: OptionConnection) -> (r: Result<i64, AdbcError>)
        ensures
            int_result(r) == self@.option_int(key),
    {
        match &key {
            OptionConnection::AutoCommit => get_int(self.autocommit, "AutoCommit not set"),
            OptionConnection::ReadOnly => get_int(self.read_only, "ReadOnly not set"),
            _ => Err(unreadable(&key, " not retrievable as int")),
        }
    }

    /// Reads an option as bytes: no option is.
    pub fn get_option_bytes(&self, key: OptionConnection) -> (r: Result<Vec<u8>, AdbcError>)
        ensures
            r matches Err(e) && e@ == unset("Option "@ + key.debug_view() + " not available"@),
    {
        Err(unreadable(&key, " not available"))
    }

    /// Reads an option as a double: the span of time of a timeout.
    pub fn get_option_double(&self, key: OptionConnection) -> (r: Result<Duration, AdbcError>)
        ensures
            span_result(r) == self@.option_double(key),
    {
        match &key {
            OptionConnection::Other(k) => {
                if has_prefix(k.as_str(), OPTION_TIMEOUT_PREFIX) {
                    self.timeouts.get_timeout_seconds(k.as_str())
                } else {
                    Err(unreadable(&key, " not available"))
                }
            },
            _ => Err(unreadable(&key, " not available")),
        }
    }

    /// Reports an operation that this driver does not do.
    fn refuse(message: &str) -> (r: AdbcError)
        ensures
            r@ == not_done(message@),
    {
        FlightSqlErrorHelper::not_implemented().message(message).to_adbc()
    }

    /// Cancelling is not done.
    pub fn cancel(&mut self) -> (r: Result<(), AdbcError>)
        ensures
            final(self)@ == old(self)@,
            r matches Err(e) && e@ == not_done("cancel not implemented"@),
    {
        Err(Self::refuse("cancel not implemented"))
    }

    /// Statistics are not named.
    pub fn get_statistic_names(&self) -> (r: Result<(), AdbcError>)
        ensures
            r matches Err(e) && e@ == not_done("get_statistic_names not implemented"@),
    {
        Err(Self::refuse("get_statistic_names not implemented"))
    }

    /// Statistics are not given.
    pub fn get_statistics(&self) -> (r: Result<(), AdbcError>)
        ensures
            r matches Err(e) && e@ == not_done("get_statistics not implemented"@),
    {
        Err(Self::refuse("get_statistics not implemented"))
    }

    /// Committing is not done.
    pub fn commit(&mut self) -> (r: Result<(), AdbcError>)
        ensures
            final(self)@ == old(self)@,
            r matches Err(e) && e@ == not_done("commit not implemented"@),
    {
        Err(Self::refuse("commit not implemented"))
    }

    /// Rolling back is not done.
    pub fn rollback(&mut self) -> (r: Result<(), AdbcError>)
        ensures
            final(self)@ == old(self)@,
            r matches Err(e) && e@ == not_done("rollback not implemented"@),
    {
        Err(Self::refuse("rollback not implemented"))
    }
}

/// An option that was set to a text is read back.
pub proof fn law_text_is_read_back(
    connection: ConnectionView,
    key: OptionConnection,
    value: OptionValue,
)
    requires
        connection.with_option(key, value) is Ok,
        key is CurrentCatalog || key is CurrentSchema || key is IsolationLevel,
    ensures
        value is String,
        connection.with_option(key, value)->Ok_0.0.option_string(key) == Ok::<
            Seq<char>,
            AdbcErrorView,
        >(value->String_0@),
{
}

/// A session option that was set is read back, and no other session option changes.
pub proof fn law_session_option_is_read_back(
    connection: ConnectionView,
    key: String,
    other: String,
    value: OptionValue,
)
    requires
        begins_with(key@, OPTION_SESSION_PREFIX@),
        begins_with(other@, OPTION_SESSION_PREFIX@),
        connection.with_option(OptionConnection::Other(key), value) is Ok,
    ensures
        ({
            let after = connection.with_option(OptionConnection::Other(key), value)->Ok_0.0;
            &&& value is String
            &&& after.option_string(OptionConnection::Other(key)) == Ok::<
                Seq<char>,
                AdbcErrorView,
            >(value->String_0@)
            &&& other@ != key@ ==> after.option_string(OptionConnection::Other(other))
                == connection.option_string(OptionConnection::Other(other))
        }),
{
    reveal_strlit("adbc.flightsql.token");
    reveal_strlit("adbc.flight.sql.rpc.timeout_seconds.");
    reveal_strlit("adbc.flight.sql.session.option.");
    assert(key@.subrange(0, OPTION_SESSION_PREFIX@.len() as int)[16] == 's');
    assert(key@[16] == 's');
    if begins_with(key@, OPTION_TIMEOUT_PREFIX@) {
        assert(key@.subrange(0, OPTION_TIMEOUT_PREFIX@.len() as int)[16] == 'r');
    }
    if other@ != key@ {
        let n = OPTION_SESSION_PREFIX@.len() as int;
        if session_name(other@) == session_name(key@) {
            assert(other@ =~= other@.subrange(0, n) + other@.skip(n));
            assert(key@ =~= key@.subrange(0, n) + key@.skip(n));
        }
    }
}

/// A truth value that was set is read back as one or zero.
pub proof fn law_bool_is_read_back(
    connection: ConnectionView,
    key: OptionConnection,
    value: OptionValue,
)
    requires
        connection.with_option(key, value) is Ok,
        key is AutoCommit || key is ReadOnly,
    ensures
        connection.with_option(key, value)->Ok_0.0.option_int(key) == Ok::<i64, AdbcErrorView>(
            if bool_option(value) == Some(true) {
                1i64
            } else {
                0i64
            },
        ),
{
}

} // verus!
