//! Laws of a connection: its options, its session and its cookies.

use vstd::prelude::*;

use crate::connection::{build_cookie_header, cookie_texts, handshake_error, FlightSqlConnection};
use crate::double::Duration;
use crate::error::{AdbcError, Status};
use crate::laws::{holds_text, same_text_field, takes, tells, tells_of};
use crate::options::{DebugText, Double, OptionConnection, OptionEffect, OptionValue};
use crate::text::joined;
use crate::timeouts::TimeoutOption;

verus! {

/// The key is that of the session option of that name.
pub open spec fn is_session_key(key: OptionConnection, name: Seq<char>) -> bool {
    key matches OptionConnection::Other(k) && k@ == "adbc.flight.sql.session.option."@ + name
}

/// The key begins as those of the timeouts do, and goes on with that text.
pub open spec fn is_timeout_option(key: OptionConnection, kind: Seq<char>) -> bool {
    key matches OptionConnection::Other(k) && k@ == "adbc.flight.sql.rpc.timeout_seconds."@ + kind
}

/// The keys of timeouts, of session options and of the token are told apart.
proof fn lemma_prefixes_are_told_apart(key: Seq<char>, rest: Seq<char>)
    ensures
        "adbc.flight.sql.session.option."@.len() == 31,
        "adbc.flight.sql.session.option."@[16] == 's',
        "adbc.flight.sql.rpc.timeout_seconds."@.len() == 36,
        "adbc.flight.sql.rpc.timeout_seconds."@[16] == 'r',
        "adbc.flightsql.token"@.len() == 20,
        key == "adbc.flight.sql.session.option."@ + rest ==> key.subrange(0, 31)
            == "adbc.flight.sql.session.option."@ && key.skip(31) == rest,
        key == "adbc.flight.sql.rpc.timeout_seconds."@ + rest ==> key.subrange(0, 36)
            == "adbc.flight.sql.rpc.timeout_seconds."@ && key.skip(36) == rest,
        key.len() >= 31 && key.subrange(0, 31) == "adbc.flight.sql.session.option."@ ==> key
            == "adbc.flight.sql.session.option."@ + key.skip(31) && key[16] == 's',
        key.len() >= 36 && key.subrange(0, 36) == "adbc.flight.sql.rpc.timeout_seconds."@ ==> key
            == "adbc.flight.sql.rpc.timeout_seconds."@ + key.skip(36) && key[16] == 'r',
{
    reveal_strlit("adbc.flight.sql.session.option.");
    reveal_strlit("adbc.flight.sql.rpc.timeout_seconds.");
    reveal_strlit("adbc.flightsql.token");
    if key.len() >= 31 {
        assert(key.subrange(0, 31)[16] == key[16]);
        assert(key.subrange(0, 31) + key.skip(31) == key);
    }
    if key.len() >= 36 {
        assert(key.subrange(0, 36)[16] == key[16]);
        assert(key.subrange(0, 36) + key.skip(36) == key);
    }
    assert(("adbc.flight.sql.session.option."@ + rest).subrange(0, 31)
        == "adbc.flight.sql.session.option."@);
    assert(("adbc.flight.sql.session.option."@ + rest).skip(31) == rest);
    assert(("adbc.flight.sql.rpc.timeout_seconds."@ + rest).subrange(0, 36)
        == "adbc.flight.sql.rpc.timeout_seconds."@);
    assert(("adbc.flight.sql.rpc.timeout_seconds."@ + rest).skip(36) == rest);
}

/// Two connections have the same session options.
pub open spec fn same_session(a: FlightSqlConnection, b: FlightSqlConnection) -> bool {
    forall|name: Seq<char>|
        {
            &&& a.session_options@.contains_key(name) <==> #[trigger] b.session_options@.contains_key(
                name,
            )
            &&& a.session_options@.contains_key(name) ==> a.session_options@[name]@
                == b.session_options@[name]@
        }
}

/// A connection has a session option of that name and that value.
pub open spec fn holds_option(
    connection: FlightSqlConnection,
    name: Seq<char>,
    value: Seq<char>,
) -> bool {
    let options = connection.session_options@;
    options.contains_key(name) && options[name]@ == value
}

/// A new connection commits by itself, has no other option, timeout or session option set, and has
/// a jar for cookies, an empty one, exactly if cookies are asked for.
pub proof fn law_new_connection_commits_by_itself(cookie_middleware: bool, r: FlightSqlConnection)
    requires
        call_ensures(FlightSqlConnection::new, (cookie_middleware,), r),
    ensures
        r.autocommit == Some(true),
        r.read_only is None,
        r.current_catalog is None,
        r.current_schema is None,
        r.isolation_level is None,
        r.timeouts.fetch_timeout is None,
        r.timeouts.query_timeout is None,
        r.timeouts.update_timeout is None,
        r.timeouts.connect_timeout is None,
        r.cookies is Some <==> cookie_middleware,
        r.cookies matches Some(jar) ==> jar@.len() == 0,
        forall|name: Seq<char>| !#[trigger] r.session_options@.contains_key(name),
{
    assert forall|name: Seq<char>| !#[trigger] r.session_options@.contains_key(name) by {
        assert(!r@.session_options.contains_key(name));
    }
    if cookie_middleware {
        assert(r@.cookies->Some_0.len() == 0);
    }
}

/// A truth value is taken over where it is set, and stays as it was where not.
pub open spec fn decides(
    set: bool,
    value: OptionValue,
    before: Option<bool>,
    after: Option<bool>,
) -> bool {
    if set {
        &&& value matches OptionValue::String(s) && (s@ == "true"@ || s@ == "false"@)
        &&& after == Some(value->String_0@ == "true"@)
    } else {
        after == before
    }
}

/// An option that is taken reaches its own field and no other; the cookies are left alone.
pub proof fn law_option_reaches_its_field(
    connection: &mut FlightSqlConnection,
    key: OptionConnection,
    value: OptionValue,
    kind: Seq<char>,
    r: Result<OptionEffect, AdbcError>,
)
    requires
        call_ensures(FlightSqlConnection::set_option, (connection, key, value), r),
        r is Ok,
    ensures
        decides(
            key is AutoCommit,
            value,
            old(connection).autocommit,
            final(connection).autocommit,
        ),
        decides(key is ReadOnly, value, old(connection).read_only, final(connection).read_only),
        key is CurrentCatalog || key is CurrentSchema || key is IsolationLevel ==> value is String,
        takes(
            key is CurrentCatalog,
            value->String_0@,
            old(connection).current_catalog,
            final(connection).current_catalog,
        ),
        takes(
            key is CurrentSchema,
            value->String_0@,
            old(connection).current_schema,
            final(connection).current_schema,
        ),
        takes(
            key is IsolationLevel,
            value->String_0@,
            old(connection).isolation_level,
            final(connection).isolation_level,
        ),
        final(connection).timeouts != old(connection).timeouts ==> (
        key matches OptionConnection::Other(k) && is_timeout_option(key, k@.skip(36))),
        final(connection).cookies is Some <==> old(connection).cookies is Some,
        !(key is Other) || is_timeout_option(key, kind) ==> same_session(
            *old(connection),
            *final(connection),
        ),
{
    reveal_strlit("true");
    reveal_strlit("false");
    if let OptionConnection::Other(k) = key {
        lemma_prefixes_are_told_apart(k@, kind);
    }
    lemma_same_session(*old(connection), *final(connection));
}

/// Connections whose session options have the same content have the same session options.
proof fn lemma_same_session(a: FlightSqlConnection, b: FlightSqlConnection)
    ensures
        a@.session_options == b@.session_options ==> same_session(a, b),
{
    if a@.session_options == b@.session_options {
        assert forall|name: Seq<char>|
            {
                &&& a.session_options@.contains_key(name)
                    <==> #[trigger] b.session_options@.contains_key(name)
                &&& a.session_options@.contains_key(name) ==> a.session_options@[name]@
                    == b.session_options@[name]@
            } by {
            assert(a@.session_options.contains_key(name) == a.session_options@.contains_key(name));
            assert(b@.session_options.contains_key(name) == b.session_options@.contains_key(name));
            if a.session_options@.contains_key(name) {
                assert(a@.session_options[name] == a.session_options@[name]@);
                assert(b@.session_options[name] == b.session_options@[name]@);
            }
        }
    }
}

/// A session option is kept under its name, and every other session option stays as it was.
pub proof fn law_session_option_is_kept_under_its_name(
    connection: &mut FlightSqlConnection,
    key: OptionConnection,
    name: Seq<char>,
    value: OptionValue,
    other: Seq<char>,
    r: Result<OptionEffect, AdbcError>,
)
    requires
        is_session_key(key, name),
        call_ensures(FlightSqlConnection::set_option, (connection, key, value), r),
    ensures
        r is Ok <==> value is String,
        r matches Ok(effect) ==> effect is Done,
        r is Ok ==> holds_option(*final(connection), name, value->String_0@),
        r is Err || other != name ==> {
            let before = old(connection).session_options@;
            let after = final(connection).session_options@;
            &&& after.contains_key(other) <==> before.contains_key(other)
            &&& before.contains_key(other) ==> after[other]@ == before[other]@
        },
        final(connection).timeouts == old(connection).timeouts,
{
    lemma_prefixes_are_told_apart(key->Other_0@, name);
    assert(key->Other_0@.skip(31) == name);
    let before = old(connection)@.session_options;
    let after = final(connection)@.session_options;
    assert(before.contains_key(other) == old(connection).session_options@.contains_key(other));
    assert(after.contains_key(other) == final(connection).session_options@.contains_key(other));
    assert(after.contains_key(name) == final(connection).session_options@.contains_key(name));
    assert(final(connection).session_options@.contains_key(name) ==> after[name] == final(
        connection
    ).session_options@[name]@);
    assert(final(connection).session_options@.contains_key(other) ==> after[other] == final(
        connection
    ).session_options@[other]@);
    assert(old(connection).session_options@.contains_key(other) ==> before[other] == old(
        connection
    ).session_options@[other]@);
}

/// A session option that was set is read back.
pub proof fn law_session_option_is_read_back(
    connection: &mut FlightSqlConnection,
    key: OptionConnection,
    name: Seq<char>,
    value: OptionValue,
    set_r: Result<OptionEffect, AdbcError>,
    r: Result<String, AdbcError>,
)
    requires
        is_session_key(key, name),
        call_ensures(FlightSqlConnection::set_option, (connection, key, value), set_r),
        set_r is Ok,
        call_ensures(FlightSqlConnection::get_option_string, (&*final(connection), key), r),
    ensures
        value matches OptionValue::String(s) && (r matches Ok(t) && t@ == s@),
{
    lemma_prefixes_are_told_apart(key->Other_0@, name);
}

/// Options are taken for known keys: truth values for the two switches, texts for the names and the
/// session options, numbers for the timeouts. The token belongs to the database, and an unknown key
/// is not implemented.
pub proof fn law_options_are_taken_or_refused(
    connection: &mut FlightSqlConnection,
    key: OptionConnection,
    value: OptionValue,
    r: Result<OptionEffect, AdbcError>,
)
    requires
        call_ensures(FlightSqlConnection::set_option, (connection, key, value), r),
    ensures
        key is AutoCommit || key is ReadOnly ==> (r is Ok <==> value is String && (
        value->String_0@ == "true"@ || value->String_0@ == "false"@)),
        key is CurrentCatalog || key is CurrentSchema || key is IsolationLevel ==> (r is Ok
            <==> value is String),
        !(key is Other) ==> (r matches Ok(effect) ==> effect is Done),
        !(key is Other) ==> (r matches Err(e) ==> e.status is InvalidArguments),
        key matches OptionConnection::Other(k) ==> {
            &&& k@ == "adbc.flightsql.token"@ ==> (r matches Err(e) && tells(
                e,
                Status::InvalidState,
                "Set token via database option before creating connection"@,
            ))
            &&& k@ == "adbc.flightsql.token"@ || is_timeout_option(key, k@.skip(36))
                || is_session_key(key, k@.skip(31)) || (r matches Err(e) && tells(
                e,
                Status::NotImplemented,
                "unknown option "@ + k.debug_view(),
            ))
        },
        r is Err ==> {
            &&& final(connection).autocommit == old(connection).autocommit
            &&& final(connection).read_only == old(connection).read_only
            &&& same_text_field(
                final(connection).current_catalog,
                old(connection).current_catalog,
            )
            &&& same_text_field(final(connection).current_schema, old(connection).current_schema)
            &&& same_text_field(
                final(connection).isolation_level,
                old(connection).isolation_level,
            )
            &&& final(connection).timeouts == old(connection).timeouts
            &&& same_session(*old(connection), *final(connection))
        },
{
    reveal_strlit("true");
    reveal_strlit("false");
    if let OptionConnection::Other(k) = key {
        lemma_prefixes_are_told_apart(k@, k@.skip(31));
        lemma_prefixes_are_told_apart(k@, k@.skip(36));
    }
    lemma_same_session(*old(connection), *final(connection));
}

/// A timeout is set on a connection as it is set on the timeouts themselves.
pub proof fn law_timeout_is_set_on_the_connection(
    connection: &mut FlightSqlConnection,
    key: OptionConnection,
    kind: Seq<char>,
    value: OptionValue,
    r: Result<OptionEffect, AdbcError>,
    timeouts: &mut TimeoutOption,
    name: &str,
    direct: Result<OptionEffect, AdbcError>,
)
    requires
        is_timeout_option(key, kind),
        name@ == key->Other_0@,
        call_ensures(FlightSqlConnection::set_option, (connection, key, value), r),
        call_ensures(TimeoutOption::set_timeout_value, (timeouts, name, &value), direct),
        *old(timeouts) == old(connection).timeouts,
    ensures
        final(connection).timeouts == *final(timeouts),
        r is Ok <==> direct is Ok,
        r matches Ok(effect) ==> effect@ == direct->Ok_0@,
        r matches Err(e) ==> e@ == direct->Err_0@,
{
    lemma_prefixes_are_told_apart(key->Other_0@, kind);
}

/// A converted number of seconds is set on a connection as it is set on the timeouts themselves,
/// and changes nothing else.
pub proof fn law_converted_seconds_are_set_on_the_connection(
    connection: &mut FlightSqlConnection,
    key: &str,
    seconds: Option<Double>,
    r: Result<(), AdbcError>,
    timeouts: &mut TimeoutOption,
    direct: Result<(), AdbcError>,
)
    requires
        call_ensures(FlightSqlConnection::set_converted_seconds, (connection, key, seconds), r),
        call_ensures(TimeoutOption::set_converted_seconds, (timeouts, key, seconds), direct),
        *old(timeouts) == old(connection).timeouts,
    ensures
        final(connection).timeouts == *final(timeouts),
        r is Ok <==> direct is Ok,
        final(connection).autocommit == old(connection).autocommit,
        final(connection).read_only == old(connection).read_only,
        same_text_field(final(connection).current_catalog, old(connection).current_catalog),
        same_text_field(final(connection).current_schema, old(connection).current_schema),
        same_text_field(final(connection).isolation_level, old(connection).isolation_level),
        same_session(*old(connection), *final(connection)),
{
    lemma_same_session(*old(connection), *final(connection));
}

/// Reading a text field gives its text, or says that it was not found.
pub open spec fn reads(r: Result<String, AdbcError>, field: Option<String>) -> bool {
    match field {
        Some(text) => r matches Ok(t) && t@ == text@,
        None => r matches Err(e) && e.status is NotFound,
    }
}

/// A switch reads as one if it is on, and as zero if it is off.
pub open spec fn reads_switch(r: Result<i64, AdbcError>, field: Option<bool>) -> bool {
    match field {
        Some(b) => r == Ok::<i64, AdbcError>(
            if b {
                1
            } else {
                0
            },
        ),
        None => r matches Err(e) && e.status is NotFound,
    }
}

/// An option that can be read as a text gives the text of its own field, or of its own session
/// option.
pub proof fn law_option_is_read_from_its_field(
    connection: &FlightSqlConnection,
    key: OptionConnection,
    name: Seq<char>,
    r: Result<String, AdbcError>,
)
    requires
        call_ensures(FlightSqlConnection::get_option_string, (connection, key), r),
    ensures
        key is CurrentCatalog ==> reads(r, connection.current_catalog),
        key is CurrentSchema ==> reads(r, connection.current_schema),
        key is IsolationLevel ==> reads(r, connection.isolation_level),
        is_session_key(key, name) ==> reads(
            r,
            if connection.session_options@.contains_key(name) {
                Some(connection.session_options@[name])
            } else {
                None
            },
        ),
        key is AutoCommit || key is ReadOnly ==> reads(r, None),
        key matches OptionConnection::Other(k) ==> is_session_key(key, k@.skip(31)) || reads(
            r,
            None,
        ),
{
    if let OptionConnection::Other(k) = key {
        lemma_prefixes_are_told_apart(k@, name);
        lemma_prefixes_are_told_apart(k@, k@.skip(31));
    }
    assert(connection@.session_options.contains_key(name)
        == connection.session_options@.contains_key(name));
}

/// A switch can be read as an integer, and nothing else can.
pub proof fn law_switch_is_read_as_an_integer(
    connection: &FlightSqlConnection,
    key: OptionConnection,
    r: Result<i64, AdbcError>,
)
    requires
        call_ensures(FlightSqlConnection::get_option_int, (connection, key), r),
    ensures
        key is AutoCommit ==> reads_switch(r, connection.autocommit),
        key is ReadOnly ==> reads_switch(r, connection.read_only),
        !(key is AutoCommit) && !(key is ReadOnly) ==> reads_switch(r, None),
{
}

/// A switch that was set is read back, as one or as zero.
pub proof fn law_switch_is_read_back(
    connection: &mut FlightSqlConnection,
    key: OptionConnection,
    value: OptionValue,
    set_r: Result<OptionEffect, AdbcError>,
    r: Result<i64, AdbcError>,
)
    requires
        key is AutoCommit || key is ReadOnly,
        call_ensures(FlightSqlConnection::set_option, (connection, key, value), set_r),
        set_r is Ok,
        call_ensures(FlightSqlConnection::get_option_int, (&*final(connection), key), r),
    ensures
        value is String,
        value->String_0@ == "true"@ ==> r == Ok::<i64, AdbcError>(1),
        value->String_0@ == "false"@ ==> r == Ok::<i64, AdbcError>(0),
        value->String_0@ == "true"@ || value->String_0@ == "false"@,
{
    reveal_strlit("true");
    reveal_strlit("false");
    assert("true"@.len() != "false"@.len());
}

/// A timeout is read from a connection as it is read from the timeouts themselves; nothing else can
/// be read as a double.
pub proof fn law_timeout_is_read_from_the_connection(
    connection: &FlightSqlConnection,
    key: OptionConnection,
    r: Result<Duration, AdbcError>,
    name: &str,
    direct: Result<Duration, AdbcError>,
)
    requires
        call_ensures(FlightSqlConnection::get_option_double, (connection, key), r),
        call_ensures(TimeoutOption::get_timeout_seconds, (&connection.timeouts, name), direct),
    ensures
        key matches OptionConnection::Other(k) ==> k@ == name@ ==> is_timeout_option(
            key,
            k@.skip(36),
        ) ==> (r is Ok <==> direct is Ok) && (r is Ok ==> r == direct),
        key matches OptionConnection::Other(k) ==> is_timeout_option(key, k@.skip(36)) || (
        r matches Err(e) && e.status is NotFound),
        !(key is Other) ==> (r matches Err(e) && e.status is NotFound),
{
    if let OptionConnection::Other(k) = key {
        lemma_prefixes_are_told_apart(k@, k@.skip(36));
    }
}

/// One cookie more in the jar is one more at the end of the header, by its name and its value,
/// after a semicolon where there are others.
pub proof fn law_cookies_are_joined_in_order(
    cookies: &Vec<(String, String)>,
    r: String,
    more: &Vec<(String, String)>,
    more_r: String,
    name: String,
    value: String,
)
    requires
        call_ensures(build_cookie_header, (cookies,), r),
        call_ensures(build_cookie_header, (more,), more_r),
        more@ == cookies@.push((name, value)),
    ensures
        cookies@.len() == 0 ==> r@.len() == 0 && more_r@ == name@ + "="@ + value@,
        cookies@.len() > 0 ==> more_r@ == r@ + "; "@ + (name@ + "="@ + value@),
{
    let texts = cookie_texts(more@);
    assert(texts.drop_last() =~= cookie_texts(cookies@));
    assert(texts.last() == name@ + "="@ + value@);
}

/// The cookies in the jar are sent in one header, exactly if there is a jar with cookies in it.
pub proof fn law_cookies_in_the_jar_are_sent(
    connection: &FlightSqlConnection,
    r: Option<String>,
    cookies: &Vec<(String, String)>,
    header: String,
)
    requires
        call_ensures(FlightSqlConnection::cookie_header, (connection,), r),
        call_ensures(build_cookie_header, (cookies,), header),
    ensures
        r is Some <==> (connection.cookies matches Some(jar) && jar@.len() > 0),
        connection.cookies matches Some(jar) ==> jar@ == cookies@ ==> jar@.len() > 0 ==> holds_text(
            r,
            header@,
        ),
{
    if let Some(jar) = connection.cookies {
        let texts = cookie_texts(jar@);
        if jar@.len() > 0 {
            reveal_strlit("=");
            assert(texts.last() == jar@.last().0@ + "="@ + jar@.last().1@);
            assert(texts.last().len() > 0);
            assert(joined(texts, "; "@).len() > 0);
        }
    }
}

/// A handshake that failed is a fault of authentication, and says why.
pub proof fn law_failed_handshake_is_told(text: &str, r: AdbcError)
    requires
        call_ensures(handshake_error, (text,), r),
    ensures
        tells_of(
            r,
            Status::Unauthenticated,
            "authenticating to FlightSQL server"@,
            "handshake failed: "@ + text@,
        ),
{
}

/// What the driver does not do is said not to be implemented, and changes nothing.
pub proof fn law_undone_operations_are_told(
    a: &mut FlightSqlConnection,
    cancel: Result<(), AdbcError>,
    b: &mut FlightSqlConnection,
    commit: Result<(), AdbcError>,
    c: &mut FlightSqlConnection,
    rollback: Result<(), AdbcError>,
    d: &FlightSqlConnection,
    names: Result<(), AdbcError>,
    statistics: Result<(), AdbcError>,
)
    requires
        call_ensures(FlightSqlConnection::cancel, (a,), cancel),
        call_ensures(FlightSqlConnection::commit, (b,), commit),
        call_ensures(FlightSqlConnection::rollback, (c,), rollback),
        call_ensures(FlightSqlConnection::get_statistic_names, (d,), names),
        call_ensures(FlightSqlConnection::get_statistics, (d,), statistics),
    ensures
        final(a)@ == old(a)@,
        final(b)@ == old(b)@,
        final(c)@ == old(c)@,
        cancel matches Err(e) && tells(e, Status::NotImplemented, "cancel not implemented"@),
        commit matches Err(e) && tells(e, Status::NotImplemented, "commit not implemented"@),
        rollback matches Err(e) && tells(e, Status::NotImplemented, "rollback not implemented"@),
        names matches Err(e) && tells(
            e,
            Status::NotImplemented,
            "get_statistic_names not implemented"@,
        ),
        statistics matches Err(e) && tells(
            e,
            Status::NotImplemented,
            "get_statistics not implemented"@,
        ),
{
}

/// A value that an option does not take is told with the option and the value.
pub proof fn law_refused_value_is_told(
    connection: &mut FlightSqlConnection,
    key: OptionConnection,
    value: OptionValue,
    name: Seq<char>,
    r: Result<OptionEffect, AdbcError>,
)
    requires
        call_ensures(FlightSqlConnection::set_option, (connection, key, value), r),
        r is Err,
    ensures
        key is AutoCommit || key is ReadOnly ==> tells_of(
            r->Err_0,
            Status::InvalidArguments,
            "invalid option "@ + key.debug_view() + "="@ + value.debug_view(),
            if value is String {
                "must be 'true' or 'false'"@
            } else {
                "must be a string"@
            },
        ),
        key is CurrentCatalog || key is CurrentSchema || key is IsolationLevel ==> tells_of(
            r->Err_0,
            Status::InvalidArguments,
            "invalid option "@ + key.debug_view() + "="@ + value.debug_view(),
            "must be a string"@,
        ),
        is_session_key(key, name) ==> tells_of(
            r->Err_0,
            Status::InvalidArguments,
            "invalid option "@ + key->Other_0.debug_view() + "="@ + value.debug_view(),
            "must be a string"@,
        ),
{
    if let OptionConnection::Other(k) = key {
        lemma_prefixes_are_told_apart(k@, name);
    }
}

/// An option that is not set, or cannot be read in a way, is not found, and that is told.
pub proof fn law_unset_option_is_told(
    connection: &FlightSqlConnection,
    key: OptionConnection,
    name: Seq<char>,
    text: Result<String, AdbcError>,
    number: Result<i64, AdbcError>,
    bytes: Result<Vec<u8>, AdbcError>,
)
    requires
        call_ensures(FlightSqlConnection::get_option_string, (connection, key), text),
        call_ensures(FlightSqlConnection::get_option_int, (connection, key), number),
        call_ensures(FlightSqlConnection::get_option_bytes, (connection, key), bytes),
    ensures
        text matches Err(e) ==> {
            &&& key is CurrentCatalog ==> tells(e, Status::NotFound, "CurrentCatalog not set"@)
            &&& key is CurrentSchema ==> tells(e, Status::NotFound, "CurrentSchema not set"@)
            &&& key is IsolationLevel ==> tells(e, Status::NotFound, "IsolationLevel not set"@)
            &&& key is AutoCommit || key is ReadOnly ==> tells(
                e,
                Status::NotFound,
                "Option "@ + key.debug_view() + " not retrievable as string"@,
            )
            &&& is_session_key(key, name) ==> tells(
                e,
                Status::NotFound,
                "Session option "@ + name + " not set"@,
            )
        },
        number matches Err(e) ==> {
            &&& key is AutoCommit ==> tells(e, Status::NotFound, "AutoCommit not set"@)
            &&& key is ReadOnly ==> tells(e, Status::NotFound, "ReadOnly not set"@)
            &&& !(key is AutoCommit) && !(key is ReadOnly) ==> tells(
                e,
                Status::NotFound,
                "Option "@ + key.debug_view() + " not retrievable as int"@,
            )
        },
        bytes matches Err(e) && tells(
            e,
            Status::NotFound,
            "Option "@ + key.debug_view() + " not available"@,
        ),
{
    if let OptionConnection::Other(k) = key {
        lemma_prefixes_are_told_apart(k@, name);
    }
}

/// Setting an option, whether it is taken or refused, leaves the cookies alone: the same header is
/// sent before and after.
pub proof fn law_options_leave_the_cookies_alone(
    connection: &mut FlightSqlConnection,
    key: OptionConnection,
    value: OptionValue,
    r: Result<OptionEffect, AdbcError>,
    before: Option<String>,
    after: Option<String>,
)
    requires
        call_ensures(FlightSqlConnection::set_option, (connection, key, value), r),
        call_ensures(FlightSqlConnection::cookie_header, (&*old(connection),), before),
        call_ensures(FlightSqlConnection::cookie_header, (&*final(connection),), after),
    ensures
        same_text_field(before, after),
{
}

} // verus!
