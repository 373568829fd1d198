//! Laws of the driver: new databases, and databases with options.

use vstd::prelude::*;

use crate::database::FlightSqlDatabase;
use crate::driver::{with_options, FlightSqlDriver};
use crate::error::AdbcError;
use crate::laws::database::{same_beside_place, same_place};
use crate::laws::same_text_field;
use crate::options::{OptionDatabase, OptionValue};
use crate::transport::Transport;

verus! {

/// A driver keeps the runtime that it was made with, and hands it to its databases.
pub proof fn law_runtime_is_handed_on(
    handle: Option<tokio::runtime::Handle>,
    made: FlightSqlDriver,
    driver: &mut FlightSqlDriver,
    r: Result<FlightSqlDatabase, AdbcError>,
)
    requires
        call_ensures(FlightSqlDriver::new, (handle,), made),
        *old(driver) == made,
        call_ensures(FlightSqlDriver::new_database, (driver,), r),
    ensures
        r matches Ok(database) && database.handle == handle,
        final(driver).handle == handle,
{
}

/// A new database has no URI, no credentials and no options, and stands at port 50051 in plaintext.
pub proof fn law_new_database_has_nothing_set(
    driver: &mut FlightSqlDriver,
    r: Result<FlightSqlDatabase, AdbcError>,
)
    requires
        call_ensures(FlightSqlDriver::new_database, (driver,), r),
    ensures
        r matches Ok(database) && {
            &&& database.uri is None
            &&& database.username is None
            &&& database.password is None
            &&& database.token is None
            &&& database.tls_opts.ca_cert_path is None
            &&& database.tls_opts.ca_cert_pem is None
            &&& !database.tls_opts.skip_verify
            &&& database.tls_opts.override_hostname is None
            &&& database.tls_opts.mtls_cert_chain is None
            &&& database.tls_opts.mtls_private_key is None
            &&& database.tls_opts.authority is None
            &&& database.oauth.flow is None
            &&& database.oauth.client_id is None
            &&& database.oauth.client_secret is None
            &&& database.oauth.token_url is None
            &&& database.oauth.scope is None
            &&& database.oauth.subject_token is None
            &&& database.oauth.actor_token is None
            &&& !database.cookie_middleware
            &&& !database.tls
            &&& database.host@.len() == 0
            &&& database.port == 50051
            &&& database.unix_socket_path is None
            &&& (database.transport matches Transport::Plaintext { host, port } && host@.len() == 0
                && port == 50051)
        },
{
}

/// Two databases are the same in every field.
pub open spec fn same_database(a: FlightSqlDatabase, b: FlightSqlDatabase) -> bool {
    same_text_field(a.uri, b.uri) && same_place(a, b) && same_beside_place(a, b)
}

/// Options are set one after the other: no options give a new database, and one option more is set
/// on the database with the others. The first that is refused is the failure of all.
pub proof fn law_options_are_set_one_by_one(
    bare: &mut FlightSqlDriver,
    bare_r: Result<FlightSqlDatabase, AdbcError>,
    driver: &mut FlightSqlDriver,
    opts: Vec<(OptionDatabase, OptionValue)>,
    r: Result<FlightSqlDatabase, AdbcError>,
    setting: &mut FlightSqlDatabase,
    key: OptionDatabase,
    value: OptionValue,
    set_r: Result<(), AdbcError>,
    again: &mut FlightSqlDriver,
    more: Vec<(OptionDatabase, OptionValue)>,
    more_r: Result<FlightSqlDatabase, AdbcError>,
)
    requires
        call_ensures(FlightSqlDriver::new_database, (bare,), bare_r),
        *old(bare) == *old(driver),
        call_ensures(FlightSqlDriver::new_database_with_opts, (driver, opts), r),
        r matches Ok(database) ==> *old(setting) == database,
        call_ensures(FlightSqlDatabase::set_option, (setting, key, value), set_r),
        *old(again) == *old(driver),
        more@ == opts@.push((key, value)),
        call_ensures(FlightSqlDriver::new_database_with_opts, (again, more), more_r),
    ensures
        opts@.len() == 0 ==> r is Ok && bare_r is Ok && same_database(r->Ok_0, bare_r->Ok_0),
        r is Err ==> more_r is Err && more_r->Err_0@ == r->Err_0@,
        r is Ok ==> (more_r is Ok <==> set_r is Ok),
        r is Ok && set_r is Ok ==> same_database(more_r->Ok_0, *final(setting)),
        r is Ok && set_r is Err ==> more_r->Err_0@ == set_r->Err_0@,
{
    assert(more@.drop_last() =~= opts@);
    assert(more@.last() == (key, value));
}

} // verus!
