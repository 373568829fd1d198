//! The driver: where databases come from.

use vstd::prelude::*;

use crate::database::{
    law_transport_stays_mirrored, no_oauth_options, transport_is_mirrored, DatabaseView,
    FlightSqlDatabase, OAuthOptions,
};
use crate::error::{AdbcError, AdbcErrorView};
use crate::options::{OptionDatabase, OptionValue};
use crate::transport::{no_tls_options, TlsOptions, Transport, TransportView};

verus! {

#[verifier::external_type_specification]
#[verifier::external_body]
pub struct ExHandle(tokio::runtime::Handle);

/// Trusted: cloning a `tokio::runtime::Handle` gives a handle to the same runtime.
pub assume_specification[ <tokio::runtime::Handle as Clone>::clone ](
    handle: &tokio::runtime::Handle,
) -> (r: tokio::runtime::Handle)
    ensures
        r == *handle,
;

/// A driver, with the asynchronous runtime that its connections share, if there is one.
pub struct FlightSqlDriver {
    pub handle: Option<tokio::runtime::Handle>,
}

impl Default for FlightSqlDriver {
    fn default() -> (r: Self)
        ensures
            r.handle is None,
    {
        FlightSqlDriver { handle: None }
    }
}

/// A new database: it has no URI, no credentials and no options.
pub open spec fn new_database(handle: Option<tokio::runtime::Handle>) -> DatabaseView {
    DatabaseView {
        uri: None,
        username: None,
        password: None,
        token: None,
        handle,
        tls_opts: no_tls_options(),
        oauth: no_oauth_options(),
        cookie_middleware: false,
        transport: TransportView::Plaintext { host: Seq::empty(), port: 50051 },
        tls: false,
        host: Seq::empty(),
        port: 50051,
        unix_socket_path: None,
    }
}

/// What setting options one after the other leads to: the first that fails ends it.
pub open spec fn with_options(
    database: DatabaseView,
    opts: Seq<(OptionDatabase, OptionValue)>,
) -> Result<DatabaseView, AdbcErrorView>
    decreases opts.len(),
{
    if opts.len() == 0 {
        Ok(database)
    } else {
        match with_options(database, opts.drop_last()) {
            Ok(d) => d.with_option(opts.last().0, opts.last().1),
            Err(e) => Err(e),
        }
    }
}

/// A failure among the first options is the failure of all.
proof fn lemma_failure_stays(
    database: DatabaseView,
    opts: Seq<(OptionDatabase, OptionValue)>,
    n: int,
)
    requires
        0 <= n <= opts.len(),
        with_options(database, opts.take(n)) is Err,
    ensures
        with_options(database, opts) == with_options(database, opts.take(n)),
    decreases opts.len() - n,
{
    if n == opts.len() {
        assert(opts.take(n) == opts);
    } else {
        assert(opts.take(n + 1).drop_last() == opts.take(n));
        lemma_failure_stays(database, opts, n + 1);
    }
}

/// The view of a database or an error.
pub open spec fn database_result(r: Result<FlightSqlDatabase, AdbcError>) -> Result<
    DatabaseView,
    AdbcErrorView,
> {
    match r {
        Ok(d) => Ok(d@),
        Err(e) => Err(e@),
    }
}

impl FlightSqlDriver {
    /// A driver, optionally on an existing runtime.
    pub fn new(handle: Option<tokio::runtime::Handle>) -> (r: Self)
        ensures
            r.handle == handle,
    {
        FlightSqlDriver { handle }
    }

    /// A new database.
    pub fn new_database(&mut self) -> (r: Result<FlightSqlDatabase, AdbcError>)
        ensures
            *final(self) == *old(self),
            database_result(r) == Ok::<DatabaseView, AdbcErrorView>(
                new_database(old(self).handle),
            ),
    {
        let handle = match &self.handle {
            Some(h) => Some(h.clone()),
            None => None,
        };
        Ok(
            FlightSqlDatabase {
                uri: None,
                username: None,
                password: None,
                token: None,
                handle,
                tls_opts: TlsOptions::default(),
                oauth: OAuthOptions::default(),
                cookie_middleware: false,
                transport: Transport::Plaintext { host: String::new(), port: 50051 },
                tls: false,
                host: String::new(),
                port: 50051,
                unix_socket_path: None,
            },
        )
    }

    /// A new database with options, set one after the other.
    pub fn new_database_with_opts(&mut self, opts: Vec<(OptionDatabase, OptionValue)>) -> (r: Result<
        FlightSqlDatabase,
        AdbcError,
    >)
        ensures
            *final(self) == *old(self),
            database_result(r) == with_options(new_database(old(self).handle), opts@),
    {
        let mut database = match self.new_database() {
            Ok(d) => d,
            Err(e) => {
                return Err(e);
            },
        };
        let ghost start = database@;
        let ghost all = opts@;
        assert(all.take(0) =~= Seq::<(OptionDatabase, OptionValue)>::empty());
        for opt in it: opts
            invariant
                *self == *old(self),
                all == opts@,
                it.seq() == opts@,
                start == new_database(old(self).handle),
                with_options(start, all.take(it.index() as int)) == Ok::<
                    DatabaseView,
                    AdbcErrorView,
                >(database@),
        {
            proof {
                assert(all.take(it.index() + 1).drop_last() == all.take(it.index() as int));
                assert(all.take(it.index() + 1).last() == opt);
            }
            let (key, value) = opt;
            match database.set_option(key, value) {
                Ok(()) => {},
                Err(e) => {
                    proof {
                        lemma_failure_stays(start, all, it.index() + 1);
                    }
                    return Err(e);
                },
            }
        }
        assert(all.take(all.len() as int) == all);
        Ok(database)
    }
}

/// In a new database, and in one with options, the fields that mirror the transport are in step
/// with it.
pub proof fn law_databases_mirror_their_transport(
    handle: Option<tokio::runtime::Handle>,
    opts: Seq<(OptionDatabase, OptionValue)>,
)
    ensures
        with_options(new_database(handle), opts) matches Ok(database) ==> transport_is_mirrored(
            database,
        ),
    decreases opts.len(),
{
    if opts.len() > 0 {
        law_databases_mirror_their_transport(handle, opts.drop_last());
        if let Ok(d) = with_options(new_database(handle), opts.drop_last()) {
            if d.with_option(opts.last().0, opts.last().1) is Ok {
                law_transport_stays_mirrored(d, opts.last().0, opts.last().1);
            }
        }
    }
}

} // verus!
