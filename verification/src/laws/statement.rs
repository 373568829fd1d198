//! Laws of a statement: its options, its query, what it ingests, prepares and runs.

use vstd::prelude::*;

use crate::columns::{schema_fields, Batch};
use crate::double::Duration;
use crate::error::{map_flight_error, AdbcError, FlightError, Status};
use crate::flight::{decodes, encoded_schema};
use crate::laws::results::may_decode;
use crate::laws::{holds_text, same_text_field, takes, tells, tells_of};
use crate::metadata::collect::undecodable;
use crate::options::{DebugText, Double, OptionEffect, OptionStatement, OptionValue};
use crate::statement::{
    ExecuteStep, FlightSqlStatement, IngestRequest, PrepareRequest, ResultSchemaStep,
};
use crate::stream::FlightSqlRecordBatchReader;
use crate::text::{decimal_int, i64_of};
use crate::timeouts::TimeoutOption;

verus! {

/// Two statements have the same query, and know and prepared the same about it.
pub open spec fn same_query(a: FlightSqlStatement, b: FlightSqlStatement) -> bool {
    &&& same_text_field(a.sql, b.sql)
    &&& a.cached_schema == b.cached_schema
    &&& a.prepared == b.prepared
    &&& a.prepared_parameter_schema == b.prepared_parameter_schema
}

/// Two statements ingest into the same table in the same way.
pub open spec fn same_target(a: FlightSqlStatement, b: FlightSqlStatement) -> bool {
    &&& same_text_field(a.ingest_target_table, b.ingest_target_table)
    &&& same_target_beside_table(a, b)
}

/// Two statements ingest in the same way, but for the table.
pub open spec fn same_target_beside_table(a: FlightSqlStatement, b: FlightSqlStatement) -> bool {
    &&& same_text_field(a.ingest_mode, b.ingest_mode)
    &&& same_text_field(a.ingest_catalog, b.ingest_catalog)
    &&& same_text_field(a.ingest_schema, b.ingest_schema)
    &&& a.ingest_temporary == b.ingest_temporary
}

/// Two statements wait equally long.
pub open spec fn same_waits(a: FlightSqlStatement, b: FlightSqlStatement) -> bool {
    a.timeout == b.timeout && a.timeouts == b.timeouts
}

/// Nothing in a statement changed.
pub open spec fn is_unchanged(a: FlightSqlStatement, b: FlightSqlStatement) -> bool {
    &&& same_query(a, b)
    &&& same_target(a, b)
    &&& same_waits(a, b)
    &&& a.validity == b.validity
    &&& a.bound_batch == b.bound_batch
}

/// Nothing in a statement changed, but that its results are given up.
pub open spec fn is_given_up(a: FlightSqlStatement, b: FlightSqlStatement) -> bool {
    &&& same_query(a, b)
    &&& same_target(a, b)
    &&& same_waits(a, b)
    &&& b.validity.cancelled
    &&& b.validity.latest == a.validity.latest
    &&& a.bound_batch == b.bound_batch
}

/// The key is that of the timeout of the whole execution.
pub open spec fn is_exec_timeout(key: OptionStatement) -> bool {
    key matches OptionStatement::Other(k) && k@ == "adbc.statement.exec_timeout_ms"@
}

/// The key begins as those of the timeouts do, and goes on with that text.
pub open spec fn is_timeout_option(key: OptionStatement, kind: Seq<char>) -> bool {
    key matches OptionStatement::Other(k) && k@ == "adbc.flight.sql.rpc.timeout_seconds."@ + kind
}

/// The keys of timeouts are told apart.
proof fn lemma_prefixes_are_told_apart(key: Seq<char>, kind: Seq<char>)
    ensures
        "adbc.statement.exec_timeout_ms"@.len() == 30,
        "adbc.flight.sql.rpc.timeout_seconds."@.len() == 36,
        key == "adbc.flight.sql.rpc.timeout_seconds."@ + kind ==> key.subrange(0, 36)
            == "adbc.flight.sql.rpc.timeout_seconds."@ && key.skip(36) == kind,
        key.len() >= 36 && key.subrange(0, 36) == "adbc.flight.sql.rpc.timeout_seconds."@ ==> key
            == "adbc.flight.sql.rpc.timeout_seconds."@ + key.skip(36),
{
    reveal_strlit("adbc.statement.exec_timeout_ms");
    reveal_strlit("adbc.flight.sql.rpc.timeout_seconds.");
    if key.len() >= 36 {
        assert(key.subrange(0, 36) + key.skip(36) == key);
    }
    assert(("adbc.flight.sql.rpc.timeout_seconds."@ + kind).subrange(0, 36)
        == "adbc.flight.sql.rpc.timeout_seconds."@);
    assert(("adbc.flight.sql.rpc.timeout_seconds."@ + kind).skip(36) == kind);
}

/// A new statement has no query, prepared nothing, knows nothing, ingests nothing, waits without a
/// limit and has no results.
pub proof fn law_new_statement_has_nothing(r: FlightSqlStatement)
    requires
        call_ensures(FlightSqlStatement::new, (), r),
    ensures
        r.sql is None,
        r.cached_schema is None,
        !r.prepared,
        r.prepared_parameter_schema is None,
        r.timeout is None,
        r.timeouts.fetch_timeout is None,
        r.timeouts.query_timeout is None,
        r.timeouts.update_timeout is None,
        r.timeouts.connect_timeout is None,
        r.ingest_target_table is None,
        r.ingest_mode is None,
        r.ingest_catalog is None,
        r.ingest_schema is None,
        !r.ingest_temporary,
        r.bound_batch is None,
        r.validity.latest == 0,
        !r.validity.cancelled,
{
}

/// A name is taken over where it is set, and an empty one stands for none; it stays as it was where
/// it is not set.
pub open spec fn names(
    set: bool,
    text: Seq<char>,
    before: Option<String>,
    after: Option<String>,
) -> bool {
    if set && text.len() == 0 {
        after is None
    } else {
        takes(set, text, before, after)
    }
}

/// An option that is taken reaches its own field and no other. The query, the results and the bound
/// rows are left alone.
pub proof fn law_option_reaches_its_field(
    statement: &mut FlightSqlStatement,
    key: OptionStatement,
    value: OptionValue,
    r: Result<OptionEffect, AdbcError>,
)
    requires
        call_ensures(FlightSqlStatement::set_option, (statement, key, value), r),
        r is Ok,
    ensures
        key is IngestMode || key is TargetTable || key is TargetCatalog || key is TargetDbSchema
            || key is Temporary ==> value is String,
        takes(
            key is IngestMode,
            value->String_0@,
            old(statement).ingest_mode,
            final(statement).ingest_mode,
        ),
        takes(
            key is TargetTable,
            value->String_0@,
            old(statement).ingest_target_table,
            final(statement).ingest_target_table,
        ),
        names(
            key is TargetCatalog,
            value->String_0@,
            old(statement).ingest_catalog,
            final(statement).ingest_catalog,
        ),
        names(
            key is TargetDbSchema,
            value->String_0@,
            old(statement).ingest_schema,
            final(statement).ingest_schema,
        ),
        final(statement).ingest_temporary == (if key is Temporary {
            value->String_0@ == "true"@ || value->String_0@ == "adbc.option.value.enabled"@
        } else {
            old(statement).ingest_temporary
        }),
        final(statement).timeout != old(statement).timeout ==> is_exec_timeout(key),
        final(statement).timeouts != old(statement).timeouts ==> (
        key matches OptionStatement::Other(k) && is_timeout_option(key, k@.skip(36))),
        same_query(*old(statement), *final(statement)),
        final(statement).validity == old(statement).validity,
        final(statement).bound_batch == old(statement).bound_batch,
        !(key is Other) ==> (r matches Ok(effect) && effect is Done),
{
    if let OptionStatement::Other(k) = key {
        lemma_prefixes_are_told_apart(k@, k@.skip(36));
    }
}

/// Options of ingestion take texts, options of progress take everything, and an unknown key is not
/// implemented. What is refused changes nothing.
pub proof fn law_options_are_taken_or_refused(
    statement: &mut FlightSqlStatement,
    key: OptionStatement,
    value: OptionValue,
    r: Result<OptionEffect, AdbcError>,
)
    requires
        call_ensures(FlightSqlStatement::set_option, (statement, key, value), r),
    ensures
        key is IngestMode || key is TargetTable || key is TargetCatalog || key is TargetDbSchema
            || key is Temporary ==> (r is Ok <==> value is String),
        key is Incremental || key is Progress || key is MaxProgress ==> r is Ok && is_unchanged(
            *old(statement),
            *final(statement),
        ),
        key matches OptionStatement::Other(k) ==> is_exec_timeout(key) || is_timeout_option(
            key,
            k@.skip(36),
        ) || (r matches Err(e) && tells(
            e,
            Status::NotImplemented,
            "unknown option "@ + k.debug_view(),
        )),
        !(key is Other) ==> (r matches Err(e) ==> e.status is InvalidArguments),
        r is Err ==> is_unchanged(*old(statement), *final(statement)),
{
    if let OptionStatement::Other(k) = key {
        lemma_prefixes_are_told_apart(k@, k@.skip(36));
    }
}

/// The number that a value stands for.
pub open spec fn is_number(value: OptionValue, number: i64) -> bool {
    match value {
        OptionValue::Int(i) => i == number,
        OptionValue::String(s) => i64_of(s@) == Some(number),
        _ => false,
    }
}

/// A timeout of the whole execution is kept as the span of as many milliseconds, and the server is
/// told them in a header. Zero milliseconds remove it, and the server is told a year. A number
/// below zero, or none, is an invalid argument.
pub proof fn law_exec_timeout_is_kept_and_told(
    statement: &mut FlightSqlStatement,
    key: OptionStatement,
    value: OptionValue,
    millis: i64,
    r: Result<OptionEffect, AdbcError>,
)
    requires
        is_exec_timeout(key),
        call_ensures(FlightSqlStatement::set_option, (statement, key, value), r),
    ensures
        value is Bytes || value is Double ==> (r matches Err(e) && e.status is InvalidArguments),
        value matches OptionValue::String(s) ==> i64_of(s@) is None ==> (r matches Err(e)
            && e.status is InvalidArguments),
        is_number(value, millis) ==> (r is Ok <==> millis >= 0),
        is_number(value, millis) && millis < 0 ==> (r matches Err(e) && tells_of(
            e,
            Status::InvalidArguments,
            "setting query timeout"@,
            "timeout must be non-negative (milliseconds)"@,
        )),
        is_number(value, millis) && millis > 0 ==> (final(statement).timeout matches Some(span)
            && span.nanos < 1_000_000_000 && span.secs * 1_000_000_000 + span.nanos == millis
            * 1_000_000),
        is_number(value, millis) && millis == 0 ==> final(statement).timeout is None,
        is_number(value, millis) && millis >= 0 ==> (r matches Ok(OptionEffect::SetHeader {
            name,
            value: told,
        }) && name@ == "grpc-timeout"@ && told@ == decimal_int(
            if millis == 0 {
                365 * 24 * 60 * 60 * 1000int
            } else {
                millis as int
            },
        ) + "m"@),
        final(statement).timeouts == old(statement).timeouts,
{
    lemma_prefixes_are_told_apart(key->Other_0@, Seq::empty());
    if millis > 0 {
        assert((millis / 1000) * 1000 + millis % 1000 == millis);
    }
}

/// A timeout of the whole execution is read back in milliseconds as it was set; without one, zero
/// is read. It is no other kind of value.
pub proof fn law_exec_timeout_is_read_back_in_milliseconds(
    statement: &mut FlightSqlStatement,
    key: OptionStatement,
    value: OptionValue,
    millis: i64,
    set_r: Result<OptionEffect, AdbcError>,
    r: Result<i64, AdbcError>,
    text: Result<String, AdbcError>,
)
    requires
        is_exec_timeout(key),
        is_number(value, millis),
        call_ensures(FlightSqlStatement::set_option, (statement, key, value), set_r),
        set_r is Ok,
        call_ensures(FlightSqlStatement::get_option_int, (&*final(statement), key), r),
        call_ensures(FlightSqlStatement::get_option_string, (&*final(statement), key), text),
    ensures
        r == Ok::<i64, AdbcError>(millis),
        text matches Err(e) && e.status is NotFound,
{
    lemma_prefixes_are_told_apart(key->Other_0@, Seq::empty());
}

/// Nothing but the timeout of the whole execution is read as an integer, nothing as a text.
pub proof fn law_other_options_are_not_found(
    statement: &FlightSqlStatement,
    key: OptionStatement,
    r: Result<i64, AdbcError>,
    text: Result<String, AdbcError>,
)
    requires
        call_ensures(FlightSqlStatement::get_option_int, (statement, key), r),
        call_ensures(FlightSqlStatement::get_option_string, (statement, key), text),
    ensures
        !is_exec_timeout(key) ==> (r matches Err(e) && e.status is NotFound),
        is_exec_timeout(key) && statement.timeout is None ==> r == Ok::<i64, AdbcError>(0),
        text matches Err(e) && e.status is NotFound,
{
}

/// A timeout is set on a statement, and read from it, as on the timeouts themselves.
pub proof fn law_timeout_is_set_on_the_statement(
    statement: &mut FlightSqlStatement,
    key: OptionStatement,
    kind: Seq<char>,
    value: OptionValue,
    r: Result<OptionEffect, AdbcError>,
    timeouts: &mut TimeoutOption,
    name: &str,
    direct: Result<OptionEffect, AdbcError>,
    read: Result<Duration, AdbcError>,
    direct_read: Result<Duration, AdbcError>,
)
    requires
        is_timeout_option(key, kind),
        name@ == key->Other_0@,
        call_ensures(FlightSqlStatement::set_option, (statement, key, value), r),
        call_ensures(TimeoutOption::set_timeout_value, (timeouts, name, &value), direct),
        *old(timeouts) == old(statement).timeouts,
        call_ensures(FlightSqlStatement::get_option_double, (&*final(statement), key), read),
        call_ensures(TimeoutOption::get_timeout_seconds, (&*final(timeouts), name), direct_read),
    ensures
        final(statement).timeouts == *final(timeouts),
        final(statement).timeout == old(statement).timeout,
        r is Ok <==> direct is Ok,
        r matches Ok(effect) ==> effect@ == direct->Ok_0@,
        r matches Err(e) ==> e@ == direct->Err_0@,
        read is Ok <==> direct_read is Ok,
        read is Ok ==> read == direct_read,
{
    lemma_prefixes_are_told_apart(key->Other_0@, kind);
}

/// A converted number of seconds is set on a statement as on the timeouts themselves, and changes
/// nothing else.
pub proof fn law_converted_seconds_are_set_on_the_statement(
    statement: &mut FlightSqlStatement,
    key: &str,
    seconds: Option<Double>,
    r: Result<(), AdbcError>,
    timeouts: &mut TimeoutOption,
    direct: Result<(), AdbcError>,
)
    requires
        call_ensures(FlightSqlStatement::set_converted_seconds, (statement, key, seconds), r),
        call_ensures(TimeoutOption::set_converted_seconds, (timeouts, key, seconds), direct),
        *old(timeouts) == old(statement).timeouts,
    ensures
        final(statement).timeouts == *final(timeouts),
        r is Ok <==> direct is Ok,
        same_query(*old(statement), *final(statement)),
        same_target(*old(statement), *final(statement)),
        final(statement).timeout == old(statement).timeout,
        final(statement).validity == old(statement).validity,
        final(statement).bound_batch == old(statement).bound_batch,
{
}

/// The mode creates a table that does not exist, and fails if it exists. It is the mode of a
/// statement with no other.
pub open spec fn creates(mode: Option<String>) -> bool {
    mode is None || holds_text(mode, "create"@) || holds_text(mode, "adbc.ingest.mode.create"@)
}

/// The mode appends to a table that exists, and fails if it does not.
pub open spec fn appends(mode: Option<String>) -> bool {
    holds_text(mode, "append"@) || holds_text(mode, "adbc.ingest.mode.append"@)
}

/// The mode replaces a table that exists, and fails if it does not.
pub open spec fn replaces(mode: Option<String>) -> bool {
    holds_text(mode, "replace"@) || holds_text(mode, "adbc.ingest.mode.replace"@)
}

/// The mode creates a table that does not exist, and appends to one that does.
pub open spec fn creates_or_appends(mode: Option<String>) -> bool {
    holds_text(mode, "create_append"@) || holds_text(mode, "adbc.ingest.mode.create_append"@)
}

/// The modes are told apart.
proof fn lemma_modes_are_told_apart()
    ensures
        "create"@.len() == 6,
        "create"@[0] == 'c',
        "append"@.len() == 6,
        "append"@[0] == 'a',
        "replace"@.len() == 7,
        "create_append"@.len() == 13,
        "adbc.ingest.mode.create"@.len() == 23,
        "adbc.ingest.mode.create"@[17] == 'c',
        "adbc.ingest.mode.append"@.len() == 23,
        "adbc.ingest.mode.append"@[17] == 'a',
        "adbc.ingest.mode.replace"@.len() == 24,
        "adbc.ingest.mode.create_append"@.len() == 30,
{
    reveal_strlit("create");
    reveal_strlit("append");
    reveal_strlit("replace");
    reveal_strlit("create_append");
    reveal_strlit("adbc.ingest.mode.create");
    reveal_strlit("adbc.ingest.mode.append");
    reveal_strlit("adbc.ingest.mode.replace");
    reveal_strlit("adbc.ingest.mode.create_append");
}

/// A request ingests the bound rows into the table, the database schema and the catalog of the
/// statement, as a temporary table if the statement says so. By the numbers of the protocol, a
/// table that does not exist is created (1) or the ingestion fails (2); with one that exists it
/// fails (1), appends (2) or replaces (3), as the mode says.
pub open spec fn ingests_into(statement: FlightSqlStatement, request: IngestRequest) -> bool {
    let command = request.command;
    let mode = statement.ingest_mode;
    &&& holds_text(statement.ingest_target_table, command.table@)
    &&& same_text_field(command.schema, statement.ingest_schema)
    &&& same_text_field(command.catalog, statement.ingest_catalog)
    &&& command.temporary == statement.ingest_temporary
    &&& statement.bound_batch == Some(request.batch)
    &&& creates(mode) || appends(mode) || replaces(mode) || creates_or_appends(mode)
    &&& command.if_not_exist == (if creates(mode) || creates_or_appends(mode) {
        1i32
    } else {
        2i32
    })
    &&& command.if_exists == (if creates(mode) {
        1i32
    } else if replaces(mode) {
        3i32
    } else {
        2i32
    })
}

/// The bound rows were used up, and nothing else changed.
pub open spec fn is_used_up(a: FlightSqlStatement, b: FlightSqlStatement) -> bool {
    &&& same_query(a, b)
    &&& same_target(a, b)
    &&& same_waits(a, b)
    &&& a.validity == b.validity
    &&& b.bound_batch is None
}

/// The statement has all that an ingestion needs: a table, a known mode and bound rows.
pub open spec fn can_ingest(statement: FlightSqlStatement) -> bool {
    let mode = statement.ingest_mode;
    &&& statement.ingest_target_table is Some
    &&& creates(mode) || appends(mode) || replaces(mode) || creates_or_appends(mode)
    &&& statement.bound_batch is Some
}

/// An ingestion carries what the statement was set up with, and uses up the bound rows. What is
/// missing is told, and changes nothing.
pub proof fn law_ingestion_carries_the_settings(
    statement: &mut FlightSqlStatement,
    r: Result<IngestRequest, AdbcError>,
)
    requires
        call_ensures(FlightSqlStatement::execute_ingest, (statement,), r),
    ensures
        r is Ok <==> can_ingest(*old(statement)),
        r matches Ok(request) ==> ingests_into(*old(statement), request) && is_used_up(
            *old(statement),
            *final(statement),
        ),
        r is Err ==> is_unchanged(*old(statement), *final(statement)),
        old(statement).ingest_target_table is None ==> (r matches Err(e) && tells(
            e,
            Status::InvalidState,
            "no target table set for ingest"@,
        )),
        old(statement).ingest_target_table is Some && old(statement).bound_batch is None ==> (
        r matches Err(e) && (e.status is InvalidState || e.status is InvalidArguments)),
{
    lemma_modes_are_told_apart();
}

/// Running a statement with a target table ingests; else it runs the prepared statement, if there
/// is one; else its query. Earlier results are given up, unless rows are ingested.
pub proof fn law_execution_runs_what_is_set(
    statement: &mut FlightSqlStatement,
    r: Result<ExecuteStep, AdbcError>,
)
    requires
        call_ensures(FlightSqlStatement::execute, (statement,), r),
    ensures
        old(statement).ingest_target_table is Some ==> {
            &&& r is Ok <==> can_ingest(*old(statement))
            &&& r matches Ok(step) ==> (step matches ExecuteStep::Ingest(request) && ingests_into(
                *old(statement),
                request,
            )) && is_used_up(*old(statement), *final(statement))
            &&& r is Err ==> is_unchanged(*old(statement), *final(statement))
        },
        old(statement).ingest_target_table is None ==> {
            &&& is_given_up(*old(statement), *final(statement))
            &&& old(statement).prepared ==> (r matches Ok(ExecuteStep::Prepared))
            &&& !old(statement).prepared ==> match old(statement).sql {
                Some(sql) => r matches Ok(ExecuteStep::Query(q)) && q@ == sql@,
                None => r matches Err(e) && tells_of(
                    e,
                    Status::InvalidState,
                    "executing statement"@,
                    "no SQL query set — call set_sql_query() first"@,
                ),
            }
        },
{
    lemma_modes_are_told_apart();
}

/// An update ingests or runs the prepared statement; a query is no update.
pub proof fn law_update_runs_what_is_set(
    statement: &mut FlightSqlStatement,
    r: Result<ExecuteStep, AdbcError>,
)
    requires
        call_ensures(FlightSqlStatement::execute_update, (statement,), r),
    ensures
        old(statement).ingest_target_table is Some ==> {
            &&& r is Ok <==> can_ingest(*old(statement))
            &&& r matches Ok(step) ==> (step matches ExecuteStep::Ingest(request) && ingests_into(
                *old(statement),
                request,
            )) && is_used_up(*old(statement), *final(statement))
            &&& r is Err ==> is_unchanged(*old(statement), *final(statement))
        },
        old(statement).ingest_target_table is None ==> {
            &&& is_unchanged(*old(statement), *final(statement))
            &&& old(statement).prepared ==> (r matches Ok(ExecuteStep::Prepared))
            &&& !old(statement).prepared ==> (r matches Err(e) && tells_of(
                e,
                Status::NotImplemented,
                "executing update"@,
                "execute_update not supported (read-only driver)"@,
            ))
        },
{
    lemma_modes_are_told_apart();
}

/// Results in partitions are those of the prepared statement, if there is one, else of the query.
pub proof fn law_partitions_run_what_is_set(
    statement: &FlightSqlStatement,
    r: Result<ExecuteStep, AdbcError>,
)
    requires
        call_ensures(FlightSqlStatement::execute_partitions, (statement,), r),
    ensures
        statement.prepared ==> (r matches Ok(ExecuteStep::Prepared)),
        !statement.prepared ==> match statement.sql {
            Some(sql) => r matches Ok(ExecuteStep::Query(q)) && q@ == sql@,
            None => r matches Err(e) && tells_of(
                e,
                Status::InvalidState,
                "executing partitions"@,
                "no SQL query set — call set_sql_query() first"@,
            ),
        },
{
}

/// The schema of the results is that of the prepared statement, or the one that is known, or is
/// found by preparing the query; if the query cannot be prepared, by running it for no rows.
pub proof fn law_schema_is_found_step_by_step(
    statement: &mut FlightSqlStatement,
    r: Result<ResultSchemaStep, AdbcError>,
    asked: &mut FlightSqlStatement,
    answer: Result<Result<arrow_schema::Schema, FlightError>, FlightError>,
    answered: Result<ResultSchemaStep, AdbcError>,
)
    requires
        call_ensures(FlightSqlStatement::execute_schema, (statement,), r),
        *old(asked) == *final(statement),
        r matches Ok(ResultSchemaStep::Prepare(_)) ==> call_ensures(
            FlightSqlStatement::answer_prepared_schema,
            (asked, answer),
            answered,
        ),
    ensures
        is_given_up(*old(statement), *final(statement)),
        old(statement).prepared ==> (r matches Ok(ResultSchemaStep::Prepared)),
        !old(statement).prepared ==> match (old(statement).cached_schema, old(statement).sql) {
            (Some(schema), _) => r == Ok::<ResultSchemaStep, AdbcError>(
                ResultSchemaStep::Known(schema),
            ),
            (None, Some(sql)) => r matches Ok(ResultSchemaStep::Prepare(q)) && q@ == sql@,
            (None, None) => r matches Err(e) && tells_of(
                e,
                Status::InvalidState,
                "getting result schema"@,
                "no SQL query set — call set_sql_query() first"@,
            ),
        },
        r matches Ok(ResultSchemaStep::Prepare(q)) ==> match answer {
            Ok(Ok(schema)) => answered == Ok::<ResultSchemaStep, AdbcError>(
                ResultSchemaStep::Known(schema),
            ) && final(asked).cached_schema == Some(schema),
            Ok(Err(_)) => answered is Err && final(asked).cached_schema is None,
            Err(_) => (answered matches Ok(ResultSchemaStep::Limited(l)) && l@ == q@ + " LIMIT 0"@)
                && final(asked).cached_schema is None,
        },
{
}

/// A schema that was found is known from then on: asking again gives it at once.
pub proof fn law_found_schema_is_known(
    statement: &mut FlightSqlStatement,
    answer: Result<arrow_schema::Schema, String>,
    found: Result<arrow_schema::Schema, AdbcError>,
    again: &mut FlightSqlStatement,
    r: Result<ResultSchemaStep, AdbcError>,
)
    requires
        call_ensures(FlightSqlStatement::answer_dataset_schema, (statement, answer), found),
        *old(again) == *final(statement),
        call_ensures(FlightSqlStatement::execute_schema, (again,), r),
    ensures
        found is Ok <==> answer is Ok,
        answer matches Ok(schema) ==> found == Ok::<arrow_schema::Schema, AdbcError>(schema)
            && final(statement).cached_schema == Some(schema),
        answer matches Ok(schema) ==> !final(statement).prepared ==> r == Ok::<
            ResultSchemaStep,
            AdbcError,
        >(ResultSchemaStep::Known(schema)),
        answer matches Err(text) ==> is_unchanged(*old(statement), *final(statement)) && (
        found matches Err(e) && tells(
            e,
            Status::Internal,
            "failed to get dataset schema: "@ + text@,
        )),
        final(statement).prepared == old(statement).prepared,
        same_text_field(final(statement).sql, old(statement).sql),
        same_target(*old(statement), *final(statement)),
        same_waits(*old(statement), *final(statement)),
        final(statement).validity == old(statement).validity,
{
}

/// A query that was set is the one that is run, prepared and split into partitions. What was
/// prepared, known or to be ingested before is forgotten, and the earlier prepared statement is to
/// be closed.
pub proof fn law_set_query_is_run(
    statement: &mut FlightSqlStatement,
    query: &str,
    set_r: Result<bool, AdbcError>,
    run: &mut FlightSqlStatement,
    r: Result<ExecuteStep, AdbcError>,
    asked: &mut FlightSqlStatement,
    schema_r: Result<ResultSchemaStep, AdbcError>,
    partitions: Result<ExecuteStep, AdbcError>,
    parameters: Result<arrow_schema::Schema, AdbcError>,
)
    requires
        call_ensures(FlightSqlStatement::set_sql_query, (statement, query), set_r),
        *old(run) == *final(statement),
        call_ensures(FlightSqlStatement::execute, (run,), r),
        *old(asked) == *final(statement),
        call_ensures(FlightSqlStatement::execute_schema, (asked,), schema_r),
        call_ensures(FlightSqlStatement::execute_partitions, (&*final(statement),), partitions),
        call_ensures(FlightSqlStatement::get_parameter_schema, (&*final(statement),), parameters),
    ensures
        set_r == Ok::<bool, AdbcError>(old(statement).prepared),
        r matches Ok(ExecuteStep::Query(q)) && q@ == query@,
        schema_r matches Ok(ResultSchemaStep::Prepare(q)) && q@ == query@,
        partitions matches Ok(ExecuteStep::Query(q)) && q@ == query@,
        parameters matches Err(e) && e.status is InvalidState,
        holds_text(final(statement).sql, query@),
        !final(statement).prepared,
        final(statement).prepared_parameter_schema is None,
        final(statement).cached_schema is None,
        final(statement).ingest_target_table is None,
        same_target_beside_table(*old(statement), *final(statement)),
        same_waits(*old(statement), *final(statement)),
        final(statement).validity == old(statement).validity,
        final(statement).bound_batch == old(statement).bound_batch,
{
}

/// Preparing asks for the query of the statement, and says whether an earlier prepared statement is
/// to be closed first.
pub proof fn law_query_is_prepared(
    statement: &mut FlightSqlStatement,
    r: Result<PrepareRequest, AdbcError>,
)
    requires
        call_ensures(FlightSqlStatement::prepare, (statement,), r),
    ensures
        r is Ok <==> old(statement).sql is Some,
        r matches Ok(request) ==> holds_text(old(statement).sql, request.sql@) && request.closes
            == old(statement).prepared && !final(statement).prepared,
        r matches Err(e) ==> tells_of(
            e,
            Status::InvalidState,
            "preparing statement"@,
            "no SQL query set — call set_sql_query() first"@,
        ) && is_unchanged(*old(statement), *final(statement)),
        same_text_field(final(statement).sql, old(statement).sql),
        final(statement).cached_schema == old(statement).cached_schema,
        final(statement).prepared_parameter_schema == old(statement).prepared_parameter_schema,
        same_target(*old(statement), *final(statement)),
        same_waits(*old(statement), *final(statement)),
        final(statement).validity == old(statement).validity,
        final(statement).bound_batch == old(statement).bound_batch,
{
}

/// A statement that was prepared runs the prepared statement, takes parameters, and tells the
/// schema of its parameters. One that could not be prepared stays as it was.
pub proof fn law_prepared_statement_is_run(
    statement: &mut FlightSqlStatement,
    answer: Result<Result<arrow_schema::Schema, String>, FlightError>,
    prepared: Result<(), AdbcError>,
    run: &mut FlightSqlStatement,
    r: Result<ExecuteStep, AdbcError>,
    parameters: Result<arrow_schema::Schema, AdbcError>,
    bind: &mut FlightSqlStatement,
    batch: Batch,
    bound: Result<Batch, AdbcError>,
)
    requires
        call_ensures(FlightSqlStatement::answer_prepare, (statement, answer), prepared),
        *old(run) == *final(statement),
        call_ensures(FlightSqlStatement::execute, (run,), r),
        call_ensures(FlightSqlStatement::get_parameter_schema, (&*final(statement),), parameters),
        *old(bind) == *final(statement),
        call_ensures(FlightSqlStatement::bind, (bind, batch), bound),
    ensures
        prepared is Ok <==> (answer matches Ok(Ok(_))),
        answer matches Ok(Ok(schema)) ==> {
            &&& final(statement).prepared
            &&& final(statement).prepared_parameter_schema == Some(schema)
            &&& parameters == Ok::<arrow_schema::Schema, AdbcError>(schema)
            &&& bound == Ok::<Batch, AdbcError>(batch)
            &&& old(statement).ingest_target_table is None ==> (r matches Ok(
                ExecuteStep::Prepared,
            ))
        },
        answer matches Ok(Err(text)) ==> is_unchanged(*old(statement), *final(statement)) && (
        prepared matches Err(e) && tells(
            e,
            Status::Internal,
            "failed to get parameter schema: "@ + text@,
        )),
        answer is Err ==> is_unchanged(*old(statement), *final(statement)),
        same_text_field(final(statement).sql, old(statement).sql),
        final(statement).cached_schema == old(statement).cached_schema,
        same_target(*old(statement), *final(statement)),
        same_waits(*old(statement), *final(statement)),
        final(statement).validity == old(statement).validity,
{
}

/// Parameters are bound to a prepared statement alone: they are handed on as they are, and nothing
/// changes.
pub proof fn law_parameters_need_a_prepared_statement(
    statement: &mut FlightSqlStatement,
    batch: Batch,
    r: Result<Batch, AdbcError>,
    streamed: &mut FlightSqlStatement,
    stream_r: Result<(), AdbcError>,
    parameters: Result<arrow_schema::Schema, AdbcError>,
)
    requires
        call_ensures(FlightSqlStatement::bind, (statement, batch), r),
        call_ensures(FlightSqlStatement::bind_stream, (streamed,), stream_r),
        *old(streamed) == *old(statement),
        call_ensures(FlightSqlStatement::get_parameter_schema, (&*old(statement),), parameters),
    ensures
        is_unchanged(*old(statement), *final(statement)),
        is_unchanged(*old(streamed), *final(streamed)),
        old(statement).prepared ==> r == Ok::<Batch, AdbcError>(batch),
        !old(statement).prepared ==> (r matches Err(e) && tells_of(
            e,
            Status::InvalidState,
            "binding parameters"@,
            "must call Prepare before calling Bind"@,
        )),
        stream_r matches Err(e) && if old(statement).prepared {
            e.status is NotImplemented
        } else {
            tells_of(
                e,
                Status::InvalidState,
                "binding stream"@,
                "must call Prepare before calling BindStream"@,
            )
        },
        !old(statement).prepared ==> (parameters matches Err(e) && tells_of(
            e,
            Status::InvalidState,
            "getting parameter schema"@,
            "must call Prepare before GetParameterSchema"@,
        )),
        old(statement).prepared ==> match old(statement).prepared_parameter_schema {
            Some(schema) => parameters == Ok::<arrow_schema::Schema, AdbcError>(schema),
            None => parameters matches Err(e) && e.status is NotImplemented,
        },
{
}

/// Results that were opened are the wanted ones: their number is new, their schema is known, and a
/// reader of them goes on, while readers of all earlier results end.
pub proof fn law_opened_results_are_wanted(
    statement: &mut FlightSqlStatement,
    schema: &arrow_schema::Schema,
    answer: Result<(), FlightError>,
    r: Result<u64, AdbcError>,
    reader: FlightSqlRecordBatchReader,
    fetches: bool,
    earlier: u64,
    earlier_reader: FlightSqlRecordBatchReader,
    earlier_fetches: bool,
)
    requires
        old(statement).validity.latest < u64::MAX,
        call_ensures(FlightSqlStatement::answer_open, (statement, schema, answer), r),
        call_ensures(FlightSqlRecordBatchReader::new, (*schema, r->Ok_0), reader),
        call_ensures(
            FlightSqlRecordBatchReader::fetches,
            (&reader, &final(statement).validity),
            fetches,
        ),
        earlier <= old(statement).validity.latest,
        call_ensures(FlightSqlRecordBatchReader::new, (*schema, earlier), earlier_reader),
        call_ensures(
            FlightSqlRecordBatchReader::fetches,
            (&earlier_reader, &final(statement).validity),
            earlier_fetches,
        ),
    ensures
        r is Ok <==> answer is Ok,
        r matches Ok(number) ==> {
            &&& number == old(statement).validity.latest + 1
            &&& final(statement).cached_schema == Some(*schema)
            &&& fetches
            &&& !earlier_fetches
        },
        r is Err ==> is_unchanged(*old(statement), *final(statement)),
        same_text_field(final(statement).sql, old(statement).sql),
        final(statement).prepared == old(statement).prepared,
        same_target(*old(statement), *final(statement)),
        same_waits(*old(statement), *final(statement)),
{
}

/// Running a statement ends the readers of its results.
pub proof fn law_running_ends_readers(
    statement: &mut FlightSqlStatement,
    r: Result<ExecuteStep, AdbcError>,
    asked: &mut FlightSqlStatement,
    asked_r: Result<ResultSchemaStep, AdbcError>,
    reader: &FlightSqlRecordBatchReader,
    fetches: bool,
    asked_fetches: bool,
)
    requires
        old(statement).ingest_target_table is None,
        call_ensures(FlightSqlStatement::execute, (statement,), r),
        call_ensures(FlightSqlStatement::execute_schema, (asked,), asked_r),
        call_ensures(
            FlightSqlRecordBatchReader::fetches,
            (reader, &final(statement).validity),
            fetches,
        ),
        call_ensures(
            FlightSqlRecordBatchReader::fetches,
            (reader, &final(asked).validity),
            asked_fetches,
        ),
    ensures
        !fetches,
        !asked_fetches,
{
}

/// Answers are handed on as they are, and failures as the errors of what was tried.
pub proof fn law_answers_are_handed_on(
    statement: &FlightSqlStatement,
    count: Result<i64, FlightError>,
    ingested: Result<i64, AdbcError>,
    updated: Result<i64, AdbcError>,
    queried: Result<arrow_schema::Schema, AdbcError>,
    info: Result<arrow_flight::FlightInfo, FlightError>,
    executed: Result<arrow_flight::FlightInfo, AdbcError>,
    limited: Result<arrow_flight::FlightInfo, AdbcError>,
    partitioned: Result<arrow_flight::FlightInfo, AdbcError>,
    bound: Result<(), String>,
    bound_r: Result<(), AdbcError>,
)
    requires
        call_ensures(FlightSqlStatement::answer_ingest, (statement, count), ingested),
        call_ensures(FlightSqlStatement::answer_update, (statement, count), updated),
        call_ensures(FlightSqlStatement::answer_ingest_query, (statement, count), queried),
        call_ensures(FlightSqlStatement::answer_execute, (statement, info), executed),
        call_ensures(FlightSqlStatement::answer_limited, (statement, info), limited),
        call_ensures(FlightSqlStatement::answer_partitions, (statement, info), partitioned),
        call_ensures(FlightSqlStatement::answer_bind, (statement, bound), bound_r),
    ensures
        count matches Ok(n) ==> ingested == Ok::<i64, AdbcError>(n) && updated == Ok::<
            i64,
            AdbcError,
        >(n) && (queried matches Ok(schema) && schema_fields(schema).len() == 0),
        count is Err ==> ingested is Err && updated is Err && queried is Err,
        info matches Ok(i) ==> executed == Ok::<arrow_flight::FlightInfo, AdbcError>(i) && limited
            == executed && partitioned == executed,
        info is Err ==> executed is Err && limited is Err && partitioned is Err,
        bound is Ok ==> bound_r is Ok,
        bound matches Err(text) ==> (bound_r matches Err(e) && tells_of(
            e,
            Status::InvalidState,
            "binding parameters"@,
            "bind failed: "@ + text@,
        )),
{
}

/// A failed call is told as the failure of what it was for.
pub proof fn law_failures_tell_what_was_tried(
    statement: &FlightSqlStatement,
    error: FlightError,
    ingested: Result<i64, AdbcError>,
    updated: Result<i64, AdbcError>,
    executed: Result<arrow_flight::FlightInfo, AdbcError>,
    limited: Result<arrow_flight::FlightInfo, AdbcError>,
    partitioned: Result<arrow_flight::FlightInfo, AdbcError>,
    task: &str,
    told: AdbcError,
)
    requires
        call_ensures(FlightSqlStatement::answer_ingest, (statement, Err(error)), ingested),
        call_ensures(FlightSqlStatement::answer_update, (statement, Err(error)), updated),
        call_ensures(FlightSqlStatement::answer_execute, (statement, Err(error)), executed),
        call_ensures(FlightSqlStatement::answer_limited, (statement, Err(error)), limited),
        call_ensures(FlightSqlStatement::answer_partitions, (statement, Err(error)), partitioned),
        call_ensures(map_flight_error, (error, task), told),
    ensures
        task@ == "ExecuteIngest"@ ==> ingested->Err_0@ == told@,
        task@ == "executing prepared update"@ ==> updated->Err_0@ == told@,
        task@ == "executing prepared statement"@ && statement.prepared ==> executed->Err_0@
            == told@,
        task@ == "executing query"@ && !statement.prepared ==> executed->Err_0@ == told@,
        task@ == "executing schema query"@ ==> limited->Err_0@ == told@,
        task@ == "executing prepared partitions"@ && statement.prepared ==> partitioned->Err_0@
            == told@,
        task@ == "executing partitions"@ && !statement.prepared ==> partitioned->Err_0@ == told@,
{
}

/// Plans are not run and statements are not cancelled: that is told, and changes nothing.
pub proof fn law_undone_operations_are_told(
    statement: &mut FlightSqlStatement,
    plan: &[u8],
    r: Result<(), AdbcError>,
    other: &mut FlightSqlStatement,
    cancel: Result<(), AdbcError>,
)
    requires
        call_ensures(FlightSqlStatement::set_substrait_plan, (statement, plan), r),
        call_ensures(FlightSqlStatement::cancel, (other,), cancel),
    ensures
        r matches Err(e) && tells_of(
            e,
            Status::NotImplemented,
            "setting Substrait plan"@,
            "Substrait plans not supported"@,
        ),
        is_unchanged(*old(statement), *final(statement)),
        cancel matches Err(e) && tells_of(
            e,
            Status::NotImplemented,
            "cancelling statement"@,
            "statement cancellation not implemented"@,
        ),
        is_unchanged(*old(other), *final(other)),
{
}

/// A call that failed while results are opened, a schema is looked for or a query is prepared is
/// told as the failure of that, and changes nothing.
pub proof fn law_failed_steps_tell_what_was_tried(
    error: FlightError,
    a: &mut FlightSqlStatement,
    schema: &arrow_schema::Schema,
    opened: Result<u64, AdbcError>,
    b: &mut FlightSqlStatement,
    described: Result<ResultSchemaStep, AdbcError>,
    c: &mut FlightSqlStatement,
    prepared: Result<(), AdbcError>,
    task: &str,
    told: AdbcError,
)
    requires
        call_ensures(FlightSqlStatement::answer_open, (a, schema, Err(error)), opened),
        call_ensures(
            FlightSqlStatement::answer_prepared_schema,
            (b, Ok(Err(error))),
            described,
        ),
        call_ensures(FlightSqlStatement::answer_prepare, (c, Err(error)), prepared),
        call_ensures(map_flight_error, (error, task), told),
    ensures
        task@ == "opening result stream"@ ==> opened->Err_0@ == told@,
        task@ == "getting prepared schema"@ ==> described->Err_0@ == told@,
        task@ == "Prepare"@ ==> prepared->Err_0@ == told@,
        opened is Err && described is Err && prepared is Err,
        is_unchanged(*old(a), *final(a)),
        is_unchanged(*old(b), *final(b)),
        is_unchanged(*old(c), *final(c)),
{
}

/// The schema of a query for no rows is the one that was decoded from its answer, and is known from
/// then on. One that cannot be decoded is told, and changes nothing.
pub proof fn law_schema_of_no_rows_is_known<
    D: Fn(Vec<u8>) -> Result<arrow_schema::Schema, String>,
>(
    statement: &mut FlightSqlStatement,
    info: &arrow_flight::FlightInfo,
    decode: D,
    r: Result<arrow_schema::Schema, AdbcError>,
)
    requires
        call_ensures(
            FlightSqlStatement::answer_limited_schema::<D>,
            (statement, info, decode),
            r,
        ),
    ensures
        r matches Ok(schema) ==> may_decode(decode, encoded_schema(*info), Ok(schema)) && final(
            statement
        ).cached_schema == Some(schema),
        r matches Err(e) ==> is_unchanged(*old(statement), *final(statement)) && exists|
            text: String,
        | #[trigger] may_decode(decode, encoded_schema(*info), Err(text)) && tells(
            e,
            Status::Internal,
            "failed to decode schema: "@ + text@,
        ),
        final(statement).prepared == old(statement).prepared,
        same_text_field(final(statement).sql, old(statement).sql),
        same_target(*old(statement), *final(statement)),
        same_waits(*old(statement), *final(statement)),
        final(statement).validity == old(statement).validity,
{
    let made = choose|schema: Result<arrow_schema::Schema, String>| #[trigger]
        decodes(decode, encoded_schema(*info), schema) && match schema {
            Ok(schema) => {
                &&& r == Ok::<arrow_schema::Schema, AdbcError>(schema)
                &&& final(statement)@ == old(statement)@.knowing(schema)
            },
            Err(text) => {
                &&& final(statement)@ == old(statement)@
                &&& r matches Err(x) && x@ == undecodable("failed to decode schema: "@, text@)
            },
        };
    assert(may_decode(decode, encoded_schema(*info), made));
    if let Err(text) = made {
        assert(may_decode(decode, encoded_schema(*info), Err(text)));
    }
}

/// What is missing for an ingestion is told: first the table, then the mode, then the rows.
pub proof fn law_missing_settings_of_ingestion_are_told(
    statement: &mut FlightSqlStatement,
    r: Result<IngestRequest, AdbcError>,
)
    requires
        call_ensures(FlightSqlStatement::execute_ingest, (statement,), r),
        old(statement).ingest_target_table is Some,
    ensures
        ({
            let mode = old(statement).ingest_mode;
            let known = creates(mode) || appends(mode) || replaces(mode) || creates_or_appends(mode);
            &&& !known ==> (r matches Err(e) && tells(
                e,
                Status::InvalidArguments,
                "unknown ingest mode: "@ + mode->Some_0@,
            ))
            &&& known && old(statement).bound_batch is None ==> (r matches Err(e) && tells(
                e,
                Status::InvalidState,
                "must call Bind before executing ingest"@,
            ))
        }),
{
    lemma_modes_are_told_apart();
}

/// A value that an option does not take is told with the option and the value.
pub proof fn law_refused_value_is_told(
    statement: &mut FlightSqlStatement,
    key: OptionStatement,
    value: OptionValue,
    r: Result<OptionEffect, AdbcError>,
)
    requires
        call_ensures(FlightSqlStatement::set_option, (statement, key, value), r),
        r is Err,
    ensures
        !(key is Other) ==> tells_of(
            r->Err_0,
            Status::InvalidArguments,
            "invalid option "@ + key.debug_view() + "="@ + value.debug_view(),
            "must be a string"@,
        ),
        is_exec_timeout(key) && !(value is Int) && (value matches OptionValue::String(s) ==> i64_of(
            s@,
        ) is None) ==> tells_of(
            r->Err_0,
            Status::InvalidArguments,
            "invalid option "@ + key.debug_view() + "="@ + value.debug_view(),
            "must be an integer"@,
        ),
{
}

} // verus!
