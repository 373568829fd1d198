//! A statement: its query, its options, and the steps of running it.
//!
//! A statement never calls a server. It says which call is next, takes the answer, and keeps track
//! of what is prepared, which schema is known and which results are wanted.

use vstd::prelude::*;

use crate::columns::{empty_schema, no_metadata, schema_fields, schema_metadata, Batch};
use crate::connection::{int_result, span_result};
use crate::database::{string_under, unset};
use crate::double::{millis_duration, Duration};
use crate::error::{
    adbc, bare, flight_view, int_option, invalid_option, map_flight_error, unsettable_option,
    AdbcError, AdbcErrorView, ErrorHelper, FlightError, FlightSqlErrorHelper, Status,
};
use crate::flight::{
    decodes, encoded_schema, endpoints, is_partition, partition_schema, partitions, schema_bytes,
    takes_all,
};
use crate::metadata::collect::{result_source, sources, undecodable, ResultSource};
use crate::options::{DebugText, Double, EffectView, OptionEffect, OptionStatement, OptionValue};
use crate::stream::{law_ended_results_stay_ended, Validity};
use crate::text::{
    begins_with, concat2, concat3, copy_opt, decimal_int, has_prefix, i64_text, opt_view, same_text,
};
use crate::timeouts::{no_timeouts, settable, TimeoutOption, OPTION_TIMEOUT_PREFIX};

verus! {

pub const OPTION_EXEC_TIMEOUT: &'static str = "adbc.statement.exec_timeout_ms";

/// The milliseconds of a year, which stand for no timeout.
pub const YEAR_MILLIS: i64 = 31536000000;

/// The message for a statement without a query.
pub const NO_SQL: &'static str = "no SQL query set — call set_sql_query() first";

/// A statement of a Flight SQL server.
pub struct FlightSqlStatement {
    pub sql: Option<String>,
    pub cached_schema: Option<arrow_schema::Schema>,
    pub validity: Validity,
    pub prepared: bool,
    pub prepared_parameter_schema: Option<arrow_schema::Schema>,
    pub timeout: Option<Duration>,
    pub timeouts: TimeoutOption,
    pub ingest_target_table: Option<String>,
    pub ingest_mode: Option<String>,
    pub ingest_catalog: Option<String>,
    pub ingest_schema: Option<String>,
    pub ingest_temporary: bool,
    pub bound_batch: Option<Batch>,
}

/// The content of a [`FlightSqlStatement`].
#[verifier::ext_equal]
pub struct StatementView {
    pub sql: Option<Seq<char>>,
    pub cached_schema: Option<arrow_schema::Schema>,
    pub validity: Validity,
    pub prepared: bool,
    pub prepared_parameter_schema: Option<arrow_schema::Schema>,
    pub timeout: Option<Duration>,
    pub timeouts: TimeoutOption,
    pub ingest_target_table: Option<Seq<char>>,
    pub ingest_mode: Option<Seq<char>>,
    pub ingest_catalog: Option<Seq<char>>,
    pub ingest_schema: Option<Seq<char>>,
    pub ingest_temporary: bool,
    pub bound_batch: Option<Batch>,
}

impl View for FlightSqlStatement {
    type V = StatementView;

    open spec fn view(&self) -> StatementView {
        StatementView {
            sql: opt_view(self.sql),
            cached_schema: self.cached_schema,
            validity: self.validity,
            prepared: self.prepared,
            prepared_parameter_schema: self.prepared_parameter_schema,
            timeout: self.timeout,
            timeouts: self.timeouts,
            ingest_target_table: opt_view(self.ingest_target_table),
            ingest_mode: opt_view(self.ingest_mode),
            ingest_catalog: opt_view(self.ingest_catalog),
            ingest_schema: opt_view(self.ingest_schema),
            ingest_temporary: self.ingest_temporary,
            bound_batch: self.bound_batch,
        }
    }
}

/// A new statement: nothing is set, prepared, known or given up.
pub open spec fn new_statement() -> StatementView {
    StatementView {
        sql: None,
        cached_schema: None,
        validity: Validity { latest: 0, cancelled: false },
        prepared: false,
        prepared_parameter_schema: None,
        timeout: None,
        timeouts: no_timeouts(),
        ingest_target_table: None,
        ingest_mode: None,
        ingest_catalog: None,
        ingest_schema: None,
        ingest_temporary: false,
        bound_batch: None,
    }
}

/// A text that is not empty.
pub open spec fn non_empty(text: Seq<char>) -> Option<Seq<char>> {
    if text.len() == 0 {
        None
    } else {
        Some(text)
    }
}

/// The text says that a table is temporary.
pub open spec fn is_enabled(text: Seq<char>) -> bool {
    text == "true"@ || text == "adbc.option.value.enabled"@
}

/// The header that tells a server how long to work, in milliseconds.
pub open spec fn timeout_header(millis: int) -> EffectView {
    EffectView::SetHeader { name: "grpc-timeout"@, value: decimal_int(millis) + "m"@ }
}

impl StatementView {
    /// What setting the timeout of the whole execution leads to. No milliseconds stand for no
    /// timeout, of which a server is told a year.
    pub open spec fn with_exec_timeout(self, key: OptionStatement, value: OptionValue) -> Result<
        (StatementView, EffectView),
        AdbcErrorView,
    > {
        match int_option(value) {
            None => Err(
                adbc(invalid_option(key.debug_view(), value).message("must be an integer"@)),
            ),
            Some(millis) => if millis < 0 {
                Err(
                    adbc(
                        bare(Status::InvalidArguments).message(
                            "timeout must be non-negative (milliseconds)"@,
                        ).context("setting query timeout"@),
                    ),
                )
            } else if millis == 0 {
                Ok((StatementView { timeout: None, ..self }, timeout_header(YEAR_MILLIS as int)))
            } else {
                Ok(
                    (
                        StatementView { timeout: Some(millis_duration(millis as u64)), ..self },
                        timeout_header(millis as int),
                    ),
                )
            },
        }
    }

    /// With a text of an option of bulk ingestion.
    pub open spec fn with_text(self, key: OptionStatement, text: Seq<char>) -> StatementView {
        match key {
            OptionStatement::IngestMode => StatementView { ingest_mode: Some(text), ..self },
            OptionStatement::TargetTable => StatementView {
                ingest_target_table: Some(text),
                ..self
            },
            OptionStatement::TargetCatalog => StatementView {
                ingest_catalog: non_empty(text),
                ..self
            },
            OptionStatement::TargetDbSchema => StatementView {
                ingest_schema: non_empty(text),
                ..self
            },
            _ => StatementView { ingest_temporary: is_enabled(text), ..self },
        }
    }

    /// What setting an option leads to: the statement after it, and what is left to be done.
    pub open spec fn with_option(self, key: OptionStatement, value: OptionValue) -> Result<
        (StatementView, EffectView),
        AdbcErrorView,
    > {
        match key {
            OptionStatement::Other(k) => if k@ == OPTION_EXEC_TIMEOUT@ {
                self.with_exec_timeout(key, value)
            } else if begins_with(k@, OPTION_TIMEOUT_PREFIX@) {
                match self.timeouts.set_value(k@, value) {
                    Ok((timeouts, effect)) => Ok((StatementView { timeouts, ..self }, effect)),
                    Err(e) => Err(e),
                }
            } else {
                Err(adbc(unsettable_option(k.debug_view())))
            },
            OptionStatement::Incremental => Ok((self, EffectView::Done)),
            OptionStatement::Progress => Ok((self, EffectView::Done)),
            OptionStatement::MaxProgress => Ok((self, EffectView::Done)),
            _ => match string_under(key.debug_view(), value) {
                Ok(text) => Ok((self.with_text(key, text), EffectView::Done)),
                Err(e) => Err(e),
            },
        }
    }

    /// What reading an option as an integer leads to.
    pub open spec fn option_int(self, key: OptionStatement) -> Result<i64, AdbcErrorView> {
        match key {
            OptionStatement::Other(k) if k@ == OPTION_EXEC_TIMEOUT@ => Ok(
                match self.timeout {
                    Some(d) => (d.secs * 1000 + d.nanos / 1_000_000) as i64,
                    None => 0,
                },
            ),
            _ => Err(unset("Option "@ + key.debug_view() + " not available as int"@)),
        }
    }

    /// What reading an option as a string leads to: no option is a string.
    pub open spec fn option_string(self, key: OptionStatement) -> AdbcErrorView {
        match key {
            OptionStatement::Other(k) if k@ == OPTION_EXEC_TIMEOUT@ => unset(
                "timeout is an integer option — use get_option_int"@,
            ),
            _ => unset("Option "@ + key.debug_view() + " not available"@),
        }
    }

    /// What reading an option as a double leads to: the span of time of a timeout.
    pub open spec fn option_double(self, key: OptionStatement) -> Result<Duration, AdbcErrorView> {
        match key {
            OptionStatement::Other(k) if begins_with(
                k@,
                OPTION_TIMEOUT_PREFIX@,
            ) => self.timeouts.get_seconds(k@),
            _ => Err(unset("Option "@ + key.debug_view() + " not available"@)),
        }
    }
}

/// Reports an option that cannot be read.
fn unreadable(key: &OptionStatement, rest: &str) -> (r: AdbcError)
    ensures
        r@ == unset("Option "@ + key.debug_view() + rest@),
{
    FlightSqlErrorHelper::not_found().message(
        concat3("Option ", key.debug_text().as_str(), rest).as_str(),
    ).to_adbc()
}

/// The header that tells a server how long to work, in milliseconds.
fn header_for(millis: i64) -> (r: OptionEffect)
    ensures
        r@ == timeout_header(millis as int),
{
    OptionEffect::SetHeader {
        name: "grpc-timeout".to_owned(),
        value: i64_text(millis).concat("m"),
    }
}

impl FlightSqlStatement {
    /// A new statement.
    pub fn new() -> (r: Self)
        ensures
            r@ == new_statement(),
    {
        FlightSqlStatement {
            sql: None,
            cached_schema: None,
            validity: Validity::new(),
            prepared: false,
            prepared_parameter_schema: None,
            timeout: None,
            timeouts: TimeoutOption::new(),
            ingest_target_table: None,
            ingest_mode: None,
            ingest_catalog: None,
            ingest_schema: None,
            ingest_temporary: false,
            bound_batch: None,
        }
    }

    /// Sets an option.
    pub fn set_option(&mut self, key: OptionStatement, value: OptionValue) -> (r: Result<
        OptionEffect,
        AdbcError,
    >)
        requires
            key matches OptionStatement::Other(k) && begins_with(k@, OPTION_TIMEOUT_PREFIX@) ==> (
            value matches OptionValue::Double(seconds) ==> settable(seconds.bits)),
        ensures
            match old(self)@.with_option(key, value) {
                Ok((statement, effect)) => final(self)@ == statement && (r matches Ok(x) && x@
                    == effect),
                Err(e) => final(self)@ == old(self)@ && (r matches Err(x) && x@ == e),
            },
    {
        match &key {
            OptionStatement::Other(k) => {
                if same_text(k.as_str(), OPTION_EXEC_TIMEOUT) {
                    match FlightSqlErrorHelper::option_as_int(&key, &value) {
                        Err(e) => Err(e.to_adbc()),
                        Ok(millis) => {
                            if millis < 0 {
                                Err(
                                    FlightSqlErrorHelper::invalid_argument().message(
                                        "timeout must be non-negative (milliseconds)",
                                    ).context("setting query timeout").to_adbc(),
                                )
                            } else if millis == 0 {
                                self.timeout = None;
                                Ok(header_for(YEAR_MILLIS))
                            } else {
                                self.timeout = Some(Duration::from_millis(millis as u64));
                                Ok(header_for(millis))
                            }
                        },
                    }
                } else if has_prefix(k.as_str(), OPTION_TIMEOUT_PREFIX) {
                    self.timeouts.set_timeout_value(k.as_str(), &value)
                } else {
                    Err(FlightSqlErrorHelper::set_unknown_option(k).to_adbc())
                }
            },
            OptionStatement::Incremental => Ok(OptionEffect::Done),
            OptionStatement::Progress => Ok(OptionEffect::Done),
            OptionStatement::MaxProgress => Ok(OptionEffect::Done),
            _ => match FlightSqlErrorHelper::option_as_string(&key, &value) {
                Err(e) => Err(e.to_adbc()),
                Ok(text) => {
                    match &key {
                        OptionStatement::IngestMode => {
                            self.ingest_mode = Some(text);
                        },
                        OptionStatement::TargetTable => {
                            self.ingest_target_table = Some(text);
                        },
                        OptionStatement::TargetCatalog => {
                            self.ingest_catalog = if text.as_str().is_empty() {
                                None
                            } else {
                                Some(text)
                            };
                        },
                        OptionStatement::TargetDbSchema => {
                            self.ingest_schema = if text.as_str().is_empty() {
                                None
                            } else {
                                Some(text)
                            };
                        },
                        _ => {
                            self.ingest_temporary = same_text(text.as_str(), "true") || same_text(
                                text.as_str(),
                                "adbc.option.value.enabled",
                            );
                        },
                    }
                    Ok(OptionEffect::Done)
                },
            },
        }
    }

    /// Sets a timeout to a converted number.
    pub fn set_converted_seconds(&mut self, key: &str, seconds: Option<Double>) -> (r: Result<
        (),
        AdbcError,
    >)
        requires
            seconds matches Some(d) ==> settable(d.bits),
        ensures
            match old(self)@.timeouts.set_converted(key@, seconds) {
                Ok(timeouts) => r is Ok && final(self)@ == (StatementView {
                    timeouts,
                    ..old(self)@
                }),
                Err(e) => final(self)@ == old(self)@ && (r matches Err(x) && x@ == e),
            },
    {
        self.timeouts.set_converted_seconds(key, seconds)
    }

    /// Reads an option as a string: no option is.
    pub fn get_option_string(&self, key: OptionStatement) -> (r: Result<String, AdbcError>)
        ensures
            r matches Err(e) && e@ == self@.option_string(key),
    {
        match &key {
            OptionStatement::Other(k) => {
                if same_text(k.as_str(), OPTION_EXEC_TIMEOUT) {
                    Err(
                        FlightSqlErrorHelper::not_found().message(
                            "timeout is an integer option — use get_option_int",
                        ).to_adbc(),
                    )
                } else {
                    Err(unreadable(&key, " not available"))
                }
            },
            _ => Err(unreadable(&key, " not available")),
        }
    }

    /// Reads an option as an integer.
    pub fn get_option_int(&self, key: OptionStatement) -> (r: Result<i64, AdbcError>)
        ensures
            int_result(r) == self@.option_int(key),
    {
        match &key {
            OptionStatement::Other(k) => {
                if same_text(k.as_str(), OPTION_EXEC_TIMEOUT) {
                    match self.timeout {
                        Some(d) => Ok(d.as_millis() as i64),
                        None => Ok(0),
                    }
                } else {
                    Err(unreadable(&key, " not available as int"))
                }
            },
            _ => Err(unreadable(&key, " not available as int")),
        }
    }

    /// Reads an option as bytes: no option is.
    pub fn get_option_bytes(&self, key: OptionStatement) -> (r: Result<Vec<u8>, AdbcError>)
        ensures
            r matches Err(e) && e@ == unset("Option "@ + key.debug_view() + " not available"@),
    {
        Err(unreadable(&key, " not available"))
    }

    /// Reads an option as a double: the span of time of a timeout.
    pub fn get_option_double(&self, key: OptionStatement) -> (r: Result<Duration, AdbcError>)
        ensures
            span_result(r) == self@.option_double(key),
    {
        match &key {
            OptionStatement::Other(k) => {
                if has_prefix(k.as_str(), OPTION_TIMEOUT_PREFIX) {
                    self.timeouts.get_timeout_seconds(k.as_str())
                } else {
                    Err(unreadable(&key, " not available"))
                }
            },
            _ => Err(unreadable(&key, " not available")),
        }
    }
}

/// A timeout of the whole execution that was set is read back in milliseconds, and none as zero.
pub proof fn law_exec_timeout_is_read_back(
    statement: StatementView,
    key: OptionStatement,
    value: OptionValue,
)
    requires
        key matches OptionStatement::Other(k) && k@ == OPTION_EXEC_TIMEOUT@,
        statement.with_option(key, value) is Ok,
    ensures
        int_option(value) matches Some(millis) && statement.with_option(
            key,
            value,
        )->Ok_0.0.option_int(key) == Ok::<i64, AdbcErrorView>(millis),
{
}

/// What a server does with the table of a bulk ingestion, by the numbers of the protocol.
pub struct IngestCommand {
    pub if_not_exist: i32,
    pub if_exists: i32,
    pub table: String,
    pub schema: Option<String>,
    pub catalog: Option<String>,
    pub temporary: bool,
}

/// The content of an [`IngestCommand`].
#[verifier::ext_equal]
pub struct IngestCommandView {
    pub if_not_exist: i32,
    pub if_exists: i32,
    pub table: Seq<char>,
    pub schema: Option<Seq<char>>,
    pub catalog: Option<Seq<char>>,
    pub temporary: bool,
}

impl View for IngestCommand {
    type V = IngestCommandView;

    open spec fn view(&self) -> IngestCommandView {
        IngestCommandView {
            if_not_exist: self.if_not_exist,
            if_exists: self.if_exists,
            table: self.table@,
            schema: opt_view(self.schema),
            catalog: opt_view(self.catalog),
            temporary: self.temporary,
        }
    }
}

/// Create the table if it does not exist.
pub const NOT_EXIST_CREATE: i32 = 1;

/// Fail if the table does not exist.
pub const NOT_EXIST_FAIL: i32 = 2;

/// Fail if the table exists.
pub const EXISTS_FAIL: i32 = 1;

/// Append to the table if it exists.
pub const EXISTS_APPEND: i32 = 2;

/// Replace the table if it exists.
pub const EXISTS_REPLACE: i32 = 3;

/// What a mode of bulk ingestion does if the table does not exist, and if it does.
pub open spec fn mode_actions(mode: Seq<char>) -> Option<(i32, i32)> {
    if mode == "adbc.ingest.mode.create"@ || mode == "create"@ {
        Some((NOT_EXIST_CREATE, EXISTS_FAIL))
    } else if mode == "adbc.ingest.mode.append"@ || mode == "append"@ {
        Some((NOT_EXIST_FAIL, EXISTS_APPEND))
    } else if mode == "adbc.ingest.mode.replace"@ || mode == "replace"@ {
        Some((NOT_EXIST_FAIL, EXISTS_REPLACE))
    } else if mode == "adbc.ingest.mode.create_append"@ || mode == "create_append"@ {
        Some((NOT_EXIST_CREATE, EXISTS_APPEND))
    } else {
        None
    }
}

/// What a mode of bulk ingestion does if the table does not exist, and if it does.
fn find_mode(mode: &str) -> (r: Option<(i32, i32)>)
    ensures
        r == mode_actions(mode@),
{
    if same_text(mode, "adbc.ingest.mode.create") || same_text(mode, "create") {
        Some((NOT_EXIST_CREATE, EXISTS_FAIL))
    } else if same_text(mode, "adbc.ingest.mode.append") || same_text(mode, "append") {
        Some((NOT_EXIST_FAIL, EXISTS_APPEND))
    } else if same_text(mode, "adbc.ingest.mode.replace") || same_text(mode, "replace") {
        Some((NOT_EXIST_FAIL, EXISTS_REPLACE))
    } else if same_text(mode, "adbc.ingest.mode.create_append") || same_text(
        mode,
        "create_append",
    ) {
        Some((NOT_EXIST_CREATE, EXISTS_APPEND))
    } else {
        None
    }
}

/// A bulk ingestion: what to do, and the rows to do it with.
pub struct IngestRequest {
    pub command: IngestCommand,
    pub batch: Batch,
}

/// The error for a call at the wrong time.
pub open spec fn wrong_state(message: Seq<char>) -> AdbcErrorView {
    adbc(bare(Status::InvalidState).message(message))
}

/// The error for a call at the wrong time, while doing something.
pub open spec fn wrong_state_while(message: Seq<char>, context: Seq<char>) -> AdbcErrorView {
    adbc(bare(Status::InvalidState).message(message).context(context))
}

/// The error for something that this driver does not do, while doing something.
pub open spec fn not_done_while(message: Seq<char>, context: Seq<char>) -> AdbcErrorView {
    adbc(bare(Status::NotImplemented).message(message).context(context))
}

impl StatementView {
    /// The mode of bulk ingestion.
    pub open spec fn mode(self) -> Seq<char> {
        match self.ingest_mode {
            Some(mode) => mode,
            None => "create"@,
        }
    }

    /// What is missing for a bulk ingestion, if anything is. The first fault counts.
    pub open spec fn ingest_fault(self) -> Option<AdbcErrorView> {
        if self.ingest_target_table is None {
            Some(wrong_state("no target table set for ingest"@))
        } else if mode_actions(self.mode()) is None {
            Some(
                adbc(
                    bare(Status::InvalidArguments).message("unknown ingest mode: "@ + self.mode()),
                ),
            )
        } else if self.bound_batch is None {
            Some(wrong_state("must call Bind before executing ingest"@))
        } else {
            None
        }
    }

    /// What a server is told to do in a bulk ingestion.
    pub open spec fn ingest_command(self) -> IngestCommandView {
        IngestCommandView {
            if_not_exist: mode_actions(self.mode())->Some_0.0,
            if_exists: mode_actions(self.mode())->Some_0.1,
            table: self.ingest_target_table->Some_0,
            schema: self.ingest_schema,
            catalog: self.ingest_catalog,
            temporary: self.ingest_temporary,
        }
    }

    /// The request is the bulk ingestion that the statement is set up for.
    pub open spec fn ingests(self, request: IngestRequest) -> bool {
        request.command@ == self.ingest_command() && Some(request.batch) == self.bound_batch
    }

    /// The statement with its results given up.
    pub open spec fn given_up(self) -> StatementView {
        StatementView { validity: Validity { cancelled: true, ..self.validity }, ..self }
    }

    /// The statement whose new results are open: they have the next number, and their schema is
    /// known.
    pub open spec fn opened(self, schema: arrow_schema::Schema) -> StatementView {
        StatementView {
            cached_schema: Some(schema),
            validity: Validity { latest: (self.validity.latest + 1) as u64, cancelled: false },
            ..self
        }
    }

    /// The statement without the rows that were bound.
    pub open spec fn unbound(self) -> StatementView {
        StatementView { bound_batch: None, ..self }
    }
}

/// The next call of an execution.
pub enum ExecuteStep {
    /// A bulk ingestion.
    Ingest(IngestRequest),
    /// The prepared statement.
    Prepared,
    /// A query.
    Query(String),
}

/// Reports a statement without a query.
fn no_sql(context: &str) -> (r: AdbcError)
    ensures
        r@ == wrong_state_while(NO_SQL@, context@),
{
    FlightSqlErrorHelper::invalid_state().message(NO_SQL).context(context).to_adbc()
}

impl FlightSqlStatement {
    /// Starts a bulk ingestion: the rows that were bound are used up by it.
    pub fn execute_ingest(&mut self) -> (r: Result<IngestRequest, AdbcError>)
        ensures
            match old(self)@.ingest_fault() {
                Some(e) => final(self)@ == old(self)@ && (r matches Err(x) && x@ == e),
                None => final(self)@ == old(self)@.unbound() && (r matches Ok(request) && old(
                    self,
                )@.ingests(request)),
            },
    {
        let table = match &self.ingest_target_table {
            Some(table) => table.clone(),
            None => {
                return Err(
                    FlightSqlErrorHelper::invalid_state().message(
                        "no target table set for ingest",
                    ).to_adbc(),
                );
            },
        };
        let mode = match &self.ingest_mode {
            Some(mode) => mode.as_str(),
            None => "create",
        };
        let (if_not_exist, if_exists) = match find_mode(mode) {
            Some(actions) => actions,
            None => {
                return Err(
                    FlightSqlErrorHelper::invalid_argument().message(
                        concat2("unknown ingest mode: ", mode).as_str(),
                    ).to_adbc(),
                );
            },
        };
        let command = IngestCommand {
            if_not_exist,
            if_exists,
            table,
            schema: copy_opt(&self.ingest_schema),
            catalog: copy_opt(&self.ingest_catalog),
            temporary: self.ingest_temporary,
        };
        match self.bound_batch.take() {
            Some(batch) => Ok(IngestRequest { command, batch }),
            None => Err(
                FlightSqlErrorHelper::invalid_state().message(
                    "must call Bind before executing ingest",
                ).to_adbc(),
            ),
        }
    }

    /// Starts an execution. Earlier results are given up, unless rows are ingested.
    pub fn execute(&mut self) -> (r: Result<ExecuteStep, AdbcError>)
        ensures
            if old(self)@.ingest_target_table is Some {
                match old(self)@.ingest_fault() {
                    Some(e) => final(self)@ == old(self)@ && (r matches Err(x) && x@ == e),
                    None => final(self)@ == old(self)@.unbound() && (r matches Ok(
                        ExecuteStep::Ingest(request),
                    ) && old(self)@.ingests(request)),
                }
            } else {
                &&& final(self)@ == old(self)@.given_up()
                &&& if old(self)@.prepared {
                    r matches Ok(ExecuteStep::Prepared)
                } else {
                    match old(self)@.sql {
                        Some(sql) => r matches Ok(ExecuteStep::Query(q)) && q@ == sql,
                        None => r matches Err(e) && e@ == wrong_state_while(
                            NO_SQL@,
                            "executing statement"@,
                        ),
                    }
                }
            },
    {
        if self.ingest_target_table.is_some() {
            return match self.execute_ingest() {
                Ok(request) => Ok(ExecuteStep::Ingest(request)),
                Err(e) => Err(e),
            };
        }
        self.validity.cancel();
        if self.prepared {
            return Ok(ExecuteStep::Prepared);
        }
        match &self.sql {
            Some(sql) => Ok(ExecuteStep::Query(sql.clone())),
            None => Err(no_sql("executing statement")),
        }
    }

    /// Takes the answer to a bulk ingestion: the number of rows that were ingested.
    pub fn answer_ingest(&self, answer: Result<i64, FlightError>) -> (r: Result<i64, AdbcError>)
        ensures
            match answer {
                Ok(n) => r == Ok::<i64, AdbcError>(n),
                Err(e) => r matches Err(x) && x@ == flight_view(e, "ExecuteIngest"@),
            },
    {
        match answer {
            Ok(n) => Ok(n),
            Err(e) => Err(map_flight_error(e, "ExecuteIngest")),
        }
    }

    /// Takes the answer to a bulk ingestion that was started as a query: its results have no columns,
    /// and this is their schema. They have no rows either.
    pub fn answer_ingest_query(&self, answer: Result<i64, FlightError>) -> (r: Result<
        arrow_schema::Schema,
        AdbcError,
    >)
        ensures
            match answer {
                Ok(_) => r matches Ok(schema) && schema_fields(schema).len() == 0
                    && schema_metadata(schema) == no_metadata(),
                Err(e) => r matches Err(x) && x@ == flight_view(e, "ExecuteIngest"@),
            },
    {
        match self.answer_ingest(answer) {
            Ok(_) => Ok(empty_schema()),
            Err(e) => Err(e),
        }
    }

    /// Takes the answer to a query or a prepared statement.
    pub fn answer_execute(&self, answer: Result<arrow_flight::FlightInfo, FlightError>) -> (r: Result<
        arrow_flight::FlightInfo,
        AdbcError,
    >)
        ensures
            match answer {
                Ok(info) => r == Ok::<arrow_flight::FlightInfo, AdbcError>(info),
                Err(e) => r matches Err(x) && x@ == flight_view(
                    e,
                    if self@.prepared {
                        "executing prepared statement"@
                    } else {
                        "executing query"@
                    },
                ),
            },
    {
        match answer {
            Ok(info) => Ok(info),
            Err(e) => if self.prepared {
                Err(map_flight_error(e, "executing prepared statement"))
            } else {
                Err(map_flight_error(e, "executing query"))
            },
        }
    }

    /// Finds out how to fetch the results, whose schema is decoded.
    pub fn find_results<D: Fn(Vec<u8>) -> Result<arrow_schema::Schema, String>>(
        &self,
        info: &arrow_flight::FlightInfo,
        decode: D,
    ) -> (r: Result<ResultSource, AdbcError>)
        requires
            takes_all(decode),
        ensures
            exists|schema: Result<arrow_schema::Schema, String>| #[trigger]
                decodes(decode, encoded_schema(*info), schema) && sources(
                    r,
                    *info,
                    schema,
                    "failed to decode result schema: "@,
                    "server returned FlightInfo with no endpoints/tickets"@,
                ),
    {
        result_source(
            info,
            decode,
            "failed to decode result schema: ",
            "server returned FlightInfo with no endpoints/tickets",
        )
    }

    /// Takes the answer to opening the results. Once they are open their schema is known, and they
    /// are the ones that are wanted: `r` is their number.
    pub fn answer_open(&mut self, schema: &arrow_schema::Schema, answer: Result<(), FlightError>) -> (r:
        Result<u64, AdbcError>)
        requires
            old(self)@.validity.latest < u64::MAX,
        ensures
            match answer {
                Ok(_) => {
                    &&& final(self)@ == old(self)@.opened(*schema)
                    &&& r == Ok::<u64, AdbcError>(final(self)@.validity.latest)
                },
                Err(e) => {
                    &&& final(self)@ == old(self)@
                    &&& r matches Err(x) && x@ == flight_view(e, "opening result stream"@)
                },
            },
    {
        match answer {
            Ok(_) => {
                self.cached_schema = Some(schema.clone());
                Ok(self.validity.renew())
            },
            Err(e) => Err(map_flight_error(e, "opening result stream")),
        }
    }

    /// Starts an update: a bulk ingestion, or the prepared statement. Other updates are not done.
    pub fn execute_update(&mut self) -> (r: Result<ExecuteStep, AdbcError>)
        ensures
            if old(self)@.ingest_target_table is Some {
                match old(self)@.ingest_fault() {
                    Some(e) => final(self)@ == old(self)@ && (r matches Err(x) && x@ == e),
                    None => final(self)@ == old(self)@.unbound() && (r matches Ok(
                        ExecuteStep::Ingest(request),
                    ) && old(self)@.ingests(request)),
                }
            } else {
                &&& final(self)@ == old(self)@
                &&& if old(self)@.prepared {
                    r matches Ok(ExecuteStep::Prepared)
                } else {
                    r matches Err(e) && e@ == not_done_while(
                        "execute_update not supported (read-only driver)"@,
                        "executing update"@,
                    )
                }
            },
    {
        if self.ingest_target_table.is_some() {
            return match self.execute_ingest() {
                Ok(request) => Ok(ExecuteStep::Ingest(request)),
                Err(e) => Err(e),
            };
        }
        if self.prepared {
            return Ok(ExecuteStep::Prepared);
        }
        Err(
            FlightSqlErrorHelper::not_implemented().message(
                "execute_update not supported (read-only driver)",
            ).context("executing update").to_adbc(),
        )
    }

    /// Takes the answer to a prepared update: the number of rows that it changed.
    pub fn answer_update(&self, answer: Result<i64, FlightError>) -> (r: Result<i64, AdbcError>)
        ensures
            match answer {
                Ok(n) => r == Ok::<i64, AdbcError>(n),
                Err(e) => r matches Err(x) && x@ == flight_view(e, "executing prepared update"@),
            },
    {
        match answer {
            Ok(n) => Ok(n),
            Err(e) => Err(map_flight_error(e, "executing prepared update")),
        }
    }
}

/// The next call for the schema of the results.
pub enum ResultSchemaStep {
    /// The schema of the prepared statement.
    Prepared,
    /// The schema is known.
    Known(arrow_schema::Schema),
    /// Preparing a query, for its schema.
    Prepare(String),
    /// A query for no rows, for its schema.
    Limited(String),
}

/// A query for no rows.
pub open spec fn limited(sql: Seq<char>) -> Seq<char> {
    sql + " LIMIT 0"@
}

impl StatementView {
    /// The statement that knows the schema of its results.
    pub open spec fn knowing(self, schema: arrow_schema::Schema) -> StatementView {
        StatementView { cached_schema: Some(schema), ..self }
    }

    /// The first step to find the schema of the results: that of a prepared statement, or the one
    /// that is known, or preparing the query.
    pub open spec fn finds_schema_by(self, step: Result<ResultSchemaStep, AdbcError>) -> bool {
        if self.prepared {
            step matches Ok(ResultSchemaStep::Prepared)
        } else {
            match (self.cached_schema, self.sql) {
                (Some(schema), _) => step == Ok::<ResultSchemaStep, AdbcError>(
                    ResultSchemaStep::Known(schema),
                ),
                (None, Some(sql)) => step matches Ok(ResultSchemaStep::Prepare(q)) && q@ == sql,
                (None, None) => step matches Err(e) && e@ == wrong_state_while(
                    NO_SQL@,
                    "getting result schema"@,
                ),
            }
        }
    }
}

impl FlightSqlStatement {
    /// Starts to find the schema of the results. Earlier results are given up.
    pub fn execute_schema(&mut self) -> (r: Result<ResultSchemaStep, AdbcError>)
        ensures
            final(self)@ == old(self)@.given_up(),
            old(self)@.finds_schema_by(r),
    {
        self.validity.cancel();
        if self.prepared {
            return Ok(ResultSchemaStep::Prepared);
        }
        if let Some(schema) = &self.cached_schema {
            return Ok(ResultSchemaStep::Known(schema.clone()));
        }
        match &self.sql {
            Some(sql) => Ok(ResultSchemaStep::Prepare(sql.clone())),
            None => Err(no_sql("getting result schema")),
        }
    }

    /// Takes the schema of the prepared statement.
    pub fn answer_dataset_schema(&mut self, answer: Result<arrow_schema::Schema, String>) -> (r: Result<
        arrow_schema::Schema,
        AdbcError,
    >)
        ensures
            match answer {
                Ok(schema) => {
                    &&& r == Ok::<arrow_schema::Schema, AdbcError>(schema)
                    &&& final(self)@ == old(self)@.knowing(schema)
                },
                Err(text) => {
                    &&& final(self)@ == old(self)@
                    &&& r matches Err(x) && x@ == undecodable(
                        "failed to get dataset schema: "@,
                        text@,
                    )
                },
            },
    {
        self.learn(answer, "failed to get dataset schema: ")
    }

    /// Remembers a schema, or reports that there is none.
    fn learn(&mut self, answer: Result<arrow_schema::Schema, String>, message: &str) -> (r: Result<
        arrow_schema::Schema,
        AdbcError,
    >)
        ensures
            match answer {
                Ok(schema) => {
                    &&& r == Ok::<arrow_schema::Schema, AdbcError>(schema)
                    &&& final(self)@ == old(self)@.knowing(schema)
                },
                Err(text) => {
                    &&& final(self)@ == old(self)@
                    &&& r matches Err(x) && x@ == undecodable(message@, text@)
                },
            },
    {
        match answer {
            Ok(schema) => {
                self.cached_schema = Some(schema.clone());
                Ok(schema)
            },
            Err(text) => Err(
                FlightSqlErrorHelper::internal_no_location().message(
                    concat2(message, text.as_str()).as_str(),
                ).to_adbc(),
            ),
        }
    }

    /// Takes the schema of a query that was prepared for it. Where preparing failed, a query for no
    /// rows is next.
    pub fn answer_prepared_schema(
        &mut self,
        answer: Result<Result<arrow_schema::Schema, FlightError>, FlightError>,
    ) -> (r: Result<ResultSchemaStep, AdbcError>)
        requires
            old(self)@.sql is Some,
        ensures
            match answer {
                Ok(Ok(schema)) => {
                    &&& r == Ok::<ResultSchemaStep, AdbcError>(ResultSchemaStep::Known(schema))
                    &&& final(self)@ == old(self)@.knowing(schema)
                },
                Ok(Err(e)) => {
                    &&& final(self)@ == old(self)@
                    &&& r matches Err(x) && x@ == flight_view(e, "getting prepared schema"@)
                },
                Err(_) => {
                    &&& final(self)@ == old(self)@
                    &&& r matches Ok(ResultSchemaStep::Limited(q)) && q@ == limited(
                        old(self)@.sql->Some_0,
                    )
                },
            },
    {
        match answer {
            Ok(Ok(schema)) => {
                self.cached_schema = Some(schema.clone());
                Ok(ResultSchemaStep::Known(schema))
            },
            Ok(Err(e)) => Err(map_flight_error(e, "getting prepared schema")),
            Err(_) => match &self.sql {
                Some(sql) => Ok(ResultSchemaStep::Limited(concat2(sql.as_str(), " LIMIT 0"))),
                None => Err(no_sql("getting result schema")),
            },
        }
    }

    /// Takes the answer to a query for no rows.
    pub fn answer_limited(&self, answer: Result<arrow_flight::FlightInfo, FlightError>) -> (r: Result<
        arrow_flight::FlightInfo,
        AdbcError,
    >)
        ensures
            match answer {
                Ok(info) => r == Ok::<arrow_flight::FlightInfo, AdbcError>(info),
                Err(e) => r matches Err(x) && x@ == flight_view(e, "executing schema query"@),
            },
    {
        match answer {
            Ok(info) => Ok(info),
            Err(e) => Err(map_flight_error(e, "executing schema query")),
        }
    }

    /// Takes the schema of a query for no rows, which is decoded.
    pub fn answer_limited_schema<D: Fn(Vec<u8>) -> Result<arrow_schema::Schema, String>>(
        &mut self,
        info: &arrow_flight::FlightInfo,
        decode: D,
    ) -> (r: Result<arrow_schema::Schema, AdbcError>)
        requires
            takes_all(decode),
        ensures
            exists|schema: Result<arrow_schema::Schema, String>| #[trigger]
                decodes(decode, encoded_schema(*info), schema) && match schema {
                    Ok(schema) => {
                        &&& r == Ok::<arrow_schema::Schema, AdbcError>(schema)
                        &&& final(self)@ == old(self)@.knowing(schema)
                    },
                    Err(text) => {
                        &&& final(self)@ == old(self)@
                        &&& r matches Err(x) && x@ == undecodable(
                            "failed to decode schema: "@,
                            text@,
                        )
                    },
                },
    {
        let bytes = schema_bytes(info);
        let schema = decode(bytes);
        assert(decodes(decode, encoded_schema(*info), schema));
        self.learn(schema, "failed to decode schema: ")
    }
}

/// What splitting results with a decoded schema into partitions leads to.
pub open spec fn are_partitions(
    r: Result<PartitionedResult, AdbcError>,
    info: arrow_flight::FlightInfo,
    schema: Result<arrow_schema::Schema, String>,
) -> bool {
    match schema {
        Err(text) => r matches Err(e) && e@ == undecodable(
            "failed to decode partition schema: "@,
            text@,
        ),
        Ok(schema) => r matches Ok(result) && {
            &&& result.schema == schema
            &&& result.rows_affected == -1
            &&& result.partitions@.len() == endpoints(info).len()
            &&& forall|i: int|
                0 <= i < result.partitions@.len() ==> is_partition(
                    (#[trigger] result.partitions@[i])@,
                    info,
                    endpoints(info)[i],
                )
        },
    }
}

/// The partitions of the results of a query.
pub struct PartitionedResult {
    pub partitions: Vec<Vec<u8>>,
    pub schema: arrow_schema::Schema,
    pub rows_affected: i64,
}

impl FlightSqlStatement {
    /// Starts an execution whose results are read in partitions.
    pub fn execute_partitions(&self) -> (r: Result<ExecuteStep, AdbcError>)
        ensures
            if self@.prepared {
                r matches Ok(ExecuteStep::Prepared)
            } else {
                match self@.sql {
                    Some(sql) => r matches Ok(ExecuteStep::Query(q)) && q@ == sql,
                    None => r matches Err(e) && e@ == wrong_state_while(
                        NO_SQL@,
                        "executing partitions"@,
                    ),
                }
            },
    {
        if self.prepared {
            return Ok(ExecuteStep::Prepared);
        }
        match &self.sql {
            Some(sql) => Ok(ExecuteStep::Query(sql.clone())),
            None => Err(no_sql("executing partitions")),
        }
    }

    /// Takes the answer to an execution whose results are read in partitions.
    pub fn answer_partitions(
        &self,
        answer: Result<arrow_flight::FlightInfo, FlightError>,
    ) -> (r: Result<arrow_flight::FlightInfo, AdbcError>)
        ensures
            match answer {
                Ok(info) => r == Ok::<arrow_flight::FlightInfo, AdbcError>(info),
                Err(e) => r matches Err(x) && x@ == flight_view(
                    e,
                    if self@.prepared {
                        "executing prepared partitions"@
                    } else {
                        "executing partitions"@
                    },
                ),
            },
    {
        match answer {
            Ok(info) => Ok(info),
            Err(e) => if self.prepared {
                Err(map_flight_error(e, "executing prepared partitions"))
            } else {
                Err(map_flight_error(e, "executing partitions"))
            },
        }
    }

    /// Splits results, whose schema is decoded, into partitions: one for each endpoint in order.
    pub fn partition_results<D: Fn(Vec<u8>) -> Result<arrow_schema::Schema, String>>(
        &self,
        info: &arrow_flight::FlightInfo,
        decode: D,
    ) -> (r: Result<PartitionedResult, AdbcError>)
        requires
            takes_all(decode),
        ensures
            exists|schema: Result<arrow_schema::Schema, String>| #[trigger]
                decodes(decode, encoded_schema(*info), schema) && are_partitions(r, *info, schema),
    {
        match partition_schema(schema_bytes(info), decode) {
            Ok(schema) => Ok(
                PartitionedResult { partitions: partitions(info), schema, rows_affected: -1 },
            ),
            Err(e) => Err(e),
        }
    }
}

/// A call to prepare a query.
pub struct PrepareRequest {
    pub sql: String,
    /// An earlier prepared statement is to be closed first.
    pub closes: bool,
}

impl FlightSqlStatement {
    /// Starts to prepare the query. An earlier prepared statement is closed.
    pub fn prepare(&mut self) -> (r: Result<PrepareRequest, AdbcError>)
        ensures
            match old(self)@.sql {
                Some(sql) => {
                    &&& final(self)@ == (StatementView { prepared: false, ..old(self)@ })
                    &&& r matches Ok(request) && request.sql@ == sql && request.closes == old(
                        self,
                    )@.prepared
                },
                None => {
                    &&& final(self)@ == old(self)@
                    &&& r matches Err(e) && e@ == wrong_state_while(
                        NO_SQL@,
                        "preparing statement"@,
                    )
                },
            },
    {
        match &self.sql {
            Some(sql) => {
                let request = PrepareRequest { sql: sql.clone(), closes: self.prepared };
                self.prepared = false;
                Ok(request)
            },
            None => Err(no_sql("preparing statement")),
        }
    }

    /// Takes the answer to preparing the query: the schema of its parameters.
    pub fn answer_prepare(
        &mut self,
        answer: Result<Result<arrow_schema::Schema, String>, FlightError>,
    ) -> (r: Result<(), AdbcError>)
        ensures
            match answer {
                Ok(Ok(schema)) => {
                    &&& r is Ok
                    &&& final(self)@ == (StatementView {
                        prepared: true,
                        prepared_parameter_schema: Some(schema),
                        ..old(self)@
                    })
                },
                Ok(Err(text)) => {
                    &&& final(self)@ == old(self)@
                    &&& r matches Err(x) && x@ == undecodable(
                        "failed to get parameter schema: "@,
                        text@,
                    )
                },
                Err(e) => {
                    &&& final(self)@ == old(self)@
                    &&& r matches Err(x) && x@ == flight_view(e, "Prepare"@)
                },
            },
    {
        match answer {
            Ok(Ok(schema)) => {
                self.prepared = true;
                self.prepared_parameter_schema = Some(schema);
                Ok(())
            },
            Ok(Err(text)) => Err(
                FlightSqlErrorHelper::internal_no_location().message(
                    concat2("failed to get parameter schema: ", text.as_str()).as_str(),
                ).to_adbc(),
            ),
            Err(e) => Err(map_flight_error(e, "Prepare")),
        }
    }

    /// Sets the query. What was prepared for, and known about, the earlier query is dropped: `r`
    /// tells whether a prepared statement is to be closed.
    pub fn set_sql_query(&mut self, query: &str) -> (r: Result<bool, AdbcError>)
        ensures
            r == Ok::<bool, AdbcError>(old(self)@.prepared),
            final(self)@ == (StatementView {
                sql: Some(query@),
                prepared: false,
                prepared_parameter_schema: None,
                ingest_target_table: None,
                cached_schema: None,
                ..old(self)@
            }),
    {
        let closes = self.prepared;
        self.prepared = false;
        self.prepared_parameter_schema = None;
        self.ingest_target_table = None;
        self.sql = Some(query.to_owned());
        self.cached_schema = None;
        Ok(closes)
    }

    /// Binds rows of parameters: they are handed back for the prepared statement.
    pub fn bind(&mut self, batch: Batch) -> (r: Result<Batch, AdbcError>)
        ensures
            final(self)@ == old(self)@,
            if old(self)@.prepared {
                r == Ok::<Batch, AdbcError>(batch)
            } else {
                r matches Err(e) && e@ == wrong_state_while(
                    "must call Prepare before calling Bind"@,
                    "binding parameters"@,
                )
            },
    {
        if self.prepared {
            Ok(batch)
        } else {
            Err(
                FlightSqlErrorHelper::invalid_state().message(
                    "must call Prepare before calling Bind",
                ).context("binding parameters").to_adbc(),
            )
        }
    }

    /// Takes the answer of the prepared statement to its parameters.
    pub fn answer_bind(&self, answer: Result<(), String>) -> (r: Result<(), AdbcError>)
        ensures
            match answer {
                Ok(_) => r is Ok,
                Err(text) => r matches Err(e) && e@ == wrong_state_while(
                    "bind failed: "@ + text@,
                    "binding parameters"@,
                ),
            },
    {
        match answer {
            Ok(_) => Ok(()),
            Err(text) => Err(
                FlightSqlErrorHelper::invalid_state().message(
                    concat2("bind failed: ", text.as_str()).as_str(),
                ).context("binding parameters").to_adbc(),
            ),
        }
    }

    /// Binding a stream of parameters is not done.
    pub fn bind_stream(&mut self) -> (r: Result<(), AdbcError>)
        ensures
            final(self)@ == old(self)@,
            r matches Err(e) && e@ == (if old(self)@.prepared {
                not_done_while(
                    "bind_stream not supported for prepared statements in Rust FlightSQL"@,
                    "binding stream"@,
                )
            } else {
                wrong_state_while("must call Prepare before calling BindStream"@, "binding stream"@)
            }),
    {
        if !self.prepared {
            return Err(
                FlightSqlErrorHelper::invalid_state().message(
                    "must call Prepare before calling BindStream",
                ).context("binding stream").to_adbc(),
            );
        }
        Err(
            FlightSqlErrorHelper::not_implemented().message(
                "bind_stream not supported for prepared statements in Rust FlightSQL",
            ).context("binding stream").to_adbc(),
        )
    }

    /// The schema of the parameters of the prepared statement.
    pub fn get_parameter_schema(&self) -> (r: Result<arrow_schema::Schema, AdbcError>)
        ensures
            if !self@.prepared {
                r matches Err(e) && e@ == wrong_state_while(
                    "must call Prepare before GetParameterSchema"@,
                    "getting parameter schema"@,
                )
            } else {
                match self@.prepared_parameter_schema {
                    Some(schema) => r == Ok::<arrow_schema::Schema, AdbcError>(schema),
                    None => r matches Err(e) && e@ == not_done_while(
                        "server did not provide parameter schema"@,
                        "getting parameter schema"@,
                    ),
                }
            },
    {
        if !self.prepared {
            return Err(
                FlightSqlErrorHelper::invalid_state().message(
                    "must call Prepare before GetParameterSchema",
                ).context("getting parameter schema").to_adbc(),
            );
        }
        match &self.prepared_parameter_schema {
            Some(schema) => Ok(schema.clone()),
            None => Err(
                FlightSqlErrorHelper::not_implemented().message(
                    "server did not provide parameter schema",
                ).context("getting parameter schema").to_adbc(),
            ),
        }
    }

    /// Substrait plans are not run.
    pub fn set_substrait_plan(&mut self, plan: &[u8]) -> (r: Result<(), AdbcError>)
        ensures
            final(self)@ == old(self)@,
            r matches Err(e) && e@ == not_done_while(
                "Substrait plans not supported"@,
                "setting Substrait plan"@,
            ),
    {
        Err(
            FlightSqlErrorHelper::not_implemented().message(
                "Substrait plans not supported",
            ).context("setting Substrait plan").to_adbc(),
        )
    }

    /// Statements are not cancelled.
    pub fn cancel(&mut self) -> (r: Result<(), AdbcError>)
        ensures
            final(self)@ == old(self)@,
            r matches Err(e) && e@ == not_done_while(
                "statement cancellation not implemented"@,
                "cancelling statement"@,
            ),
    {
        Err(
            FlightSqlErrorHelper::not_implemented().message(
                "statement cancellation not implemented",
            ).context("cancelling statement").to_adbc(),
        )
    }
}

/// Running a statement again ends the results of every earlier run: while it runs, if it fails, and
/// once the new results are open. They stay ended whatever the statement does afterwards. The new
/// results are the ones that are wanted.
pub proof fn law_running_again_ends_earlier_results(
    statement: StatementView,
    schema: arrow_schema::Schema,
    number: u64,
    later: StatementView,
)
    requires
        number <= statement.validity.latest < u64::MAX,
        statement.given_up().validity.precedes(later.validity),
    ensures
        statement.given_up().validity.ended(number),
        statement.given_up().opened(schema).validity.ended(number),
        later.validity.ended(number),
        statement.given_up().validity.precedes(statement.given_up().opened(schema).validity),
        !statement.given_up().opened(schema).validity.ended(
            statement.given_up().opened(schema).validity.latest,
        ),
{
    law_ended_results_stay_ended(statement.given_up().validity, later.validity, number);
}

/// The schema of the latest results is known: asking for it takes no call, however often, as long as
/// nothing was prepared and no other query was set. Asking ends these results for good.
pub proof fn law_schema_of_results_is_known(
    statement: StatementView,
    schema: arrow_schema::Schema,
    asked: StatementView,
    step: Result<ResultSchemaStep, AdbcError>,
    later: StatementView,
)
    requires
        statement.validity.latest < u64::MAX,
        !asked.prepared,
        asked.cached_schema == statement.opened(schema).cached_schema,
        statement.opened(schema).validity.precedes(asked.validity),
        asked.finds_schema_by(step),
        asked.given_up().validity.precedes(later.validity),
    ensures
        step == Ok::<ResultSchemaStep, AdbcError>(ResultSchemaStep::Known(schema)),
        asked.given_up().cached_schema == asked.cached_schema,
        !asked.given_up().prepared,
        asked.given_up().validity.ended(statement.opened(schema).validity.latest),
        later.validity.ended(statement.opened(schema).validity.latest),
{
    let number = statement.opened(schema).validity.latest;
    law_ended_results_stay_ended(asked.given_up().validity, later.validity, number);
}

} // verus!
