//! Timeouts of the driver, one for each kind of operation.

use vstd::prelude::*;
use vstd::string::*;

use crate::double::{
    duration_of, fits_seconds, is_span, is_zero, nanos_of, seconds_to_duration,
    test_fits_seconds, test_span, test_zero, Duration,
};
use crate::error::{
    adbc, bare, AdbcError, AdbcErrorView, ErrorHelper, FlightSqlErrorHelper, Status,
};
use crate::options::{Double, EffectView, Number, NumberView, OptionEffect, OptionValue};
use crate::text::{finishes_with, has_suffix, same_text};

verus! {

pub const OPTION_TIMEOUT_FETCH: &'static str = "adbc.flight.sql.rpc.timeout_seconds.fetch";

pub const OPTION_TIMEOUT_QUERY: &'static str = "adbc.flight.sql.rpc.timeout_seconds.query";

pub const OPTION_TIMEOUT_UPDATE: &'static str = "adbc.flight.sql.rpc.timeout_seconds.update";

pub const OPTION_TIMEOUT_CONNECT: &'static str = "adbc.flight.sql.rpc.timeout_seconds.connect";

/// What the keys of all timeouts begin with.
pub const OPTION_TIMEOUT_PREFIX: &'static str = "adbc.flight.sql.rpc.timeout_seconds.";

/// A kind of operation that has a timeout of its own.
#[derive(Clone, Copy, Debug, PartialEq, Eq, Structural)]
pub enum TimeoutKind {
    Fetch,
    Query,
    Update,
    Connect,
}

/// The kind of operation that an option key names.
pub open spec fn timeout_kind(key: Seq<char>) -> Option<TimeoutKind> {
    if key == OPTION_TIMEOUT_FETCH@ {
        Some(TimeoutKind::Fetch)
    } else if key == OPTION_TIMEOUT_QUERY@ {
        Some(TimeoutKind::Query)
    } else if key == OPTION_TIMEOUT_UPDATE@ {
        Some(TimeoutKind::Update)
    } else if key == OPTION_TIMEOUT_CONNECT@ {
        Some(TimeoutKind::Connect)
    } else {
        None
    }
}

/// Finds the kind of operation that an option key names.
fn find_kind(key: &str) -> (r: Option<TimeoutKind>)
    ensures
        r == timeout_kind(key@),
{
    if same_text(key, OPTION_TIMEOUT_FETCH) {
        Some(TimeoutKind::Fetch)
    } else if same_text(key, OPTION_TIMEOUT_QUERY) {
        Some(TimeoutKind::Query)
    } else if same_text(key, OPTION_TIMEOUT_UPDATE) {
        Some(TimeoutKind::Update)
    } else if same_text(key, OPTION_TIMEOUT_CONNECT) {
        Some(TimeoutKind::Connect)
    } else {
        None
    }
}

/// The timeout that a number of seconds sets: zero seconds set none.
pub open spec fn timeout_of(bits: u64) -> Option<Duration> {
    if is_zero(bits) {
        None
    } else {
        Some(duration_of(nanos_of(bits)))
    }
}

/// The number of seconds is none, or zero, or is below `2^64`.
pub open spec fn settable(bits: u64) -> bool {
    is_span(bits) && !is_zero(bits) ==> fits_seconds(bits)
}

/// Whether the number of seconds is none, or zero, or is below `2^64`.
pub fn is_settable(bits: u64) -> (r: bool)
    ensures
        r == settable(bits),
{
    !test_span(bits) || test_zero(bits) || test_fits_seconds(bits)
}

/// The error for a number that is no span of time.
pub open spec fn invalid_seconds(display: Seq<char>) -> AdbcErrorView {
    adbc(
        bare(Status::InvalidArguments).message("invalid timeout seconds: "@ + display).context(
            "setting timeout"@,
        ),
    )
}

/// The error for a key that names no timeout.
pub open spec fn unknown_timeout(key: Seq<char>, status: Status) -> AdbcErrorView {
    adbc(bare(status).message("unknown timeout key: "@ + key))
}

/// The timeouts of the driver. No timeout stands for waiting without a limit.
#[derive(Clone, Copy, Debug, PartialEq, Eq, Structural)]
pub struct TimeoutOption {
    pub fetch_timeout: Option<Duration>,
    pub query_timeout: Option<Duration>,
    pub update_timeout: Option<Duration>,
    pub connect_timeout: Option<Duration>,
}

/// No timeouts at all.
pub open spec fn no_timeouts() -> TimeoutOption {
    TimeoutOption {
        fetch_timeout: None,
        query_timeout: None,
        update_timeout: None,
        connect_timeout: None,
    }
}

impl Default for TimeoutOption {
    fn default() -> (r: Self)
        ensures
            r == no_timeouts(),
    {
        TimeoutOption {
            fetch_timeout: None,
            query_timeout: None,
            update_timeout: None,
            connect_timeout: None,
        }
    }
}

impl TimeoutOption {
    /// The timeout of a kind of operation.
    pub open spec fn timeout(self, kind: TimeoutKind) -> Option<Duration> {
        match kind {
            TimeoutKind::Fetch => self.fetch_timeout,
            TimeoutKind::Query => self.query_timeout,
            TimeoutKind::Update => self.update_timeout,
            TimeoutKind::Connect => self.connect_timeout,
        }
    }

    /// The same timeouts but for one kind of operation.
    pub open spec fn with_timeout(self, kind: TimeoutKind, timeout: Option<Duration>) -> Self {
        match kind {
            TimeoutKind::Fetch => TimeoutOption { fetch_timeout: timeout, ..self },
            TimeoutKind::Query => TimeoutOption { query_timeout: timeout, ..self },
            TimeoutKind::Update => TimeoutOption { update_timeout: timeout, ..self },
            TimeoutKind::Connect => TimeoutOption { connect_timeout: timeout, ..self },
        }
    }

    /// What setting a timeout under a key leads to.
    pub open spec fn set_seconds(self, key: Seq<char>, seconds: Double) -> Result<
        Self,
        AdbcErrorView,
    > {
        if !is_span(seconds.bits) {
            Err(invalid_seconds(seconds.display@))
        } else {
            match timeout_kind(key) {
                None => Err(unknown_timeout(key, Status::InvalidArguments)),
                Some(kind) => Ok(self.with_timeout(kind, timeout_of(seconds.bits))),
            }
        }
    }

    /// What setting a timeout to an option value leads to: a double counts as it is, and any other
    /// number is to be converted first.
    pub open spec fn set_value(self, key: Seq<char>, value: OptionValue) -> Result<
        (Self, EffectView),
        AdbcErrorView,
    > {
        match value {
            OptionValue::Double(seconds) => match self.set_seconds(key, seconds) {
                Ok(timeouts) => Ok((timeouts, EffectView::Done)),
                Err(e) => Err(e),
            },
            OptionValue::Int(i) => Ok((self, EffectView::ConvertSeconds(NumberView::Int(i)))),
            OptionValue::String(s) => Ok((self, EffectView::ConvertSeconds(NumberView::Text(s@)))),
            OptionValue::Bytes(_) => Err(
                adbc(bare(Status::InvalidArguments).message("timeout must be a number"@)),
            ),
        }
    }

    /// What setting a timeout to a converted number leads to: a text may be no number.
    pub open spec fn set_converted(self, key: Seq<char>, seconds: Option<Double>) -> Result<
        Self,
        AdbcErrorView,
    > {
        match seconds {
            Some(seconds) => self.set_seconds(key, seconds),
            None => Err(
                adbc(bare(Status::InvalidArguments).message("timeout value must be a number"@)),
            ),
        }
    }

    /// The span that stands under a key, which is empty where there is no timeout.
    pub open spec fn get_seconds(self, key: Seq<char>) -> Result<Duration, AdbcErrorView> {
        match timeout_kind(key) {
            None => Err(unknown_timeout(key, Status::NotFound)),
            Some(kind) => Ok(
                match self.timeout(kind) {
                    Some(d) => d,
                    None => Duration { secs: 0, nanos: 0 },
                },
            ),
        }
    }

    /// The timeout of a remote method, by its name.
    pub open spec fn method_timeout(self, method: Seq<char>) -> Option<Duration> {
        if finishes_with(method, "DoGet"@) {
            self.fetch_timeout
        } else if finishes_with(method, "GetFlightInfo"@) {
            self.query_timeout
        } else if finishes_with(method, "DoPut"@) || finishes_with(method, "DoAction"@) {
            self.update_timeout
        } else {
            None
        }
    }

    /// No timeouts at all.
    pub fn new() -> (r: Self)
        ensures
            r == no_timeouts(),
    {
        Self::default()
    }

    /// Sets the timeout under a key. Zero seconds remove it.
    pub fn set_timeout_seconds(&mut self, key: &str, seconds: &Double) -> (r: Result<(), AdbcError>)
        requires
            settable(seconds.bits),
        ensures
            match old(self).set_seconds(key@, *seconds) {
                Ok(timeouts) => r is Ok && *final(self) == timeouts,
                Err(e) => *final(self) == *old(self) && (r matches Err(x) && x@ == e),
            },
    {
        if !test_span(seconds.bits) {
            let message = "invalid timeout seconds: ".to_owned().concat(seconds.display.as_str());
            return Err(
                FlightSqlErrorHelper::invalid_argument().message(message.as_str()).context(
                    "setting timeout",
                ).to_adbc(),
            );
        }
        let timeout = if test_zero(seconds.bits) {
            None
        } else {
            Some(seconds_to_duration(seconds.bits))
        };
        match find_kind(key) {
            Some(TimeoutKind::Fetch) => {
                self.fetch_timeout = timeout;
            },
            Some(TimeoutKind::Query) => {
                self.query_timeout = timeout;
            },
            Some(TimeoutKind::Update) => {
                self.update_timeout = timeout;
            },
            Some(TimeoutKind::Connect) => {
                self.connect_timeout = timeout;
            },
            None => {
                let message = "unknown timeout key: ".to_owned().concat(key);
                return Err(
                    FlightSqlErrorHelper::invalid_argument().message(message.as_str()).to_adbc(),
                );
            },
        }
        Ok(())
    }

    /// Sets the timeout under a key to an option value.
    pub fn set_timeout_value(&mut self, key: &str, value: &OptionValue) -> (r: Result<
        OptionEffect,
        AdbcError,
    >)
        requires
            *value matches OptionValue::Double(seconds) ==> settable(seconds.bits),
        ensures
            match old(self).set_value(key@, *value) {
                Ok((timeouts, effect)) => *final(self) == timeouts && (r matches Ok(x) && x@
                    == effect),
                Err(e) => *final(self) == *old(self) && (r matches Err(x) && x@ == e),
            },
    {
        match value {
            OptionValue::Double(seconds) => match self.set_timeout_seconds(key, seconds) {
                Ok(()) => Ok(OptionEffect::Done),
                Err(e) => Err(e),
            },
            OptionValue::Int(i) => Ok(OptionEffect::ConvertSeconds(Number::Int(*i))),
            OptionValue::String(s) => Ok(OptionEffect::ConvertSeconds(Number::Text(s.clone()))),
            OptionValue::Bytes(_) => Err(
                FlightSqlErrorHelper::invalid_argument().message(
                    "timeout must be a number",
                ).to_adbc(),
            ),
        }
    }

    /// Sets the timeout under a key to a converted number.
    pub fn set_converted_seconds(&mut self, key: &str, seconds: Option<Double>) -> (r: Result<
        (),
        AdbcError,
    >)
        requires
            seconds matches Some(d) ==> settable(d.bits),
        ensures
            match old(self).set_converted(key@, seconds) {
                Ok(timeouts) => r is Ok && *final(self) == timeouts,
                Err(e) => *final(self) == *old(self) && (r matches Err(x) && x@ == e),
            },
    {
        match seconds {
            Some(d) => self.set_timeout_seconds(key, &d),
            None => Err(
                FlightSqlErrorHelper::invalid_argument().message(
                    "timeout value must be a number",
                ).to_adbc(),
            ),
        }
    }

    /// The timeout under a key, as a span of time that is empty where there is none.
    pub fn get_timeout_seconds(&self, key: &str) -> (r: Result<Duration, AdbcError>)
        ensures
            match self.get_seconds(key@) {
                Ok(d) => r == Ok::<Duration, AdbcError>(d),
                Err(e) => r matches Err(x) && x@ == e,
            },
    {
        let timeout = match find_kind(key) {
            Some(TimeoutKind::Fetch) => self.fetch_timeout,
            Some(TimeoutKind::Query) => self.query_timeout,
            Some(TimeoutKind::Update) => self.update_timeout,
            Some(TimeoutKind::Connect) => self.connect_timeout,
            None => {
                let message = "unknown timeout key: ".to_owned().concat(key);
                return Err(FlightSqlErrorHelper::not_found().message(message.as_str()).to_adbc());
            },
        };
        match timeout {
            Some(d) => Ok(d),
            None => Ok(Duration::from_secs(0)),
        }
    }

    /// The timeout of a remote method, by the end of its name.
    pub fn timeout_for_method(&self, method: &str) -> (r: Option<Duration>)
        ensures
            r == self.method_timeout(method@),
    {
        if has_suffix(method, "DoGet") {
            self.fetch_timeout
        } else if has_suffix(method, "GetFlightInfo") {
            self.query_timeout
        } else if has_suffix(method, "DoPut") || has_suffix(method, "DoAction") {
            self.update_timeout
        } else {
            None
        }
    }
}

/// A timeout that was set is read back, and no other timeout changes.
pub proof fn law_timeout_is_read_back(
    timeouts: TimeoutOption,
    key: Seq<char>,
    other: Seq<char>,
    seconds: Double,
)
    requires
        timeouts.set_seconds(key, seconds) is Ok,
    ensures
        ({
            let after = timeouts.set_seconds(key, seconds)->Ok_0;
            &&& after.get_seconds(key) == Ok::<Duration, AdbcErrorView>(
                match timeout_of(seconds.bits) {
                    Some(d) => d,
                    None => Duration { secs: 0, nanos: 0 },
                },
            )
            &&& timeout_kind(other) != timeout_kind(key) ==> after.get_seconds(other)
                == timeouts.get_seconds(other)
        }),
{
}

/// Zero seconds remove a timeout, whatever stood there.
pub proof fn law_zero_removes(timeouts: TimeoutOption, key: Seq<char>, seconds: Double)
    requires
        is_zero(seconds.bits),
        timeout_kind(key) is Some,
    ensures
        timeouts.set_seconds(key, seconds) == Ok::<TimeoutOption, AdbcErrorView>(
            timeouts.with_timeout(timeout_kind(key)->Some_0, None),
        ),
{
}

} // verus!
