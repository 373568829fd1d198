//! Errors of the driver: building them clause by clause, merging them, rendering them,
//! and mapping the errors of gRPC, Flight and Arrow onto ADBC statuses.

use std::marker::PhantomData;

use vstd::prelude::*;
use vstd::string::*;

use crate::options::{DebugText, OptionValue};
use crate::text::{
    copy_opt, decimal, decimal_int, i64_of, i64_text, joined, opt_view, parse_i64, quote, quoted,
    same_text, u64_text,
};

verus! {

/// The status of an ADBC operation.
#[derive(Clone, Copy, Debug, PartialEq, Eq, Structural)]
pub enum Status {
    Okay,
    Unknown,
    NotImplemented,
    NotFound,
    AlreadyExists,
    InvalidArguments,
    InvalidState,
    InvalidData,
    Integrity,
    Internal,
    IO,
    Cancelled,
    Timeout,
    Unauthenticated,
    Unauthorized,
}

impl DebugText for Status {
    open spec fn debug_view(&self) -> Seq<char> {
        match self {
            Status::Okay => "Ok"@,
            Status::Unknown => "Unknown"@,
            Status::NotImplemented => "NotImplemented"@,
            Status::NotFound => "NotFound"@,
            Status::AlreadyExists => "AlreadyExists"@,
            Status::InvalidArguments => "InvalidArguments"@,
            Status::InvalidState => "InvalidState"@,
            Status::InvalidData => "InvalidData"@,
            Status::Integrity => "Integrity"@,
            Status::Internal => "Internal"@,
            Status::IO => "IO"@,
            Status::Cancelled => "Cancelled"@,
            Status::Timeout => "Timeout"@,
            Status::Unauthenticated => "Unauthenticated"@,
            Status::Unauthorized => "Unauthorized"@,
        }
    }

    fn debug_text(&self) -> (r: String) {
        match self {
            Status::Okay => "Ok".to_owned(),
            Status::Unknown => "Unknown".to_owned(),
            Status::NotImplemented => "NotImplemented".to_owned(),
            Status::NotFound => "NotFound".to_owned(),
            Status::AlreadyExists => "AlreadyExists".to_owned(),
            Status::InvalidArguments => "InvalidArguments".to_owned(),
            Status::InvalidState => "InvalidState".to_owned(),
            Status::InvalidData => "InvalidData".to_owned(),
            Status::Integrity => "Integrity".to_owned(),
            Status::Internal => "Internal".to_owned(),
            Status::IO => "IO".to_owned(),
            Status::Cancelled => "Cancelled".to_owned(),
            Status::Timeout => "Timeout".to_owned(),
            Status::Unauthenticated => "Unauthenticated".to_owned(),
            Status::Unauthorized => "Unauthorized".to_owned(),
        }
    }
}

/// The five zeros of an unset SQLSTATE.
pub open spec fn no_sqlstate() -> Seq<i8> {
    seq![0i8, 0, 0, 0, 0]
}

/// An error as ADBC reports it.
#[derive(Clone, Debug)]
pub struct AdbcError {
    pub message: String,
    pub status: Status,
    pub vendor_code: i32,
    pub sqlstate: [i8; 5],
    pub details: Option<Vec<(String, Vec<u8>)>>,
}

/// The content of an [`AdbcError`].
#[verifier::ext_equal]
pub struct AdbcErrorView {
    pub message: Seq<char>,
    pub status: Status,
    pub vendor_code: i32,
    pub sqlstate: Seq<i8>,
    pub details: Option<Seq<(String, Vec<u8>)>>,
}

impl View for AdbcError {
    type V = AdbcErrorView;

    open spec fn view(&self) -> AdbcErrorView {
        AdbcErrorView {
            message: self.message@,
            status: self.status,
            vendor_code: self.vendor_code,
            sqlstate: self.sqlstate@,
            details: match self.details {
                Some(d) => Some(d@),
                None => None,
            },
        }
    }
}

/// An ADBC error with a status, a message and nothing else.
pub open spec fn plain_error(message: Seq<char>, status: Status) -> AdbcErrorView {
    AdbcErrorView { message, status, vendor_code: 0, sqlstate: no_sqlstate(), details: None }
}

/// The five numbers of a SQLSTATE, as they print.
pub open spec fn sqlstate_text(sqlstate: Seq<i8>) -> Seq<char> {
    "["@ + decimal_int(sqlstate[0] as int) + ", "@ + decimal_int(sqlstate[1] as int) + ", "@
        + decimal_int(sqlstate[2] as int) + ", "@ + decimal_int(sqlstate[3] as int) + ", "@
        + decimal_int(sqlstate[4] as int) + "]"@
}

/// An ADBC error for a reader.
pub open spec fn adbc_display(error: AdbcErrorView) -> Seq<char> {
    error.status.debug_view() + ": "@ + error.message + " (sqlstate: "@ + sqlstate_text(
        error.sqlstate,
    ) + ", vendor_code: "@ + decimal_int(error.vendor_code as int) + ")"@
}

/// Prints the five numbers of a SQLSTATE.
fn show_sqlstate(sqlstate: &[i8; 5]) -> (r: String)
    ensures
        r@ == sqlstate_text(sqlstate@),
{
    let mut r = "[".to_owned();
    r.append(i64_text(sqlstate[0] as i64).as_str());
    r.append(", ");
    r.append(i64_text(sqlstate[1] as i64).as_str());
    r.append(", ");
    r.append(i64_text(sqlstate[2] as i64).as_str());
    r.append(", ");
    r.append(i64_text(sqlstate[3] as i64).as_str());
    r.append(", ");
    r.append(i64_text(sqlstate[4] as i64).as_str());
    r.append("]");
    r
}

impl AdbcError {
    /// The error for a reader.
    pub fn display_text(&self) -> (r: String)
        ensures
            r@ == adbc_display(self@),
    {
        let mut r = self.status.debug_text();
        r.append(": ");
        r.append(self.message.as_str());
        r.append(" (sqlstate: ");
        r.append(show_sqlstate(&self.sqlstate).as_str());
        r.append(", vendor_code: ");
        r.append(i64_text(self.vendor_code as i64).as_str());
        r.append(")");
        r
    }

    /// An error with a message and a status, and nothing else.
    pub fn with_message_and_status(message: String, status: Status) -> (r: AdbcError)
        ensures
            r@ == plain_error(message@, status),
    {
        AdbcError { message, status, vendor_code: 0, sqlstate: [0, 0, 0, 0, 0], details: None }
    }
}

/// One error in a chain of errors.
#[derive(Debug)]
struct ErrorImpl {
    status: Status,
    error_message: String,
    context_message: Option<String>,
    location: Option<String>,
    vendor_code: i32,
    sqlstate: [i8; 5],
}

/// The content of one error in a chain.
#[verifier::ext_equal]
pub struct ClauseView {
    pub status: Status,
    pub error_message: Seq<char>,
    pub context_message: Option<Seq<char>>,
    pub location: Option<Seq<char>>,
    pub vendor_code: i32,
    pub sqlstate: Seq<i8>,
}

impl View for ErrorImpl {
    type V = ClauseView;

    closed spec fn view(&self) -> ClauseView {
        ClauseView {
            status: self.status,
            error_message: self.error_message@,
            context_message: opt_view(self.context_message),
            location: opt_view(self.location),
            vendor_code: self.vendor_code,
            sqlstate: self.sqlstate@,
        }
    }
}

/// The content of an [`Error`]: the error itself, and those that came up while it was handled.
#[verifier::ext_equal]
pub struct ErrorView {
    pub head: ClauseView,
    pub rest: Seq<ClauseView>,
}

/// An error with a status and no message.
pub open spec fn bare(status: Status) -> ErrorView {
    ErrorView {
        head: ClauseView {
            status,
            error_message: Seq::empty(),
            context_message: None,
            location: None,
            vendor_code: 0,
            sqlstate: no_sqlstate(),
        },
        rest: Seq::empty(),
    }
}

impl ErrorView {
    /// With one more clause in the message.
    pub open spec fn message(self, message: Seq<char>) -> ErrorView {
        ErrorView {
            head: ClauseView {
                error_message: if self.head.error_message.len() == 0 {
                    message
                } else {
                    self.head.error_message + "; "@ + message
                },
                ..self.head
            },
            ..self
        }
    }

    /// With one more clause in the context.
    pub open spec fn context(self, message: Seq<char>) -> ErrorView {
        ErrorView {
            head: ClauseView {
                context_message: Some(
                    match self.head.context_message {
                        None => message,
                        Some(context) => message + ": could not "@ + context,
                    },
                ),
                ..self.head
            },
            ..self
        }
    }

    /// With a source code location.
    pub open spec fn location(self, location: Seq<char>) -> ErrorView {
        ErrorView { head: ClauseView { location: Some(location), ..self.head }, ..self }
    }

    /// Merged with another error, whose own chain follows it.
    pub open spec fn and(self, other: ErrorView) -> ErrorView {
        ErrorView { head: self.head, rest: self.rest.push(other.head) + other.rest }
    }
}

/// One error of a chain, as it stands in a message.
pub open spec fn clause_text(clause: ClauseView) -> Seq<char> {
    let said = match clause.context_message {
        Some(context) => "could not "@ + context + ": "@ + clause.error_message,
        None => clause.error_message,
    };
    match clause.location {
        Some(location) => said + " (at "@ + location + ")"@,
        None => said,
    }
}

/// The errors that came up during handling, as they follow in a message.
pub open spec fn rest_text(rest: Seq<ClauseView>) -> Seq<char> {
    if rest.len() == 0 {
        Seq::empty()
    } else {
        ". While handling error: "@ + joined(
            rest.map_values(|clause: ClauseView| clause_text(clause)),
            "; "@,
        )
    }
}

/// The ADBC error that the chain `error` of the driver `name` becomes.
pub open spec fn adbc_of(name: Seq<char>, error: ErrorView) -> AdbcErrorView {
    AdbcErrorView {
        message: "["@ + name + "] "@ + clause_text(error.head) + rest_text(error.rest),
        status: error.head.status,
        vendor_code: error.head.vendor_code,
        sqlstate: error.head.sqlstate,
        details: None,
    }
}

/// The ADBC error that an error of this driver becomes.
pub open spec fn adbc(error: ErrorView) -> AdbcErrorView {
    adbc_of("adbc_flightsql"@, error)
}

/// An error for a reader: status, driver, context, message, location and vendor code.
pub open spec fn display_view(name: Seq<char>, error: ErrorView) -> Seq<char> {
    let head = error.head;
    let opened = head.status.debug_view() + ": ["@ + name + "] "@;
    let told = match head.context_message {
        Some(context) => opened + "could not "@ + context + ": "@,
        None => opened,
    } + head.error_message;
    let placed = match head.location {
        Some(location) => told + ". Location: "@ + location,
        None => told,
    };
    if head.vendor_code != 0 {
        placed + ". Vendor code: "@ + decimal_int(head.vendor_code as int)
    } else {
        placed
    }
}

/// One error of a chain in a diagnostic message, up to the errors that follow it.
pub open spec fn clause_debug(clause: ClauseView) -> Seq<char> {
    "Error {\n  status: "@ + clause.status.debug_view() + ",\n  error_message: "@ + quoted(
        clause.error_message,
    ) + ",\n  context_message: "@ + (match clause.context_message {
        Some(context) => "Some("@ + quoted(context) + ")"@,
        None => "None"@,
    }) + ",\n  vendor_code: "@ + decimal_int(clause.vendor_code as int) + ",\n  sqlstate: "@
        + sqlstate_text(clause.sqlstate) + ",\n  rest: ["@
}

/// The errors that follow in a diagnostic message, each on lines of its own.
pub open spec fn rest_debug(rest: Seq<ClauseView>) -> Seq<char>
    decreases rest.len(),
{
    if rest.len() == 0 {
        Seq::empty()
    } else {
        rest_debug(rest.drop_last()) + "    "@ + clause_debug(rest.last()) + "],\n}"@ + ",\n"@
    }
}

/// An error in a diagnostic message.
pub open spec fn debug_view(error: ErrorView) -> Seq<char> {
    if error.rest.len() == 0 {
        clause_debug(error.head) + "],\n}"@
    } else {
        clause_debug(error.head) + "\n"@ + rest_debug(error.rest) + "],\n}"@
    }
}

/// A lightweight error that is built clause by clause.
#[derive(Debug)]
pub struct Error<E> {
    inner: Box<ErrorImpl>,
    rest: Vec<ErrorImpl>,
    marker: PhantomData<E>,
}

impl<E> View for Error<E> {
    type V = ErrorView;

    closed spec fn view(&self) -> ErrorView {
        ErrorView {
            head: self.inner@,
            rest: self.rest@.map_values(|e: ErrorImpl| e@),
        }
    }
}

impl Clone for ErrorImpl {
    fn clone(&self) -> (r: Self)
        ensures
            r@ == self@,
    {
        ErrorImpl {
            status: self.status,
            error_message: self.error_message.clone(),
            context_message: copy_opt(&self.context_message),
            location: copy_opt(&self.location),
            vendor_code: self.vendor_code,
            sqlstate: self.sqlstate,
        }
    }
}

impl<E> Clone for Error<E> {
    fn clone(&self) -> (r: Self)
        ensures
            r@ == self@,
    {
        let mut rest: Vec<ErrorImpl> = Vec::new();
        let mut i: usize = 0;
        while i < self.rest.len()
            invariant
                i <= self.rest.len(),
                rest@.map_values(|e: ErrorImpl| e@) == self@.rest.take(i as int),
            decreases self.rest.len() - i,
        {
            let ghost before = rest@;
            rest.push(self.rest[i].clone());
            proof {
                assert(rest@.map_values(|e: ErrorImpl| e@) == before.map_values(
                    |e: ErrorImpl| e@,
                ).push(self.rest@[i as int]@));
                assert(self@.rest.take(i + 1) == self@.rest.take(i as int).push(
                    self@.rest[i as int],
                ));
            }
            i += 1;
        }
        assert(self@.rest.take(self@.rest.len() as int) == self@.rest);
        Error { inner: Box::new((*self.inner).clone()), rest, marker: PhantomData }
    }
}

impl ErrorImpl {
    /// The error as it stands in a message.
    fn clause_text(&self) -> (r: String)
        ensures
            r@ == clause_text(self@),
    {
        let mut r = String::new();
        if let Some(context) = &self.context_message {
            r.append("could not ");
            r.append(context.as_str());
            r.append(": ");
        }
        r.append(self.error_message.as_str());
        if let Some(location) = &self.location {
            r.append(" (at ");
            r.append(location.as_str());
            r.append(")");
        }
        r
    }

    /// The error in a diagnostic message, up to the errors that follow it.
    fn clause_debug(&self) -> (r: String)
        ensures
            r@ == clause_debug(self@),
    {
        let mut r = "Error {\n  status: ".to_owned();
        r.append(self.status.debug_text().as_str());
        r.append(",\n  error_message: ");
        r.append(quote(self.error_message.as_str()).as_str());
        r.append(",\n  context_message: ");
        let context = match &self.context_message {
            Some(context) => "Some(".to_owned().concat(quote(context.as_str()).as_str()).concat(")"),
            None => "None".to_owned(),
        };
        r.append(context.as_str());
        r.append(",\n  vendor_code: ");
        r.append(i64_text(self.vendor_code as i64).as_str());
        r.append(",\n  sqlstate: ");
        r.append(show_sqlstate(&self.sqlstate).as_str());
        r.append(",\n  rest: [");
        r
    }
}

impl<E> Error<E> {
    /// The vendor-specific code of the error.
    pub fn get_vendor_code(&self) -> (r: i32)
        ensures
            r == self@.head.vendor_code,
    {
        self.inner.vendor_code
    }

    /// Adds a new clause to the error message.
    pub fn message(self, message: &str) -> (r: Self)
        ensures
            r@ == self@.message(message@),
    {
        let mut this = self;
        let mut text = String::new();
        if !this.inner.error_message.as_str().is_empty() {
            text.append(this.inner.error_message.as_str());
            text.append("; ");
        }
        text.append(message);
        assert(text@ == self@.message(message@).head.error_message);
        this.inner.error_message = text;
        assert(this@.rest == self@.rest);
        this
    }

    /// Adds a new clause to the context message.
    pub fn context(self, message: &str) -> (r: Self)
        ensures
            r@ == self@.context(message@),
    {
        let mut this = self;
        let text = match &this.inner.context_message {
            None => message.to_owned(),
            Some(context) => message.to_owned().concat(": could not ").concat(context.as_str()),
        };
        this.inner.context_message = Some(text);
        assert(this@.rest == self@.rest);
        this
    }

    /// Adds a source code location to the error.
    pub fn location(self, location: &str) -> (r: Self)
        ensures
            r@ == self@.location(location@),
    {
        let mut this = self;
        this.inner.location = Some(location.to_owned());
        assert(this@.rest == self@.rest);
        this
    }

    /// Adds a new clause, already formatted, to the error message.
    pub fn format(self, message: &str) -> (r: Self)
        ensures
            r@ == self@.message(message@),
    {
        self.message(message)
    }

    /// Adds a vendor-specific code to the error.
    pub fn vendor_code(self, code: i32) -> (r: Self)
        ensures
            r@ == (ErrorView { head: ClauseView { vendor_code: code, ..self@.head }, ..self@ }),
    {
        let mut this = self;
        this.inner.vendor_code = code;
        assert(this@.rest == self@.rest);
        this
    }

    /// Adds an ANSI SQL-style SQLSTATE code to the error.
    pub fn sqlstate(self, sqlstate: [i8; 5]) -> (r: Self)
        ensures
            r@ == (ErrorView { head: ClauseView { sqlstate: sqlstate@, ..self@.head }, ..self@ }),
    {
        let mut this = self;
        this.inner.sqlstate = sqlstate;
        assert(this@.rest == self@.rest);
        this
    }

    /// Merges two errors.
    pub fn and(self, other: Error<E>) -> (r: Self)
        ensures
            r@ == self@.and(other@),
    {
        let mut this = self;
        let Error { inner: other_inner, rest: other_rest, marker: _ } = other;
        let mut other_rest = other_rest;
        this.rest.push(*other_inner);
        this.rest.append(&mut other_rest);
        assert(this@.rest == self@.rest.push(other@.head) + other@.rest);
        this
    }

    /// Merges this error with the error of an operation, if that operation fails.
    pub fn and_also<T, F: FnOnce() -> Result<T, Error<E>>>(self, other: F) -> (r: Self)
        requires
            other.requires(()),
        ensures
            exists|outcome: Result<T, Error<E>>| #[trigger]
                other.ensures((), outcome) && r@ == (match outcome {
                    Ok(_) => self@,
                    Err(e) => self@.and(e@),
                }),
    {
        let outcome = other();
        match outcome {
            Ok(_) => self,
            Err(e) => self.and(e),
        }
    }

    /// The error in a diagnostic message.
    pub fn debug_text(&self) -> (r: String)
        ensures
            r@ == debug_view(self@),
    {
        let mut r = self.inner.clause_debug();
        if self.rest.len() > 0 {
            r.append("\n");
            let ghost opened = r@;
            let mut listed = String::new();
            let mut i: usize = 0;
            while i < self.rest.len()
                invariant
                    i <= self.rest.len(),
                    listed@ == rest_debug(self@.rest.take(i as int)),
                decreases self.rest.len() - i,
            {
                proof {
                    let shown = self@.rest.take(i + 1);
                    assert(shown.drop_last() == self@.rest.take(i as int));
                    assert(shown.last() == self.rest@[i as int]@);
                }
                listed.append("    ");
                listed.append(self.rest[i].clause_debug().as_str());
                listed.append("],\n}");
                listed.append(",\n");
                i += 1;
            }
            assert(self@.rest.take(self@.rest.len() as int) == self@.rest);
            r.append(listed.as_str());
        }
        r.append("],\n}");
        r
    }
}

impl<E: ErrorHelper> Error<E> {
    /// The error as ADBC reports it.
    pub fn to_adbc(self) -> (r: AdbcError)
        ensures
            r@ == adbc_of(E::name_view(), self@),
    {
        let mut message = "[".to_owned();
        message.append(E::name());
        message.append("] ");
        message.append(self.inner.clause_text().as_str());
        if self.rest.len() > 0 {
            message.append(". While handling error: ");
            let ghost texts = self@.rest.map_values(|clause: ClauseView| clause_text(clause));
            let mut listed = String::new();
            let mut i: usize = 0;
            while i < self.rest.len()
                invariant
                    i <= self.rest.len(),
                    texts == self@.rest.map_values(|clause: ClauseView| clause_text(clause)),
                    listed@ == joined(texts.take(i as int), "; "@),
                decreases self.rest.len() - i,
            {
                proof {
                    assert(texts.take(i + 1).drop_last() == texts.take(i as int));
                    assert(texts.take(i + 1).last() == clause_text(self.rest@[i as int]@));
                }
                if i > 0 {
                    listed.append("; ");
                }
                listed.append(self.rest[i].clause_text().as_str());
                i += 1;
            }
            assert(texts.take(texts.len() as int) == texts);
            let ghost opened = "["@ + E::name_view() + "] "@ + clause_text(self@.head);
            message.append(listed.as_str());
            assert(message@ == opened + rest_text(self@.rest));
        } else {
            assert(message@ + rest_text(self@.rest) == message@);
        }
        AdbcError {
            message,
            status: self.inner.status,
            vendor_code: self.inner.vendor_code,
            sqlstate: self.inner.sqlstate,
            details: None,
        }
    }

    /// The error for a reader.
    pub fn display_text(&self) -> (r: String)
        ensures
            r@ == display_view(E::name_view(), self@),
    {
        let mut r = self.inner.status.debug_text();
        r.append(": [");
        r.append(E::name());
        r.append("] ");
        if let Some(context) = &self.inner.context_message {
            r.append("could not ");
            r.append(context.as_str());
            r.append(": ");
        }
        r.append(self.inner.error_message.as_str());
        if let Some(location) = &self.inner.location {
            r.append(". Location: ");
            r.append(location.as_str());
        }
        if self.inner.vendor_code != 0 {
            r.append(". Vendor code: ");
            r.append(i64_text(self.inner.vendor_code as i64).as_str());
        }
        r
    }
}

/// The error for a value that an option does not take.
pub open spec fn invalid_option(key: Seq<char>, value: OptionValue) -> ErrorView {
    bare(Status::InvalidArguments).context(
        "invalid option "@ + key + "="@ + value.debug_view(),
    )
}

/// The error for an option that cannot be set.
pub open spec fn unsettable_option(key: Seq<char>) -> ErrorView {
    bare(Status::NotImplemented).message("unknown option "@ + key)
}

/// The integer that an option value gives.
pub open spec fn int_option(value: OptionValue) -> Option<i64> {
    match value {
        OptionValue::String(s) => i64_of(s@),
        OptionValue::Int(i) => Some(i),
        _ => None,
    }
}

/// The truth value that an option value gives.
pub open spec fn bool_option(value: OptionValue) -> Option<bool> {
    match value {
        OptionValue::String(s) if s@ == "true"@ => Some(true),
        OptionValue::String(s) if s@ == "false"@ => Some(false),
        _ => None,
    }
}

/// The error for a value that gives no truth value.
pub open spec fn not_bool(key: Seq<char>, value: OptionValue) -> ErrorView {
    invalid_option(key, value).message(
        match value {
            OptionValue::String(_) => "must be 'true' or 'false'"@,
            _ => "must be a string"@,
        },
    )
}

/// A factory for errors with consistent formatting and messaging.
pub trait ErrorHelper: Clone + Send + Sync + Sized + 'static {
    /// The name of the driver.
    spec fn name_view() -> Seq<char>;

    /// The name of the driver.
    fn name() -> (r: &'static str)
        ensures
            r@ == Self::name_view(),
    ;

    /// Error for when a user requests an unknown option.
    fn get_unknown_option<K: DebugText>(key: &K) -> (r: Error<Self>)
        ensures
            r@ == bare(Status::NotFound).message("unknown option "@ + key.debug_view()),
    {
        Self::not_found().format("unknown option ".to_owned().concat(key.debug_text().as_str()).as_str())
    }

    /// Error for when a user sets an option to an invalid value.
    fn set_invalid_option<K: DebugText>(key: &K, value: &OptionValue) -> (r: Error<Self>)
        ensures
            r@ == invalid_option(key.debug_view(), *value),
    {
        let mut text = "invalid option ".to_owned();
        text.append(key.debug_text().as_str());
        text.append("=");
        text.append(value.debug_text().as_str());
        Self::invalid_argument().context(text.as_str())
    }

    /// Error for when a user sets an unknown option.
    fn set_unknown_option<K: DebugText>(key: &K) -> (r: Error<Self>)
        ensures
            r@ == unsettable_option(key.debug_view()),
    {
        Self::not_implemented().format(
            "unknown option ".to_owned().concat(key.debug_text().as_str()).as_str(),
        )
    }

    /// Unwraps an option value as an integer.
    fn option_as_int<K: DebugText>(key: &K, value: &OptionValue) -> (r: Result<i64, Error<Self>>)
        ensures
            match int_option(*value) {
                Some(i) => r == Ok::<i64, Error<Self>>(i),
                None => r matches Err(e) && e@ == invalid_option(key.debug_view(), *value).message(
                    "must be an integer"@,
                ),
            },
    {
        let number = match value {
            OptionValue::String(s) => parse_i64(s.as_str()),
            OptionValue::Int(i) => Some(*i),
            _ => None,
        };
        match number {
            Some(i) => Ok(i),
            None => Err(Self::set_invalid_option(key, value).message("must be an integer")),
        }
    }

    /// Unwraps an option value as a string.
    fn option_as_string<K: DebugText>(key: &K, value: &OptionValue) -> (r: Result<
        String,
        Error<Self>,
    >)
        ensures
            match *value {
                OptionValue::String(s) => r matches Ok(t) && t@ == s@,
                _ => r matches Err(e) && e@ == invalid_option(key.debug_view(), *value).message(
                    "must be a string"@,
                ),
            },
    {
        match value {
            OptionValue::String(s) => Ok(s.clone()),
            _ => Err(Self::set_invalid_option(key, value).message("must be a string")),
        }
    }

    /// Unwraps an option value as a truth value.
    fn option_as_bool<K: DebugText>(key: &K, value: &OptionValue) -> (r: Result<bool, Error<Self>>)
        ensures
            match bool_option(*value) {
                Some(b) => r == Ok::<bool, Error<Self>>(b),
                None => r matches Err(e) && e@ == not_bool(key.debug_view(), *value),
            },
    {
        match value {
            OptionValue::String(s) => {
                if same_text(s.as_str(), "true") {
                    Ok(true)
                } else if same_text(s.as_str(), "false") {
                    proof {
                        reveal_strlit("true");
                        reveal_strlit("false");
                    }
                    Ok(false)
                } else {
                    Err(Self::set_invalid_option(key, value).message("must be 'true' or 'false'"))
                }
            },
            _ => Err(Self::set_invalid_option(key, value).message("must be a string")),
        }
    }

    /// An error with the given status and no message.
    fn status(status: Status) -> (r: Error<Self>)
        ensures
            r@ == bare(status),
    {
        let r = Error {
            inner: Box::new(
                ErrorImpl {
                    status,
                    error_message: String::new(),
                    context_message: None,
                    location: None,
                    vendor_code: 0,
                    sqlstate: [0, 0, 0, 0, 0],
                },
            ),
            rest: Vec::new(),
            marker: PhantomData,
        };
        assert(r@ == bare(status));
        r
    }

    fn already_exists() -> (r: Error<Self>)
        ensures
            r@ == bare(Status::AlreadyExists),
    {
        Self::status(Status::AlreadyExists)
    }

    fn cancelled() -> (r: Error<Self>)
        ensures
            r@ == bare(Status::Cancelled),
    {
        Self::status(Status::Cancelled)
    }

    fn integrity() -> (r: Error<Self>)
        ensures
            r@ == bare(Status::Integrity),
    {
        Self::status(Status::Integrity)
    }

    fn internal(location: &str) -> (r: Error<Self>)
        ensures
            r@ == bare(Status::Internal).location(location@),
    {
        Self::status(Status::Internal).location(location)
    }

    fn internal_no_location() -> (r: Error<Self>)
        ensures
            r@ == bare(Status::Internal),
    {
        Self::status(Status::Internal)
    }

    fn invalid_argument() -> (r: Error<Self>)
        ensures
            r@ == bare(Status::InvalidArguments),
    {
        Self::status(Status::InvalidArguments)
    }

    fn invalid_data() -> (r: Error<Self>)
        ensures
            r@ == bare(Status::InvalidData),
    {
        Self::status(Status::InvalidData)
    }

    fn invalid_state() -> (r: Error<Self>)
        ensures
            r@ == bare(Status::InvalidState),
    {
        Self::status(Status::InvalidState)
    }

    fn io() -> (r: Error<Self>)
        ensures
            r@ == bare(Status::IO),
    {
        Self::status(Status::IO)
    }

    fn not_found() -> (r: Error<Self>)
        ensures
            r@ == bare(Status::NotFound),
    {
        Self::status(Status::NotFound)
    }

    fn not_implemented() -> (r: Error<Self>)
        ensures
            r@ == bare(Status::NotImplemented),
    {
        Self::status(Status::NotImplemented)
    }

    fn timeout() -> (r: Error<Self>)
        ensures
            r@ == bare(Status::Timeout),
    {
        Self::status(Status::Timeout)
    }

    fn unauthenticated() -> (r: Error<Self>)
        ensures
            r@ == bare(Status::Unauthenticated),
    {
        Self::status(Status::Unauthenticated)
    }

    fn unauthorized() -> (r: Error<Self>)
        ensures
            r@ == bare(Status::Unauthorized),
    {
        Self::status(Status::Unauthorized)
    }

    fn unknown() -> (r: Error<Self>)
        ensures
            r@ == bare(Status::Unknown),
    {
        Self::status(Status::Unknown)
    }

    /// Boxes an ADBC error as an Arrow error.
    fn to_arrow(err: AdbcError) -> (r: ArrowError)
        ensures
            r matches ArrowError::ExternalError(text) && text@ == adbc_display(err@),
    {
        ArrowError::ExternalError(err.display_text())
    }

    /// Converts an Arrow error into this error, mapping the status appropriately.
    fn from_arrow(err: ArrowError) -> (r: Error<Self>)
        ensures
            r@ == arrow_view(err),
    {
        match err {
            ArrowError::NotYetImplemented(msg) => Self::not_implemented().format(msg.as_str()),
            ArrowError::ExternalError(error) => Self::unknown().format(error.as_str()),
            ArrowError::CastError(msg) => Self::internal_no_location().format(
                "cast error: ".to_owned().concat(msg.as_str()).as_str(),
            ),
            ArrowError::MemoryError(msg) => Self::internal_no_location().format(
                "memory error: ".to_owned().concat(msg.as_str()).as_str(),
            ),
            ArrowError::ParseError(msg) => Self::internal_no_location().format(
                "parse error: ".to_owned().concat(msg.as_str()).as_str(),
            ),
            ArrowError::SchemaError(msg) => Self::internal_no_location().format(
                "schema error: ".to_owned().concat(msg.as_str()).as_str(),
            ),
            ArrowError::ComputeError(msg) => Self::internal_no_location().format(
                "compute error: ".to_owned().concat(msg.as_str()).as_str(),
            ),
            ArrowError::DivideByZero => Self::invalid_data().format("divide by zero"),
            ArrowError::ArithmeticOverflow(msg) => Self::invalid_data().format(
                "arithmetic overflow: ".to_owned().concat(msg.as_str()).as_str(),
            ),
            ArrowError::CsvError(msg) => Self::invalid_argument().format(
                "CSV error: ".to_owned().concat(msg.as_str()).as_str(),
            ),
            ArrowError::JsonError(msg) => Self::invalid_argument().format(
                "JSON error: ".to_owned().concat(msg.as_str()).as_str(),
            ),
            ArrowError::IoError(msg, error) => Self::io().format(
                "I/O error: ".to_owned().concat(msg.as_str()).concat(": ").concat(
                    error.as_str(),
                ).as_str(),
            ),
            ArrowError::IpcError(msg) => Self::io().format(
                "IPC error: ".to_owned().concat(msg.as_str()).as_str(),
            ),
            ArrowError::InvalidArgumentError(msg) => Self::invalid_argument().message(msg.as_str()),
            ArrowError::ParquetError(msg) => Self::io().format(
                "Parquet error: ".to_owned().concat(msg.as_str()).as_str(),
            ),
            ArrowError::CDataInterface(msg) => Self::io().format(
                "C Data interface error: ".to_owned().concat(msg.as_str()).as_str(),
            ),
            ArrowError::DictionaryKeyOverflowError => Self::invalid_data().message(
                "dictionary key overflowed",
            ),
            ArrowError::RunEndIndexOverflowError => Self::invalid_data().message(
                "run end index overflowed",
            ),
            ArrowError::OffsetOverflowError(size) => Self::invalid_data().format(
                "offset overflowed at size ".to_owned().concat(
                    u64_text(size as u64).as_str(),
                ).as_str(),
            ),
            ArrowError::AvroError(err) => Self::io().format(
                "Avro error: ".to_owned().concat(err.as_str()).as_str(),
            ),
        }
    }

    /// Merges a list of errors into a single error.
    fn from_all(errors: Vec<Error<Self>>) -> (r: Option<Error<Self>>)
        ensures
            errors@.len() == 0 ==> r is None,
            errors@.len() > 0 ==> (r matches Some(e) && e@ == all_merged(
                errors@.map_values(|e: Error<Self>| e@),
            )),
    {
        let ghost all = errors@.map_values(|e: Error<Self>| e@);
        let mut merged: Option<Error<Self>> = None;
        for e in it: errors
            invariant
                all == errors@.map_values(|e: Error<Self>| e@),
                it.seq() == errors@,
                it.index() == 0 ==> merged is None,
                it.index() > 0 ==> (merged matches Some(m) && m@ == all_merged(
                    all.take(it.index() as int),
                )),
        {
            proof {
                let shown = all.take(it.index() + 1);
                assert(shown.drop_last() == all.take(it.index() as int));
                assert(shown.last() == e@);
            }
            merged = match merged {
                None => Some(e),
                Some(m) => Some(m.and(e)),
            };
        }
        assert(all.take(all.len() as int) == all);
        merged
    }
}

/// A list of errors merged from the first to the last.
pub open spec fn all_merged(errors: Seq<ErrorView>) -> ErrorView
    decreases errors.len(),
{
    if errors.len() <= 1 {
        errors[0]
    } else {
        all_merged(errors.drop_last()).and(errors.last())
    }
}

/// An error of the Arrow library. Where such an error wraps another one, this holds the text of
/// the wrapped error.
#[derive(Clone, Debug)]
pub enum ArrowError {
    NotYetImplemented(String),
    ExternalError(String),
    CastError(String),
    MemoryError(String),
    ParseError(String),
    SchemaError(String),
    ComputeError(String),
    DivideByZero,
    ArithmeticOverflow(String),
    CsvError(String),
    JsonError(String),
    AvroError(String),
    IoError(String, String),
    IpcError(String),
    InvalidArgumentError(String),
    ParquetError(String),
    CDataInterface(String),
    DictionaryKeyOverflowError,
    RunEndIndexOverflowError,
    OffsetOverflowError(usize),
}

/// The error of the driver that an Arrow error becomes.
pub open spec fn arrow_view(err: ArrowError) -> ErrorView {
    match err {
        ArrowError::NotYetImplemented(msg) => bare(Status::NotImplemented).message(msg@),
        ArrowError::ExternalError(error) => bare(Status::Unknown).message(error@),
        ArrowError::CastError(msg) => bare(Status::Internal).message("cast error: "@ + msg@),
        ArrowError::MemoryError(msg) => bare(Status::Internal).message("memory error: "@ + msg@),
        ArrowError::ParseError(msg) => bare(Status::Internal).message("parse error: "@ + msg@),
        ArrowError::SchemaError(msg) => bare(Status::Internal).message("schema error: "@ + msg@),
        ArrowError::ComputeError(msg) => bare(Status::Internal).message("compute error: "@ + msg@),
        ArrowError::DivideByZero => bare(Status::InvalidData).message("divide by zero"@),
        ArrowError::ArithmeticOverflow(msg) => bare(Status::InvalidData).message(
            "arithmetic overflow: "@ + msg@,
        ),
        ArrowError::CsvError(msg) => bare(Status::InvalidArguments).message("CSV error: "@ + msg@),
        ArrowError::JsonError(msg) => bare(Status::InvalidArguments).message(
            "JSON error: "@ + msg@,
        ),
        ArrowError::AvroError(msg) => bare(Status::IO).message("Avro error: "@ + msg@),
        ArrowError::IoError(msg, error) => bare(Status::IO).message(
            "I/O error: "@ + msg@ + ": "@ + error@,
        ),
        ArrowError::IpcError(msg) => bare(Status::IO).message("IPC error: "@ + msg@),
        ArrowError::InvalidArgumentError(msg) => bare(Status::InvalidArguments).message(msg@),
        ArrowError::ParquetError(msg) => bare(Status::IO).message("Parquet error: "@ + msg@),
        ArrowError::CDataInterface(msg) => bare(Status::IO).message(
            "C Data interface error: "@ + msg@,
        ),
        ArrowError::DictionaryKeyOverflowError => bare(Status::InvalidData).message(
            "dictionary key overflowed"@,
        ),
        ArrowError::RunEndIndexOverflowError => bare(Status::InvalidData).message(
            "run end index overflowed"@,
        ),
        ArrowError::OffsetOverflowError(size) => bare(Status::InvalidData).message(
            "offset overflowed at size "@ + decimal(size as nat),
        ),
    }
}

/// The error helper of the Flight SQL driver.
#[derive(Clone, Debug)]
pub struct FlightSqlErrorHelper;

impl ErrorHelper for FlightSqlErrorHelper {
    open spec fn name_view() -> Seq<char> {
        "adbc_flightsql"@
    }

    fn name() -> (r: &'static str) {
        "adbc_flightsql"
    }
}

/// The status code of a gRPC call.
#[derive(Clone, Copy, Debug, PartialEq, Eq, Structural)]
pub enum Code {
    Okay,
    Cancelled,
    Unknown,
    InvalidArgument,
    DeadlineExceeded,
    NotFound,
    AlreadyExists,
    PermissionDenied,
    ResourceExhausted,
    FailedPrecondition,
    Aborted,
    OutOfRange,
    Unimplemented,
    Internal,
    Unavailable,
    DataLoss,
    Unauthenticated,
}

impl Code {
    /// The number of the code on the wire.
    pub open spec fn number_view(self) -> i32 {
        match self {
            Code::Okay => 0,
            Code::Cancelled => 1,
            Code::Unknown => 2,
            Code::InvalidArgument => 3,
            Code::DeadlineExceeded => 4,
            Code::NotFound => 5,
            Code::AlreadyExists => 6,
            Code::PermissionDenied => 7,
            Code::ResourceExhausted => 8,
            Code::FailedPrecondition => 9,
            Code::Aborted => 10,
            Code::OutOfRange => 11,
            Code::Unimplemented => 12,
            Code::Internal => 13,
            Code::Unavailable => 14,
            Code::DataLoss => 15,
            Code::Unauthenticated => 16,
        }
    }

    /// The number of the code on the wire.
    pub fn number(self) -> (r: i32)
        ensures
            r == self.number_view(),
    {
        match self {
            Code::Okay => 0,
            Code::Cancelled => 1,
            Code::Unknown => 2,
            Code::InvalidArgument => 3,
            Code::DeadlineExceeded => 4,
            Code::NotFound => 5,
            Code::AlreadyExists => 6,
            Code::PermissionDenied => 7,
            Code::ResourceExhausted => 8,
            Code::FailedPrecondition => 9,
            Code::Aborted => 10,
            Code::OutOfRange => 11,
            Code::Unimplemented => 12,
            Code::Internal => 13,
            Code::Unavailable => 14,
            Code::DataLoss => 15,
            Code::Unauthenticated => 16,
        }
    }

    /// The name of the code in gRPC.
    pub open spec fn name_view(self) -> Seq<char> {
        match self {
            Code::Okay => "Ok"@,
            Code::Cancelled => "Cancelled"@,
            Code::Unknown => "Unknown"@,
            Code::InvalidArgument => "InvalidArgument"@,
            Code::DeadlineExceeded => "DeadlineExceeded"@,
            Code::NotFound => "NotFound"@,
            Code::AlreadyExists => "AlreadyExists"@,
            Code::PermissionDenied => "PermissionDenied"@,
            Code::ResourceExhausted => "ResourceExhausted"@,
            Code::FailedPrecondition => "FailedPrecondition"@,
            Code::Aborted => "Aborted"@,
            Code::OutOfRange => "OutOfRange"@,
            Code::Unimplemented => "Unimplemented"@,
            Code::Internal => "Internal"@,
            Code::Unavailable => "Unavailable"@,
            Code::DataLoss => "DataLoss"@,
            Code::Unauthenticated => "Unauthenticated"@,
        }
    }

    /// The name of the code in gRPC.
    pub fn name(self) -> (r: &'static str)
        ensures
            r@ == self.name_view(),
    {
        match self {
            Code::Okay => "Ok",
            Code::Cancelled => "Cancelled",
            Code::Unknown => "Unknown",
            Code::InvalidArgument => "InvalidArgument",
            Code::DeadlineExceeded => "DeadlineExceeded",
            Code::NotFound => "NotFound",
            Code::AlreadyExists => "AlreadyExists",
            Code::PermissionDenied => "PermissionDenied",
            Code::ResourceExhausted => "ResourceExhausted",
            Code::FailedPrecondition => "FailedPrecondition",
            Code::Aborted => "Aborted",
            Code::OutOfRange => "OutOfRange",
            Code::Unimplemented => "Unimplemented",
            Code::Internal => "Internal",
            Code::Unavailable => "Unavailable",
            Code::DataLoss => "DataLoss",
            Code::Unauthenticated => "Unauthenticated",
        }
    }
}

/// The ADBC status of a gRPC code.
pub open spec fn adbc_status(code: Code) -> Status {
    match code {
        Code::Okay => Status::Okay,
        Code::Cancelled => Status::Cancelled,
        Code::InvalidArgument => Status::InvalidArguments,
        Code::DeadlineExceeded => Status::Timeout,
        Code::NotFound => Status::NotFound,
        Code::AlreadyExists => Status::AlreadyExists,
        Code::PermissionDenied => Status::Unauthorized,
        Code::Unimplemented => Status::NotImplemented,
        Code::Unauthenticated => Status::Unauthenticated,
        Code::ResourceExhausted | Code::Internal => Status::Internal,
        Code::Unavailable | Code::DataLoss => Status::IO,
        Code::Unknown | Code::FailedPrecondition | Code::Aborted
        | Code::OutOfRange => Status::Unknown,
    }
}

/// Maps a gRPC code to an ADBC status.
///
/// Three mappings are not obvious: `PermissionDenied` is a failure of authorization and becomes
/// `Unauthorized`; `Unavailable` and `DataLoss` come from the network and become `IO`.
pub fn grpc_code_to_adbc_status(code: Code) -> (r: Status)
    ensures
        r == adbc_status(code),
{
    match code {
        Code::Okay => Status::Okay,
        Code::Cancelled => Status::Cancelled,
        Code::Unknown => Status::Unknown,
        Code::InvalidArgument => Status::InvalidArguments,
        Code::DeadlineExceeded => Status::Timeout,
        Code::NotFound => Status::NotFound,
        Code::AlreadyExists => Status::AlreadyExists,
        Code::PermissionDenied => Status::Unauthorized,
        Code::ResourceExhausted => Status::Internal,
        Code::FailedPrecondition => Status::Unknown,
        Code::Aborted => Status::Unknown,
        Code::OutOfRange => Status::Unknown,
        Code::Unimplemented => Status::NotImplemented,
        Code::Internal => Status::Internal,
        Code::Unavailable => Status::IO,
        Code::DataLoss => Status::IO,
        Code::Unauthenticated => Status::Unauthenticated,
    }
}

/// An error of a Flight call. `text` is the whole error in a message for a reader.
#[derive(Clone, Debug)]
pub enum FlightError {
    /// An error of the Arrow library underneath.
    Arrow { error: ArrowError, text: String },
    /// The status that a gRPC call ended with.
    Tonic { code: Code, message: String, text: String },
    /// Any other error: of the protocol, of decoding, of something outside.
    Other { text: String },
}

/// The ADBC error that an error of a Flight call becomes while doing `context`.
pub open spec fn flight_view(err: FlightError, context: Seq<char>) -> AdbcErrorView {
    match err {
        FlightError::Tonic { code, message, .. } => AdbcErrorView {
            message: "[FlightSQL] "@ + message@ + " (gRPC "@ + code.name_view() + "; "@ + context + ")"@,
            status: adbc_status(code),
            vendor_code: code.number_view(),
            sqlstate: no_sqlstate(),
            details: None,
        },
        FlightError::Arrow { text, .. } => adbc(bare(Status::IO).message(text@).context(context)),
        FlightError::Other { text } => adbc(bare(Status::IO).message(text@).context(context)),
    }
}

/// Maps an error of a Flight call to an ADBC error.
///
/// A gRPC status keeps its message and the name and number of its code, and has the ADBC status of
/// the code. Every other error becomes `IO`.
pub fn map_flight_error(err: FlightError, context: &str) -> (r: AdbcError)
    ensures
        r@ == flight_view(err, context@),
{
    match err {
        FlightError::Tonic { code, message, .. } => {
            let mut text = "[FlightSQL] ".to_owned();
            text.append(message.as_str());
            text.append(" (gRPC ");
            text.append(code.name());
            text.append("; ");
            text.append(context);
            text.append(")");
            AdbcError {
                message: text,
                status: grpc_code_to_adbc_status(code),
                vendor_code: code.number(),
                sqlstate: [0, 0, 0, 0, 0],
                details: None,
            }
        },
        FlightError::Arrow { text, .. } => FlightSqlErrorHelper::io().message(
            text.as_str(),
        ).context(context).to_adbc(),
        FlightError::Other { text } => FlightSqlErrorHelper::io().message(text.as_str()).context(
            context,
        ).to_adbc(),
    }
}

/// Merging is associative: a chain of errors does not depend on how it was put together.
pub proof fn law_and_is_associative(a: ErrorView, b: ErrorView, c: ErrorView)
    ensures
        a.and(b).and(c) == a.and(b.and(c)),
{
    assert(a.and(b).and(c).rest == a.and(b.and(c)).rest);
}

/// Merging keeps the status, the codes and the message of the first error, so what ADBC reports
/// of a chain begins with the report of its first error.
pub proof fn law_and_keeps_the_first(name: Seq<char>, a: ErrorView, b: ErrorView)
    ensures
        adbc_of(name, a.and(b)).status == adbc_of(name, a).status,
        adbc_of(name, a.and(b)).vendor_code == adbc_of(name, a).vendor_code,
        adbc_of(name, a.and(b)).sqlstate == adbc_of(name, a).sqlstate,
        adbc_of(name, a.and(b)).message == adbc_of(name, ErrorView { rest: Seq::empty(), ..a }).message
            + rest_text(a.and(b).rest),
{
    assert(adbc_of(name, ErrorView { rest: Seq::empty(), ..a }).message == "["@ + name + "] "@
        + clause_text(a.head));
}

} // verus!
