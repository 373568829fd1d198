//! Laws of errors: what becomes of an error of a call, of an Arrow error and of an error of the
//! driver on its way to the user.

use vstd::prelude::*;

use crate::error::{
    clause_text, grpc_code_to_adbc_status, map_flight_error, rest_debug, AdbcError, ArrowError,
    ClauseView, Code, Error, ErrorHelper, FlightError, FlightSqlErrorHelper, Status,
};
use crate::laws::{tells, tells_of};
use crate::options::DebugText;
use crate::text::{decimal, decimal_int, quoted};

verus! {

/// A gRPC code has the ADBC status of its meaning: failures of the network are those of input and
/// output, a denied permission is one of authorization, an exceeded deadline a timeout, and what
/// has no counterpart is unknown.
pub proof fn law_codes_have_their_statuses(code: Code, r: Status)
    requires
        call_ensures(grpc_code_to_adbc_status, (code,), r),
    ensures
        r is Okay <==> code is Okay,
        r is Cancelled <==> code is Cancelled,
        r is InvalidArguments <==> code is InvalidArgument,
        r is Timeout <==> code is DeadlineExceeded,
        r is NotFound <==> code is NotFound,
        r is AlreadyExists <==> code is AlreadyExists,
        r is Unauthorized <==> code is PermissionDenied,
        r is NotImplemented <==> code is Unimplemented,
        r is Unauthenticated <==> code is Unauthenticated,
        r is Internal <==> code is ResourceExhausted || code is Internal,
        r is IO <==> code is Unavailable || code is DataLoss,
        r is Unknown <==> code is Unknown || code is FailedPrecondition || code is Aborted
            || code is OutOfRange,
{
}

/// Codes are told apart by their numbers, which are those of gRPC.
pub proof fn law_codes_have_their_numbers(code: Code, number: i32, other: Code, other_number: i32)
    requires
        call_ensures(Code::number, (code,), number),
        call_ensures(Code::number, (other,), other_number),
    ensures
        0 <= number <= 16,
        number == other_number <==> code == other,
        code is Okay <==> number == 0,
        code is Cancelled <==> number == 1,
        code is Unknown <==> number == 2,
        code is InvalidArgument <==> number == 3,
        code is DeadlineExceeded <==> number == 4,
        code is NotFound <==> number == 5,
        code is AlreadyExists <==> number == 6,
        code is PermissionDenied <==> number == 7,
        code is ResourceExhausted <==> number == 8,
        code is FailedPrecondition <==> number == 9,
        code is Aborted <==> number == 10,
        code is OutOfRange <==> number == 11,
        code is Unimplemented <==> number == 12,
        code is Internal <==> number == 13,
        code is Unavailable <==> number == 14,
        code is DataLoss <==> number == 15,
        code is Unauthenticated <==> number == 16,
{
}

/// A failed gRPC call is reported with its own message, the name of its code and what was being
/// done, under the status and the number of its code. Every other failure is one of input and
/// output, with its whole text.
pub proof fn law_failed_call_is_reported(
    error: FlightError,
    task: &str,
    r: AdbcError,
    code: Code,
    status: Status,
    number: i32,
    name: &'static str,
)
    requires
        call_ensures(map_flight_error, (error, task), r),
        call_ensures(grpc_code_to_adbc_status, (code,), status),
        call_ensures(Code::number, (code,), number),
        call_ensures(Code::name, (code,), name),
    ensures
        error matches FlightError::Tonic { code: c, message, .. } ==> c == code ==> {
            &&& r.status == status
            &&& r.vendor_code == number
            &&& r.message@ == "[FlightSQL] "@ + message@ + " (gRPC "@ + name@ + "; "@ + task@
                + ")"@
            &&& r.sqlstate@ == seq![0i8, 0i8, 0i8, 0i8, 0i8]
            &&& r.details is None
        },
        error matches FlightError::Arrow { text, .. } ==> tells_of(r, Status::IO, task@, text@),
        error matches FlightError::Other { text } ==> tells_of(r, Status::IO, task@, text@),
{
}

/// An error is reported with its status, its message, what could not be done, its vendor code and
/// its SQLSTATE, each as it was given.
pub proof fn law_error_is_reported_as_it_was_made(
    status: Status,
    fresh: Error<FlightSqlErrorHelper>,
    message: &str,
    said: Error<FlightSqlErrorHelper>,
    task: &str,
    placed: Error<FlightSqlErrorHelper>,
    code: i32,
    coded: Error<FlightSqlErrorHelper>,
    sqlstate: [i8; 5],
    full: Error<FlightSqlErrorHelper>,
    r: AdbcError,
    plain: AdbcError,
)
    requires
        call_ensures(FlightSqlErrorHelper::status, (status,), fresh),
        call_ensures(Error::<FlightSqlErrorHelper>::message, (fresh, message), said),
        call_ensures(Error::<FlightSqlErrorHelper>::to_adbc, (said,), plain),
        call_ensures(Error::<FlightSqlErrorHelper>::context, (said, task), placed),
        call_ensures(Error::<FlightSqlErrorHelper>::vendor_code, (placed, code), coded),
        call_ensures(Error::<FlightSqlErrorHelper>::sqlstate, (coded, sqlstate), full),
        call_ensures(Error::<FlightSqlErrorHelper>::to_adbc, (full,), r),
    ensures
        tells(plain, status, message@),
        r.status == status,
        r.message@ == "["@ + "adbc_flightsql"@ + "] "@ + ("could not "@ + task@ + ": "@
            + message@),
        r.vendor_code == code,
        r.sqlstate@ == sqlstate@,
        r.details is None,
{
}

/// Clauses of a message follow each other after a semicolon; what could not be done last stands
/// before what could not be done first.
pub proof fn law_clauses_are_added(
    status: Status,
    fresh: Error<FlightSqlErrorHelper>,
    one: &str,
    a: Error<FlightSqlErrorHelper>,
    two: &str,
    b: Error<FlightSqlErrorHelper>,
    inner: &str,
    c: Error<FlightSqlErrorHelper>,
    outer: &str,
    d: Error<FlightSqlErrorHelper>,
    r: AdbcError,
)
    requires
        one@.len() > 0,
        call_ensures(FlightSqlErrorHelper::status, (status,), fresh),
        call_ensures(Error::<FlightSqlErrorHelper>::message, (fresh, one), a),
        call_ensures(Error::<FlightSqlErrorHelper>::format, (a, two), b),
        call_ensures(Error::<FlightSqlErrorHelper>::context, (b, inner), c),
        call_ensures(Error::<FlightSqlErrorHelper>::context, (c, outer), d),
        call_ensures(Error::<FlightSqlErrorHelper>::to_adbc, (d,), r),
    ensures
        tells_of(
            r,
            status,
            outer@ + ": could not "@ + inner@,
            one@ + "; "@ + two@,
        ),
{
}

/// An error that came up while another was handled follows it in the report, after what the first
/// one says; the status and the codes are those of the first.
pub proof fn law_second_error_follows_the_first(
    status: Status,
    fresh: Error<FlightSqlErrorHelper>,
    one: &str,
    first: Error<FlightSqlErrorHelper>,
    other: Status,
    other_fresh: Error<FlightSqlErrorHelper>,
    two: &str,
    second: Error<FlightSqlErrorHelper>,
    both: Error<FlightSqlErrorHelper>,
    r: AdbcError,
)
    requires
        call_ensures(FlightSqlErrorHelper::status, (status,), fresh),
        call_ensures(Error::<FlightSqlErrorHelper>::message, (fresh, one), first),
        call_ensures(FlightSqlErrorHelper::status, (other,), other_fresh),
        call_ensures(Error::<FlightSqlErrorHelper>::message, (other_fresh, two), second),
        call_ensures(Error::<FlightSqlErrorHelper>::and, (first, second), both),
        call_ensures(Error::<FlightSqlErrorHelper>::to_adbc, (both,), r),
    ensures
        r.status == status,
        r.vendor_code == 0,
        r.message@ == "["@ + "adbc_flightsql"@ + "] "@ + one@ + (". While handling error: "@
            + two@),
{
    assert(both@.rest =~= seq![second@.head]);
    let texts = both@.rest.map_values(
        |clause: ClauseView| clause_text(clause),
    );
    assert(texts.len() == 1);
    assert(texts[0] == two@);
}

/// Each constructor makes an error of its own status.
pub proof fn law_constructors_have_their_statuses(
    already_exists: Error<FlightSqlErrorHelper>,
    cancelled: Error<FlightSqlErrorHelper>,
    integrity: Error<FlightSqlErrorHelper>,
    internal: Error<FlightSqlErrorHelper>,
    invalid_argument: Error<FlightSqlErrorHelper>,
    invalid_data: Error<FlightSqlErrorHelper>,
    invalid_state: Error<FlightSqlErrorHelper>,
    io: Error<FlightSqlErrorHelper>,
    not_found: Error<FlightSqlErrorHelper>,
    not_implemented: Error<FlightSqlErrorHelper>,
    timeout: Error<FlightSqlErrorHelper>,
    unauthenticated: Error<FlightSqlErrorHelper>,
    unauthorized: Error<FlightSqlErrorHelper>,
    unknown: Error<FlightSqlErrorHelper>,
)
    requires
        call_ensures(FlightSqlErrorHelper::already_exists, (), already_exists),
        call_ensures(FlightSqlErrorHelper::cancelled, (), cancelled),
        call_ensures(FlightSqlErrorHelper::integrity, (), integrity),
        call_ensures(FlightSqlErrorHelper::internal_no_location, (), internal),
        call_ensures(FlightSqlErrorHelper::invalid_argument, (), invalid_argument),
        call_ensures(FlightSqlErrorHelper::invalid_data, (), invalid_data),
        call_ensures(FlightSqlErrorHelper::invalid_state, (), invalid_state),
        call_ensures(FlightSqlErrorHelper::io, (), io),
        call_ensures(FlightSqlErrorHelper::not_found, (), not_found),
        call_ensures(FlightSqlErrorHelper::not_implemented, (), not_implemented),
        call_ensures(FlightSqlErrorHelper::timeout, (), timeout),
        call_ensures(FlightSqlErrorHelper::unauthenticated, (), unauthenticated),
        call_ensures(FlightSqlErrorHelper::unauthorized, (), unauthorized),
        call_ensures(FlightSqlErrorHelper::unknown, (), unknown),
    ensures
        already_exists@.head.status is AlreadyExists,
        cancelled@.head.status is Cancelled,
        integrity@.head.status is Integrity,
        internal@.head.status is Internal,
        invalid_argument@.head.status is InvalidArguments,
        invalid_data@.head.status is InvalidData,
        invalid_state@.head.status is InvalidState,
        io@.head.status is IO,
        not_found@.head.status is NotFound,
        not_implemented@.head.status is NotImplemented,
        timeout@.head.status is Timeout,
        unauthenticated@.head.status is Unauthenticated,
        unauthorized@.head.status is Unauthorized,
        unknown@.head.status is Unknown,
{
}

/// An Arrow error is reported under the status of its kind, with its own text after the name of its
/// kind.
pub proof fn law_arrow_error_is_reported_by_its_kind(
    error: ArrowError,
    e: Error<FlightSqlErrorHelper>,
    r: AdbcError,
)
    requires
        call_ensures(FlightSqlErrorHelper::from_arrow, (error,), e),
        call_ensures(Error::<FlightSqlErrorHelper>::to_adbc, (e,), r),
    ensures
        error matches ArrowError::NotYetImplemented(m) ==> tells(r, Status::NotImplemented, m@),
        error matches ArrowError::ExternalError(m) ==> tells(r, Status::Unknown, m@),
        error matches ArrowError::CastError(m) ==> tells(
            r,
            Status::Internal,
            "cast error: "@ + m@,
        ),
        error matches ArrowError::MemoryError(m) ==> tells(
            r,
            Status::Internal,
            "memory error: "@ + m@,
        ),
        error matches ArrowError::ParseError(m) ==> tells(
            r,
            Status::Internal,
            "parse error: "@ + m@,
        ),
        error matches ArrowError::SchemaError(m) ==> tells(
            r,
            Status::Internal,
            "schema error: "@ + m@,
        ),
        error matches ArrowError::ComputeError(m) ==> tells(
            r,
            Status::Internal,
            "compute error: "@ + m@,
        ),
        error is DivideByZero ==> tells(r, Status::InvalidData, "divide by zero"@),
        error matches ArrowError::ArithmeticOverflow(m) ==> tells(
            r,
            Status::InvalidData,
            "arithmetic overflow: "@ + m@,
        ),
        error matches ArrowError::CsvError(m) ==> tells(
            r,
            Status::InvalidArguments,
            "CSV error: "@ + m@,
        ),
        error matches ArrowError::JsonError(m) ==> tells(
            r,
            Status::InvalidArguments,
            "JSON error: "@ + m@,
        ),
        error matches ArrowError::AvroError(m) ==> tells(r, Status::IO, "Avro error: "@ + m@),
        error matches ArrowError::IoError(m, n) ==> tells(
            r,
            Status::IO,
            "I/O error: "@ + m@ + ": "@ + n@,
        ),
        error matches ArrowError::IpcError(m) ==> tells(r, Status::IO, "IPC error: "@ + m@),
        error matches ArrowError::InvalidArgumentError(m) ==> tells(
            r,
            Status::InvalidArguments,
            m@,
        ),
        error matches ArrowError::ParquetError(m) ==> tells(
            r,
            Status::IO,
            "Parquet error: "@ + m@,
        ),
        error matches ArrowError::CDataInterface(m) ==> tells(
            r,
            Status::IO,
            "C Data interface error: "@ + m@,
        ),
        error is DictionaryKeyOverflowError ==> tells(
            r,
            Status::InvalidData,
            "dictionary key overflowed"@,
        ),
        error is RunEndIndexOverflowError ==> tells(
            r,
            Status::InvalidData,
            "run end index overflowed"@,
        ),
        error matches ArrowError::OffsetOverflowError(size) ==> tells(
            r,
            Status::InvalidData,
            "offset overflowed at size "@ + decimal(size as nat),
        ),
{
}

/// An error for a reader tells its status, its message, its SQLSTATE and its vendor code.
pub proof fn law_error_reads_as_what_it_holds(error: &AdbcError, r: String)
    requires
        call_ensures(AdbcError::display_text, (error,), r),
    ensures
        r@ == error.status.debug_view() + ": "@ + error.message@ + " (sqlstate: "@ + ("["@
            + decimal_int(error.sqlstate@[0] as int) + ", "@ + decimal_int(
            error.sqlstate@[1] as int,
        ) + ", "@ + decimal_int(error.sqlstate@[2] as int) + ", "@ + decimal_int(
            error.sqlstate@[3] as int,
        ) + ", "@ + decimal_int(error.sqlstate@[4] as int) + "]"@) + ", vendor_code: "@
            + decimal_int(error.vendor_code as int) + ")"@,
{
}

/// A reader sees the status of an error, what could not be done and why, where it happened and its
/// vendor code if it has one.
pub proof fn law_error_is_shown_to_a_reader(
    status: Status,
    fresh: Error<FlightSqlErrorHelper>,
    message: &str,
    said: Error<FlightSqlErrorHelper>,
    task: &str,
    placed: Error<FlightSqlErrorHelper>,
    location: &str,
    located: Error<FlightSqlErrorHelper>,
    code: i32,
    coded: Error<FlightSqlErrorHelper>,
    plain: String,
    full: String,
    got: i32,
)
    requires
        call_ensures(FlightSqlErrorHelper::status, (status,), fresh),
        call_ensures(Error::<FlightSqlErrorHelper>::message, (fresh, message), said),
        call_ensures(Error::<FlightSqlErrorHelper>::display_text, (&said,), plain),
        call_ensures(Error::<FlightSqlErrorHelper>::context, (said, task), placed),
        call_ensures(Error::<FlightSqlErrorHelper>::location, (placed, location), located),
        call_ensures(Error::<FlightSqlErrorHelper>::vendor_code, (located, code), coded),
        call_ensures(Error::<FlightSqlErrorHelper>::display_text, (&coded,), full),
        call_ensures(Error::<FlightSqlErrorHelper>::get_vendor_code, (&coded,), got),
        code != 0,
    ensures
        plain@ == status.debug_view() + ": ["@ + "adbc_flightsql"@ + "] "@ + message@,
        full@ == status.debug_view() + ": ["@ + "adbc_flightsql"@ + "] "@ + "could not "@ + task@
            + ": "@ + message@ + ". Location: "@ + location@ + ". Vendor code: "@ + decimal_int(
            code as int,
        ),
        got == code,
{
}

/// A location stands behind the message of a report.
pub proof fn law_location_is_reported(
    location: &str,
    fresh: Error<FlightSqlErrorHelper>,
    message: &str,
    said: Error<FlightSqlErrorHelper>,
    r: AdbcError,
)
    requires
        call_ensures(FlightSqlErrorHelper::internal, (location,), fresh),
        call_ensures(Error::<FlightSqlErrorHelper>::message, (fresh, message), said),
        call_ensures(Error::<FlightSqlErrorHelper>::to_adbc, (said,), r),
    ensures
        tells(r, Status::Internal, message@ + " (at "@ + location@ + ")"@),
{
}

/// The names under which a reader sees the statuses.
pub proof fn law_statuses_have_their_names(status: Status, r: String)
    requires
        call_ensures(Status::debug_text, (&status,), r),
    ensures
        status is Okay ==> r@ == "Ok"@,
        status is Unknown ==> r@ == "Unknown"@,
        status is NotImplemented ==> r@ == "NotImplemented"@,
        status is NotFound ==> r@ == "NotFound"@,
        status is AlreadyExists ==> r@ == "AlreadyExists"@,
        status is InvalidArguments ==> r@ == "InvalidArguments"@,
        status is InvalidState ==> r@ == "InvalidState"@,
        status is InvalidData ==> r@ == "InvalidData"@,
        status is Integrity ==> r@ == "Integrity"@,
        status is Internal ==> r@ == "Internal"@,
        status is IO ==> r@ == "IO"@,
        status is Cancelled ==> r@ == "Cancelled"@,
        status is Timeout ==> r@ == "Timeout"@,
        status is Unauthenticated ==> r@ == "Unauthenticated"@,
        status is Unauthorized ==> r@ == "Unauthorized"@,
{
}

/// An error that is made of a message and a status holds these and nothing else, and an ADBC error
/// is wrapped in an Arrow error as a reader sees it.
pub proof fn law_plain_errors_hold_what_they_were_made_of(
    message: String,
    status: Status,
    r: AdbcError,
    error: AdbcError,
    shown: String,
    arrow: ArrowError,
)
    requires
        call_ensures(AdbcError::with_message_and_status, (message, status), r),
        call_ensures(AdbcError::display_text, (&error,), shown),
        call_ensures(FlightSqlErrorHelper::to_arrow, (error,), arrow),
    ensures
        r.message@ == message@,
        r.status == status,
        r.vendor_code == 0,
        r.sqlstate@ == seq![0i8, 0i8, 0i8, 0i8, 0i8],
        r.details is None,
        arrow matches ArrowError::ExternalError(text) && text@ == shown@,
{
}

/// Errors are merged one after the other: none gives none, and one more is merged with all before
/// it.
pub proof fn law_errors_are_merged_one_by_one(
    errors: Vec<Error<FlightSqlErrorHelper>>,
    r: Option<Error<FlightSqlErrorHelper>>,
    last: Error<FlightSqlErrorHelper>,
    more: Vec<Error<FlightSqlErrorHelper>>,
    more_r: Option<Error<FlightSqlErrorHelper>>,
    merged: Error<FlightSqlErrorHelper>,
)
    requires
        call_ensures(FlightSqlErrorHelper::from_all, (errors,), r),
        more@ == errors@.push(last),
        call_ensures(FlightSqlErrorHelper::from_all, (more,), more_r),
        r matches Some(e) ==> call_ensures(
            Error::<FlightSqlErrorHelper>::and,
            (e, last),
            merged,
        ),
    ensures
        r is None <==> errors@.len() == 0,
        more_r is Some,
        r is None ==> more_r->Some_0@ == last@,
        r is Some ==> more_r->Some_0@ == merged@,
{
    let all = more@.map_values(|e: Error<FlightSqlErrorHelper>| e@);
    assert(all.drop_last() =~= errors@.map_values(|e: Error<FlightSqlErrorHelper>| e@));
    assert(all.last() == last@);
}

/// An error in a diagnostic message lists its status, its message, what could not be done, its
/// codes and the errors that followed it.
pub proof fn law_diagnostic_message_lists_everything(
    status: Status,
    fresh: Error<FlightSqlErrorHelper>,
    message: &str,
    said: Error<FlightSqlErrorHelper>,
    task: &str,
    placed: Error<FlightSqlErrorHelper>,
    code: i32,
    coded: Error<FlightSqlErrorHelper>,
    plain: String,
    full: String,
    both: Error<FlightSqlErrorHelper>,
    chained: String,
)
    requires
        call_ensures(FlightSqlErrorHelper::status, (status,), fresh),
        call_ensures(Error::<FlightSqlErrorHelper>::message, (fresh, message), said),
        call_ensures(Error::<FlightSqlErrorHelper>::debug_text, (&said,), plain),
        call_ensures(Error::<FlightSqlErrorHelper>::context, (said, task), placed),
        call_ensures(Error::<FlightSqlErrorHelper>::vendor_code, (placed, code), coded),
        call_ensures(Error::<FlightSqlErrorHelper>::debug_text, (&coded,), full),
        call_ensures(Error::<FlightSqlErrorHelper>::and, (coded, said), both),
        call_ensures(Error::<FlightSqlErrorHelper>::debug_text, (&both,), chained),
    ensures
        plain@ == shown_error(status, message@, "None"@, 0) + "],\n}"@,
        full@ == shown_error(status, message@, "Some("@ + quoted(task@) + ")"@, code) + "],\n}"@,
        chained@ == shown_error(status, message@, "Some("@ + quoted(task@) + ")"@, code) + "\n"@ + (
        "    "@ + shown_error(status, message@, "None"@, 0) + "],\n}"@ + ",\n"@) + "],\n}"@,
{
    assert(both@.rest =~= seq![said@.head]);
    assert(both@.rest.drop_last() =~= Seq::<ClauseView>::empty());
    assert(rest_debug(both@.rest.drop_last()) =~= Seq::<char>::empty());
    assert(Seq::<char>::empty() + "    "@ =~= "    "@);
}

/// One error in a diagnostic message, up to the errors that follow it.
pub open spec fn shown_error(
    status: Status,
    message: Seq<char>,
    task: Seq<char>,
    code: i32,
) -> Seq<char> {
    "Error {\n  status: "@ + status.debug_view() + ",\n  error_message: "@ + quoted(message)
        + ",\n  context_message: "@ + task + ",\n  vendor_code: "@ + decimal_int(code as int)
        + ",\n  sqlstate: "@ + no_sqlstate_text() + ",\n  rest: ["@
}

/// The five zeros of a SQLSTATE that is not set.
pub open spec fn no_sqlstate_text() -> Seq<char> {
    "["@ + decimal_int(0) + ", "@ + decimal_int(0) + ", "@ + decimal_int(0) + ", "@ + decimal_int(0)
        + ", "@ + decimal_int(0) + "]"@
}

/// An error is merged with that of an operation, if the operation fails, and stays as it was if
/// not.
pub proof fn law_error_of_an_operation_follows<T, F: FnOnce() -> Result<
    T,
    Error<FlightSqlErrorHelper>,
>>(error: Error<FlightSqlErrorHelper>, other: F, r: Error<FlightSqlErrorHelper>)
    requires
        call_ensures(Error::<FlightSqlErrorHelper>::and_also::<T, F>, (error, other), r),
    ensures
        exists|outcome: Result<T, Error<FlightSqlErrorHelper>>| #[trigger]
            other.ensures((), outcome) && match outcome {
                Ok(_) => r@ == error@,
                Err(e) => r@.head == error@.head && r@.rest == error@.rest.push(e@.head) + e@.rest,
            },
{
}

} // verus!
