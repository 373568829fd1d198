use adbc_flightsql::error::{
    grpc_code_to_adbc_status, map_flight_error, AdbcError, ArrowError, Code, Error, ErrorHelper,
    FlightError, FlightSqlErrorHelper, Status,
};
use adbc_flightsql::options::{Double, OptionConnection, OptionValue};

fn tonic_error(code: Code, message: &str) -> FlightError {
    let status = tonic::Status::new(tonic::Code::from_i32(code.number()), message);
    let error = arrow_flight::error::FlightError::Tonic(Box::new(status));
    FlightError::Tonic { code, message: message.to_string(), text: error.to_string() }
}

fn all_codes() -> [Code; 17] {
    [
        Code::Okay,
        Code::Cancelled,
        Code::Unknown,
        Code::InvalidArgument,
        Code::DeadlineExceeded,
        Code::NotFound,
        Code::AlreadyExists,
        Code::PermissionDenied,
        Code::ResourceExhausted,
        Code::FailedPrecondition,
        Code::Aborted,
        Code::OutOfRange,
        Code::Unimplemented,
        Code::Internal,
        Code::Unavailable,
        Code::DataLoss,
        Code::Unauthenticated,
    ]
}

#[test]
fn test_map_grpc_invalid_argument() {
    let result = grpc_code_to_adbc_status(Code::InvalidArgument);
    assert_eq!(result, Status::InvalidArguments);
}

#[test]
fn test_map_grpc_unauthenticated() {
    let result = grpc_code_to_adbc_status(Code::Unauthenticated);
    assert_eq!(result, Status::Unauthenticated);
}

#[test]
fn test_map_grpc_unavailable() {
    let result = grpc_code_to_adbc_status(Code::Unavailable);
    assert_eq!(result, Status::IO);
}

#[test]
fn test_map_grpc_not_found() {
    let result = grpc_code_to_adbc_status(Code::NotFound);
    assert_eq!(result, Status::NotFound);
}

#[test]
fn test_map_grpc_ok() {
    let result = grpc_code_to_adbc_status(Code::Okay);
    assert_eq!(result, Status::Okay);
}

#[test]
fn test_map_grpc_permission_denied() {
    let result = grpc_code_to_adbc_status(Code::PermissionDenied);
    assert_eq!(result, Status::Unauthorized);
}

#[test]
fn test_map_grpc_deadline_exceeded() {
    let result = grpc_code_to_adbc_status(Code::DeadlineExceeded);
    assert_eq!(result, Status::Timeout);
}

#[test]
fn test_map_flight_error_tonic_invalid_argument() {
    let err = tonic_error(Code::InvalidArgument, "bad query syntax");
    let adbc_err = map_flight_error(err, "executing query");
    assert_eq!(adbc_err.status, Status::InvalidArguments);
    assert!(adbc_err.message.contains("executing query"));
    assert!(adbc_err.message.contains("bad query syntax"));
    assert_eq!(adbc_err.vendor_code, tonic::Code::InvalidArgument as i32);
}

#[test]
fn test_map_flight_error_tonic_unauthenticated() {
    let err = tonic_error(Code::Unauthenticated, "token expired");
    let adbc_err = map_flight_error(err, "connecting");
    assert_eq!(adbc_err.status, Status::Unauthenticated);
    assert!(adbc_err.message.contains("connecting"));
    assert!(adbc_err.message.contains("token expired"));
    assert_eq!(adbc_err.vendor_code, tonic::Code::Unauthenticated as i32);
}

#[test]
fn test_map_flight_error_non_tonic() {
    let outside = arrow_schema::ArrowError::ParseError("test parse error".into());
    let text = arrow_flight::error::FlightError::Arrow(outside).to_string();
    let flight_err = FlightError::Arrow {
        error: ArrowError::ParseError("test parse error".to_string()),
        text: text.clone(),
    };
    let adbc_err = map_flight_error(flight_err, "decoding schema");
    assert_eq!(adbc_err.status, Status::IO);
    assert!(adbc_err.message.contains("decoding schema"));
    assert_eq!(
        adbc_err.message,
        format!("[adbc_flightsql] could not decoding schema: {text}")
    );
}

#[test]
fn test_map_grpc_all_codes_covered() {
    for code in &all_codes() {
        let _ = grpc_code_to_adbc_status(*code);
    }
}

#[test]
fn codes_have_the_numbers_and_names_of_grpc() {
    for (i, code) in all_codes().iter().enumerate() {
        assert_eq!(code.number(), i as i32);
        let outside = tonic::Code::from_i32(code.number());
        let mapped = map_flight_error(tonic_error(*code, "said"), "trying");
        assert_eq!(mapped.message, format!("[FlightSQL] said (gRPC {outside:?}; trying)"));
        assert_eq!(mapped.vendor_code, outside as i32);
        assert_eq!(mapped.sqlstate, [0, 0, 0, 0, 0]);
    }
}

#[test]
fn messages_and_contexts_are_built_clause_by_clause() {
    let error: Error<FlightSqlErrorHelper> = FlightSqlErrorHelper::io()
        .message("first")
        .message("second")
        .context("inner")
        .context("outer")
        .location("here:1");
    assert_eq!(
        error.clone().to_adbc().message,
        "[adbc_flightsql] could not outer: could not inner: first; second (at here:1)"
    );
    assert_eq!(
        error.vendor_code(7).display_text(),
        "IO: [adbc_flightsql] could not outer: could not inner: first; second. Location: here:1. \
         Vendor code: 7"
    );
}

#[test]
fn merged_errors_follow_the_first() {
    let a = FlightSqlErrorHelper::io().message("a").vendor_code(3);
    let b = FlightSqlErrorHelper::internal("there").message("b");
    let c = FlightSqlErrorHelper::timeout().message("c");
    let left = a.clone().and(b.clone()).and(c.clone()).to_adbc();
    let right = a.clone().and(b.clone().and(c.clone())).to_adbc();
    assert_eq!(
        left.message,
        "[adbc_flightsql] a. While handling error: b (at there); c"
    );
    assert_eq!(left.message, right.message);
    assert_eq!(left.status, Status::IO);
    assert_eq!(left.vendor_code, 3);
    let all = FlightSqlErrorHelper::from_all(vec![a.clone(), b, c]).unwrap();
    assert_eq!(all.to_adbc().message, left.message);
    assert!(FlightSqlErrorHelper::from_all(Vec::new()).is_none());
    let kept = a.clone().and_also(|| -> Result<u8, Error<FlightSqlErrorHelper>> { Ok(1) });
    assert_eq!(kept.to_adbc().message, "[adbc_flightsql] a");
    let joined = a.and_also(|| -> Result<u8, Error<FlightSqlErrorHelper>> {
        Err(FlightSqlErrorHelper::unknown().message("late"))
    });
    assert_eq!(joined.to_adbc().message, "[adbc_flightsql] a. While handling error: late");
}

#[test]
fn diagnostic_text_lists_every_field() {
    let error = FlightSqlErrorHelper::not_found()
        .message("no \"such\" thing")
        .sqlstate([1, 2, 3, 4, 5])
        .and(FlightSqlErrorHelper::integrity().context("checking"));
    assert_eq!(error.get_vendor_code(), 0);
    assert_eq!(
        error.debug_text(),
        "Error {\n  status: NotFound,\n  error_message: \"no \\\"such\\\" thing\",\n  \
         context_message: None,\n  vendor_code: 0,\n  sqlstate: [1, 2, 3, 4, 5],\n  rest: [\n    \
         Error {\n  status: Integrity,\n  error_message: \"\",\n  context_message: \
         Some(\"checking\"),\n  vendor_code: 0,\n  sqlstate: [0, 0, 0, 0, 0],\n  rest: [],\n},\n],\n}"
    );
}

#[test]
fn each_status_has_its_constructor() {
    let pairs = [
        (FlightSqlErrorHelper::already_exists(), Status::AlreadyExists),
        (FlightSqlErrorHelper::cancelled(), Status::Cancelled),
        (FlightSqlErrorHelper::integrity(), Status::Integrity),
        (FlightSqlErrorHelper::internal_no_location(), Status::Internal),
        (FlightSqlErrorHelper::invalid_argument(), Status::InvalidArguments),
        (FlightSqlErrorHelper::invalid_data(), Status::InvalidData),
        (FlightSqlErrorHelper::invalid_state(), Status::InvalidState),
        (FlightSqlErrorHelper::io(), Status::IO),
        (FlightSqlErrorHelper::not_found(), Status::NotFound),
        (FlightSqlErrorHelper::not_implemented(), Status::NotImplemented),
        (FlightSqlErrorHelper::timeout(), Status::Timeout),
        (FlightSqlErrorHelper::unauthenticated(), Status::Unauthenticated),
        (FlightSqlErrorHelper::unauthorized(), Status::Unauthorized),
        (FlightSqlErrorHelper::unknown(), Status::Unknown),
    ];
    for (error, status) in pairs {
        assert_eq!(error.to_adbc().status, status);
    }
}

#[test]
fn option_values_are_unwrapped_or_refused() {
    let key = OptionConnection::Other("k".to_string());
    let text = |s: &str| OptionValue::String(s.to_string());
    assert_eq!(FlightSqlErrorHelper::option_as_int(&key, &text("-12")).unwrap(), -12);
    assert_eq!(FlightSqlErrorHelper::option_as_int(&key, &text("+7")).unwrap(), 7);
    assert_eq!(FlightSqlErrorHelper::option_as_int(&key, &OptionValue::Int(5)).unwrap(), 5);
    let refused = FlightSqlErrorHelper::option_as_int(&key, &text("x")).unwrap_err().to_adbc();
    assert_eq!(
        refused.message,
        "[adbc_flightsql] could not invalid option Other(\"k\")=String(\"x\"): must be an integer"
    );
    assert_eq!(FlightSqlErrorHelper::option_as_string(&key, &text("t")).unwrap(), "t");
    let refused = FlightSqlErrorHelper::option_as_string(&key, &OptionValue::Bytes(vec![1, 20]))
        .unwrap_err()
        .to_adbc();
    assert_eq!(
        refused.message,
        "[adbc_flightsql] could not invalid option Other(\"k\")=Bytes([1, 20]): must be a string"
    );
    assert!(FlightSqlErrorHelper::option_as_bool(&key, &text("true")).unwrap());
    assert!(!FlightSqlErrorHelper::option_as_bool(&key, &text("false")).unwrap());
    let refused = FlightSqlErrorHelper::option_as_bool(&key, &text("TRUE")).unwrap_err().to_adbc();
    assert_eq!(
        refused.message,
        "[adbc_flightsql] could not invalid option Other(\"k\")=String(\"TRUE\"): must be 'true' \
         or 'false'"
    );
    let number = Double { bits: 0, display: "0".to_string(), debug: "0.0".to_string() };
    let refused = FlightSqlErrorHelper::option_as_bool(&key, &OptionValue::Double(number))
        .unwrap_err()
        .to_adbc();
    assert_eq!(
        refused.message,
        "[adbc_flightsql] could not invalid option Other(\"k\")=Double(0.0): must be a string"
    );
    let unknown = FlightSqlErrorHelper::get_unknown_option(&key).to_adbc();
    assert_eq!(unknown.status, Status::NotFound);
    assert_eq!(unknown.message, "[adbc_flightsql] unknown option Other(\"k\")");
}

#[test]
fn texts_are_quoted_as_in_the_standard_library() {
    for text in ["plain", "a\"b", "tab\tnew\nline", "back\\slash", "\u{1}", "é—漢", "it's"] {
        let error = FlightSqlErrorHelper::set_unknown_option(&text.to_string()).to_adbc();
        assert_eq!(error.message, format!("[adbc_flightsql] unknown option {text:?}"));
    }
}

#[test]
fn arrow_errors_keep_their_kind() {
    let s = |t: &str| t.to_string();
    let cases = [
        (ArrowError::NotYetImplemented(s("m")), Status::NotImplemented, "m"),
        (ArrowError::ExternalError(s("m")), Status::Unknown, "m"),
        (ArrowError::CastError(s("m")), Status::Internal, "cast error: m"),
        (ArrowError::MemoryError(s("m")), Status::Internal, "memory error: m"),
        (ArrowError::ParseError(s("m")), Status::Internal, "parse error: m"),
        (ArrowError::SchemaError(s("m")), Status::Internal, "schema error: m"),
        (ArrowError::ComputeError(s("m")), Status::Internal, "compute error: m"),
        (ArrowError::DivideByZero, Status::InvalidData, "divide by zero"),
        (ArrowError::ArithmeticOverflow(s("m")), Status::InvalidData, "arithmetic overflow: m"),
        (ArrowError::CsvError(s("m")), Status::InvalidArguments, "CSV error: m"),
        (ArrowError::JsonError(s("m")), Status::InvalidArguments, "JSON error: m"),
        (ArrowError::AvroError(s("m")), Status::IO, "Avro error: m"),
        (ArrowError::IoError(s("m"), s("e")), Status::IO, "I/O error: m: e"),
        (ArrowError::IpcError(s("m")), Status::IO, "IPC error: m"),
        (ArrowError::InvalidArgumentError(s("m")), Status::InvalidArguments, "m"),
        (ArrowError::ParquetError(s("m")), Status::IO, "Parquet error: m"),
        (ArrowError::CDataInterface(s("m")), Status::IO, "C Data interface error: m"),
        (
            ArrowError::DictionaryKeyOverflowError,
            Status::InvalidData,
            "dictionary key overflowed",
        ),
        (ArrowError::RunEndIndexOverflowError, Status::InvalidData, "run end index overflowed"),
        (ArrowError::OffsetOverflowError(17), Status::InvalidData, "offset overflowed at size 17"),
    ];
    for (arrow, status, message) in cases {
        let error = FlightSqlErrorHelper::from_arrow(arrow).to_adbc();
        assert_eq!(error.status, status);
        assert_eq!(error.message, format!("[adbc_flightsql] {message}"));
    }
}

#[test]
fn errors_print_as_in_adbc() {
    let sqlstate = [0, b'A' as i8, -1, 31, b'~' as i8];
    let ours = AdbcError {
        message: "went wrong".to_string(),
        status: Status::Unauthorized,
        vendor_code: -42,
        sqlstate,
        details: None,
    };
    let theirs = adbc_core::error::Error {
        message: "went wrong".to_string(),
        status: adbc_core::error::Status::Unauthorized,
        vendor_code: -42,
        sqlstate,
        details: None,
    };
    assert_eq!(ours.display_text(), theirs.to_string());
    let plain = AdbcError::with_message_and_status("m".to_string(), Status::Okay);
    let other = adbc_core::error::Error::with_message_and_status(
        "m",
        adbc_core::error::Status::Ok,
    );
    assert_eq!(plain.display_text(), other.to_string());
    assert!(matches!(
        FlightSqlErrorHelper::to_arrow(plain),
        ArrowError::ExternalError(text) if text == other.to_string()
    ));
}
