use std::sync::Arc;

use adbc_flightsql::columns::Batch;
use adbc_flightsql::error::{ArrowError, FlightError};
use adbc_flightsql::stream::{flight_error_to_arrow, FlightSqlRecordBatchReader, Validity};
use arrow_schema::{DataType, Field, Schema};

#[test]
fn test_reader_schema_returns_constructed_schema() {
    let schema = Schema::new(vec![
        Field::new("col1", DataType::Int32, false),
        Field::new("col2", DataType::Utf8, true),
    ]);
    let reader = FlightSqlRecordBatchReader::new(schema.clone(), 0);
    let got = reader.schema();
    assert_eq!(got, schema, "schema() should return the schema passed at construction");
}

#[test]
fn test_reader_stops_on_cancel() {
    let schema = Schema::new(vec![Field::new("x", DataType::Int32, false)]);
    let mut validity = Validity::new();
    validity.cancel();
    let reader = FlightSqlRecordBatchReader::new(schema, 0);
    assert!(!reader.fetches(&validity), "Cancelled reader must stop immediately");
}

#[test]
fn test_cancelled_flag_respected_when_false() {
    let schema = Schema::new(vec![Field::new("x", DataType::Int32, false)]);
    let validity = Validity::new();
    let reader = FlightSqlRecordBatchReader::new(schema, 0);
    assert!(reader.fetches(&validity));
    assert!(reader.next(None).is_none(), "Empty stream should return None at end");
}

#[test]
fn test_flight_error_to_arrow_extracts_arrow_error() {
    let outside = arrow_schema::ArrowError::ParseError("test parse error".into());
    let flight_err = FlightError::Arrow {
        error: ArrowError::ParseError("test parse error".into()),
        text: arrow_flight::error::FlightError::Arrow(outside).to_string(),
    };
    let result = flight_error_to_arrow(flight_err);
    match result {
        ArrowError::ParseError(msg) => assert_eq!(msg, "test parse error"),
        _ => panic!("expected ArrowError::ParseError, got {result:?}"),
    }
}

#[test]
fn test_flight_error_to_arrow_wraps_external() {
    let outside = arrow_flight::error::FlightError::ProtocolError("protocol broken".into());
    let flight_err = FlightError::Other { text: outside.to_string() };
    let result = flight_error_to_arrow(flight_err);
    match &result {
        ArrowError::ExternalError(boxed) => {
            let msg = format!("{boxed}");
            assert!(
                msg.contains("protocol broken"),
                "expected message to contain error, got: {msg}"
            );
        }
        _ => panic!("expected ArrowError::ExternalError, got {result:?}"),
    }
}

#[test]
fn test_cancelled_true_returns_none_even_with_data() {
    let schema = Schema::new(vec![Field::new("x", DataType::Int32, false)]);
    let mut validity = Validity::new();
    validity.cancel();
    let reader = FlightSqlRecordBatchReader::new(schema, 0);
    assert!(!reader.fetches(&validity), "cancelled reader must return None");
}

#[test]
fn results_that_ended_stay_ended() {
    let schema = Schema::empty();
    let mut validity = Validity::new();
    let first = FlightSqlRecordBatchReader::new(schema.clone(), validity.renew());
    assert!(first.fetches(&validity));
    validity.cancel();
    assert!(!first.fetches(&validity));
    let second = FlightSqlRecordBatchReader::new(schema, validity.renew());
    assert!(!first.fetches(&validity));
    assert!(second.fetches(&validity));
}

#[test]
fn fetched_batches_and_errors_are_handed_out() {
    let reader = FlightSqlRecordBatchReader::new(Schema::empty(), 0);
    let schema = Arc::new(Schema::new(vec![Field::new("x", DataType::Int32, false)]));
    let batch = arrow_array::RecordBatch::new_empty(schema.clone());
    match reader.next(Some(Ok(Batch { inner: batch }))) {
        Some(Ok(b)) => assert_eq!(b.inner.schema(), schema),
        _ => panic!("expected a batch"),
    }
    let status = FlightError::Tonic {
        code: adbc_flightsql::error::Code::Aborted,
        message: "m".to_string(),
        text: "Tonic error: m".to_string(),
    };
    assert!(matches!(
        reader.next(Some(Err(status))),
        Some(Err(ArrowError::ExternalError(text))) if text == "Tonic error: m"
    ));
}
