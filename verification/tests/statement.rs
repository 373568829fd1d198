use std::sync::Arc;

use adbc_flightsql::columns::Batch;
use adbc_flightsql::double::Duration;
use adbc_flightsql::error::{Code, FlightError, Status};
use adbc_flightsql::options::{Double, Number, OptionEffect, OptionStatement, OptionValue};
use adbc_flightsql::statement::{ExecuteStep, FlightSqlStatement, ResultSchemaStep};
use arrow_array::RecordBatch;
use arrow_flight::sql::{TableExistsOption, TableNotExistOption};
use arrow_flight::{FlightEndpoint, FlightInfo, Ticket};
use arrow_schema::{DataType, Field, Schema};

fn make_statement() -> FlightSqlStatement {
    FlightSqlStatement::new()
}

fn schema_a() -> Schema {
    Schema::new(vec![Field::new("a", DataType::Int32, false)])
}

fn batch_a() -> Batch {
    Batch { inner: RecordBatch::new_empty(Arc::new(schema_a())) }
}

fn timeout_key() -> OptionStatement {
    OptionStatement::Other("adbc.statement.exec_timeout_ms".into())
}

fn text(value: &str) -> OptionValue {
    OptionValue::String(value.into())
}

fn unavailable() -> FlightError {
    FlightError::Tonic {
        code: Code::Unavailable,
        message: "down".to_string(),
        text: "Tonic error: down".to_string(),
    }
}

fn flight(tickets: &[Option<&'static str>]) -> FlightInfo {
    let mut info = FlightInfo::new();
    for ticket in tickets {
        let mut endpoint = FlightEndpoint::new();
        if let Some(t) = ticket {
            endpoint = endpoint.with_ticket(Ticket::new(*t));
        }
        info = info.with_endpoint(endpoint);
    }
    info
}

#[test]
fn test_set_sql_query_stores_and_clears_cache() {
    let mut stmt = make_statement();

    stmt.set_sql_query("SELECT 1").unwrap();

    let schema = Schema::new(vec![Field::new("a", DataType::Int32, false)]);
    stmt.cached_schema = Some(schema);
    stmt.set_sql_query("SELECT 2").unwrap();
    assert!(stmt.cached_schema.is_none(), "set_sql_query should clear cached_schema");
    assert_eq!(stmt.sql.as_deref(), Some("SELECT 2"));
}

#[test]
fn test_set_sql_query_updates_sql() {
    let mut stmt = make_statement();

    stmt.set_sql_query("SELECT * FROM t").unwrap();
    stmt.set_sql_query("SELECT a FROM t").unwrap();
    assert_eq!(stmt.sql.as_deref(), Some("SELECT a FROM t"));
}

#[test]
fn test_bind_without_prepare_returns_invalid_state() {
    let mut stmt = make_statement();

    let schema = Arc::new(Schema::new(vec![Field::new("a", DataType::Int32, false)]));
    let batch = RecordBatch::new_empty(schema);
    let result = stmt.bind(Batch { inner: batch });
    assert!(result.is_err());
    assert_eq!(result.err().unwrap().status, Status::InvalidState);
}

#[test]
fn test_bind_stream_without_prepare_returns_invalid_state() {
    let mut stmt = make_statement();

    let result = stmt.bind_stream();
    assert!(result.is_err());
    assert_eq!(result.unwrap_err().status, Status::InvalidState);
}

#[test]
fn test_execute_update_not_implemented_for_non_prepared() {
    let mut stmt = make_statement();

    let result = stmt.execute_update();
    assert!(result.is_err());
    assert_eq!(result.err().unwrap().status, Status::NotImplemented);
}

#[test]
fn test_substrait_not_implemented() {
    let mut stmt = make_statement();

    let result = stmt.set_substrait_plan(b"{}");
    assert!(result.is_err());
    assert_eq!(result.unwrap_err().status, Status::NotImplemented);
}

#[test]
fn test_execute_no_sql_returns_invalid_state() {
    let mut stmt = make_statement();

    let result = stmt.execute();
    match result {
        Err(e) => assert_eq!(e.status, Status::InvalidState),
        Ok(_) => panic!("expected InvalidState error"),
    }
}

#[test]
fn test_execute_schema_no_sql_returns_invalid_state() {
    let mut stmt = make_statement();

    let result = stmt.execute_schema();
    match result {
        Err(e) => assert_eq!(e.status, Status::InvalidState),
        Ok(_) => panic!("expected InvalidState error"),
    }
}

#[test]
fn test_execute_schema_uses_cached_schema() {
    let mut stmt = make_statement();

    let schema = Schema::new(vec![Field::new("a", DataType::Int32, false)]);
    stmt.cached_schema = Some(schema.clone());

    let result = stmt.execute_schema();
    assert!(result.is_ok());
    match result {
        Ok(ResultSchemaStep::Known(found)) => assert_eq!(found, schema),
        _ => panic!("expected the cached schema"),
    }
}

#[test]
fn test_execute_flips_cancelled_flag() {
    let mut stmt = make_statement();
    stmt.set_sql_query("SELECT 1").unwrap();

    let _ = stmt.execute();
    let _ = stmt.answer_execute(Err(unavailable()));
    assert!(
        stmt.validity.cancelled,
        "cancelled should be true after execute (flipped before RPC)"
    );
}

#[test]
fn test_execute_schema_flips_cancelled_flag() {
    let mut stmt = make_statement();
    stmt.set_sql_query("SELECT 1").unwrap();

    let _ = stmt.execute_schema();
    assert!(stmt.validity.cancelled, "cancelled should be true after execute_schema");
}

#[test]
fn test_new_statement_has_no_sql_initially() {
    let stmt = make_statement();

    assert!(stmt.sql.is_none());
}

#[test]
fn test_cancelled_flag_starts_false() {
    let stmt = make_statement();

    assert!(!stmt.validity.cancelled);
}

#[test]
fn test_prepare_no_sql_returns_invalid_state() {
    let mut stmt = make_statement();

    let result = stmt.prepare();
    assert!(result.is_err());
    assert_eq!(result.err().unwrap().status, Status::InvalidState);
}

#[test]
fn test_get_parameter_schema_without_prepare_returns_invalid_state() {
    let stmt = make_statement();

    let result = stmt.get_parameter_schema();
    assert!(result.is_err());
    assert_eq!(result.unwrap_err().status, Status::InvalidState);
}

#[test]
fn test_cancel_not_implemented() {
    let mut stmt = make_statement();

    let result = stmt.cancel();
    assert!(result.is_err());
    assert_eq!(result.unwrap_err().status, Status::NotImplemented);
}

#[test]
fn test_set_timeout_stores_duration() {
    let mut stmt = make_statement();
    stmt.set_option(
        OptionStatement::Other("adbc.statement.exec_timeout_ms".into()),
        OptionValue::Int(5000),
    )
    .unwrap();
    assert!(stmt.timeout.is_some());
    assert_eq!(stmt.timeout.unwrap(), Duration::from_millis(5000));
}

#[test]
fn test_get_timeout_returns_stored_value() {
    let mut stmt = make_statement();
    stmt.set_option(
        OptionStatement::Other("adbc.statement.exec_timeout_ms".into()),
        OptionValue::Int(5000),
    )
    .unwrap();
    let v = stmt
        .get_option_int(OptionStatement::Other("adbc.statement.exec_timeout_ms".into()))
        .unwrap();
    assert_eq!(v, 5000);
}

#[test]
fn test_negative_timeout_returns_invalid_argument() {
    let mut stmt = make_statement();
    let result = stmt.set_option(
        OptionStatement::Other("adbc.statement.exec_timeout_ms".into()),
        OptionValue::Int(-1),
    );
    assert!(result.is_err());
    assert_eq!(result.err().unwrap().status, Status::InvalidArguments);
}

#[test]
fn test_zero_timeout_disables_timeout() {
    let mut stmt = make_statement();
    stmt.set_option(
        OptionStatement::Other("adbc.statement.exec_timeout_ms".into()),
        OptionValue::Int(5000),
    )
    .unwrap();
    assert!(stmt.timeout.is_some());
    stmt.set_option(
        OptionStatement::Other("adbc.statement.exec_timeout_ms".into()),
        OptionValue::Int(0),
    )
    .unwrap();
    assert!(stmt.timeout.is_none());
}

#[test]
fn test_timeout_set_from_string_value() {
    let mut stmt = make_statement();
    stmt.set_option(
        OptionStatement::Other("adbc.statement.exec_timeout_ms".into()),
        OptionValue::String("10000".into()),
    )
    .unwrap();
    let v = stmt
        .get_option_int(OptionStatement::Other("adbc.statement.exec_timeout_ms".into()))
        .unwrap();
    assert_eq!(v, 10000);
}

#[test]
fn test_unknown_statement_option_returns_not_implemented() {
    let mut stmt = make_statement();
    let result = stmt.set_option(
        OptionStatement::Other("adbc.flightsql.nonexistent".into()),
        OptionValue::String("value".into()),
    );
    assert!(result.is_err());
    assert_eq!(result.err().unwrap().status, Status::NotImplemented);
}

#[test]
fn test_ingest_mode_option_accepted_noop() {
    let mut stmt = make_statement();
    stmt.set_option(
        OptionStatement::IngestMode,
        OptionValue::String("adbc.ingest.mode.create".into()),
    )
    .unwrap();
}

#[test]
fn test_get_timeout_as_string_returns_not_found() {
    let mut stmt = make_statement();
    stmt.set_option(
        OptionStatement::Other("adbc.statement.exec_timeout_ms".into()),
        OptionValue::Int(5000),
    )
    .unwrap();
    let result = stmt
        .get_option_string(OptionStatement::Other("adbc.statement.exec_timeout_ms".into()));
    assert!(result.is_err());
    let error = result.unwrap_err();
    assert_eq!(error.status, Status::NotFound);
    assert_eq!(
        error.message,
        "[adbc_flightsql] timeout is an integer option — use get_option_int"
    );
}

#[test]
fn an_execution_timeout_is_sent_as_a_header() {
    let mut stmt = make_statement();
    let effect = stmt.set_option(timeout_key(), OptionValue::Int(1500)).unwrap();
    assert!(matches!(
        effect,
        OptionEffect::SetHeader { name, value } if name == "grpc-timeout" && value == "1500m"
    ));
    assert_eq!(stmt.timeout, Some(Duration { secs: 1, nanos: 500_000_000 }));
    let effect = stmt.set_option(timeout_key(), OptionValue::Int(0)).unwrap();
    let year = format!("{}m", 365u64 * 24 * 60 * 60 * 1000);
    assert!(matches!(
        effect,
        OptionEffect::SetHeader { name, value } if name == "grpc-timeout" && value == year
    ));
    assert_eq!(stmt.get_option_int(timeout_key()).unwrap(), 0);
    for millis in [1, 999, 1000, 1001, i64::MAX] {
        stmt.set_option(timeout_key(), OptionValue::Int(millis)).unwrap();
        assert_eq!(stmt.get_option_int(timeout_key()).unwrap(), millis);
        let expected = std::time::Duration::from_millis(millis as u64);
        let actual = stmt.timeout.unwrap();
        assert_eq!((actual.secs, actual.nanos), (expected.as_secs(), expected.subsec_nanos()));
        assert_eq!(actual.as_millis(), expected.as_millis());
    }
    let negative = stmt.set_option(timeout_key(), OptionValue::Int(-1)).err().unwrap();
    assert_eq!(
        negative.message,
        "[adbc_flightsql] could not setting query timeout: timeout must be non-negative \
         (milliseconds)"
    );
    assert_eq!(stmt.get_option_int(timeout_key()).unwrap(), i64::MAX);
}

#[test]
fn ingestion_follows_its_mode() {
    let create = TableNotExistOption::Create as i32;
    let not_exist_fail = TableNotExistOption::Fail as i32;
    let fail = TableExistsOption::Fail as i32;
    let append = TableExistsOption::Append as i32;
    let replace = TableExistsOption::Replace as i32;
    for (mode, if_not_exist, if_exists) in [
        (None, create, fail),
        (Some("adbc.ingest.mode.create"), create, fail),
        (Some("create"), create, fail),
        (Some("adbc.ingest.mode.append"), not_exist_fail, append),
        (Some("append"), not_exist_fail, append),
        (Some("adbc.ingest.mode.replace"), not_exist_fail, replace),
        (Some("replace"), not_exist_fail, replace),
        (Some("adbc.ingest.mode.create_append"), create, append),
        (Some("create_append"), create, append),
    ] {
        let mut stmt = make_statement();
        stmt.set_option(OptionStatement::TargetTable, text("t")).unwrap();
        stmt.set_option(OptionStatement::TargetCatalog, text("c")).unwrap();
        stmt.set_option(OptionStatement::TargetDbSchema, text("")).unwrap();
        stmt.set_option(OptionStatement::Temporary, text("true")).unwrap();
        if let Some(m) = mode {
            stmt.set_option(OptionStatement::IngestMode, text(m)).unwrap();
        }
        stmt.bound_batch = Some(batch_a());
        let request = stmt.execute_ingest().ok().unwrap();
        assert_eq!(request.command.if_not_exist, if_not_exist);
        assert_eq!(request.command.if_exists, if_exists);
        assert_eq!(request.command.table, "t");
        assert_eq!(request.command.catalog.as_deref(), Some("c"));
        assert_eq!(request.command.schema, None);
        assert!(request.command.temporary);
        assert_eq!(*request.batch.inner.schema(), schema_a());
        assert!(stmt.bound_batch.is_none());
        assert_eq!(stmt.answer_ingest(Ok(7)).unwrap(), 7);
    }
}

#[test]
fn ingestion_asks_for_what_is_missing() {
    let mut stmt = make_statement();
    let error = stmt.execute_ingest().err().unwrap();
    assert_eq!(error.message, "[adbc_flightsql] no target table set for ingest");
    stmt.set_option(OptionStatement::TargetTable, text("t")).unwrap();
    stmt.set_option(OptionStatement::IngestMode, text("merge")).unwrap();
    let error = stmt.execute().err().unwrap();
    assert_eq!(error.status, Status::InvalidArguments);
    assert_eq!(error.message, "[adbc_flightsql] unknown ingest mode: merge");
    stmt.set_option(OptionStatement::IngestMode, text("append")).unwrap();
    let error = stmt.execute_update().err().unwrap();
    assert_eq!(error.status, Status::InvalidState);
    assert_eq!(error.message, "[adbc_flightsql] must call Bind before executing ingest");
    stmt.bound_batch = Some(batch_a());
    assert!(matches!(stmt.execute_update(), Ok(ExecuteStep::Ingest(_))));
    stmt.bound_batch = Some(batch_a());
    assert!(matches!(stmt.execute(), Ok(ExecuteStep::Ingest(_))));
    assert!(!stmt.validity.cancelled);
    assert_eq!(stmt.answer_ingest_query(Ok(3)).unwrap(), Schema::empty());
    assert!(stmt.answer_ingest_query(Err(unavailable())).is_err());
    let failed = stmt.answer_ingest(Err(unavailable())).unwrap_err();
    assert_eq!(
        failed.message,
        format!("[FlightSQL] down (gRPC {:?}; ExecuteIngest)", tonic::Code::Unavailable)
    );
    stmt.set_sql_query("SELECT 1").unwrap();
    assert!(matches!(stmt.execute(), Ok(ExecuteStep::Query(q)) if q == "SELECT 1"));
}

#[test]
fn options_of_ingestion_take_texts() {
    let mut stmt = make_statement();
    for (key, name) in [
        (OptionStatement::IngestMode, "IngestMode"),
        (OptionStatement::TargetTable, "TargetTable"),
        (OptionStatement::TargetCatalog, "TargetCatalog"),
        (OptionStatement::TargetDbSchema, "TargetDbSchema"),
        (OptionStatement::Temporary, "Temporary"),
    ] {
        let error = stmt.set_option(key, OptionValue::Int(1)).err().unwrap();
        assert_eq!(
            error.message,
            format!("[adbc_flightsql] could not invalid option {name}=Int(1): must be a string")
        );
    }
    for key in
        [OptionStatement::Incremental, OptionStatement::Progress, OptionStatement::MaxProgress]
    {
        assert!(matches!(stmt.set_option(key, OptionValue::Int(1)), Ok(OptionEffect::Done)));
    }
    stmt.set_option(OptionStatement::Temporary, text("adbc.option.value.enabled")).unwrap();
    assert!(stmt.ingest_temporary);
    stmt.set_option(OptionStatement::Temporary, text("yes")).unwrap();
    assert!(!stmt.ingest_temporary);
    let int = stmt.get_option_int(OptionStatement::Temporary).unwrap_err();
    assert_eq!(int.message, "[adbc_flightsql] Option Temporary not available as int");
    let bytes = stmt.get_option_bytes(OptionStatement::Other("b".into())).unwrap_err();
    assert_eq!(bytes.message, "[adbc_flightsql] Option Other(\"b\") not available");
    let string = stmt.get_option_string(OptionStatement::Progress).unwrap_err();
    assert_eq!(string.message, "[adbc_flightsql] Option Progress not available");
    let number = stmt.get_option_double(OptionStatement::Progress).unwrap_err();
    assert_eq!(number.message, "[adbc_flightsql] Option Progress not available");
}

#[test]
fn statements_have_timeouts_of_their_own() {
    let mut stmt = make_statement();
    let key = "adbc.flight.sql.rpc.timeout_seconds.update";
    let seconds =
        Double { bits: 2.25f64.to_bits(), display: "2.25".into(), debug: "2.25".into() };
    let set = stmt.set_option(OptionStatement::Other(key.into()), OptionValue::Double(seconds));
    assert!(matches!(set, Ok(OptionEffect::Done)));
    assert_eq!(
        stmt.get_option_double(OptionStatement::Other(key.into())).unwrap(),
        Duration { secs: 2, nanos: 250_000_000 }
    );
    let set = stmt.set_option(OptionStatement::Other(key.into()), text("3"));
    assert!(matches!(set, Ok(OptionEffect::ConvertSeconds(Number::Text(t))) if t == "3"));
    let three = Double { bits: 3f64.to_bits(), display: "3".into(), debug: "3.0".into() };
    stmt.set_converted_seconds(key, Some(three)).unwrap();
    assert_eq!(
        stmt.get_option_double(OptionStatement::Other(key.into())).unwrap(),
        Duration::from_secs(3)
    );
}

#[test]
fn running_again_ends_earlier_results() {
    let mut stmt = make_statement();
    stmt.set_sql_query("SELECT 1").unwrap();
    stmt.execute().ok().unwrap();
    let first = stmt.answer_open(&schema_a(), Ok(())).unwrap();
    assert!(!stmt.validity.is_cancelled(first));
    assert_eq!(stmt.cached_schema, Some(schema_a()));
    stmt.execute().ok().unwrap();
    assert!(stmt.validity.is_cancelled(first));
    let failed = stmt.answer_open(&schema_a(), Err(unavailable())).unwrap_err();
    assert_eq!(
        failed.message,
        format!("[FlightSQL] down (gRPC {:?}; opening result stream)", tonic::Code::Unavailable)
    );
    assert!(stmt.validity.is_cancelled(first));
    let second = stmt.answer_open(&schema_a(), Ok(())).unwrap();
    assert!(stmt.validity.is_cancelled(first));
    assert!(!stmt.validity.is_cancelled(second));
}

#[test]
fn results_are_found_by_their_first_ticket() {
    let stmt = make_statement();
    let info = flight(&[Some("one"), Some("two")]);
    let info = arrow_flight::FlightInfo { schema: vec![7].into(), ..info };
    let decode = |bytes: Vec<u8>| match bytes.as_slice() {
        [7] => Ok(schema_a()),
        _ => Ok(Schema::empty()),
    };
    let source = stmt.find_results(&info, decode).ok().unwrap();
    assert_eq!(source.ticket, b"one");
    assert_eq!(source.schema, schema_a());
    for empty in [flight(&[]), flight(&[None, Some("two")])] {
        let error = stmt.find_results(&empty, decode).err().unwrap();
        assert_eq!(error.status, Status::Internal);
        assert_eq!(
            error.message,
            "[adbc_flightsql] server returned FlightInfo with no endpoints/tickets"
        );
    }
    let error = stmt.find_results(&info, |_| Err("broken".into())).err().unwrap();
    assert_eq!(error.message, "[adbc_flightsql] failed to decode result schema: broken");
}

#[test]
fn schemas_are_learned_step_by_step() {
    let mut stmt = make_statement();
    stmt.set_sql_query("SELECT 1").unwrap();
    assert!(matches!(
        stmt.execute_schema(),
        Ok(ResultSchemaStep::Prepare(q)) if q == "SELECT 1"
    ));
    assert!(matches!(
        stmt.answer_prepared_schema(Err(unavailable())),
        Ok(ResultSchemaStep::Limited(q)) if q == "SELECT 1 LIMIT 0"
    ));
    let info = stmt.answer_limited(Ok(flight(&[Some("x")]))).unwrap();
    assert_eq!(info, flight(&[Some("x")]));
    let failed = stmt.answer_limited(Err(unavailable())).unwrap_err();
    assert!(failed.message.contains("executing schema query"));
    let failed = stmt.answer_limited_schema(&info, |_| Err("broken".into())).unwrap_err();
    assert_eq!(failed.message, "[adbc_flightsql] failed to decode schema: broken");
    assert_eq!(stmt.cached_schema, None);
    let info = arrow_flight::FlightInfo { schema: vec![7].into(), ..info };
    let decode = |bytes: Vec<u8>| match bytes.as_slice() {
        [7] => Ok(schema_a()),
        _ => Err("odd".to_string()),
    };
    assert_eq!(stmt.answer_limited_schema(&info, decode).unwrap(), schema_a());
    assert_eq!(stmt.cached_schema, Some(schema_a()));
    stmt.set_sql_query("SELECT 2").unwrap();
    let failed = stmt.answer_prepared_schema(Ok(Err(unavailable()))).err().unwrap();
    assert!(failed.message.contains("getting prepared schema"));
    assert!(matches!(
        stmt.answer_prepared_schema(Ok(Ok(schema_a()))),
        Ok(ResultSchemaStep::Known(s)) if s == schema_a()
    ));
    assert_eq!(stmt.cached_schema, Some(schema_a()));
    stmt.set_sql_query("SELECT 3").unwrap();
    let failed = stmt.answer_dataset_schema(Err("none".into())).unwrap_err();
    assert_eq!(failed.message, "[adbc_flightsql] failed to get dataset schema: none");
    stmt.answer_dataset_schema(Ok(schema_a())).unwrap();
    assert_eq!(stmt.cached_schema, Some(schema_a()));
}

#[test]
fn prepared_statements_take_parameters() {
    let mut stmt = make_statement();
    stmt.set_sql_query("SELECT ?").unwrap();
    let request = stmt.prepare().ok().unwrap();
    assert_eq!((request.sql.as_str(), request.closes), ("SELECT ?", false));
    let failed = stmt.answer_prepare(Err(unavailable())).unwrap_err();
    assert_eq!(
        failed.message,
        format!("[FlightSQL] down (gRPC {:?}; Prepare)", tonic::Code::Unavailable)
    );
    let failed = stmt.answer_prepare(Ok(Err("odd".into()))).unwrap_err();
    assert_eq!(failed.message, "[adbc_flightsql] failed to get parameter schema: odd");
    assert!(!stmt.prepared);
    stmt.answer_prepare(Ok(Ok(schema_a()))).unwrap();
    assert!(stmt.prepared);
    assert_eq!(stmt.get_parameter_schema().unwrap(), schema_a());
    let rows = stmt.bind(batch_a()).ok().unwrap();
    assert_eq!(*rows.inner.schema(), schema_a());
    stmt.answer_bind(Ok(())).unwrap();
    let failed = stmt.answer_bind(Err("wrong".into())).unwrap_err();
    assert_eq!(failed.status, Status::InvalidState);
    assert_eq!(
        failed.message,
        "[adbc_flightsql] could not binding parameters: bind failed: wrong"
    );
    let streamed = stmt.bind_stream().unwrap_err();
    assert_eq!(streamed.status, Status::NotImplemented);
    assert!(matches!(stmt.execute(), Ok(ExecuteStep::Prepared)));
    assert!(matches!(stmt.execute_update(), Ok(ExecuteStep::Prepared)));
    assert!(matches!(stmt.execute_partitions(), Ok(ExecuteStep::Prepared)));
    assert!(matches!(stmt.execute_schema(), Ok(ResultSchemaStep::Prepared)));
    assert_eq!(stmt.answer_update(Ok(3)).unwrap(), 3);
    let failed = stmt.answer_update(Err(unavailable())).unwrap_err();
    assert!(failed.message.contains("executing prepared update"));
    let failed = stmt.answer_execute(Err(unavailable())).unwrap_err();
    assert!(failed.message.contains("; executing prepared statement)"));
    assert!(stmt.prepare().ok().unwrap().closes);
    stmt.answer_prepare(Ok(Ok(schema_a()))).unwrap();
    assert!(stmt.set_sql_query("SELECT 1").unwrap());
    assert!(!stmt.set_sql_query("SELECT 1").unwrap());
    assert!(stmt.get_parameter_schema().is_err());
    let failed = stmt.answer_execute(Err(unavailable())).unwrap_err();
    assert!(failed.message.contains("; executing query)"));
    stmt.prepared = true;
    stmt.prepared_parameter_schema = None;
    let missing = stmt.get_parameter_schema().unwrap_err();
    assert_eq!(missing.status, Status::NotImplemented);
}

#[test]
fn results_are_split_into_partitions() {
    let mut stmt = make_statement();
    let error = stmt.execute_partitions().err().unwrap();
    assert_eq!(
        error.message,
        "[adbc_flightsql] could not executing partitions: no SQL query set — call \
         set_sql_query() first"
    );
    stmt.set_sql_query("SELECT 1").unwrap();
    assert!(matches!(stmt.execute_partitions(), Ok(ExecuteStep::Query(q)) if q == "SELECT 1"));
    let failed = stmt.answer_partitions(Err(unavailable())).unwrap_err();
    assert!(failed.message.contains("; executing partitions)"));
    let info = flight(&[Some("one"), Some("two")]);
    assert_eq!(stmt.answer_partitions(Ok(info.clone())).unwrap(), info);
    let info = arrow_flight::FlightInfo { schema: vec![7].into(), ..info };
    let decode = |bytes: Vec<u8>| match bytes.as_slice() {
        [7] => Ok(schema_a()),
        _ => Err("odd".to_string()),
    };
    let result = stmt.partition_results(&info, decode).ok().unwrap();
    assert_eq!(result.partitions.len(), 2);
    assert_eq!(result.schema, schema_a());
    assert_eq!(result.rows_affected, -1);
    let error = stmt.partition_results(&info, |_| Err("broken".into())).err().unwrap();
    assert_eq!(error.message, "[adbc_flightsql] failed to decode partition schema: broken");
}

#[test]
fn the_schema_of_the_latest_results_is_known() {
    let mut stmt = make_statement();
    stmt.set_sql_query("SELECT 1").unwrap();
    assert!(matches!(stmt.execute(), Ok(ExecuteStep::Query(_))));
    let number = stmt.answer_open(&schema_a(), Ok(())).unwrap();
    assert!(!stmt.validity.is_cancelled(number));
    for _ in 0..2 {
        let step = stmt.execute_schema();
        assert!(matches!(step, Ok(ResultSchemaStep::Known(s)) if s == schema_a()));
        assert!(stmt.validity.is_cancelled(number));
    }
    assert!(matches!(stmt.execute(), Ok(ExecuteStep::Query(_))));
    let next = stmt.answer_open(&schema_a(), Ok(())).unwrap();
    assert!(stmt.validity.is_cancelled(number));
    assert!(!stmt.validity.is_cancelled(next));
}
