use std::sync::Arc;

use adbc_flightsql::columns::Batch;
use adbc_flightsql::error::{
    ArrowError, Code, ErrorHelper, FlightError, FlightSqlErrorHelper, Status,
};
use adbc_flightsql::metadata::collect::{
    answer_table_types, collect_string_column, collect_table_and_column_info, collect_table_info,
    first_schema, get_table_schema, get_table_types, has_first_schema, has_schemas, has_tables,
    has_texts, map_flight_error_e, metadata_ticket, sql_info_ticket, open_sql_info,
    open_table_types, table_schema_bytes, SchemaStep,
};
use adbc_flightsql::metadata::objects::{
    get_objects_schema, ColumnInfo, ObjectDepth, TableAndColumnInfo, TableInfo,
};
use adbc_flightsql::metadata::walk::{
    get_catalogs, get_objects, BatchIterator, CommandGetDbSchemas, CommandGetTables,
    ObjectsRequest, Step,
};
use arrow_array::cast::AsArray;
use arrow_array::types::Int32Type;
use arrow_array::{Array, ArrayRef, BinaryArray, RecordBatch, StringArray, StructArray};
use arrow_flight::{FlightEndpoint, FlightInfo, Ticket};
use arrow_schema::{DataType, Field, Schema};

fn own(texts: &[&str]) -> Vec<String> {
    texts.iter().map(|t| t.to_string()).collect()
}

fn table(name: &str, kind: &str) -> TableInfo {
    TableInfo { table_name: name.to_string(), table_type: kind.to_string() }
}

fn full_table(name: &str, kind: &str, columns: &[&str]) -> TableAndColumnInfo {
    let columns =
        columns.iter().map(|c| ColumnInfo { column_name: c.to_string() }).collect();
    TableAndColumnInfo { table: table(name, kind), columns }
}

fn ask(walk: &mut BatchIterator) -> ObjectsRequest {
    match walk.next() {
        Step::Ask(request) => request,
        _ => panic!("expected a request"),
    }
}

fn batch(walk: &mut BatchIterator) -> RecordBatch {
    match walk.next() {
        Step::Yield(Ok(batch)) => {
            assert_eq!(*batch.inner.schema(), get_objects_schema());
            assert_eq!(batch.inner.num_rows(), 1);
            for column in batch.inner.columns() {
                column.to_data().validate_full().unwrap();
            }
            batch.inner
        }
        _ => panic!("expected a batch"),
    }
}

fn ended(walk: &mut BatchIterator) -> bool {
    matches!(walk.next(), Step::End)
}

fn catalog_of(batch: &RecordBatch) -> String {
    batch.column(0).as_string::<i32>().value(0).to_string()
}

fn schemas_of(batch: &RecordBatch) -> Option<StructArray> {
    let lists = batch.column(1).as_list::<i32>();
    if lists.is_null(0) {
        None
    } else {
        Some(lists.value(0).as_struct().clone())
    }
}

fn texts_in(rows: &StructArray, i: usize) -> Vec<String> {
    let column = rows.column(i).as_string::<i32>();
    assert_eq!(column.null_count(), 0);
    column.iter().map(|t| t.unwrap().to_string()).collect()
}

fn list_in(rows: &StructArray, column: usize, row: usize) -> Option<StructArray> {
    let lists = rows.column(column).as_list::<i32>();
    if lists.is_null(row) {
        None
    } else {
        Some(lists.value(row).as_struct().clone())
    }
}

fn unavailable() -> FlightError {
    FlightError::Tonic {
        code: Code::Unavailable,
        message: "down".to_string(),
        text: "Tonic error: down".to_string(),
    }
}

fn flight(tickets: &[Option<&'static str>]) -> FlightInfo {
    let mut info = FlightInfo::new();
    for ticket in tickets {
        let mut endpoint = FlightEndpoint::new();
        if let Some(t) = ticket {
            endpoint = endpoint.with_ticket(Ticket::new(*t));
        }
        info = info.with_endpoint(endpoint);
    }
    info
}

fn tables_answer(rows: &[(&str, &str, Option<&[u8]>)]) -> Batch {
    let texts = |f: &dyn Fn(&(&str, &str, Option<&[u8]>)) -> String| -> ArrayRef {
        Arc::new(StringArray::from(rows.iter().map(f).collect::<Vec<_>>()))
    };
    let schemas: Vec<Option<&[u8]>> = rows.iter().map(|r| r.2).collect();
    let columns: Vec<ArrayRef> = vec![
        texts(&|_| "c".to_string()),
        texts(&|_| "s".to_string()),
        texts(&|r| r.0.to_string()),
        texts(&|r| r.1.to_string()),
        Arc::new(BinaryArray::from(schemas)),
    ];
    let fields: Vec<Field> = columns
        .iter()
        .enumerate()
        .map(|(i, c)| Field::new(format!("f{i}"), c.data_type().clone(), true))
        .collect();
    Batch { inner: RecordBatch::try_new(Arc::new(Schema::new(fields)), columns).unwrap() }
}

#[test]
fn catalogs_alone_have_no_schemas() {
    let mut walk = get_objects(ObjectDepth::Catalogs, Some("a"), None, None, None, None);
    assert!(matches!(ask(&mut walk), ObjectsRequest::Catalogs));
    walk.answer_catalogs(Ok(own(&["cat", "dog", "", "bat"]))).ok().unwrap();
    for name in ["cat", "bat"] {
        let found = batch(&mut walk);
        assert_eq!(catalog_of(&found), name);
        assert!(schemas_of(&found).is_none());
    }
    assert!(ended(&mut walk));
    assert!(ended(&mut walk));
}

#[test]
fn schemas_have_no_tables() {
    let mut walk = get_objects(ObjectDepth::Schemas, None, Some("s%"), None, None, None);
    assert!(matches!(ask(&mut walk), ObjectsRequest::Catalogs));
    walk.answer_catalogs(Ok(own(&["one", "two"]))).ok().unwrap();
    for (catalog, schemas) in [("one", own(&["s1", "s2"])), ("two", Vec::new())] {
        match ask(&mut walk) {
            ObjectsRequest::DbSchemas(command) => {
                assert_eq!(command.catalog.as_deref(), Some(catalog));
                assert_eq!(command.db_schema_filter_pattern.as_deref(), Some("s%"));
            }
            _ => panic!("expected a request for schemas"),
        }
        walk.answer_db_schemas(Ok(schemas.clone())).ok().unwrap();
        let found = batch(&mut walk);
        assert_eq!(catalog_of(&found), catalog);
        let rows = schemas_of(&found).unwrap();
        assert_eq!(texts_in(&rows, 0), schemas);
        for i in 0..rows.len() {
            assert!(list_in(&rows, 1, i).is_none());
        }
    }
    assert!(ended(&mut walk));
}

#[test]
fn tables_have_no_columns() {
    let kinds = Some(own(&["TABLE", "VIEW"]));
    let mut walk = get_objects(ObjectDepth::Tables, None, None, Some("t%"), kinds, Some("c%"));
    ask(&mut walk);
    walk.answer_catalogs(Ok(own(&["cat"]))).ok().unwrap();
    ask(&mut walk);
    walk.answer_db_schemas(Ok(own(&["s1", "", "s3"]))).ok().unwrap();
    let answers: [&[(&str, &str)]; 3] =
        [&[("t1", "TABLE"), ("t2", "VIEW")], &[], &[("t3", "TABLE")]];
    for (name, tables) in [Some("s1"), None, Some("s3")].iter().zip(answers) {
        match ask(&mut walk) {
            ObjectsRequest::Tables(command) => {
                assert_eq!(command.catalog.as_deref(), Some("cat"));
                assert_eq!(command.db_schema_filter_pattern.as_deref(), *name);
                assert_eq!(command.table_name_filter_pattern.as_deref(), Some("t%"));
                assert_eq!(command.table_types, own(&["TABLE", "VIEW"]));
                assert!(!command.include_schema);
            }
            _ => panic!("expected a request for tables"),
        }
        let found = tables.iter().map(|(n, k)| table(n, k)).collect();
        walk.answer_tables(Ok(found)).ok().unwrap();
    }
    let rows = schemas_of(&batch(&mut walk)).unwrap();
    assert_eq!(texts_in(&rows, 0), own(&["s1", "", "s3"]));
    let first = list_in(&rows, 1, 0).unwrap();
    assert_eq!(texts_in(&first, 0), own(&["t1", "t2"]));
    assert_eq!(texts_in(&first, 1), own(&["TABLE", "VIEW"]));
    assert!(list_in(&first, 2, 0).is_none());
    assert!(list_in(&first, 3, 1).is_none());
    assert_eq!(list_in(&rows, 1, 1).unwrap().len(), 0);
    assert_eq!(texts_in(&list_in(&rows, 1, 2).unwrap(), 0), own(&["t3"]));
    assert!(ended(&mut walk));
}

#[test]
fn columns_are_numbered_from_one() {
    for depth in [ObjectDepth::Columns, ObjectDepth::All] {
        let mut walk = get_objects(depth, None, None, None, None, None);
        ask(&mut walk);
        walk.answer_catalogs(Ok(Vec::new())).ok().unwrap();
        match ask(&mut walk) {
            ObjectsRequest::DbSchemas(command) => assert_eq!(command.catalog, None),
            _ => panic!("expected a request for schemas"),
        }
        walk.answer_db_schemas(Ok(own(&["s"]))).ok().unwrap();
        match ask(&mut walk) {
            ObjectsRequest::Columns(command) => {
                assert_eq!(command.catalog, None);
                assert!(command.include_schema);
                assert!(command.table_types.is_empty());
            }
            _ => panic!("expected a request for columns"),
        }
        let tables = vec![
            full_table("t1", "TABLE", &["a", "b", "c"]),
            full_table("t2", "TABLE", &[]),
            full_table("t3", "VIEW", &["d"]),
        ];
        walk.answer_columns(Ok(tables)).ok().unwrap();
        let found = batch(&mut walk);
        assert_eq!(catalog_of(&found), "");
        let schemas = schemas_of(&found).unwrap();
        let tables = list_in(&schemas, 1, 0).unwrap();
        assert_eq!(texts_in(&tables, 0), own(&["t1", "t2", "t3"]));
        let expected: [&[&str]; 3] = [&["a", "b", "c"], &[], &["d"]];
        for (i, names) in expected.iter().enumerate() {
            let columns = list_in(&tables, 2, i).unwrap();
            assert_eq!(texts_in(&columns, 0), own(names));
            let ordinals = columns.column(1).as_primitive::<Int32Type>();
            let counted: Vec<i32> = (1..=names.len() as i32).collect();
            assert_eq!(ordinals.values().to_vec(), counted);
            for k in 2..19 {
                assert_eq!(columns.column(k).null_count(), names.len());
            }
        }
        assert!(ended(&mut walk));
    }
}

#[test]
fn a_failed_answer_ends_the_walk() {
    let error = || FlightSqlErrorHelper::io().message("lost");
    let start = || {
        let mut walk = get_objects(ObjectDepth::Tables, None, None, None, None, None);
        ask(&mut walk);
        walk
    };
    let told = |result: Result<(), ArrowError>| match result {
        Err(ArrowError::ExternalError(text)) => text,
        _ => panic!("expected an external error"),
    };
    let mut walk = start();
    let first = told(walk.answer_catalogs(Err(error())));
    assert_eq!(first, error().display_text());
    assert_eq!(first, "IO: [adbc_flightsql] lost");
    assert!(ended(&mut walk));
    let mut walk = start();
    walk.answer_catalogs(Ok(own(&["c"]))).ok().unwrap();
    ask(&mut walk);
    assert_eq!(told(walk.answer_db_schemas(Err(error()))), first);
    assert!(ended(&mut walk));
    let mut walk = start();
    walk.answer_catalogs(Ok(own(&["c"]))).ok().unwrap();
    ask(&mut walk);
    walk.answer_db_schemas(Ok(own(&["s"]))).ok().unwrap();
    ask(&mut walk);
    assert_eq!(told(walk.answer_tables(Err(error()))), first);
    assert!(ended(&mut walk));
    let mut walk = get_objects(ObjectDepth::Schemas, None, None, None, None, None);
    ask(&mut walk);
    walk.answer_catalogs(Ok(own(&["a", "b", "c"]))).ok().unwrap();
    ask(&mut walk);
    walk.answer_db_schemas(Ok(own(&["s"]))).ok().unwrap();
    assert_eq!(catalog_of(&batch(&mut walk)), "a");
    ask(&mut walk);
    assert_eq!(told(walk.answer_db_schemas(Err(error()))), first);
    assert!(ended(&mut walk));
    assert!(ended(&mut walk));
}

#[test]
fn catalogs_are_selected_by_what_they_hold() {
    let found = || own(&["sales", "salt", "tales"]);
    let select = |found, filter| -> Vec<String> {
        get_catalogs(found, filter).into_iter().collect()
    };
    assert_eq!(select(found(), None), found());
    assert_eq!(select(found(), Some("")), found());
    assert_eq!(select(found(), Some("ales")), own(&["sales", "tales"]));
    assert_eq!(select(found(), Some("%")), Vec::<String>::new());
    assert_eq!(select(Vec::new(), Some("x")), own(&[""]));
    assert_eq!(select(Vec::new(), None), own(&[""]));
}

#[test]
fn texts_are_collected_without_nulls() {
    let names = |texts: Vec<Option<&str>>| {
        let column: ArrayRef = Arc::new(StringArray::from(texts));
        let schema = Schema::new(vec![Field::new("n", DataType::Utf8, true)]);
        Batch { inner: RecordBatch::try_new(Arc::new(schema), vec![column]).unwrap() }
    };
    let first = || names(vec![Some("a"), None, Some("b")]);
    let read = vec![Ok(first()), Ok(names(vec![])), Ok(names(vec![Some("c")]))];
    assert_eq!(collect_string_column(read, 0).ok().unwrap(), own(&["a", "b", "c"]));
    assert_eq!(collect_string_column(Vec::new(), 0).ok().unwrap(), Vec::<String>::new());
    let late = FlightError::Other { text: "late".to_string() };
    let read = vec![Ok(first()), Err(unavailable()), Err(late)];
    let error = collect_string_column(read, 0).err().unwrap().to_adbc();
    assert_eq!(error.status, Status::Unknown);
    assert!(error.message.contains("; reading metadata batch)"));
}

#[test]
fn schemas_come_out_under_their_own_names() {
    let column = |texts: Vec<&str>| -> ArrayRef { Arc::new(StringArray::from(texts)) };
    let answer = || {
        let schema = Schema::new(vec![
            Field::new("catalog_name", DataType::Utf8, true),
            Field::new("db_schema_name", DataType::Utf8, false),
        ]);
        let columns = vec![column(vec!["main", "main"]), column(vec!["public", "private"])];
        Batch { inner: RecordBatch::try_new(Arc::new(schema), columns).unwrap() }
    };
    let command = CommandGetDbSchemas { catalog: None, db_schema_filter_pattern: None };
    let schemas = ObjectsRequest::DbSchemas(command).names_column().unwrap();
    assert!(has_texts(&answer(), schemas));
    let found = collect_string_column(vec![Ok(answer())], schemas).ok().unwrap();
    assert_eq!(found, own(&["public", "private"]));
    let catalogs = ObjectsRequest::Catalogs.names_column().unwrap();
    let found = collect_string_column(vec![Ok(answer())], catalogs).ok().unwrap();
    assert_eq!(found, own(&["main", "main"]));
}

#[test]
fn tables_are_collected_with_their_columns() {
    let answer = || {
        tables_answer(&[
            ("t1", "TABLE", Some(&[1, 2])),
            ("t2", "VIEW", None),
            ("t3", "TABLE", Some(&[])),
            ("t4", "TABLE", Some(&[3])),
        ])
    };
    let more = || tables_answer(&[("t5", "TABLE", Some(&[4]))]);
    let tables = collect_table_info(vec![Ok(answer()), Ok(more())]).ok().unwrap();
    let names: Vec<&str> = tables.iter().map(|t| t.table_name.as_str()).collect();
    assert_eq!(names, ["t1", "t2", "t3", "t4", "t5"]);
    assert_eq!(tables[1].table_type, "VIEW");
    let read = vec![Ok(answer()), Err(unavailable())];
    let error = collect_table_info(read).err().unwrap().to_adbc();
    assert!(error.message.contains("; reading tables batch)"));
    assert_eq!(table_schema_bytes(&answer(), 0), Some(vec![1, 2]));
    assert_eq!(table_schema_bytes(&answer(), 1), None);
    assert_eq!(table_schema_bytes(&answer(), 2), None);
    let schema = || {
        Schema::new(vec![
            Field::new("x", DataType::Int32, true),
            Field::new("y", DataType::Utf8, true),
        ])
    };
    let decode = |bytes: Vec<u8>| match bytes.as_slice() {
        [1, 2] => Ok(schema()),
        [4] => Ok(Schema::new(vec![Field::new("z", DataType::Int32, true)])),
        _ => Err("odd".to_string()),
    };
    let full =
        collect_table_and_column_info(vec![Ok(answer()), Ok(more())], decode).ok().unwrap();
    let columns: Vec<Vec<&str>> = full
        .iter()
        .map(|t| t.columns.iter().map(|c| c.column_name.as_str()).collect())
        .collect();
    assert_eq!(columns, vec![vec!["x", "y"], vec![], vec![], vec![], vec!["z"]]);
    assert_eq!(full[3].table.table_name, "t4");
    let error = collect_table_and_column_info(vec![Err(unavailable())], decode)
        .err()
        .unwrap()
        .to_adbc();
    assert!(error.message.contains("; reading columns batch)"));
}

#[test]
fn answers_have_their_columns() {
    let tables = tables_answer(&[("t", "TABLE", Some(&[1]))]);
    assert!(has_texts(&tables, 0));
    assert!(!has_texts(&tables, 4));
    assert!(!has_texts(&tables, 5));
    assert!(has_tables(&tables));
    assert!(has_schemas(&tables));
    assert!(has_first_schema(&tables));
    assert!(!has_first_schema(&tables_answer(&[])));
    let types = [
        DataType::Int32,
        DataType::Utf8,
        DataType::Utf8,
        DataType::Utf8,
        DataType::Int32,
    ];
    let cut = |n: usize| {
        let field = |t: &DataType| Field::new("c", t.clone(), true);
        let schema = Schema::new(types[..n].iter().map(field).collect::<Vec<_>>());
        Batch { inner: RecordBatch::new_empty(Arc::new(schema)) }
    };
    assert!(!has_texts(&cut(0), 0));
    assert!(!has_texts(&cut(4), 0));
    assert!(has_texts(&cut(4), 1));
    assert!(!has_tables(&cut(3)));
    assert!(has_tables(&cut(4)));
    assert!(!has_schemas(&cut(4)));
    assert!(has_schemas(&cut(5)));
    let full = collect_table_and_column_info(vec![Ok(cut(5))], |_| Err(String::new()));
    assert!(full.ok().unwrap().is_empty());
    assert!(!has_first_schema(&cut(4)));
}

#[test]
fn ordinary_names_fit() {
    let mut walk = get_objects(ObjectDepth::Columns, Some("c"), None, None, None, None);
    assert!(walk.fits_catalogs(&own(&["c", "d"])));
    ask(&mut walk);
    walk.answer_catalogs(Ok(own(&["c"]))).ok().unwrap();
    ask(&mut walk);
    assert!(walk.fits_db_schemas(&own(&["s"])));
    walk.answer_db_schemas(Ok(own(&["s"]))).ok().unwrap();
    ask(&mut walk);
    assert!(walk.fits_tables(&vec![table("t", "TABLE")]));
    assert!(walk.fits_columns(&vec![full_table("t", "TABLE", &["a"])]));
    let walk = get_objects(ObjectDepth::Schemas, None, None, None, None, None);
    assert!(walk.fits_db_schemas(&own(&["s", ""])));
}

#[test]
fn failed_requests_say_what_they_were_for() {
    let tables = || CommandGetTables {
        catalog: None,
        db_schema_filter_pattern: None,
        table_name_filter_pattern: None,
        table_types: Vec::new(),
        include_schema: false,
    };
    let schemas = CommandGetDbSchemas { catalog: None, db_schema_filter_pattern: None };
    for (request, asking, opening) in [
        (ObjectsRequest::Catalogs, "getting catalogs", "opening metadata stream"),
        (ObjectsRequest::DbSchemas(schemas), "getting db schemas", "opening metadata stream"),
        (ObjectsRequest::Tables(tables()), "getting tables", "opening tables stream"),
        (
            ObjectsRequest::Columns(tables()),
            "getting tables with columns",
            "opening columns stream",
        ),
    ] {
        let message = |context: &str| {
            format!(
                "[adbc_flightsql] IO: [FlightSQL] down (gRPC {:?}; {context}) (sqlstate: \
                 [0, 0, 0, 0, 0], vendor_code: 14)",
                tonic::Code::Unavailable
            )
        };
        let error = request.answer_info(Err(unavailable())).err().unwrap().to_adbc();
        assert_eq!(error.message, message(asking));
        let error = request.answer_open::<u8>(Err(unavailable())).err().unwrap().to_adbc();
        assert_eq!(error.message, message(opening));
        assert_eq!(request.answer_open(Ok(5)).ok().unwrap(), 5);
        assert_eq!(request.answer_info(Ok(flight(&[Some("a")]))).ok().unwrap(), b"a");
        let error = request.answer_info(Ok(flight(&[]))).err().unwrap().to_adbc();
        assert_eq!(error.message, "[adbc_flightsql] metadata response has no endpoints");
    }
}

#[test]
fn answers_are_fetched_with_their_first_ticket() {
    let error = map_flight_error_e(unavailable(), "asking").to_adbc();
    assert_eq!(error.status, Status::Unknown);
    assert!(error.message.contains("[FlightSQL] down"));
    assert_eq!(metadata_ticket(&flight(&[Some("a")])).ok().unwrap(), b"a");
    let error = metadata_ticket(&flight(&[])).err().unwrap().to_adbc();
    assert_eq!(error.message, "[adbc_flightsql] metadata response has no endpoints");
    let schema = Schema::new(vec![Field::new("s", DataType::Int32, true)]);
    let decode = |bytes: Vec<u8>| match bytes.as_slice() {
        [7] => Ok(schema.clone()),
        _ => Ok(Schema::empty()),
    };
    let types = arrow_flight::FlightInfo { schema: vec![7].into(), ..flight(&[Some("a")]) };
    let source = get_table_types(&types, decode).ok().unwrap();
    assert_eq!((source.ticket, source.schema), (b"a".to_vec(), schema.clone()));
    let error = get_table_types(&flight(&[None]), decode).err().unwrap();
    assert_eq!(error.message, "[adbc_flightsql] get_table_types response has no endpoints");
    let error = get_table_types(&flight(&[]), |_| Err("odd".to_string())).err().unwrap();
    assert_eq!(error.message, "[adbc_flightsql] failed to decode table types schema: odd");
    assert_eq!(answer_table_types(Ok(flight(&[]))).ok().unwrap(), flight(&[]));
    let error = answer_table_types(Err(unavailable())).err().unwrap();
    assert!(error.message.contains("; getting table types)"));
    assert_eq!(open_table_types(Ok(5)).ok().unwrap(), 5);
    let error = open_table_types::<u8>(Err(unavailable())).err().unwrap();
    assert!(error.message.contains("; opening table types stream)"));
    assert_eq!(open_sql_info(Ok(5)).ok().unwrap(), 5);
    let error = open_sql_info::<u8>(Err(unavailable())).err().unwrap();
    assert!(error.message.contains("; opening get_sql_info stream)"));
    assert_eq!(sql_info_ticket(Err(unavailable())).ok().unwrap(), None);
    assert_eq!(sql_info_ticket(Ok(flight(&[Some("i")]))).ok().unwrap(), Some(b"i".to_vec()));
    let error = sql_info_ticket(Ok(flight(&[]))).err().unwrap();
    assert_eq!(error.message, "[adbc_flightsql] get_sql_info response has no endpoints");
}

#[test]
fn a_table_schema_is_searched_for() {
    let (search, step) = get_table_schema(Some("c"), None, "t");
    match step {
        SchemaStep::GetTables(command) => {
            assert_eq!(command.catalog.as_deref(), Some("c"));
            assert_eq!(command.db_schema_filter_pattern, None);
            assert_eq!(command.table_name_filter_pattern.as_deref(), Some("t"));
            assert!(command.table_types.is_empty());
            assert!(command.include_schema);
        }
        _ => panic!("expected a request for the table"),
    }
    let falls_back =
        |step| matches!(step, SchemaStep::Prepare(q) if q == "SELECT * FROM t LIMIT 0");
    assert!(matches!(
        search.answer_tables(Ok(flight(&[Some("x")]))),
        SchemaStep::Open(t) if t == b"x"
    ));
    assert!(falls_back(search.answer_tables(Ok(flight(&[])))));
    assert!(falls_back(search.answer_tables(Err(unavailable()))));
    assert!(matches!(search.answer_open(Ok(())), SchemaStep::Read));
    assert!(falls_back(search.answer_open(Err(unavailable()))));
    let good = || tables_answer(&[("t", "TABLE", Some(&[1, 2]))]);
    let found = || Schema::new(vec![Field::new("s", DataType::Int32, true)]);
    let decode = |bytes: Vec<u8>| match bytes.as_slice() {
        [1, 2] => Ok(found()),
        _ => Err("odd".to_string()),
    };
    assert!(matches!(
        search.answer_read(Some(Ok(good())), decode),
        SchemaStep::Found(s) if s == found()
    ));
    let odd = tables_answer(&[("t", "TABLE", Some(&[3]))]);
    assert!(falls_back(search.answer_read(Some(Ok(odd)), decode)));
    let bare = || tables_answer(&[("t", "TABLE", None)]);
    assert!(falls_back(search.answer_read(Some(Ok(bare())), decode)));
    assert!(falls_back(search.answer_read(Some(Err(unavailable())), decode)));
    assert!(falls_back(search.answer_read(None, decode)));
    assert_eq!(search.answer_prepare(Ok(Ok(Schema::empty()))).ok().unwrap(), Schema::empty());
    let error = search.answer_prepare(Ok(Err(unavailable()))).err().unwrap();
    assert!(error.message.contains("; getting dataset schema from prepared statement)"));
    let error = search.answer_prepare(Err(unavailable())).err().unwrap();
    assert!(error.message.contains("; preparing query for table schema)"));
    let missing = first_schema(None, "t").err().unwrap();
    assert_eq!(missing.status, Status::NotFound);
    assert_eq!(missing.message, "[adbc_flightsql] table 't' not found");
    let empty = first_schema(Some(Ok(bare())), "t").err().unwrap();
    assert_eq!(
        empty.message,
        "[adbc_flightsql] schema not available for table 't' via get_tables"
    );
    assert_eq!(first_schema(Some(Ok(good())), "t").ok().unwrap(), vec![1, 2]);
}
