use std::sync::Arc;

use adbc_flightsql::columns::{Batch, Column};
use adbc_flightsql::error::{FlightError, Status};
use adbc_flightsql::metadata::info::{
    build_driver_info_registry, extract_union_string, get_info, has_sql_info, info_code_from_u32,
    info_code_to_u32, merge_server_info, try_get_info, InfoBuilder, InfoCode, InfoRegistry,
    InfoValue,
};
use adbc_flightsql::metadata::objects::get_objects_schema;
use arrow_array::builder::{Int64Builder, StringBuilder};
use arrow_array::cast::AsArray;
use arrow_array::types::{Int64Type, UInt32Type};
use arrow_array::{Array, ArrayRef, RecordBatch, StringArray, UInt32Array, UnionArray};
use arrow_buffer::ScalarBuffer;
use arrow_schema::{DataType, Field, Schema, UnionFields};

fn rows(batch: &Batch) -> usize {
    batch.inner.num_rows()
}

fn numbers_of(batch: &Batch) -> Vec<u32> {
    batch.inner.column(0).as_primitive::<UInt32Type>().values().to_vec()
}

fn text_in(batch: &Batch, i: usize) -> Option<String> {
    extract_union_string(&Column { inner: batch.inner.column(1).clone() }, i)
}

fn answer(pairs: &[(u32, Result<Option<&str>, i64>)]) -> Batch {
    let names = UInt32Array::from(pairs.iter().map(|p| p.0).collect::<Vec<_>>());
    let mut strings = StringBuilder::new();
    let mut longs = Int64Builder::new();
    let mut ids: Vec<i8> = Vec::new();
    let mut offsets: Vec<i32> = Vec::new();
    for (_, value) in pairs {
        match value {
            Ok(text) => {
                ids.push(0);
                offsets.push(strings.len_of() as i32);
                strings.append_option(*text);
            }
            Err(number) => {
                ids.push(1);
                offsets.push(longs.len_of() as i32);
                longs.append_value(*number);
            }
        }
    }
    let fields = UnionFields::try_new(
        vec![0i8, 1],
        vec![
            Field::new("string_value", DataType::Utf8, true),
            Field::new("int64_value", DataType::Int64, true),
        ],
    )
    .unwrap();
    let values = UnionArray::try_new(
        fields,
        ScalarBuffer::from(ids),
        Some(ScalarBuffer::from(offsets)),
        vec![Arc::new(strings.finish()), Arc::new(longs.finish())],
    )
    .unwrap();
    let schema = Schema::new(vec![
        Field::new("info_name", DataType::UInt32, false),
        Field::new("value", values.data_type().clone(), false),
    ]);
    let columns: Vec<ArrayRef> = vec![Arc::new(names), Arc::new(values)];
    Batch { inner: RecordBatch::try_new(Arc::new(schema), columns).unwrap() }
}

trait Length {
    fn len_of(&self) -> usize;
}

impl<T: arrow_array::builder::ArrayBuilder> Length for T {
    fn len_of(&self) -> usize {
        self.len()
    }
}

#[test]
fn test_info_registry_add_and_retrieve() {
    let mut registry = InfoRegistry::new();
    registry.add_string(InfoCode::DriverName, "Test Driver".to_string());

    let codes = vec![InfoCode::DriverName];
    let builder = registry.get_info(Some(codes));
    let batch = builder.build();

    let schema = batch.inner.schema();
    assert_eq!(schema.field(0).name(), "info_name");
    assert_eq!(schema.field(1).name(), "info_value");

    assert!(rows(&batch) >= 1);
    assert_eq!(text_in(&batch, 0).as_deref(), Some("Test Driver"));
}

#[test]
fn test_info_registry_get_all() {
    let mut registry = InfoRegistry::new();
    registry.add_string(InfoCode::DriverName, "Test Driver".to_string());
    registry.add_string(InfoCode::VendorName, "Test Vendor".to_string());
    registry.add_bool(InfoCode::VendorSql, true);

    let builder = registry.get_info(None);
    let batch = builder.build();
    let total_rows: usize = rows(&batch);
    assert_eq!(total_rows, 3);
}

#[test]
fn test_info_registry_filtered() {
    let mut registry = InfoRegistry::new();
    registry.add_string(InfoCode::DriverName, "MyDriver".to_string());
    registry.add_string(InfoCode::VendorName, "MyVendor".to_string());

    let codes = vec![InfoCode::DriverName];
    let builder = registry.get_info(Some(codes));
    let batch = builder.build();
    let total_rows: usize = rows(&batch);
    assert_eq!(total_rows, 1);
    assert_eq!(text_in(&batch, 0).as_deref(), Some("MyDriver"));
}

#[test]
fn test_build_driver_info_registry() {
    let registry = build_driver_info_registry().ok().unwrap();
    let info = registry.get_info(None);

    let _batch = info.build();
}

#[test]
fn test_get_info_all_no_server() {
    let registry = build_driver_info_registry().ok().unwrap();
    let builder = registry.get_info(None);
    let batch = builder.build();

    let schema = batch.inner.schema();
    assert_eq!(schema.fields().len(), 2);
    let total_rows: usize = rows(&batch);
    assert!(total_rows >= 4, "Expected at least 4 info entries (driver + vendor info)");
}

#[test]
fn test_get_info_includes_driver_version() {
    let registry = build_driver_info_registry().ok().unwrap();
    let codes = vec![InfoCode::DriverVersion];
    let builder = registry.get_info(Some(codes));
    let batch = builder.build();

    let total_rows: usize = rows(&batch);
    assert_eq!(total_rows, 1, "Expected exactly one row for DriverVersion filter");
}

#[test]
fn test_extract_union_string_simple() {
    let string_field = Field::new("string_value", DataType::Utf8, true);
    let union_fields = UnionFields::try_new(vec![0i8], vec![string_field]).unwrap();

    let strings = StringArray::from(vec![Some("hello"), None, Some("world")]);

    let type_ids = ScalarBuffer::from(vec![0i8, 0i8, 0i8]);
    let offsets = ScalarBuffer::from(vec![0i32, 1i32, 2i32]);

    let union_arr = UnionArray::try_new(
        union_fields.clone(),
        type_ids,
        Some(offsets),
        vec![Arc::new(strings) as Arc<dyn Array>],
    )
    .unwrap();
    let union_arr = Column { inner: Arc::new(union_arr) };

    assert_eq!(extract_union_string(&union_arr, 0), Some("hello".to_string()));
    assert_eq!(extract_union_string(&union_arr, 1), None);
    assert_eq!(extract_union_string(&union_arr, 2), Some("world".to_string()));
}

#[test]
fn test_extract_union_string_wrong_type() {
    let string_field = Field::new("string_value", DataType::Utf8, true);
    let union_fields =
        UnionFields::try_new(vec![0i8, 1i8], vec![string_field.clone(), string_field]).unwrap();
    let strings = StringArray::from(vec![Some("a"), Some("b")]);

    let type_ids = ScalarBuffer::from(vec![1i8]);
    let offsets = ScalarBuffer::from(vec![0i32]);

    let union_arr = UnionArray::try_new(
        union_fields,
        type_ids,
        Some(offsets),
        vec![Arc::new(StringArray::from(Vec::<Option<&str>>::new())), Arc::new(strings)],
    )
    .unwrap();
    let union_arr = Column { inner: Arc::new(union_arr) };

    assert_eq!(extract_union_string(&union_arr, 0), None);
}

#[test]
fn test_get_objects_schema_has_nineteen_column_fields() {
    let schema = get_objects_schema();
    assert_eq!(schema.fields().len(), 2);
    assert_eq!(schema.field(0).name(), "catalog_name");

    let db_schema_field = schema.field(1);
    assert_eq!(db_schema_field.name(), "catalog_db_schemas");
    let list_dt = match db_schema_field.data_type() {
        DataType::List(f) => f,
        _ => panic!("catalog_db_schemas should be List"),
    };
    let db_schema_inner = match list_dt.data_type() {
        DataType::Struct(fields) => fields,
        _ => panic!("db_schema should be Struct"),
    };
    assert_eq!(db_schema_inner.len(), 2);
    assert_eq!(db_schema_inner[0].name(), "db_schema_name");

    let tables_field = &db_schema_inner[1];
    let tables_list = match tables_field.data_type() {
        DataType::List(f) => f,
        _ => panic!("db_schema_tables should be List"),
    };
    let table_inner = match tables_list.data_type() {
        DataType::Struct(fields) => fields,
        _ => panic!("table should be Struct"),
    };
    assert_eq!(table_inner.len(), 4);

    let columns_field = &table_inner[2];
    let columns_list = match columns_field.data_type() {
        DataType::List(f) => f,
        _ => panic!("table_columns should be List"),
    };
    let column_inner = match columns_list.data_type() {
        DataType::Struct(fields) => fields,
        _ => panic!("column should be Struct"),
    };
    assert_eq!(column_inner.len(), 19, "get_objects column struct must have 19 fields");
    assert_eq!(column_inner[0].name(), "column_name");
    assert_eq!(column_inner[1].name(), "ordinal_position");
    assert_eq!(column_inner[17].name(), "xdbc_is_autoincrement");
    assert_eq!(column_inner[18].name(), "xdbc_is_generatedcolumn");
}

#[test]
fn test_get_objects_schema_clone_is_independent() {
    let s1 = get_objects_schema();
    let s2 = get_objects_schema();
    assert_eq!(s1.fields().len(), s2.fields().len());
    assert_eq!(s1, s2);
}

#[test]
fn test_info_registry_contains() {
    let mut registry = InfoRegistry::new();
    assert!(!registry.contains(InfoCode::DriverName));
    registry.add_string(InfoCode::DriverName, "test".to_string());
    assert!(registry.contains(InfoCode::DriverName));
    assert!(!registry.contains(InfoCode::DriverVersion));
}

#[test]
fn test_info_registry_bool_and_int64() {
    let mut registry = InfoRegistry::new();
    registry.add_bool(InfoCode::VendorSql, true);
    registry.add_int64(InfoCode::DriverAdbcVersion, 1001000);

    let builder = registry.get_info(None);
    let batch = builder.build();
    let total_rows: usize = rows(&batch);
    assert_eq!(total_rows, 2);
}

#[test]
fn test_info_builder_extended_types() {
    let mut builder = InfoBuilder::new();
    builder.add_string(100, "hello");
    builder.add_bool(101, true);
    builder.add_int64(102, 42);

    let batch = builder.build();
    let schema = batch.inner.schema();
    assert_eq!(schema.fields().len(), 2);

    let total_rows: usize = rows(&batch);
    assert_eq!(total_rows, 3);
}

#[test]
fn codes_have_the_numbers_of_adbc() {
    let pairs = [
        (InfoCode::VendorName, adbc_core::options::InfoCode::VendorName),
        (InfoCode::VendorVersion, adbc_core::options::InfoCode::VendorVersion),
        (InfoCode::VendorArrowVersion, adbc_core::options::InfoCode::VendorArrowVersion),
        (InfoCode::VendorSql, adbc_core::options::InfoCode::VendorSql),
        (InfoCode::VendorSubstrait, adbc_core::options::InfoCode::VendorSubstrait),
        (
            InfoCode::VendorSubstraitMinVersion,
            adbc_core::options::InfoCode::VendorSubstraitMinVersion,
        ),
        (
            InfoCode::VendorSubstraitMaxVersion,
            adbc_core::options::InfoCode::VendorSubstraitMaxVersion,
        ),
        (InfoCode::DriverName, adbc_core::options::InfoCode::DriverName),
        (InfoCode::DriverVersion, adbc_core::options::InfoCode::DriverVersion),
        (InfoCode::DriverArrowVersion, adbc_core::options::InfoCode::DriverArrowVersion),
        (InfoCode::DriverAdbcVersion, adbc_core::options::InfoCode::DriverAdbcVersion),
    ];
    for (ours, theirs) in &pairs {
        let number = info_code_to_u32(*ours);
        assert_eq!(number, u32::from(theirs));
        assert_eq!(info_code_from_u32(number).map(info_code_to_u32), Some(number));
    }
    for number in 0..200u32 {
        let known = pairs.iter().any(|(ours, _)| info_code_to_u32(*ours) == number);
        assert_eq!(info_code_from_u32(number).is_some(), known);
        assert_eq!(adbc_core::options::InfoCode::try_from(number).is_ok(), known);
    }
}

#[test]
fn built_values_have_the_types_of_their_kinds() {
    let batch = InfoBuilder::new().build();
    let union = batch.inner.column(1).as_any().downcast_ref::<UnionArray>().unwrap();
    let item = |data_type| Arc::new(Field::new("item", data_type, true));
    let entries = DataType::Struct(
        vec![
            Field::new("keys", DataType::Int32, false),
            Field::new("values", DataType::List(item(DataType::Int32)), true),
        ]
        .into(),
    );
    let types = [
        DataType::Utf8,
        DataType::Boolean,
        DataType::Int64,
        DataType::Int32,
        DataType::List(item(DataType::Utf8)),
        DataType::Map(Arc::new(Field::new("entries", entries, false)), false),
    ];
    for (id, data_type) in (0i8..6).zip(types.iter()) {
        assert_eq!(union.child(id).data_type(), data_type);
        assert_eq!(union.child(id).len(), 0);
    }
}

#[test]
fn built_values_stand_in_their_rows() {
    let mut builder = InfoBuilder::new();
    builder.add_int64(7, -3);
    builder.add_string(8, "first");
    builder.add_bool(9, false);
    builder.add_info_value(10, &InfoValue::String("second".to_string()));
    builder.add_info_value(11, &InfoValue::Bool(true));
    builder.add_info_value(12, &InfoValue::Int64(i64::MAX));
    let batch = builder.build();
    assert_eq!(numbers_of(&batch), vec![7, 8, 9, 10, 11, 12]);
    let values = batch.inner.column(1).as_union();
    assert_eq!(values.type_ids().to_vec(), vec![2, 0, 1, 0, 1, 2]);
    assert_eq!(values.value(0).as_primitive::<Int64Type>().value(0), -3);
    assert_eq!(values.value(1).as_string::<i32>().value(0), "first");
    assert!(!values.value(2).as_boolean().value(0));
    assert_eq!(values.value(3).as_string::<i32>().value(0), "second");
    assert!(values.value(4).as_boolean().value(0));
    assert_eq!(values.value(5).as_primitive::<Int64Type>().value(0), i64::MAX);
    let texts: Vec<Option<String>> = (0..6).map(|i| text_in(&batch, i)).collect();
    let own = |t: &str| Some(t.to_string());
    assert_eq!(texts, vec![None, own("first"), None, own("second"), None, None]);
    let none = InfoBuilder::default().build();
    assert_eq!(rows(&none), 0);
    assert_eq!(none.inner.schema(), batch.inner.schema());
}

#[test]
fn the_schema_of_information_is_that_of_adbc() {
    let batch = InfoBuilder::new().build();
    let ours = batch.inner.schema();
    let theirs = adbc_core::schemas::GET_INFO_SCHEMA.clone();
    assert_eq!(ours.field(0), theirs.field(0));
    assert_eq!(ours.field(1).name(), theirs.field(1).name());
    match (ours.field(1).data_type(), theirs.field(1).data_type()) {
        (DataType::Union(a, x), DataType::Union(b, y)) => {
            assert_eq!(x, y);
            let named = |f: &UnionFields| -> Vec<(i8, String)> {
                f.iter().map(|(id, field)| (id, field.name().clone())).collect()
            };
            assert_eq!(named(a), named(b));
        }
        _ => panic!("expected unions"),
    }
}

#[test]
fn the_schema_of_objects_is_that_of_adbc() {
    let ours = get_objects_schema();
    let theirs = adbc_core::schemas::GET_OBJECTS_SCHEMA.clone();
    let names = |schema: &Schema| -> Vec<String> {
        schema.fields().iter().map(|f| f.name().clone()).collect()
    };
    assert_eq!(names(&ours), names(&theirs));
}

#[test]
fn a_driver_answers_for_itself() {
    let batch = get_info(None, None).ok().unwrap();
    assert_eq!(numbers_of(&batch), vec![0, 3, 4, 100, 101, 103]);
    assert_eq!(text_in(&batch, 0).as_deref(), Some("Apache Arrow Flight SQL"));
    assert_eq!(text_in(&batch, 3).as_deref(), Some("Arrow ADBC FlightSQL Driver"));
    assert_eq!(text_in(&batch, 4).as_deref(), Some("0.1.0"));
    let values = batch.inner.column(1).as_union();
    assert!(values.value(1).as_boolean().value(0));
    assert!(!values.value(2).as_boolean().value(0));
    assert_eq!(values.value(5).as_primitive::<Int64Type>().value(0), 1001000);
    let asked = get_info(None, Some(vec![InfoCode::DriverVersion, InfoCode::VendorVersion]));
    assert_eq!(numbers_of(&asked.ok().unwrap()), vec![101]);
    let nothing = get_info(None, Some(Vec::new())).ok().unwrap();
    assert_eq!(rows(&nothing), 0);
}

#[test]
fn a_server_adds_and_replaces_nothing() {
    let first = answer(&[
        (0, Ok(Some("Impostor"))),
        (1, Ok(None)),
        (1, Err(5)),
        (1, Ok(Some("9.9"))),
        (1, Ok(Some("10.0"))),
        (77, Ok(Some("unknown"))),
    ]);
    let second = answer(&[(2, Ok(Some("58"))), (1, Ok(Some("11.0")))]);
    let codes = vec![InfoCode::VendorName, InfoCode::VendorVersion, InfoCode::VendorArrowVersion];
    let batch = get_info(Some(vec![Ok(first), Ok(second)]), Some(codes)).ok().unwrap();
    assert_eq!(numbers_of(&batch), vec![0, 1, 2]);
    let texts: Vec<Option<String>> = (0..3).map(|i| text_in(&batch, i)).collect();
    let own = |t: &str| Some(t.to_string());
    assert_eq!(texts, vec![own("Apache Arrow Flight SQL"), own("9.9"), own("58")]);
    let lost = FlightError::Other { text: "lost".to_string() };
    let late = FlightError::Other { text: "late".to_string() };
    let read = vec![Ok(answer(&[(1, Ok(Some("9.9")))])), Err(lost), Err(late)];
    let error = get_info(Some(read), None).err().unwrap();
    assert_eq!(error.status, Status::IO);
    assert_eq!(
        error.message,
        "[adbc_flightsql] could not reading get_sql_info batch: lost"
    );
    let mut registry = InfoRegistry::default();
    merge_server_info(&mut registry, &answer(&[(100, Ok(Some("x")))]));
    assert!(registry.contains(InfoCode::DriverName));
}

#[test]
fn answers_have_numbers_and_unions() {
    let registry = build_driver_info_registry().ok().unwrap();
    assert!(has_sql_info(&registry, &answer(&[(0, Ok(Some("a"))), (1, Err(2))])));
    assert!(has_sql_info(&registry, &answer(&[])));
    let column = |data_type: DataType| Field::new("c", data_type, true);
    let empty = |types: Vec<DataType>| {
        let schema = Schema::new(types.into_iter().map(column).collect::<Vec<_>>());
        Batch { inner: RecordBatch::new_empty(Arc::new(schema)) }
    };
    assert!(has_sql_info(&registry, &empty(vec![DataType::UInt32, DataType::Utf8])));
    assert!(!has_sql_info(&registry, &empty(vec![DataType::Int32, DataType::Utf8])));
    assert!(!has_sql_info(&registry, &empty(vec![DataType::UInt32])));
    let fields =
        UnionFields::try_new(vec![0i8], vec![Field::new("n", DataType::UInt32, true)]).unwrap();
    let numbers = |codes: Vec<u32>| {
        let count = codes.len();
        let ids = vec![0i8; count];
        let places = ScalarBuffer::from((0..count as i32).collect::<Vec<_>>());
        let child = UInt32Array::from(vec![7u32; count]);
        let names: ArrayRef = Arc::new(UInt32Array::from(codes));
        let values: ArrayRef = Arc::new(
            UnionArray::try_new(
                fields.clone(),
                ScalarBuffer::from(ids),
                Some(places),
                vec![Arc::new(child)],
            )
            .unwrap(),
        );
        let schema = Schema::new(vec![
            Field::new("n", DataType::UInt32, true),
            Field::new("v", values.data_type().clone(), true),
        ]);
        Batch { inner: RecordBatch::try_new(Arc::new(schema), vec![names, values]).unwrap() }
    };
    assert!(has_sql_info(&registry, &numbers(vec![])));
    assert!(!has_sql_info(&registry, &numbers(vec![1])));
    assert!(has_sql_info(&InfoRegistry::new(), &numbers(vec![99])));
    assert!(!has_sql_info(&InfoRegistry::new(), &numbers(vec![100])));
    assert!(try_get_info(Some(vec![Ok(numbers(vec![1]))]), None).ok().unwrap().is_none());
    let unread = try_get_info(Some(vec![Ok(numbers(vec![100, 99, 0]))]), None).ok().unwrap();
    assert_eq!(numbers_of(&unread.unwrap()), vec![0, 3, 4, 100, 101, 103]);
    let known = || vec![Ok(answer(&[(1, Ok(Some("9")))])), Ok(numbers(vec![1]))];
    let kept = try_get_info(Some(known()), None).ok().unwrap();
    assert_eq!(text_in(&kept.unwrap(), 1), Some("9".to_string()));
    let late = |e: &str| Err(FlightError::Other { text: e.to_string() });
    assert!(try_get_info(Some(vec![late("lost"), Ok(numbers(vec![1]))]), None).is_err());
    let batch = try_get_info(Some(vec![Ok(answer(&[(1, Ok(Some("9")))]))]), None);
    assert_eq!(numbers_of(&batch.ok().unwrap().unwrap()), vec![0, 1, 3, 4, 100, 101, 103]);
    let lost = FlightError::Other { text: "lost".to_string() };
    assert!(try_get_info(Some(vec![Err(lost)]), None).is_err());
    assert!(build_driver_info_registry().ok().unwrap().fits(&None));
}

#[test]
fn a_code_that_is_asked_for_again_counts_once() {
    let asked = || {
        Some(vec![
            InfoCode::DriverName,
            InfoCode::VendorVersion,
            InfoCode::VendorName,
            InfoCode::DriverName,
            InfoCode::VendorName,
        ])
    };
    let registry = build_driver_info_registry().ok().unwrap();
    assert_eq!(numbers_of(&registry.get_info(asked()).build()), vec![100, 0]);
    let batch = try_get_info(None, asked()).ok().unwrap().unwrap();
    assert_eq!(numbers_of(&batch), vec![100, 0]);
    assert_eq!(text_in(&batch, 1), Some("Apache Arrow Flight SQL".to_string()));
    assert_eq!(rows(&registry.get_info(Some(Vec::new())).build()), 0);
}

#[test]
fn only_unions_hold_extracted_texts() {
    let texts: ArrayRef = Arc::new(StringArray::from(vec!["a"]));
    assert_eq!(extract_union_string(&Column { inner: texts }, 0), None);
}
