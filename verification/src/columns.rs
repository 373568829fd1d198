//! Schemas, columns and record batches of the Arrow crates.
//!
//! What a schema says and what a column holds are plain values here: a [`FieldShape`] for a
//! field, a [`Cell`] for a value. The crates' own functions build and read them.

use std::sync::Arc;

use arrow_array::cast::AsArray;
use arrow_array::Array;
use vstd::prelude::*;

verus! {

/// A type of a single value.
#[derive(Clone, Copy, Debug, PartialEq, Eq, Structural)]
pub enum Scalar {
    Utf8,
    Binary,
    Boolean,
    Int16,
    Int32,
    Int64,
    UInt32,
}

/// A type of a column.
#[verifier::ext_equal]
pub enum TypeShape {
    Scalar(Scalar),
    List(Box<FieldShape>),
    Struct(Seq<FieldShape>),
    Entries(Box<FieldShape>, bool),
    Union(Seq<(i8, FieldShape)>, bool),
    /// Any other type, told apart by a number.
    Other(nat),
}

/// A field of a schema.
#[verifier::ext_equal]
pub struct FieldShape {
    pub name: Seq<char>,
    pub data_type: TypeShape,
    pub nullable: bool,
    pub metadata: Map<Seq<char>, Seq<char>>,
}

/// No metadata at all.
pub open spec fn no_metadata() -> Map<Seq<char>, Seq<char>> {
    Map::empty()
}

/// A field without metadata.
pub open spec fn field(name: Seq<char>, data_type: TypeShape, nullable: bool) -> FieldShape {
    FieldShape { name, data_type, nullable, metadata: no_metadata() }
}

/// A field of a single value, without metadata.
pub open spec fn scalar_field(name: Seq<char>, scalar: Scalar, nullable: bool) -> FieldShape {
    field(name, TypeShape::Scalar(scalar), nullable)
}

/// The item of a list, under the name that Arrow gives it.
pub open spec fn item_field(data_type: TypeShape, nullable: bool) -> FieldShape {
    field("item"@, data_type, nullable)
}

/// A field whose values are lists of structures that are never null.
pub open spec fn structures_field(
    name: Seq<char>,
    fields: Seq<FieldShape>,
    nullable: bool,
) -> FieldShape {
    field(name, TypeShape::List(Box::new(item_field(TypeShape::Struct(fields), false))), nullable)
}

/// A value in a column.
#[verifier::ext_equal]
pub enum Cell {
    Null,
    Text(Seq<char>),
    Bytes(Seq<u8>),
    Boolean(bool),
    Int16(i16),
    Int32(i32),
    Int64(i64),
    UInt32(u32),
    List(Seq<Cell>),
    Struct(Seq<Cell>),
    /// The value of a union, with the number of its variant.
    Union(i8, Box<Cell>),
    /// A value of any other type, told apart by a number.
    Other(nat),
}

#[verifier::external_type_specification]
#[verifier::external_body]
pub struct ExDataType(arrow_schema::DataType);

#[verifier::external_type_specification]
#[verifier::external_body]
pub struct ExField(arrow_schema::Field);

#[verifier::external_type_specification]
#[verifier::external_body]
pub struct ExUnionFields(arrow_schema::UnionFields);

#[verifier::external_type_specification]
#[verifier::external_body]
pub struct ExSchema(arrow_schema::Schema);

/// What a data type is.
pub uninterp spec fn type_shape(data_type: arrow_schema::DataType) -> TypeShape;

/// What a field is.
pub uninterp spec fn field_shape(field: arrow_schema::Field) -> FieldShape;

/// The variants of a union: their numbers and their fields.
pub uninterp spec fn variants(fields: arrow_schema::UnionFields) -> Seq<(i8, FieldShape)>;

/// The fields of a schema.
pub uninterp spec fn schema_fields(schema: arrow_schema::Schema) -> Seq<FieldShape>;

/// The metadata of a schema.
pub uninterp spec fn schema_metadata(schema: arrow_schema::Schema) -> Map<Seq<char>, Seq<char>>;

/// What some fields are.
pub open spec fn field_shapes(fields: Seq<arrow_schema::Field>) -> Seq<FieldShape> {
    fields.map_values(|f: arrow_schema::Field| field_shape(f))
}

/// Trusted: cloning an `arrow_schema::Schema` gives the same schema.
pub assume_specification[ <arrow_schema::Schema as Clone>::clone ](
    schema: &arrow_schema::Schema,
) -> (r: arrow_schema::Schema)
    ensures
        r == *schema,
;

/// Trusted: the variant of `arrow_schema::DataType` for a single value.
#[verifier::external_body]
pub(crate) fn scalar_type(scalar: Scalar) -> (r: arrow_schema::DataType)
    ensures
        type_shape(r) == TypeShape::Scalar(scalar),
{
    match scalar {
        Scalar::Utf8 => arrow_schema::DataType::Utf8,
        Scalar::Binary => arrow_schema::DataType::Binary,
        Scalar::Boolean => arrow_schema::DataType::Boolean,
        Scalar::Int16 => arrow_schema::DataType::Int16,
        Scalar::Int32 => arrow_schema::DataType::Int32,
        Scalar::Int64 => arrow_schema::DataType::Int64,
        Scalar::UInt32 => arrow_schema::DataType::UInt32,
    }
}

/// Trusted: `arrow_schema::DataType::List` over a field.
#[verifier::external_body]
pub(crate) fn list_type(item: arrow_schema::Field) -> (r: arrow_schema::DataType)
    ensures
        type_shape(r) == TypeShape::List(Box::new(field_shape(item))),
{
    arrow_schema::DataType::List(Arc::new(item))
}

/// Trusted: `arrow_schema::DataType::Struct` over fields, in their order.
#[verifier::external_body]
pub(crate) fn struct_type(fields: Vec<arrow_schema::Field>) -> (r: arrow_schema::DataType)
    ensures
        type_shape(r) == TypeShape::Struct(field_shapes(fields@)),
{
    arrow_schema::DataType::Struct(arrow_schema::Fields::from(fields))
}

/// Trusted: `arrow_schema::DataType::Map` over its entries.
#[verifier::external_body]
pub(crate) fn map_type(entries: arrow_schema::Field, sorted: bool) -> (r: arrow_schema::DataType)
    ensures
        type_shape(r) == TypeShape::Entries(Box::new(field_shape(entries)), sorted),
{
    arrow_schema::DataType::Map(Arc::new(entries), sorted)
}

/// Trusted: `arrow_schema::DataType::Union` over its variants, in the dense layout.
#[verifier::external_body]
pub(crate) fn dense_union_type(fields: &arrow_schema::UnionFields) -> (r: arrow_schema::DataType)
    ensures
        type_shape(r) == TypeShape::Union(variants(*fields), true),
{
    arrow_schema::DataType::Union(fields.clone(), arrow_schema::UnionMode::Dense)
}

/// Trusted: `arrow_schema::Field::new` makes a field of a name, a type and a nullability, without
/// metadata.
#[verifier::external_body]
pub(crate) fn new_field(
    name: &str,
    data_type: arrow_schema::DataType,
    nullable: bool,
) -> (r: arrow_schema::Field)
    ensures
        field_shape(r) == field(name@, type_shape(data_type), nullable),
{
    arrow_schema::Field::new(name, data_type, nullable)
}

/// Trusted: `arrow_schema::Field::new_list` makes a field of lists of `item`.
#[verifier::external_body]
pub(crate) fn new_list(
    name: &str,
    item: arrow_schema::Field,
    nullable: bool,
) -> (r: arrow_schema::Field)
    ensures
        field_shape(r) == field(name@, TypeShape::List(Box::new(field_shape(item))), nullable),
{
    arrow_schema::Field::new_list(name, item, nullable)
}

/// Trusted: `arrow_schema::Field::new_list_field` makes the item of a list, named `item`.
#[verifier::external_body]
pub(crate) fn new_list_field(
    data_type: arrow_schema::DataType,
    nullable: bool,
) -> (r: arrow_schema::Field)
    ensures
        field_shape(r) == item_field(type_shape(data_type), nullable),
{
    arrow_schema::Field::new_list_field(data_type, nullable)
}

/// Trusted: `arrow_schema::UnionFields::try_new` pairs numbers with fields. It fails unless there
/// are as many of the one as of the other, and the numbers are distinct and not negative; what
/// the error then says is left open.
#[verifier::external_body]
pub(crate) fn new_union_fields(ids: Vec<i8>, fields: Vec<arrow_schema::Field>) -> (r: Result<
    arrow_schema::UnionFields,
    String,
>)
    ensures
        r is Ok <==> (ids@.len() == fields@.len() && ids@.no_duplicates() && forall|i: int|
            0 <= i < ids@.len() ==> #[trigger] ids@[i] >= 0),
        r matches Ok(f) ==> variants(f) == Seq::new(
            ids@.len(),
            |i: int| (ids@[i], field_shape(fields@[i])),
        ),
{
    arrow_schema::UnionFields::try_new(ids, fields).map_err(|e| e.to_string())
}

/// Trusted: `arrow_schema::Schema::new` makes a schema of fields, in their order, without metadata.
#[verifier::external_body]
pub(crate) fn new_schema(fields: Vec<arrow_schema::Field>) -> (r: arrow_schema::Schema)
    ensures
        schema_fields(r) == field_shapes(fields@),
        schema_metadata(r) == no_metadata(),
{
    arrow_schema::Schema::new(fields)
}

/// Trusted: `arrow_schema::Schema::empty` makes a schema without fields and without metadata.
#[verifier::external_body]
pub(crate) fn empty_schema() -> (r: arrow_schema::Schema)
    ensures
        schema_fields(r) == Seq::<FieldShape>::empty(),
        schema_metadata(r) == no_metadata(),
{
    arrow_schema::Schema::empty()
}

/// Trusted: `arrow_schema::Schema::fields` has as many fields as the schema.
#[verifier::external_body]
pub(crate) fn schema_len(schema: &arrow_schema::Schema) -> (r: usize)
    ensures
        r == schema_fields(*schema).len(),
{
    schema.fields().len()
}

/// Trusted: `arrow_schema::Schema::field` gives the field at a position, and
/// `arrow_schema::Field::name` its name.
#[verifier::external_body]
pub(crate) fn field_name(schema: &arrow_schema::Schema, i: usize) -> (r: String)
    requires
        i < schema_fields(*schema).len(),
    ensures
        r@ == schema_fields(*schema)[i as int].name,
{
    schema.field(i).name().clone()
}

/// A column of values: an array of the Arrow crates.
#[verifier::external_body]
pub struct Column {
    pub inner: Arc<dyn arrow_array::Array>,
}

/// A record batch of the Arrow crates.
#[verifier::external_body]
pub struct Batch {
    pub inner: arrow_array::RecordBatch,
}

/// The type of a column.
pub uninterp spec fn column_type(column: Column) -> TypeShape;

/// The values in a column.
pub uninterp spec fn cells(column: Column) -> Seq<Cell>;

/// The columns of a batch.
pub uninterp spec fn columns(batch: Batch) -> Seq<Column>;

/// The fields that the schema of a batch has.
pub uninterp spec fn batch_fields(batch: Batch) -> Seq<FieldShape>;

/// The number of rows in a batch.
pub uninterp spec fn row_count(batch: Batch) -> nat;

/// The text that a slot of a text column holds, also where the slot is null.
pub uninterp spec fn slot_text(column: Column, i: int) -> Seq<char>;

/// The number that a slot of a column of numbers holds, also where the slot is null.
pub uninterp spec fn slot_number(column: Column, i: int) -> u32;

/// The place of a row of a union among the values of its variant.
pub uninterp spec fn union_place(column: Column, i: int) -> nat;

/// The type of the values of a variant of a union.
pub uninterp spec fn variant_type(column: Column, id: i8) -> TypeShape;

/// The column may stand under the field: it has the field's type, and no null where the field
/// allows none. A union has no nulls of its own.
pub open spec fn suits(field: FieldShape, column: Column) -> bool {
    &&& column_type(column) == field.data_type
    &&& !field.nullable && !(column_type(column) is Union) ==> forall|i: int|
        0 <= i < cells(column).len() ==> !(#[trigger] cells(column)[i] is Null)
}

/// Columns of the type say for themselves which of their values are null.
pub open spec fn marks_nulls(data_type: TypeShape) -> bool {
    data_type is Scalar || data_type is List || data_type is Union
}

/// Puts two columns together under a schema.
///
/// Trusted: `arrow_array::RecordBatch::try_new` fails unless the schema has as many fields as
/// there are columns, each column suits its field, and the columns are equally long. The error is
/// then `InvalidArgumentError`; what it says is left open.
#[verifier::external_body]
pub(crate) fn new_batch(schema: &arrow_schema::Schema, first: Column, second: Column) -> (r: Result<
    Batch,
    String,
>)
    requires
        marks_nulls(column_type(first)),
        marks_nulls(column_type(second)),
    ensures
        r is Ok <==> (schema_fields(*schema).len() == 2 && suits(schema_fields(*schema)[0], first)
            && suits(schema_fields(*schema)[1], second) && cells(first).len() == cells(
            second,
        ).len()),
        r matches Ok(b) ==> columns(b) == seq![first, second] && batch_fields(b) == schema_fields(
            *schema,
        ) && row_count(b) == cells(first).len(),
{
    let columns = vec![first.inner, second.inner];
    match arrow_array::RecordBatch::try_new(Arc::new(schema.clone()), columns) {
        Ok(inner) => Ok(Batch { inner }),
        Err(e) => Err(e.to_string()),
    }
}

/// Trusted: `arrow_array::RecordBatch::num_rows` counts the rows, and every column has that many.
#[verifier::external_body]
pub(crate) fn num_rows(batch: &Batch) -> (r: usize)
    ensures
        r == row_count(*batch),
        forall|k: int|
            0 <= k < columns(*batch).len() ==> cells(#[trigger] columns(*batch)[k]).len() == r,
{
    batch.inner.num_rows()
}

/// Trusted: `arrow_array::RecordBatch::num_columns` counts the columns.
#[verifier::external_body]
pub(crate) fn num_columns(batch: &Batch) -> (r: usize)
    ensures
        r == columns(*batch).len(),
{
    batch.inner.num_columns()
}

/// Trusted: `arrow_array::RecordBatch::column` gives the column at a position, and every column is
/// as long as the batch has rows.
#[verifier::external_body]
pub(crate) fn column(batch: &Batch, i: usize) -> (r: Column)
    requires
        i < columns(*batch).len(),
    ensures
        r == columns(*batch)[i as int],
        cells(r).len() == row_count(*batch),
{
    Column { inner: batch.inner.column(i).clone() }
}

/// Trusted: `arrow_array::Array::len` counts the values of a column.
#[verifier::external_body]
pub(crate) fn column_len(column: &Column) -> (r: usize)
    ensures
        r == cells(*column).len(),
{
    column.inner.len()
}

/// Trusted: `arrow_array::Array::data_type` is the type of a column, and two types are equal if
/// they are the same down to the names and the metadata of their fields.
#[verifier::external_body]
pub(crate) fn has_type(column: &Column, data_type: &arrow_schema::DataType) -> (r: bool)
    ensures
        r == (column_type(*column) == type_shape(*data_type)),
{
    column.inner.data_type() == data_type
}

/// Trusted: `arrow_array::Array::is_null` tells which values of a column of texts, bytes or unions
/// are null. A union has no nulls of its own.
#[verifier::external_body]
pub(crate) fn is_null(column: &Column, i: usize) -> (r: bool)
    requires
        i < cells(*column).len(),
        column_type(*column) == TypeShape::Scalar(Scalar::Utf8) || column_type(*column)
            == TypeShape::Scalar(Scalar::Binary) || column_type(*column) is Union,
    ensures
        r == (!(column_type(*column) is Union) && cells(*column)[i as int] is Null),
{
    column.inner.is_null(i)
}

/// Trusted: `value` of the `StringArray` that `arrow_array::cast::as_string_array` finds. A value
/// that is not null is the text in the cell; for a null one it is what the slot holds.
#[verifier::external_body]
pub(crate) fn text_value(column: &Column, i: usize) -> (r: String)
    requires
        column_type(*column) == TypeShape::Scalar(Scalar::Utf8),
        i < cells(*column).len(),
    ensures
        r@ == slot_text(*column, i as int),
        !(cells(*column)[i as int] is Null) ==> cells(*column)[i as int] == Cell::Text(r@),
{
    arrow_array::cast::as_string_array(&column.inner).value(i).to_string()
}

/// Trusted: `value` of the `BinaryArray` that `arrow_array::cast::as_generic_binary_array` finds,
/// for a value that is not null.
#[verifier::external_body]
pub(crate) fn bytes_value(column: &Column, i: usize) -> (r: Vec<u8>)
    requires
        column_type(*column) == TypeShape::Scalar(Scalar::Binary),
        i < cells(*column).len(),
        !(cells(*column)[i as int] is Null),
    ensures
        cells(*column)[i as int] == Cell::Bytes(r@),
{
    arrow_array::cast::as_generic_binary_array::<i32>(&column.inner).value(i).to_vec()
}

/// Trusted: `value` of the `UInt32Array` that `arrow_array::cast::AsArray::as_primitive` finds. A
/// value that is not null is the number in the cell; for a null one it is what the slot holds.
#[verifier::external_body]
pub(crate) fn number_value(column: &Column, i: usize) -> (r: u32)
    requires
        column_type(*column) == TypeShape::Scalar(Scalar::UInt32),
        i < cells(*column).len(),
    ensures
        r == slot_number(*column, i as int),
        !(cells(*column)[i as int] is Null) ==> cells(*column)[i as int] == Cell::UInt32(r),
{
    column.inner.as_primitive::<arrow_array::types::UInt32Type>().value(i)
}

/// Trusted: downcasting to `arrow_array::UnionArray` succeeds for a column of a union type alone.
#[verifier::external_body]
pub(crate) fn is_union(column: &Column) -> (r: bool)
    ensures
        r == (column_type(*column) is Union),
{
    column.inner.as_any().downcast_ref::<arrow_array::UnionArray>().is_some()
}

/// The number of the variant of a value of a union.
pub open spec fn variant_of(cell: Cell) -> Option<i8> {
    match cell {
        Cell::Union(id, _) => Some(id),
        _ => None,
    }
}

/// A row of the union has the variant `id`.
pub open spec fn row_has_variant(column: Column, id: i8, i: int) -> bool {
    0 <= i < cells(column).len() && variant_of(cells(column)[i]) == Some(id)
}

/// Trusted: `arrow_array::UnionArray::type_id` gives the number of the variant of a row.
#[verifier::external_body]
pub(crate) fn union_type_id(column: &Column, i: usize) -> (r: i8)
    requires
        column_type(*column) is Union,
        i < cells(*column).len(),
    ensures
        variant_of(cells(*column)[i as int]) == Some(r),
{
    column.inner.as_any().downcast_ref::<arrow_array::UnionArray>().unwrap().type_id(i)
}

/// Trusted: `arrow_array::UnionArray::value_offset` gives the place of a row among the values of
/// its variant.
#[verifier::external_body]
pub(crate) fn union_value_offset(column: &Column, i: usize) -> (r: usize)
    requires
        column_type(*column) is Union,
        i < cells(*column).len(),
    ensures
        r == union_place(*column, i as int),
{
    column.inner.as_any().downcast_ref::<arrow_array::UnionArray>().unwrap().value_offset(i)
}

/// Trusted: `arrow_array::UnionArray::child` gives the values of a variant. The value of a row of
/// that variant is the one at the row's place among them.
#[verifier::external_body]
pub(crate) fn union_child(column: &Column, id: i8) -> (r: Column)
    requires
        column_type(*column) is Union,
        exists|i: int| row_has_variant(*column, id, i),
    ensures
        column_type(r) == variant_type(*column, id),
        forall|i: int| #[trigger]
            row_has_variant(*column, id, i) ==> union_place(*column, i) < cells(r).len() && cells(
                *column,
            )[i] == Cell::Union(id, Box::new(cells(r)[union_place(*column, i) as int])),
{
    let union = column.inner.as_any().downcast_ref::<arrow_array::UnionArray>().unwrap();
    Column { inner: union.child(id).clone() }
}

/// Whether the batch has a column of single values of a type at a position.
pub(crate) fn has_scalars(batch: &Batch, i: usize, scalar: Scalar) -> (r: bool)
    ensures
        r == (i < columns(*batch).len() && column_type(columns(*batch)[i as int])
            == TypeShape::Scalar(scalar)),
{
    i < num_columns(batch) && has_type(&column(batch, i), &scalar_type(scalar))
}

} // verus!
