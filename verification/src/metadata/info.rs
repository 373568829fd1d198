//! Information about the driver and the server, by numbered codes.

use std::collections::HashMap;

use vstd::prelude::*;
use vstd::std_specs::hash::*;

use crate::builders::{
    append_boolean, booleans_len, built_booleans, built_longs, built_numbers, built_texts,
    empty_bitmasks, empty_number_maps, empty_text_lists, finish_booleans, ids, lists_of,
    new_booleans, new_union, number_maps, offsets, texts_size, union_cells, IdBuffer, LongBuilder,
    NumberBuilder, OffsetBuffer, TextBuilder, MAX_OFFSET,
};
use crate::columns::{
    batch_fields, cells, column, column_type, columns, dense_union_type, field, field_shape,
    has_scalars, has_type, is_null, is_union, item_field, list_type, map_type, new_batch, new_field,
    new_schema, new_union_fields, num_columns, num_rows, number_value, row_count, row_has_variant,
    scalar_field, scalar_type, slot_number, struct_type, text_value, union_child, union_type_id,
    union_value_offset, variant_type, variants, Batch, Cell, Column, FieldShape, Scalar, TypeShape,
};
use crate::error::{flight_view, map_flight_error, AdbcError, FlightError};
use crate::metadata::room::{add_capped, capped, Taken};
use crate::stream::{lemma_stream_error, stream_error};
use crate::text::opt_view;

verus! {

/// A code of a piece of information.
#[derive(Clone, Copy, Debug, PartialEq, Eq, Structural)]
pub enum InfoCode {
    VendorName,
    VendorVersion,
    VendorArrowVersion,
    VendorSql,
    VendorSubstrait,
    VendorSubstraitMinVersion,
    VendorSubstraitMaxVersion,
    DriverName,
    DriverVersion,
    DriverArrowVersion,
    DriverAdbcVersion,
}

/// The number of a code.
pub open spec fn code_number(code: InfoCode) -> u32 {
    match code {
        InfoCode::VendorName => 0,
        InfoCode::VendorVersion => 1,
        InfoCode::VendorArrowVersion => 2,
        InfoCode::VendorSql => 3,
        InfoCode::VendorSubstrait => 4,
        InfoCode::VendorSubstraitMinVersion => 5,
        InfoCode::VendorSubstraitMaxVersion => 6,
        InfoCode::DriverName => 100,
        InfoCode::DriverVersion => 101,
        InfoCode::DriverArrowVersion => 102,
        InfoCode::DriverAdbcVersion => 103,
    }
}

/// The number is that of a code.
pub open spec fn is_code(number: u32) -> bool {
    number <= 6 || 100 <= number <= 103
}

/// The number of a code.
pub fn info_code_to_u32(code: InfoCode) -> (r: u32)
    ensures
        r == code_number(code),
        is_code(r),
{
    match code {
        InfoCode::VendorName => 0,
        InfoCode::VendorVersion => 1,
        InfoCode::VendorArrowVersion => 2,
        InfoCode::VendorSql => 3,
        InfoCode::VendorSubstrait => 4,
        InfoCode::VendorSubstraitMinVersion => 5,
        InfoCode::VendorSubstraitMaxVersion => 6,
        InfoCode::DriverName => 100,
        InfoCode::DriverVersion => 101,
        InfoCode::DriverArrowVersion => 102,
        InfoCode::DriverAdbcVersion => 103,
    }
}

/// Codes are told apart by their numbers.
pub proof fn law_codes_are_told_apart(a: InfoCode, b: InfoCode)
    ensures
        code_number(a) == code_number(b) <==> a == b,
        is_code(code_number(a)),
{
}

/// The code with a number, if there is one.
pub fn info_code_from_u32(number: u32) -> (r: Option<InfoCode>)
    ensures
        is_code(number) ==> (r matches Some(code) && code_number(code) == number),
        !is_code(number) ==> r is None,
{
    match number {
        0 => Some(InfoCode::VendorName),
        1 => Some(InfoCode::VendorVersion),
        2 => Some(InfoCode::VendorArrowVersion),
        3 => Some(InfoCode::VendorSql),
        4 => Some(InfoCode::VendorSubstrait),
        5 => Some(InfoCode::VendorSubstraitMinVersion),
        6 => Some(InfoCode::VendorSubstraitMaxVersion),
        100 => Some(InfoCode::DriverName),
        101 => Some(InfoCode::DriverVersion),
        102 => Some(InfoCode::DriverArrowVersion),
        103 => Some(InfoCode::DriverAdbcVersion),
        _ => None,
    }
}

/// A piece of information.
#[derive(Clone, Debug)]
pub enum InfoValue {
    String(String),
    Bool(bool),
    Int64(i64),
}

/// The content of an [`InfoValue`].
#[verifier::ext_equal]
pub enum InfoValueView {
    String(Seq<char>),
    Bool(bool),
    Int64(i64),
}

impl View for InfoValue {
    type V = InfoValueView;

    open spec fn view(&self) -> InfoValueView {
        match self {
            InfoValue::String(s) => InfoValueView::String(s@),
            InfoValue::Bool(b) => InfoValueView::Bool(*b),
            InfoValue::Int64(i) => InfoValueView::Int64(*i),
        }
    }
}

impl InfoValueView {
    /// The number of the union variant that holds the value.
    pub open spec fn kind(self) -> i8 {
        match self {
            InfoValueView::String(_) => 0,
            InfoValueView::Bool(_) => 1,
            InfoValueView::Int64(_) => 2,
        }
    }

    /// The value in a column.
    pub open spec fn cell(self) -> Cell {
        match self {
            InfoValueView::String(s) => Cell::Text(s),
            InfoValueView::Bool(b) => Cell::Boolean(b),
            InfoValueView::Int64(i) => Cell::Int64(i),
        }
    }
}

/// A row of the result of asking for information.
#[verifier::ext_equal]
pub struct InfoRow {
    pub name: u32,
    pub value: InfoValueView,
}

/// The texts among the values of some rows, in order.
pub open spec fn texts_in(rows: Seq<InfoRow>) -> Seq<Seq<char>>
    decreases rows.len(),
{
    if rows.len() == 0 {
        Seq::empty()
    } else {
        match rows.last().value {
            InfoValueView::String(s) => texts_in(rows.drop_last()).push(s),
            _ => texts_in(rows.drop_last()),
        }
    }
}

/// The truth values among the values of some rows, in order.
pub open spec fn booleans_in(rows: Seq<InfoRow>) -> Seq<bool>
    decreases rows.len(),
{
    if rows.len() == 0 {
        Seq::empty()
    } else {
        match rows.last().value {
            InfoValueView::Bool(b) => booleans_in(rows.drop_last()).push(b),
            _ => booleans_in(rows.drop_last()),
        }
    }
}

/// The numbers among the values of some rows, in order.
pub open spec fn longs_in(rows: Seq<InfoRow>) -> Seq<i64>
    decreases rows.len(),
{
    if rows.len() == 0 {
        Seq::empty()
    } else {
        match rows.last().value {
            InfoValueView::Int64(i) => longs_in(rows.drop_last()).push(i),
            _ => longs_in(rows.drop_last()),
        }
    }
}

/// The place of a row among the rows of its kind: how many of them come before it.
pub open spec fn place(rows: Seq<InfoRow>, i: int) -> nat {
    match rows[i].value {
        InfoValueView::String(_) => texts_in(rows.take(i)).len(),
        InfoValueView::Bool(_) => booleans_in(rows.take(i)).len(),
        InfoValueView::Int64(_) => longs_in(rows.take(i)).len(),
    }
}

/// The rows fit the offsets of Arrow: their texts together, and the rows of each kind.
pub open spec fn rows_fit(rows: Seq<InfoRow>) -> bool {
    &&& texts_size(texts_in(rows)) <= MAX_OFFSET
    &&& texts_in(rows).len() <= MAX_OFFSET
    &&& booleans_in(rows).len() <= MAX_OFFSET
    &&& longs_in(rows).len() <= MAX_OFFSET
}

/// Earlier rows fit if all do.
proof fn lemma_prefix_fits(rows: Seq<InfoRow>, i: int)
    requires
        rows_fit(rows),
        0 <= i <= rows.len(),
    ensures
        rows_fit(rows.take(i)),
    decreases rows.len() - i,
{
    if i == rows.len() {
        assert(rows.take(i) == rows);
    } else {
        lemma_prefix_fits(rows, i + 1);
        let longer = rows.take(i + 1);
        assert(longer.drop_last() == rows.take(i));
        match longer.last().value {
            InfoValueView::String(s) => {
                let texts = texts_in(longer);
                assert(texts.drop_last() == texts_in(rows.take(i)));
                assert(texts.last() == s);
            },
            _ => {},
        }
    }
}

/// A row is found at its place among the values of its kind.
proof fn lemma_row_at_its_place(rows: Seq<InfoRow>, i: int)
    requires
        0 <= i < rows.len(),
    ensures
        match rows[i].value {
            InfoValueView::String(s) => place(rows, i) < texts_in(rows).len() && texts_in(
                rows,
            )[place(rows, i) as int] == s,
            InfoValueView::Bool(b) => place(rows, i) < booleans_in(rows).len() && booleans_in(
                rows,
            )[place(rows, i) as int] == b,
            InfoValueView::Int64(n) => place(rows, i) < longs_in(rows).len() && longs_in(
                rows,
            )[place(rows, i) as int] == n,
        },
    decreases rows.len(),
{
    let shorter = rows.drop_last();
    if i == rows.len() - 1 {
        assert(rows.take(i) == shorter);
    } else {
        lemma_row_at_its_place(shorter, i);
        assert(shorter.take(i) == rows.take(i));
    }
}

/// The fields of the union of values, with their numbers.
pub open spec fn info_variants() -> Seq<(i8, FieldShape)> {
    seq![
        (0i8, scalar_field("string_value"@, Scalar::Utf8, true)),
        (1i8, scalar_field("bool_value"@, Scalar::Boolean, true)),
        (2i8, scalar_field("int64_value"@, Scalar::Int64, true)),
        (3i8, scalar_field("int32_bitmask"@, Scalar::Int32, true)),
        (
            4i8,
            field(
                "string_list"@,
                TypeShape::List(Box::new(item_field(TypeShape::Scalar(Scalar::Utf8), true))),
                true,
            ),
        ),
        (
            5i8,
            field(
                "int32_to_int32_list_map"@,
                TypeShape::Entries(
                    Box::new(
                        field(
                            "entries"@,
                            TypeShape::Struct(
                                seq![
                                    scalar_field("key"@, Scalar::Int32, false),
                                    field(
                                        "value"@,
                                        TypeShape::List(
                                            Box::new(
                                                item_field(TypeShape::Scalar(Scalar::Int32), true),
                                            ),
                                        ),
                                        true,
                                    ),
                                ],
                            ),
                            false,
                        ),
                    ),
                    false,
                ),
                true,
            ),
        ),
    ]
}

/// The fields of the result of asking for information.
pub open spec fn info_fields() -> Seq<FieldShape> {
    seq![
        scalar_field("info_name"@, Scalar::UInt32, false),
        field("info_value"@, TypeShape::Union(info_variants(), true), false),
    ]
}

/// The batch says what the rows say, row by row.
pub open spec fn says(batch: Batch, rows: Seq<InfoRow>) -> bool {
    &&& batch_fields(batch) == info_fields()
    &&& row_count(batch) == rows.len()
    &&& columns(batch).len() == 2
    &&& column_type(columns(batch)[0]) == TypeShape::Scalar(Scalar::UInt32)
    &&& column_type(columns(batch)[1]) == TypeShape::Union(info_variants(), true)
    &&& variant_type(columns(batch)[1], 0) == TypeShape::Scalar(Scalar::Utf8)
    &&& variant_type(columns(batch)[1], 1) == TypeShape::Scalar(Scalar::Boolean)
    &&& variant_type(columns(batch)[1], 2) == TypeShape::Scalar(Scalar::Int64)
    &&& variant_type(columns(batch)[1], 3) == TypeShape::Scalar(Scalar::Int32)
    &&& variant_type(columns(batch)[1], 4) == lists_of(Scalar::Utf8)
    &&& variant_type(columns(batch)[1], 5) == number_maps()
    &&& cells(columns(batch)[0]) == rows.map_values(|row: InfoRow| Cell::UInt32(row.name))
    &&& cells(columns(batch)[1]) == rows.map_values(
        |row: InfoRow| Cell::Union(row.value.kind(), Box::new(row.value.cell())),
    )
}

/// Makes the fields of the union of values.
fn info_union_fields() -> (r: arrow_schema::UnionFields)
    ensures
        variants(r) == info_variants(),
{
    let string_field = new_field("string_value", scalar_type(Scalar::Utf8), true);
    let bool_field = new_field("bool_value", scalar_type(Scalar::Boolean), true);
    let int64_field = new_field("int64_value", scalar_type(Scalar::Int64), true);
    let int32_bitmask_field = new_field("int32_bitmask", scalar_type(Scalar::Int32), true);
    let string_list_field = new_field(
        "string_list",
        list_type(new_field("item", scalar_type(Scalar::Utf8), true)),
        true,
    );
    let key = new_field("key", scalar_type(Scalar::Int32), false);
    let value = new_field(
        "value",
        list_type(new_field("item", scalar_type(Scalar::Int32), true)),
        true,
    );
    let ghost entry_shapes = seq![field_shape(key), field_shape(value)];
    let entry_fields = vec![key, value];
    assert(crate::columns::field_shapes(entry_fields@) == entry_shapes);
    let entries = new_field("entries", struct_type(entry_fields), false);
    let int32_to_int32_list_map_field = new_field(
        "int32_to_int32_list_map",
        map_type(entries, false),
        true,
    );
    let numbers: Vec<i8> = vec![0i8, 1, 2, 3, 4, 5];
    let fields = vec![
        string_field,
        bool_field,
        int64_field,
        int32_bitmask_field,
        string_list_field,
        int32_to_int32_list_map_field,
    ];
    let ghost pairs = Seq::new(6, |i: int| (numbers@[i], field_shape(fields@[i])));
    assert(pairs =~= info_variants());
    let union_fields = new_union_fields(numbers, fields);
    union_fields.unwrap()
}

/// Collects pieces of information into a batch.
pub struct InfoBuilder {
    info_name: NumberBuilder,
    type_id: IdBuffer,
    offset: OffsetBuffer,
    string_value: TextBuilder,
    bool_value: arrow_array::builder::BooleanBuilder,
    int64_value: LongBuilder,
    rows: Ghost<Seq<InfoRow>>,
}

impl View for InfoBuilder {
    type V = Seq<InfoRow>;

    closed spec fn view(&self) -> Seq<InfoRow> {
        self.rows@
    }
}

impl Default for InfoBuilder {
    fn default() -> (r: Self)
        ensures
            r.wf(),
            r@ == Seq::<InfoRow>::empty(),
    {
        Self::new()
    }
}

impl InfoBuilder {
    /// The builders of the columns hold what the rows say, and each row has its place.
    pub closed spec fn wf(&self) -> bool {
        &&& built_numbers(self.info_name) == self@.map_values(|row: InfoRow| row.name)
        &&& ids(self.type_id) == self@.map_values(|row: InfoRow| row.value.kind())
        &&& offsets(self.offset).len() == self@.len()
        &&& forall|i: int|
            0 <= i < self@.len() ==> #[trigger] offsets(self.offset)[i] == place(self@, i)
        &&& built_texts(self.string_value) == texts_in(self@)
        &&& built_booleans(self.bool_value) == booleans_in(self@)
        &&& built_longs(self.int64_value) == longs_in(self@)
        &&& rows_fit(self@)
    }

    /// A builder that holds nothing.
    pub fn new() -> (r: Self)
        ensures
            r.wf(),
            r@ == Seq::<InfoRow>::empty(),
    {
        let r = InfoBuilder {
            info_name: NumberBuilder::new(),
            type_id: IdBuffer::new(16),
            offset: OffsetBuffer::new(16),
            string_value: TextBuilder::new(),
            bool_value: new_booleans(),
            int64_value: LongBuilder::new(),
            rows: Ghost(Seq::empty()),
        };
        assert(r@.map_values(|row: InfoRow| row.name) =~= Seq::<u32>::empty());
        assert(r@.map_values(|row: InfoRow| row.value.kind()) =~= Seq::<i8>::empty());
        r
    }

    /// Adds a string info value with the given key.
    pub fn add_string(&mut self, name: u32, value: &str)
        requires
            old(self).wf(),
            rows_fit(old(self)@.push(InfoRow { name, value: InfoValueView::String(value@) })),
        ensures
            final(self).wf(),
            final(self)@ == old(self)@.push(InfoRow { name, value: InfoValueView::String(value@) }),
    {
        let ghost before = self@;
        let ghost row = InfoRow { name, value: InfoValueView::String(value@) };
        let ghost after = before.push(row);
        proof {
            assert(after.drop_last() == before);
            let texts = texts_in(after);
            assert(texts.drop_last() == texts_in(before));
        }
        self.info_name.append_value(name);
        self.type_id.append(0);
        self.offset.append(self.string_value.len() as i32);
        self.string_value.append_value(value);
        self.rows = Ghost(after);
        proof {
            lemma_row_added(before, row);
        }
    }

    /// Adds a boolean info value with the given key.
    pub fn add_bool(&mut self, name: u32, value: bool)
        requires
            old(self).wf(),
            rows_fit(old(self)@.push(InfoRow { name, value: InfoValueView::Bool(value) })),
        ensures
            final(self).wf(),
            final(self)@ == old(self)@.push(InfoRow { name, value: InfoValueView::Bool(value) }),
    {
        let ghost before = self@;
        let ghost row = InfoRow { name, value: InfoValueView::Bool(value) };
        let ghost after = before.push(row);
        proof {
            assert(after.drop_last() == before);
        }
        self.info_name.append_value(name);
        self.type_id.append(1);
        self.offset.append(booleans_len(&self.bool_value) as i32);
        append_boolean(&mut self.bool_value, value);
        self.rows = Ghost(after);
        proof {
            lemma_row_added(before, row);
        }
    }

    /// Adds an int64 info value with the given key.
    pub fn add_int64(&mut self, name: u32, value: i64)
        requires
            old(self).wf(),
            rows_fit(old(self)@.push(InfoRow { name, value: InfoValueView::Int64(value) })),
        ensures
            final(self).wf(),
            final(self)@ == old(self)@.push(InfoRow { name, value: InfoValueView::Int64(value) }),
    {
        let ghost before = self@;
        let ghost row = InfoRow { name, value: InfoValueView::Int64(value) };
        let ghost after = before.push(row);
        proof {
            assert(after.drop_last() == before);
        }
        self.info_name.append_value(name);
        self.type_id.append(2);
        self.offset.append(self.int64_value.len() as i32);
        self.int64_value.append_value(value);
        self.rows = Ghost(after);
        proof {
            lemma_row_added(before, row);
        }
    }

    /// Adds an info value of any kind with the given key.
    pub fn add_info_value(&mut self, name: u32, value: &InfoValue)
        requires
            old(self).wf(),
            rows_fit(old(self)@.push(InfoRow { name, value: value@ })),
        ensures
            final(self).wf(),
            final(self)@ == old(self)@.push(InfoRow { name, value: value@ }),
    {
        match value {
            InfoValue::String(s) => self.add_string(name, s.as_str()),
            InfoValue::Bool(b) => self.add_bool(name, *b),
            InfoValue::Int64(i) => self.add_int64(name, *i),
        }
    }

    /// Makes a batch of the rows.
    pub fn build(self) -> (r: Batch)
        requires
            self.wf(),
        ensures
            says(r, self@),
    {
        let ghost rows = self@;
        let mut this = self;
        let info_name = this.info_name.finish();
        let type_id = this.type_id.as_slice();
        let offset = this.offset.as_slice();
        let texts = this.string_value.finish();
        let booleans = finish_booleans(&mut this.bool_value);
        let longs = this.int64_value.finish();
        let union_fields = info_union_fields();
        let ghost text_cells = cells(texts);
        let ghost boolean_cells = cells(booleans);
        let ghost long_cells = cells(longs);
        let children = vec![
            texts,
            booleans,
            longs,
            empty_bitmasks(),
            empty_text_lists(),
            empty_number_maps(),
        ];
        proof {
            assert forall|i: int| 0 <= i < rows.len() implies {
                &&& type_id@[i] == rows[i].value.kind()
                &&& offset@[i] == place(rows, i)
                &&& place(rows, i) < cells(children@[type_id@[i] as int]).len()
                &&& cells(children@[type_id@[i] as int])[place(rows, i) as int]
                    == rows[i].value.cell()
            } by {
                lemma_row_at_its_place(rows, i);
            }
            assert(crate::builders::union_is_sound(type_id@, offset@, children@));
            assert(union_cells(type_id@, offset@, children@) =~= rows.map_values(
                |row: InfoRow| Cell::Union(row.value.kind(), Box::new(row.value.cell())),
            ));
            assert forall|k: int| 0 <= k < variants(union_fields).len() implies (
            #[trigger] variants(union_fields)[k]).0 == k by {}
        }
        let info_value = new_union(&union_fields, type_id, offset, children).unwrap();
        let name_field = new_field("info_name", scalar_type(Scalar::UInt32), false);
        let value_field = new_field("info_value", dense_union_type(&union_fields), false);
        let fields = vec![name_field, value_field];
        assert(crate::columns::field_shapes(fields@) =~= info_fields());
        let schema = new_schema(fields);
        assert(cells(info_name) =~= rows.map_values(|row: InfoRow| Cell::UInt32(row.name)));
        let batch = new_batch(&schema, info_name, info_value);
        batch.unwrap()
    }
}

/// Adding a row adds its number, its kind and its value, and changes no other row's place.
proof fn lemma_row_added(before: Seq<InfoRow>, row: InfoRow)
    ensures
        before.push(row).map_values(|r: InfoRow| r.name) == before.map_values(
            |r: InfoRow| r.name,
        ).push(row.name),
        before.push(row).map_values(|r: InfoRow| r.value.kind()) == before.map_values(
            |r: InfoRow| r.value.kind(),
        ).push(row.value.kind()),
        forall|i: int|
            0 <= i < before.len() ==> #[trigger] place(before.push(row), i) == place(before, i),
        before.push(row).drop_last() == before,
        before.push(row).take(before.len() as int) == before,
{
    let after = before.push(row);
    assert(after.map_values(|r: InfoRow| r.name) =~= before.map_values(|r: InfoRow| r.name).push(
        row.name,
    ));
    assert(after.map_values(|r: InfoRow| r.value.kind()) =~= before.map_values(
        |r: InfoRow| r.value.kind(),
    ).push(row.value.kind()));
    assert(after.drop_last() =~= before);
    assert(after.take(before.len() as int) =~= before);
    assert forall|i: int| 0 <= i < before.len() implies #[trigger] place(after, i) == place(
        before,
        i,
    ) by {
        assert(after.take(i) =~= before.take(i));
    }
}

/// The information that this driver has without asking a server.
pub const VENDOR_NAME: &'static str = "Apache Arrow Flight SQL";

pub const DRIVER_NAME: &'static str = "Arrow ADBC FlightSQL Driver";

pub const DRIVER_VERSION: &'static str = "0.1.0";

/// Version 1.1.0 of the ADBC interface.
pub const ADBC_VERSION: i64 = 1001000;

/// The numbers of all codes, in order.
pub open spec fn all_codes() -> Seq<u32> {
    seq![0u32, 1, 2, 3, 4, 5, 6, 100, 101, 102, 103]
}

/// The numbers of some codes.
pub open spec fn code_numbers(codes: Seq<InfoCode>) -> Seq<u32> {
    codes.map_values(|code: InfoCode| code_number(code))
}

/// The rows for the numbers of some codes, in their order, as far as there is information.
pub open spec fn rows_for(values: Map<u32, InfoValueView>, numbers: Seq<u32>) -> Seq<InfoRow>
    decreases numbers.len(),
{
    if numbers.len() == 0 {
        Seq::empty()
    } else {
        let earlier = rows_for(values, numbers.drop_last());
        let name = numbers.last();
        if values.contains_key(name) {
            earlier.push(InfoRow { name, value: values[name] })
        } else {
            earlier
        }
    }
}

/// The rows for fewer codes are the first of the rows for more.
proof fn lemma_rows_grow(values: Map<u32, InfoValueView>, numbers: Seq<u32>, i: int)
    requires
        0 <= i <= numbers.len(),
    ensures
        rows_for(values, numbers.take(i)).len() <= rows_for(values, numbers).len(),
        rows_for(values, numbers.take(i)) == rows_for(values, numbers).take(
            rows_for(values, numbers.take(i)).len() as int,
        ),
    decreases numbers.len() - i,
{
    if i == numbers.len() {
        assert(numbers.take(i) == numbers);
    } else {
        lemma_rows_grow(values, numbers, i + 1);
        assert(numbers.take(i + 1).drop_last() == numbers.take(i));
        let fewer = rows_for(values, numbers.take(i));
        let more = rows_for(values, numbers.take(i + 1));
        assert(fewer == more.take(fewer.len() as int));
    }
}

/// The numbers without repetitions: each stands where it stood first.
pub open spec fn distinct(numbers: Seq<u32>) -> Seq<u32>
    decreases numbers.len(),
{
    if numbers.len() == 0 {
        Seq::empty()
    } else {
        let earlier = distinct(numbers.drop_last());
        if earlier.contains(numbers.last()) {
            earlier
        } else {
            earlier.push(numbers.last())
        }
    }
}

/// The numbers for a request: those of the codes asked for, or all. A code that is asked for again
/// counts once.
pub open spec fn requested(codes: Option<Vec<InfoCode>>) -> Seq<u32> {
    match codes {
        Some(codes) => distinct(code_numbers(codes@)),
        None => all_codes(),
    }
}

/// The information that is at hand, by code.
pub struct InfoRegistry {
    info_values: HashMap<u32, InfoValue>,
}

impl View for InfoRegistry {
    type V = Map<u32, InfoValueView>;

    closed spec fn view(&self) -> Map<u32, InfoValueView> {
        self.info_values@.map_values(|v: InfoValue| v@)
    }
}

impl Default for InfoRegistry {
    fn default() -> (r: Self)
        ensures
            r@ == Map::<u32, InfoValueView>::empty(),
    {
        Self::new()
    }
}

impl InfoRegistry {
    /// A registry that holds nothing.
    pub fn new() -> (r: Self)
        ensures
            r@ == Map::<u32, InfoValueView>::empty(),
    {
        let r = InfoRegistry { info_values: HashMap::new() };
        assert(r@ =~= Map::<u32, InfoValueView>::empty());
        r
    }

    /// Adds a string info value with the given key.
    pub fn add_string(&mut self, name: InfoCode, value: String)
        ensures
            final(self)@ == old(self)@.insert(code_number(name), InfoValueView::String(value@)),
    {
        self.add_info_value(name, InfoValue::String(value));
    }

    /// Adds a boolean info value with the given key.
    pub fn add_bool(&mut self, name: InfoCode, value: bool)
        ensures
            final(self)@ == old(self)@.insert(code_number(name), InfoValueView::Bool(value)),
    {
        self.add_info_value(name, InfoValue::Bool(value));
    }

    /// Adds an int64 info value with the given key.
    pub fn add_int64(&mut self, name: InfoCode, value: i64)
        ensures
            final(self)@ == old(self)@.insert(code_number(name), InfoValueView::Int64(value)),
    {
        self.add_info_value(name, InfoValue::Int64(value));
    }

    /// Adds an info value of any kind with the given key.
    pub fn add_info_value(&mut self, name: InfoCode, value: InfoValue)
        ensures
            final(self)@ == old(self)@.insert(code_number(name), value@),
    {
        broadcast use group_hash_axioms;

        let ghost before = self.info_values@;
        let ghost added = value;
        let number = info_code_to_u32(name);
        self.info_values.insert(number, value);
        assert(self@ =~= before.map_values(|v: InfoValue| v@).insert(number, added@));
    }

    /// Whether the registry holds a value for the given code.
    pub fn contains(&self, code: InfoCode) -> (r: bool)
        ensures
            r == self@.contains_key(code_number(code)),
    {
        broadcast use group_hash_axioms;

        self.info_values.contains_key(&info_code_to_u32(code))
    }

    /// Adds the rows for the numbers of some codes.
    fn rows_of(&self, numbers: &Vec<u32>) -> (r: InfoBuilder)
        requires
            rows_fit(rows_for(self@, numbers@)),
        ensures
            r.wf(),
            r@ == rows_for(self@, numbers@),
    {
        broadcast use group_hash_axioms;

        let mut builder = InfoBuilder::new();
        let mut i: usize = 0;
        assert(numbers@.take(0) =~= Seq::<u32>::empty());
        while i < numbers.len()
            invariant
                i <= numbers.len(),
                rows_fit(rows_for(self@, numbers@)),
                builder.wf(),
                builder@ == rows_for(self@, numbers@.take(i as int)),
            decreases numbers.len() - i,
        {
            broadcast use group_hash_axioms;

            let number = numbers[i];
            proof {
                assert(numbers@.take(i + 1).drop_last() == numbers@.take(i as int));
                lemma_rows_grow(self@, numbers@, i + 1);
                lemma_prefix_fits(
                    rows_for(self@, numbers@),
                    rows_for(self@, numbers@.take(i + 1)).len() as int,
                );
                assert(self@.contains_key(number) == self.info_values@.contains_key(number));
            }
            match self.info_values.get(&number) {
                Some(value) => builder.add_info_value(number, value),
                None => {},
            }
            i += 1;
        }
        assert(numbers@.take(numbers@.len() as int) == numbers@);
        builder
    }

    /// Whether the rows for the given codes, or for all codes, fit the columns of a batch.
    pub fn fits(&self, codes: &Option<Vec<InfoCode>>) -> (r: bool)
        ensures
            r == rows_fit(rows_for(self@, requested(*codes))),
    {
        broadcast use group_hash_axioms;

        let numbers = requested_numbers(codes);
        let mut texts = Taken::new();
        let mut booleans: u32 = 0;
        let mut longs: u32 = 0;
        let mut i: usize = 0;
        assert(numbers@.take(0) =~= Seq::<u32>::empty());
        while i < numbers.len()
            invariant
                i <= numbers.len(),
                texts.measures(texts_in(rows_for(self@, numbers@.take(i as int)))),
                booleans == capped(booleans_in(rows_for(self@, numbers@.take(i as int))).len()),
                longs == capped(longs_in(rows_for(self@, numbers@.take(i as int))).len()),
            decreases numbers.len() - i,
        {
            broadcast use group_hash_axioms;

            let number = numbers[i];
            let ghost rows = rows_for(self@, numbers@.take(i as int));
            let ghost more = rows_for(self@, numbers@.take(i + 1));
            proof {
                assert(numbers@.take(i + 1).drop_last() == numbers@.take(i as int));
                assert(self@.contains_key(number) == self.info_values@.contains_key(number));
                if self@.contains_key(number) {
                    assert(more.drop_last() =~= rows);
                }
            }
            match self.info_values.get(&number) {
                Some(InfoValue::String(s)) => {
                    texts = texts.with(s.as_str(), Ghost(texts_in(rows)));
                },
                Some(InfoValue::Bool(_)) => {
                    booleans = add_capped(booleans, 1);
                },
                Some(InfoValue::Int64(_)) => {
                    longs = add_capped(longs, 1);
                },
                None => {},
            }
            i += 1;
        }
        assert(numbers@.take(numbers@.len() as int) == numbers@);
        let texts_fit = texts.fits(Ghost(texts_in(rows_for(self@, requested(*codes)))));
        texts_fit && booleans <= MAX_OFFSET && longs <= MAX_OFFSET
    }

    /// The rows for the given codes in their order, or for all codes.
    pub fn get_info(&self, codes: Option<Vec<InfoCode>>) -> (r: InfoBuilder)
        requires
            rows_fit(rows_for(self@, requested(codes))),
        ensures
            r.wf(),
            r@ == rows_for(self@, requested(codes)),
    {
        self.rows_of(&requested_numbers(&codes))
    }
}

/// Whether a number stands among others.
fn holds_number(numbers: &Vec<u32>, number: u32) -> (r: bool)
    ensures
        r == numbers@.contains(number),
{
    let mut i: usize = 0;
    while i < numbers.len()
        invariant
            i <= numbers.len(),
            forall|k: int| 0 <= k < i ==> (#[trigger] numbers@[k]) != number,
        decreases numbers.len() - i,
    {
        if numbers[i] == number {
            return true;
        }
        i += 1;
    }
    false
}

/// The numbers of the codes asked for, or of all.
fn requested_numbers(codes: &Option<Vec<InfoCode>>) -> (r: Vec<u32>)
    ensures
        r@ == requested(*codes),
{
    match codes {
        Some(codes) => {
            let mut numbers: Vec<u32> = Vec::new();
            let mut i: usize = 0;
            while i < codes.len()
                invariant
                    i <= codes.len(),
                    numbers@ == distinct(code_numbers(codes@).take(i as int)),
                decreases codes.len() - i,
            {
                proof {
                    let more = code_numbers(codes@).take(i + 1);
                    assert(more.drop_last() == code_numbers(codes@).take(i as int));
                    assert(more.last() == code_number(codes@[i as int]));
                }
                let number = info_code_to_u32(codes[i]);
                if !holds_number(&numbers, number) {
                    numbers.push(number);
                }
                i += 1;
            }
            assert(code_numbers(codes@).take(codes@.len() as int) == code_numbers(codes@));
            numbers
        },
        None => {
            let numbers: Vec<u32> = vec![0, 1, 2, 3, 4, 5, 6, 100, 101, 102, 103];
            assert(numbers@ =~= all_codes());
            numbers
        },
    }
}

/// The information that this driver has without asking a server: its name, its version, the
/// version of ADBC, and that it takes SQL and no Substrait plans.
pub open spec fn driver_info() -> Map<u32, InfoValueView> {
    Map::<u32, InfoValueView>::empty()
        .insert(code_number(InfoCode::VendorName), InfoValueView::String(VENDOR_NAME@))
        .insert(code_number(InfoCode::DriverName), InfoValueView::String(DRIVER_NAME@))
        .insert(code_number(InfoCode::DriverVersion), InfoValueView::String(DRIVER_VERSION@))
        .insert(code_number(InfoCode::DriverAdbcVersion), InfoValueView::Int64(ADBC_VERSION))
        .insert(code_number(InfoCode::VendorSql), InfoValueView::Bool(true))
        .insert(code_number(InfoCode::VendorSubstrait), InfoValueView::Bool(false))
}

/// The registry of what this driver knows without asking a server.
pub fn build_driver_info_registry() -> (r: Result<InfoRegistry, AdbcError>)
    ensures
        r matches Ok(registry) && registry@ == driver_info(),
{
    let mut registry = InfoRegistry::new();
    registry.add_string(InfoCode::VendorName, VENDOR_NAME.to_owned());
    registry.add_string(InfoCode::DriverName, DRIVER_NAME.to_owned());
    registry.add_string(InfoCode::DriverVersion, DRIVER_VERSION.to_owned());
    registry.add_int64(InfoCode::DriverAdbcVersion, ADBC_VERSION);
    registry.add_bool(InfoCode::VendorSql, true);
    registry.add_bool(InfoCode::VendorSubstrait, false);
    Ok(registry)
}

/// The text in a row of a column of unions: that of the first variant, if it is there.
pub open spec fn union_text(column: Column, i: int) -> Option<Seq<char>> {
    if column_type(column) is Union {
        match cells(column)[i] {
            Cell::Union(id, value) => match *value {
                Cell::Text(text) if id == 0 => Some(text),
                _ => None,
            },
            _ => None,
        }
    } else {
        None
    }
}

/// If the row is of the first variant of a union, that variant holds texts.
pub open spec fn text_if_first(column: Column, i: int) -> bool {
    column_type(column) is Union && row_has_variant(column, 0, i) ==> variant_type(column, 0)
        == TypeShape::Scalar(Scalar::Utf8)
}

/// Extracts a string from a row of a column of unions.
///
/// There is none if the column is no union, or the row is not of the first variant, or is null.
pub fn extract_union_string(column: &Column, index: usize) -> (r: Option<String>)
    requires
        column_type(*column) is Union ==> index < cells(*column).len(),
        text_if_first(*column, index as int),
    ensures
        opt_view(r) == union_text(*column, index as int),
{
    if !is_union(column) {
        return None;
    }
    if is_null(column, index) {
        return None;
    }
    let type_id = union_type_id(column, index);
    if type_id != 0 {
        return None;
    }
    let offset = union_value_offset(column, index);
    assert(row_has_variant(*column, 0, index as int));
    let child = union_child(column, 0);
    if is_null(&child, offset) {
        return None;
    }
    Some(text_value(&child, offset))
}

/// The information with the first `n` rows of a server's answer: a row counts if its number is
/// that of a code, nothing is known under it yet, and its value is a text.
pub open spec fn merged(
    values: Map<u32, InfoValueView>,
    names: Column,
    answers: Column,
    n: nat,
) -> Map<u32, InfoValueView>
    decreases n,
{
    if n == 0 {
        values
    } else {
        let earlier = merged(values, names, answers, (n - 1) as nat);
        let number = slot_number(names, n - 1);
        match union_text(answers, n - 1) {
            Some(text) if is_code(number) && !earlier.contains_key(number) => earlier.insert(
                number,
                InfoValueView::String(text),
            ),
            _ => earlier,
        }
    }
}

/// The value in a row of a server's answer is looked at: its number is that of a code, and nothing
/// is known under it yet.
pub open spec fn row_counts(
    values: Map<u32, InfoValueView>,
    names: Column,
    answers: Column,
    i: int,
) -> bool {
    is_code(slot_number(names, i)) && !merged(values, names, answers, i as nat).contains_key(
        slot_number(names, i),
    )
}

/// The values that are looked at in the rows of a server's answer can be: those of the first
/// variant of a union are texts.
pub open spec fn rows_are_readable(
    values: Map<u32, InfoValueView>,
    names: Column,
    answers: Column,
    n: nat,
) -> bool {
    forall|i: int|
        0 <= i < n && #[trigger] row_counts(values, names, answers, i) ==> text_if_first(answers, i)
}

/// The batch has the columns of a server's answer, as far as they are read where some information
/// is known already: numbers, and values that are texts where they are looked at.
pub open spec fn is_sql_info(values: Map<u32, InfoValueView>, batch: Batch) -> bool {
    &&& columns(batch).len() >= 2
    &&& column_type(columns(batch)[0]) == TypeShape::Scalar(Scalar::UInt32)
    &&& rows_are_readable(values, columns(batch)[0], columns(batch)[1], row_count(batch))
}

/// Whether the batch has the columns of a server's answer, as far as they are read.
pub fn has_sql_info(registry: &InfoRegistry, batch: &Batch) -> (r: bool)
    ensures
        r == is_sql_info(registry@, *batch),
{
    if !(num_columns(batch) >= 2 && has_scalars(batch, 0, Scalar::UInt32)) {
        return false;
    }
    let names = column(batch, 0);
    let answers = column(batch, 1);
    if !is_union(&answers) {
        return true;
    }
    let n = num_rows(batch);
    let mut i: usize = 0;
    while i < n
        invariant
            i <= n,
            n == row_count(*batch),
            n == cells(names).len(),
            n == cells(answers).len(),
            column_type(answers) is Union,
            names == columns(*batch)[0],
            answers == columns(*batch)[1],
            columns(*batch).len() >= 2,
            column_type(names) == TypeShape::Scalar(Scalar::UInt32),
            merged(registry@, names, answers, i as nat) == registry@,
            rows_are_readable(registry@, names, answers, i as nat),
        decreases n - i,
    {
        let missing = match info_code_from_u32(number_value(&names, i)) {
            Some(code) => !registry.contains(code),
            None => false,
        };
        assert(missing == row_counts(registry@, names, answers, i as int));
        if missing && union_type_id(&answers, i) == 0 {
            assert(row_has_variant(answers, 0, i as int));
            return has_type(&union_child(&answers, 0), &scalar_type(Scalar::Utf8));
        }
        i += 1;
    }
    true
}

/// The information with a batch of a server's answer.
pub open spec fn with_batch(values: Map<u32, InfoValueView>, batch: Batch) -> Map<
    u32,
    InfoValueView,
> {
    merged(values, columns(batch)[0], columns(batch)[1], row_count(batch))
}

/// The information with the first `n` batches of a server's answer.
pub open spec fn with_batches(
    values: Map<u32, InfoValueView>,
    read: Seq<Result<Batch, FlightError>>,
    n: nat,
) -> Map<u32, InfoValueView>
    decreases n,
{
    if n == 0 {
        values
    } else {
        with_batch(with_batches(values, read, (n - 1) as nat), read[n - 1]->Ok_0)
    }
}

/// Takes over what a batch of a server's answer says under codes that nothing is known under yet.
pub fn merge_server_info(registry: &mut InfoRegistry, batch: &Batch)
    requires
        is_sql_info(old(registry)@, *batch),
    ensures
        final(registry)@ == with_batch(old(registry)@, *batch),
{
    let info_names = column(batch, 0);
    let info_values = column(batch, 1);
    let rows = num_rows(batch);
    let ghost before = registry@;
    let mut i: usize = 0;
    while i < rows
        invariant
            i <= rows,
            rows == cells(info_names).len(),
            rows == cells(info_values).len(),
            column_type(info_names) == TypeShape::Scalar(Scalar::UInt32),
            rows_are_readable(before, info_names, info_values, rows as nat),
            registry@ == merged(before, info_names, info_values, i as nat),
        decreases rows - i,
    {
        let name = number_value(&info_names, i);
        if let Some(code) = info_code_from_u32(name) {
            if !registry.contains(code) {
                assert(row_counts(before, info_names, info_values, i as int));
                if let Some(text) = extract_union_string(&info_values, i) {
                    registry.add_string(code, text);
                }
            }
        }
        i += 1;
    }
}

/// The information that a request is answered with: what this driver knows, and what the server
/// added to it, if it answered.
pub open spec fn answered(server: Option<Vec<Result<Batch, FlightError>>>) -> Map<
    u32,
    InfoValueView,
> {
    match server {
        Some(read) => with_batches(driver_info(), read@, read@.len()),
        None => driver_info(),
    }
}

/// The error at which reading a server's answer stops, if it does.
pub open spec fn server_error(server: Option<Vec<Result<Batch, FlightError>>>) -> Option<
    FlightError,
> {
    match server {
        Some(read) => stream_error(read@),
        None => None,
    }
}

/// A batch of a server's answer is read: nothing before it failed.
pub open spec fn is_reached(read: Seq<Result<Batch, FlightError>>, i: int) -> bool {
    0 <= i < read.len() && forall|k: int| 0 <= k <= i ==> (#[trigger] read[k]) is Ok
}

/// The batches of a server's answer have the columns of one, as far as they are read.
pub open spec fn is_answer(server: Option<Vec<Result<Batch, FlightError>>>) -> bool {
    server matches Some(read) ==> forall|i: int| #[trigger]
        is_reached(read@, i) ==> is_sql_info(
            with_batches(driver_info(), read@, i as nat),
            read@[i]->Ok_0,
        )
}

/// The registry of what this driver knows and what a server adds to it. `server` holds what was
/// read of the server's answer, or nothing if the server does not answer such requests.
pub fn server_registry(server: Option<Vec<Result<Batch, FlightError>>>) -> (r: Result<
    InfoRegistry,
    AdbcError,
>)
    requires
        is_answer(server),
    ensures
        match server_error(server) {
            Some(e) => r matches Err(x) && x@ == flight_view(e, "reading get_sql_info batch"@),
            None => r matches Ok(registry) && registry@ == answered(server),
        },
{
    let mut registry = match build_driver_info_registry() {
        Ok(registry) => registry,
        Err(e) => {
            return Err(e);
        },
    };
    match server {
        Some(read) => {
            for next in it: read
                invariant
                    it.seq() == read@,
                    forall|k: int| 0 <= k < it.index() ==> (#[trigger] read@[k]) is Ok,
                    server == Some(read),
                    is_answer(server),
                    registry@ == with_batches(driver_info(), read@, it.index() as nat),
            {
                assert(next == read@[it.index() as int]);
                match next {
                    Ok(batch) => {
                        assert(is_reached(read@, it.index() as int));
                        merge_server_info(&mut registry, &batch);
                    },
                    Err(e) => {
                        proof {
                            lemma_stream_error(read@, it.index() as int);
                        }
                        return Err(map_flight_error(e, "reading get_sql_info batch"));
                    },
                }
            }
            proof {
                lemma_stream_error(read@, read@.len() as int);
            }
        },
        None => {},
    }
    Ok(registry)
}

/// Answers a request for information.
pub fn get_info(
    server: Option<Vec<Result<Batch, FlightError>>>,
    codes: Option<Vec<InfoCode>>,
) -> (r: Result<Batch, AdbcError>)
    requires
        is_answer(server),
        server_error(server) is None ==> rows_fit(rows_for(answered(server), requested(codes))),
    ensures
        match server_error(server) {
            Some(e) => r matches Err(x) && x@ == flight_view(e, "reading get_sql_info batch"@),
            None => r matches Ok(batch) && says(
                batch,
                rows_for(answered(server), requested(codes)),
            ),
        },
{
    match server_registry(server) {
        Ok(registry) => Ok(registry.get_info(codes).build()),
        Err(e) => Err(e),
    }
}

/// Whether what was read has the columns of a server's answer.
fn test_answer(server: &Option<Vec<Result<Batch, FlightError>>>) -> (r: bool)
    ensures
        r == is_answer(*server),
{
    let mut registry = match build_driver_info_registry() {
        Ok(registry) => registry,
        Err(_) => {
            return false;
        },
    };
    match server {
        Some(read) => {
            let mut i: usize = 0;
            while i < read.len()
                invariant
                    i <= read.len(),
                    *server == Some(*read),
                    registry@ == with_batches(driver_info(), read@, i as nat),
                    forall|k: int| 0 <= k < i ==> (#[trigger] read@[k]) is Ok,
                    forall|k: int|
                        0 <= k < i && #[trigger] is_reached(read@, k) ==> is_sql_info(
                            with_batches(driver_info(), read@, k as nat),
                            read@[k]->Ok_0,
                        ),
                decreases read.len() - i,
            {
                match &read[i] {
                    Ok(batch) => {
                        if !has_sql_info(&registry, batch) {
                            assert(is_reached(read@, i as int));
                            return false;
                        }
                        merge_server_info(&mut registry, batch);
                    },
                    Err(_) => {
                        return true;
                    },
                }
                i += 1;
            }
            true
        },
        None => true,
    }
}

/// Answers a request for information, unless the answer of the server has other columns than it
/// should, or the rows do not fit the columns of a batch.
pub fn try_get_info(
    server: Option<Vec<Result<Batch, FlightError>>>,
    codes: Option<Vec<InfoCode>>,
) -> (r: Result<Option<Batch>, AdbcError>)
    ensures
        if !is_answer(server) {
            r matches Ok(None)
        } else {
            match server_error(server) {
                Some(e) => r matches Err(x) && x@ == flight_view(
                    e,
                    "reading get_sql_info batch"@,
                ),
                None => if rows_fit(rows_for(answered(server), requested(codes))) {
                    r matches Ok(Some(batch)) && says(
                        batch,
                        rows_for(answered(server), requested(codes)),
                    )
                } else {
                    r matches Ok(None)
                },
            }
        },
{
    if !test_answer(&server) {
        return Ok(None);
    }
    match server_registry(server) {
        Ok(registry) => if registry.fits(&codes) {
            Ok(Some(registry.get_info(codes).build()))
        } else {
            Ok(None)
        },
        Err(e) => Err(e),
    }
}

/// What a registry holds is found in the result under its code: asking for one code that holds a
/// value gives that value and nothing else.
pub proof fn law_asking_for_one_code(values: Map<u32, InfoValueView>, code: InfoCode)
    ensures
        values.contains_key(code_number(code)) ==> rows_for(values, seq![code_number(code)])
            == seq![InfoRow { name: code_number(code), value: values[code_number(code)] }],
        !values.contains_key(code_number(code)) ==> rows_for(values, seq![code_number(code)]).len()
            == 0,
{
    let numbers = seq![code_number(code)];
    assert(numbers.drop_last() =~= Seq::<u32>::empty());
    assert(rows_for(values, numbers.drop_last()) =~= Seq::<InfoRow>::empty());
}

/// Leaving out repetitions leaves every number once, and takes none away.
proof fn lemma_distinct(numbers: Seq<u32>)
    ensures
        distinct(numbers).no_duplicates(),
        forall|n: u32| #[trigger] distinct(numbers).contains(n) <==> numbers.contains(n),
    decreases numbers.len(),
{
    if numbers.len() > 0 {
        let earlier = numbers.drop_last();
        let kept = distinct(earlier);
        lemma_distinct(earlier);
        assert(numbers =~= earlier.push(numbers.last()));
        assert forall|n: u32| #[trigger] distinct(numbers).contains(n) <==> numbers.contains(n) by {
            lemma_contains_pushed(earlier, numbers.last(), n);
            lemma_contains_pushed(kept, numbers.last(), n);
            assert(kept.contains(n) <==> earlier.contains(n));
            assert(kept.contains(numbers.last()) <==> earlier.contains(numbers.last()));
        }
    }
}

/// What stands in a sequence with one more number at its end.
proof fn lemma_contains_pushed(numbers: Seq<u32>, last: u32, n: u32)
    ensures
        numbers.push(last).contains(n) <==> numbers.contains(n) || n == last,
{
    let more = numbers.push(last);
    assert(more[numbers.len() as int] == last);
    if numbers.contains(n) {
        let i = choose|i: int| 0 <= i < numbers.len() && numbers[i] == n;
        assert(more[i] == n);
    }
    if more.contains(n) && n != last {
        let i = choose|i: int| 0 <= i < more.len() && more[i] == n;
        assert(numbers[i] == n);
    }
}

/// The rows for distinct numbers have these numbers, as far as there is information under them,
/// each once and with its value.
proof fn lemma_rows_for(values: Map<u32, InfoValueView>, numbers: Seq<u32>)
    requires
        numbers.no_duplicates(),
    ensures
        forall|i: int|
            0 <= i < rows_for(values, numbers).len() ==> {
                let row = #[trigger] rows_for(values, numbers)[i];
                &&& numbers.contains(row.name)
                &&& values.contains_key(row.name)
                &&& row.value == values[row.name]
            },
        forall|n: u32| #[trigger]
            numbers.contains(n) && values.contains_key(n) ==> has_row(rows_for(values, numbers), n),
        forall|i: int, j: int|
            0 <= i < j < rows_for(values, numbers).len() ==> (#[trigger] rows_for(
                values,
                numbers,
            )[i]).name != (#[trigger] rows_for(values, numbers)[j]).name,
    decreases numbers.len(),
{
    if numbers.len() > 0 {
        let earlier = numbers.drop_last();
        let last = numbers.last();
        assert(earlier.no_duplicates());
        lemma_rows_for(values, earlier);
        let before = rows_for(values, earlier);
        let rows = rows_for(values, numbers);
        assert(numbers =~= earlier.push(last));
        assert(!earlier.contains(last));
        assert forall|i: int| 0 <= i < rows.len() implies {
            let row = #[trigger] rows[i];
            &&& numbers.contains(row.name)
            &&& values.contains_key(row.name)
            &&& row.value == values[row.name]
        } by {
            if i < before.len() {
                assert(rows[i] == before[i]);
            }
            lemma_contains_pushed(earlier, last, rows[i].name);
        }
        assert forall|n: u32| #[trigger]
            numbers.contains(n) && values.contains_key(n) implies has_row(rows, n) by {
            lemma_contains_pushed(earlier, last, n);
            if n == last {
                assert(rows[before.len() as int].name == n);
            } else {
                let i = choose|i: int| 0 <= i < before.len() && before[i].name == n;
                assert(rows[i].name == n);
            }
        }
        assert forall|i: int, j: int| 0 <= i < j < rows.len() implies (#[trigger] rows[i]).name != (
        #[trigger] rows[j]).name by {
            assert(rows[i] == before[i]);
            if j < before.len() {
                assert(rows[j] == before[j]);
            }
        }
    }
}

/// There is a row with a number.
pub open spec fn has_row(rows: Seq<InfoRow>, number: u32) -> bool {
    exists|i: int| 0 <= i < rows.len() && (#[trigger] rows[i]).name == number
}

/// The code with a number is asked for.
pub open spec fn is_requested(codes: Option<Vec<InfoCode>>, number: u32) -> bool {
    match codes {
        Some(codes) => code_numbers(codes@).contains(number),
        None => is_code(number),
    }
}

/// A request is for a set of codes: however often a code is asked for, the result has one row for
/// it if there is information under it, with that information, and no row for any other number.
pub proof fn law_each_code_has_one_row(
    values: Map<u32, InfoValueView>,
    codes: Option<Vec<InfoCode>>,
)
    ensures
        forall|n: u32| #[trigger]
            has_row(rows_for(values, requested(codes)), n) <==> is_requested(codes, n)
                && values.contains_key(n),
        forall|i: int|
            0 <= i < rows_for(values, requested(codes)).len() ==> (#[trigger] rows_for(
                values,
                requested(codes),
            )[i]).value == values[rows_for(values, requested(codes))[i].name],
        forall|i: int, j: int|
            0 <= i < j < rows_for(values, requested(codes)).len() ==> (#[trigger] rows_for(
                values,
                requested(codes),
            )[i]).name != (#[trigger] rows_for(values, requested(codes))[j]).name,
{
    let numbers = requested(codes);
    match codes {
        Some(codes) => {
            lemma_distinct(code_numbers(codes@));
        },
        None => {},
    }
    assert forall|n: u32| #[trigger] numbers.contains(n) <==> is_requested(codes, n) by {
        if codes is None && is_code(n) {
            let i: int = if n < 100 {
                n as int
            } else {
                n - 93
            };
            assert(all_codes()[i] == n);
        }
    }
    lemma_rows_for(values, numbers);
    let rows = rows_for(values, numbers);
    assert forall|n: u32| #[trigger] has_row(rows, n) <==> is_requested(codes, n)
        && values.contains_key(n) by {
        assert(numbers.contains(n) <==> is_requested(codes, n));
    }
}

/// A string that was added is read back from the batch that was built, row by row, and nothing is
/// read back from a row of another kind.
pub proof fn law_strings_are_read_back(batch: Batch, rows: Seq<InfoRow>, i: int)
    requires
        says(batch, rows),
        0 <= i < rows.len(),
    ensures
        forall|values: Map<u32, InfoValueView>| #[trigger] is_sql_info(values, batch),
        union_text(columns(batch)[1], i) == (match rows[i].value {
            InfoValueView::String(s) => Some(s),
            _ => None,
        }),
{
    assert(cells(columns(batch)[1])[i] == Cell::Union(
        rows[i].value.kind(),
        Box::new(rows[i].value.cell()),
    ));
}

/// What this driver says of itself stands: no answer of a server replaces it.
pub proof fn law_server_replaces_nothing(
    values: Map<u32, InfoValueView>,
    read: Seq<Result<Batch, FlightError>>,
    n: nat,
    number: u32,
)
    requires
        values.contains_key(number),
    ensures
        with_batches(values, read, n).contains_key(number),
        with_batches(values, read, n)[number] == values[number],
    decreases n,
{
    if n > 0 {
        let batch = read[n - 1]->Ok_0;
        law_server_replaces_nothing(values, read, (n - 1) as nat, number);
        lemma_merged_keeps(
            with_batches(values, read, (n - 1) as nat),
            columns(batch)[0],
            columns(batch)[1],
            row_count(batch),
            number,
        );
    }
}

/// Rows of an answer keep what is known.
proof fn lemma_merged_keeps(
    values: Map<u32, InfoValueView>,
    names: Column,
    answers: Column,
    n: nat,
    number: u32,
)
    requires
        values.contains_key(number),
    ensures
        merged(values, names, answers, n).contains_key(number),
        merged(values, names, answers, n)[number] == values[number],
    decreases n,
{
    if n > 0 {
        lemma_merged_keeps(values, names, answers, (n - 1) as nat, number);
    }
}

} // verus!
