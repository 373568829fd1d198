//! Builders of Arrow columns.

use arrow_array::builder::ArrayBuilder;
use vstd::prelude::*;

use crate::columns::{
    cells, column_type, field, item_field, scalar_field, union_place, variant_type, variants, Cell,
    Column, Scalar, TypeShape,
};

verus! {

/// The largest offset that a column of texts or of lists can hold.
pub const MAX_OFFSET: u32 = 0x7fff_ffff;

/// The number of bytes that a text takes up.
pub open spec fn text_size(text: Seq<char>) -> nat {
    vstd::utf8::encode_utf8(text).len()
}

/// The number of bytes that some texts take up together.
pub open spec fn texts_size(texts: Seq<Seq<char>>) -> nat
    decreases texts.len(),
{
    if texts.len() == 0 {
        0
    } else {
        texts_size(texts.drop_last()) + text_size(texts.last())
    }
}

/// The number of bytes that some texts take up together, of which any may be missing.
pub open spec fn optional_size(texts: Seq<Option<Seq<char>>>) -> nat
    decreases texts.len(),
{
    if texts.len() == 0 {
        0
    } else {
        optional_size(texts.drop_last()) + match texts.last() {
            Some(text) => text_size(text),
            None => 0,
        }
    }
}

/// A builder of a column of texts.
#[verifier::external_body]
pub struct TextBuilder {
    inner: arrow_array::builder::StringBuilder,
}

/// The texts that a builder holds.
pub uninterp spec fn built_texts(builder: TextBuilder) -> Seq<Seq<char>>;

impl TextBuilder {
    /// Trusted: `arrow_array::builder::StringBuilder::new` holds nothing.
    #[verifier::external_body]
    pub(crate) fn new() -> (r: TextBuilder)
        ensures
            built_texts(r) == Seq::<Seq<char>>::empty(),
    {
        TextBuilder { inner: arrow_array::builder::StringBuilder::new() }
    }

    /// Trusted: `arrow_array::builder::StringBuilder::with_capacity` holds nothing.
    #[verifier::external_body]
    pub(crate) fn with_capacity(items: usize, bytes: usize) -> (r: TextBuilder)
        requires
            items < 0x1_0000,
            bytes <= 0x1_0000,
        ensures
            built_texts(r) == Seq::<Seq<char>>::empty(),
    {
        TextBuilder { inner: arrow_array::builder::StringBuilder::with_capacity(items, bytes) }
    }

    /// Trusted: `append_value` of `arrow_array::builder::StringBuilder` adds a text at the end. It
    /// panics where all the texts together no longer fit the offsets.
    #[verifier::external_body]
    pub(crate) fn append_value(&mut self, value: &str)
        requires
            texts_size(built_texts(*old(self))) + text_size(value@) <= MAX_OFFSET,
        ensures
            built_texts(*final(self)) == built_texts(*old(self)).push(value@),
    {
        self.inner.append_value(value)
    }

    /// Trusted: `len` of `arrow_array::builder::StringBuilder` counts the texts.
    #[verifier::external_body]
    pub(crate) fn len(&self) -> (r: usize)
        ensures
            r == built_texts(*self).len(),
    {
        self.inner.len()
    }

    /// Trusted: `finish` of `arrow_array::builder::StringBuilder` makes a column of the texts, and
    /// leaves the builder empty.
    #[verifier::external_body]
    pub(crate) fn finish(&mut self) -> (r: Column)
        ensures
            column_type(r) == TypeShape::Scalar(Scalar::Utf8),
            cells(r) == built_texts(*old(self)).map_values(|t: Seq<char>| Cell::Text(t)),
            built_texts(*final(self)) == Seq::<Seq<char>>::empty(),
    {
        Column { inner: ArrayBuilder::finish(&mut self.inner) }
    }
}

/// A builder of a column of numbers.
#[verifier::external_body]
pub struct NumberBuilder {
    inner: arrow_array::builder::UInt32Builder,
}

/// The numbers that a builder holds.
pub uninterp spec fn built_numbers(builder: NumberBuilder) -> Seq<u32>;

impl NumberBuilder {
    /// Trusted: `arrow_array::builder::UInt32Builder::new` holds nothing.
    #[verifier::external_body]
    pub(crate) fn new() -> (r: NumberBuilder)
        ensures
            built_numbers(r) == Seq::<u32>::empty(),
    {
        NumberBuilder { inner: arrow_array::builder::UInt32Builder::new() }
    }

    /// Trusted: `append_value` of `arrow_array::builder::UInt32Builder` adds a number at the end.
    #[verifier::external_body]
    pub(crate) fn append_value(&mut self, value: u32)
        ensures
            built_numbers(*final(self)) == built_numbers(*old(self)).push(value),
    {
        self.inner.append_value(value)
    }

    /// Trusted: `finish` of `arrow_array::builder::UInt32Builder` makes a column of the numbers,
    /// and leaves the builder empty.
    #[verifier::external_body]
    pub(crate) fn finish(&mut self) -> (r: Column)
        ensures
            column_type(r) == TypeShape::Scalar(Scalar::UInt32),
            cells(r) == built_numbers(*old(self)).map_values(|n: u32| Cell::UInt32(n)),
            built_numbers(*final(self)) == Seq::<u32>::empty(),
    {
        Column { inner: ArrayBuilder::finish(&mut self.inner) }
    }
}

/// A builder of a column of long numbers.
#[verifier::external_body]
pub struct LongBuilder {
    inner: arrow_array::builder::Int64Builder,
}

/// The long numbers that a builder holds.
pub uninterp spec fn built_longs(builder: LongBuilder) -> Seq<i64>;

impl LongBuilder {
    /// Trusted: `arrow_array::builder::Int64Builder::new` holds nothing.
    #[verifier::external_body]
    pub(crate) fn new() -> (r: LongBuilder)
        ensures
            built_longs(r) == Seq::<i64>::empty(),
    {
        LongBuilder { inner: arrow_array::builder::Int64Builder::new() }
    }

    /// Trusted: `append_value` of `arrow_array::builder::Int64Builder` adds a number at the end.
    #[verifier::external_body]
    pub(crate) fn append_value(&mut self, value: i64)
        ensures
            built_longs(*final(self)) == built_longs(*old(self)).push(value),
    {
        self.inner.append_value(value)
    }

    /// Trusted: `len` of `arrow_array::builder::Int64Builder` counts the numbers.
    #[verifier::external_body]
    pub(crate) fn len(&self) -> (r: usize)
        ensures
            r == built_longs(*self).len(),
    {
        self.inner.len()
    }

    /// Trusted: `finish` of `arrow_array::builder::Int64Builder` makes a column of the numbers, and
    /// leaves the builder empty.
    #[verifier::external_body]
    pub(crate) fn finish(&mut self) -> (r: Column)
        ensures
            column_type(r) == TypeShape::Scalar(Scalar::Int64),
            cells(r) == built_longs(*old(self)).map_values(|n: i64| Cell::Int64(n)),
            built_longs(*final(self)) == Seq::<i64>::empty(),
    {
        Column { inner: ArrayBuilder::finish(&mut self.inner) }
    }
}

#[verifier::external_type_specification]
#[verifier::external_body]
pub struct ExBooleanBuilder(arrow_array::builder::BooleanBuilder);

/// The truth values that a builder holds.
pub uninterp spec fn built_booleans(builder: arrow_array::builder::BooleanBuilder) -> Seq<bool>;

/// Trusted: `arrow_array::builder::BooleanBuilder::new` holds nothing.
#[verifier::external_body]
pub(crate) fn new_booleans() -> (r: arrow_array::builder::BooleanBuilder)
    ensures
        built_booleans(r) == Seq::<bool>::empty(),
{
    arrow_array::builder::BooleanBuilder::new()
}

/// Trusted: `append_value` of `arrow_array::builder::BooleanBuilder` adds a truth value at the end.
#[verifier::external_body]
pub(crate) fn append_boolean(builder: &mut arrow_array::builder::BooleanBuilder, value: bool)
    ensures
        built_booleans(*final(builder)) == built_booleans(*old(builder)).push(value),
{
    builder.append_value(value)
}

/// Trusted: `len` of `arrow_array::builder::BooleanBuilder` counts the truth values.
#[verifier::external_body]
pub(crate) fn booleans_len(builder: &arrow_array::builder::BooleanBuilder) -> (r: usize)
    ensures
        r == built_booleans(*builder).len(),
{
    builder.len()
}

/// Trusted: `finish` of `arrow_array::builder::BooleanBuilder` makes a column of the truth values,
/// and leaves the builder empty.
#[verifier::external_body]
pub(crate) fn finish_booleans(builder: &mut arrow_array::builder::BooleanBuilder) -> (r: Column)
    ensures
        column_type(r) == TypeShape::Scalar(Scalar::Boolean),
        cells(r) == built_booleans(*old(builder)).map_values(|b: bool| Cell::Boolean(b)),
        built_booleans(*final(builder)) == Seq::<bool>::empty(),
{
    Column { inner: ArrayBuilder::finish(builder) }
}

/// The type of lists of single values that may be null.
pub open spec fn lists_of(scalar: Scalar) -> TypeShape {
    TypeShape::List(Box::new(item_field(TypeShape::Scalar(scalar), true)))
}

/// The type of maps from numbers to lists of numbers, under the names that Arrow's builder gives
/// the parts.
pub open spec fn number_maps() -> TypeShape {
    let keys = scalar_field("keys"@, Scalar::Int32, false);
    let values = field("values"@, lists_of(Scalar::Int32), true);
    TypeShape::Entries(
        Box::new(field("entries"@, TypeShape::Struct(seq![keys, values]), false)),
        false,
    )
}

/// Trusted: an `arrow_array::builder::Int32Builder` to which nothing was added finishes as an empty
/// column of such numbers.
#[verifier::external_body]
pub(crate) fn empty_bitmasks() -> (r: Column)
    ensures
        column_type(r) == TypeShape::Scalar(Scalar::Int32),
        cells(r) == Seq::<Cell>::empty(),
{
    Column { inner: ArrayBuilder::finish(&mut arrow_array::builder::Int32Builder::new()) }
}

/// Trusted: an `arrow_array::builder::ListBuilder` of texts to which nothing was added finishes as
/// an empty column of lists of texts.
#[verifier::external_body]
pub(crate) fn empty_text_lists() -> (r: Column)
    ensures
        column_type(r) == lists_of(Scalar::Utf8),
        cells(r) == Seq::<Cell>::empty(),
{
    let texts = arrow_array::builder::StringBuilder::new();
    Column { inner: ArrayBuilder::finish(&mut arrow_array::builder::ListBuilder::new(texts)) }
}

/// Trusted: an `arrow_array::builder::MapBuilder` to which nothing was added finishes as an empty
/// column of maps, which are not sorted.
#[verifier::external_body]
pub(crate) fn empty_number_maps() -> (r: Column)
    ensures
        column_type(r) == number_maps(),
        cells(r) == Seq::<Cell>::empty(),
{
    let keys = arrow_array::builder::Int32Builder::new();
    let items = arrow_array::builder::Int32Builder::new();
    let lists = arrow_array::builder::ListBuilder::new(items);
    let mut builder = arrow_array::builder::MapBuilder::new(None, keys, lists);
    Column { inner: ArrayBuilder::finish(&mut builder) }
}

/// A buffer of the variant numbers of a union.
#[verifier::external_body]
pub struct IdBuffer {
    inner: arrow_array::builder::Int8BufferBuilder,
}

/// The variant numbers in a buffer.
pub uninterp spec fn ids(buffer: IdBuffer) -> Seq<i8>;

impl IdBuffer {
    /// Trusted: `arrow_array::builder::Int8BufferBuilder::new` holds nothing.
    #[verifier::external_body]
    pub(crate) fn new(capacity: usize) -> (r: IdBuffer)
        requires
            capacity < 0x1_0000,
        ensures
            ids(r) == Seq::<i8>::empty(),
    {
        IdBuffer { inner: arrow_array::builder::Int8BufferBuilder::new(capacity) }
    }

    /// Trusted: `append` of `arrow_array::builder::Int8BufferBuilder` adds a number at the end.
    #[verifier::external_body]
    pub(crate) fn append(&mut self, id: i8)
        ensures
            ids(*final(self)) == ids(*old(self)).push(id),
    {
        self.inner.append(id)
    }

    /// Trusted: `as_slice` of `arrow_array::builder::Int8BufferBuilder` shows the numbers in order.
    #[verifier::external_body]
    pub(crate) fn as_slice(&self) -> (r: Vec<i8>)
        ensures
            r@ == ids(*self),
    {
        self.inner.as_slice().to_vec()
    }
}

/// A buffer of the places of the rows of a union.
#[verifier::external_body]
pub struct OffsetBuffer {
    inner: arrow_array::builder::Int32BufferBuilder,
}

/// The places in a buffer.
pub uninterp spec fn offsets(buffer: OffsetBuffer) -> Seq<i32>;

impl OffsetBuffer {
    /// Trusted: `arrow_array::builder::Int32BufferBuilder::new` holds nothing.
    #[verifier::external_body]
    pub(crate) fn new(capacity: usize) -> (r: OffsetBuffer)
        requires
            capacity < 0x1_0000,
        ensures
            offsets(r) == Seq::<i32>::empty(),
    {
        OffsetBuffer { inner: arrow_array::builder::Int32BufferBuilder::new(capacity) }
    }

    /// Trusted: `append` of `arrow_array::builder::Int32BufferBuilder` adds a number at the end.
    #[verifier::external_body]
    pub(crate) fn append(&mut self, offset: i32)
        ensures
            offsets(*final(self)) == offsets(*old(self)).push(offset),
    {
        self.inner.append(offset)
    }

    /// Trusted: `as_slice` of `arrow_array::builder::Int32BufferBuilder` shows the numbers in order.
    #[verifier::external_body]
    pub(crate) fn as_slice(&self) -> (r: Vec<i32>)
        ensures
            r@ == offsets(*self),
    {
        self.inner.as_slice().to_vec()
    }
}

/// The rows of a dense union: each is the value of its variant at its place.
pub open spec fn union_cells(ids: Seq<i8>, places: Seq<i32>, children: Seq<Column>) -> Seq<Cell> {
    Seq::new(
        ids.len(),
        |i: int| Cell::Union(ids[i], Box::new(cells(children[ids[i] as int])[places[i] as int])),
    )
}

/// Every row names a variant and a place that there is.
pub open spec fn union_is_sound(ids: Seq<i8>, places: Seq<i32>, children: Seq<Column>) -> bool {
    &&& ids.len() == places.len()
    &&& forall|i: int|
        #![trigger ids[i]]
        #![trigger places[i]]
        0 <= i < ids.len() ==> 0 <= ids[i] < children.len() && 0 <= places[i] < cells(
            children[ids[i] as int],
        ).len()
}

/// Puts the columns of variants, which are numbered in order, together as a dense union.
///
/// Trusted: `arrow_array::UnionArray::try_new` fails unless there is a column for every variant
/// and every row names a variant and a place that there is; what the error then says is left
/// open. The lengths of the columns must fit the places.
#[verifier::external_body]
pub(crate) fn new_union(
    fields: &arrow_schema::UnionFields,
    ids: Vec<i8>,
    places: Vec<i32>,
    children: Vec<Column>,
) -> (r: Result<Column, String>)
    requires
        forall|k: int| 0 <= k < variants(*fields).len() ==> (#[trigger] variants(*fields)[k]).0 == k,
        forall|k: int|
            0 <= k < children@.len() ==> cells(#[trigger] children@[k]).len() <= MAX_OFFSET,
    ensures
        r is Ok <==> (variants(*fields).len() == children@.len() && union_is_sound(
            ids@,
            places@,
            children@,
        )),
        r matches Ok(c) ==> column_type(c) == TypeShape::Union(variants(*fields), true),
        r matches Ok(c) ==> cells(c) == union_cells(ids@, places@, children@),
        r matches Ok(c) ==> forall|i: int|
            0 <= i < ids@.len() ==> #[trigger] union_place(c, i) == places@[i],
        r matches Ok(c) ==> forall|k: i8|
            0 <= k < children@.len() ==> #[trigger] variant_type(c, k) == column_type(
                children@[k as int],
            ),
{
    let ids = arrow_buffer::ScalarBuffer::from(ids);
    let places = arrow_buffer::ScalarBuffer::from(places);
    let children = children.into_iter().map(|c| c.inner).collect();
    match arrow_array::UnionArray::try_new(fields.clone(), ids, Some(places), children) {
        Ok(union) => Ok(Column { inner: std::sync::Arc::new(union) }),
        Err(e) => Err(e.to_string()),
    }
}

#[verifier::external_type_specification]
#[verifier::external_body]
pub struct ExStructBuilder(arrow_array::builder::StructBuilder);

/// A row of a list: whether it is there, and where its items end among all items.
#[verifier::ext_equal]
pub struct ListRow {
    pub valid: bool,
    pub end: nat,
}

/// What a builder of lists of structures holds: its rows, and the items of all of them.
#[verifier::ext_equal]
pub struct ListContent {
    pub rows: Seq<ListRow>,
    pub items: StructContent,
}

/// What a builder of one field of a structure holds.
#[verifier::ext_equal]
pub enum FieldContent {
    Texts(Seq<Option<Seq<char>>>),
    Int32s(Seq<Option<i32>>),
    Int16s(Seq<Option<i16>>),
    Booleans(Seq<Option<bool>>),
    Lists(ListContent),
    /// Lists of texts: their rows, and the texts of all of them.
    TextLists(Seq<ListRow>, Seq<Option<Seq<char>>>),
}

/// What a builder of structures holds: its fields one by one, and for each structure whether it is
/// there.
#[verifier::ext_equal]
pub struct StructContent {
    pub fields: Seq<FieldContent>,
    pub rows: Seq<bool>,
}

/// What a builder of structures holds.
pub uninterp spec fn content(builder: arrow_array::builder::StructBuilder) -> StructContent;

/// Where the items of a row of a list start among all items.
pub open spec fn row_start(rows: Seq<ListRow>, k: int) -> nat {
    if k == 0 {
        0
    } else {
        rows[k - 1].end
    }
}

/// The rows of a list over the values of all its items.
pub open spec fn rows_over(rows: Seq<ListRow>, items: Seq<Cell>) -> Seq<Cell> {
    Seq::new(
        rows.len(),
        |k: int|
            if rows[k].valid {
                Cell::List(items.subrange(row_start(rows, k) as int, rows[k].end as int))
            } else {
                Cell::Null
            },
    )
}

/// The values of a field of structures.
pub open spec fn field_cells(content: FieldContent) -> Seq<Cell>
    decreases content,
{
    match content {
        FieldContent::Texts(s) => s.map_values(|v: Option<Seq<char>>| text_cell(v)),
        FieldContent::Int32s(s) => s.map_values(
            |v: Option<i32>|
                match v {
                    Some(n) => Cell::Int32(n),
                    None => Cell::Null,
                },
        ),
        FieldContent::Int16s(s) => s.map_values(
            |v: Option<i16>|
                match v {
                    Some(n) => Cell::Int16(n),
                    None => Cell::Null,
                },
        ),
        FieldContent::Booleans(s) => s.map_values(
            |v: Option<bool>|
                match v {
                    Some(b) => Cell::Boolean(b),
                    None => Cell::Null,
                },
        ),
        FieldContent::Lists(lists) => rows_over(lists.rows, struct_cells(lists.items)),
        FieldContent::TextLists(rows, texts) => rows_over(
            rows,
            texts.map_values(|v: Option<Seq<char>>| text_cell(v)),
        ),
    }
}

/// A text that may be missing, as a value.
pub open spec fn text_cell(text: Option<Seq<char>>) -> Cell {
    match text {
        Some(t) => Cell::Text(t),
        None => Cell::Null,
    }
}

/// The structures that fields make up, row by row.
pub open spec fn struct_cells(content: StructContent) -> Seq<Cell>
    decreases content,
{
    Seq::new(
        content.rows.len(),
        |k: int|
            if content.rows[k] {
                Cell::Struct(
                    Seq::new(
                        content.fields.len(),
                        |f: int|
                            if 0 <= f < content.fields.len() {
                                field_cells(content.fields[f])[k]
                            } else {
                                Cell::Null
                            },
                    ),
                )
            } else {
                Cell::Null
            },
    )
}

impl StructContent {
    /// With another content of a field.
    pub open spec fn with_field(self, i: int, field: FieldContent) -> StructContent {
        StructContent { fields: self.fields.update(i, field), ..self }
    }

    /// The texts of a field.
    pub open spec fn texts(self, i: int) -> Seq<Option<Seq<char>>> {
        self.fields[i]->Texts_0
    }

    /// The lists of a field.
    pub open spec fn lists(self, i: int) -> ListContent {
        self.fields[i]->Lists_0
    }
}

impl ListContent {
    /// With a row that has the items since the last row, or that is null.
    pub open spec fn with_row(self, valid: bool) -> ListContent {
        ListContent { rows: self.rows.push(ListRow { valid, end: self.items.rows.len() }), ..self }
    }
}

/// Trusted: the `StringBuilder` that `arrow_array::builder::StructBuilder::field_builder` finds at
/// a field of texts, and its `append_value`, which adds a text at the end. It panics where all
/// the texts together no longer fit the offsets.
#[verifier::external_body]
pub(crate) fn append_text(item: &mut arrow_array::builder::StructBuilder, i: usize, value: &str)
    requires
        i < content(*old(item)).fields.len(),
        content(*old(item)).fields[i as int] is Texts,
        optional_size(content(*old(item)).texts(i as int)) + text_size(value@) <= MAX_OFFSET,
    ensures
        content(*final(item)) == content(*old(item)).with_field(
            i as int,
            FieldContent::Texts(content(*old(item)).texts(i as int).push(Some(value@))),
        ),
{
    item.field_builder::<arrow_array::builder::StringBuilder>(i).unwrap().append_value(value)
}

/// Trusted: the `StringBuilder` that `arrow_array::builder::StructBuilder::field_builder` finds at
/// a field of texts, and its `append_null`, which adds a null at the end.
#[verifier::external_body]
pub(crate) fn append_null_text(item: &mut arrow_array::builder::StructBuilder, i: usize)
    requires
        i < content(*old(item)).fields.len(),
        content(*old(item)).fields[i as int] is Texts,
        optional_size(content(*old(item)).texts(i as int)) <= MAX_OFFSET,
    ensures
        content(*final(item)) == content(*old(item)).with_field(
            i as int,
            FieldContent::Texts(content(*old(item)).texts(i as int).push(None)),
        ),
{
    item.field_builder::<arrow_array::builder::StringBuilder>(i).unwrap().append_null()
}

/// Trusted: the `Int32Builder` that `arrow_array::builder::StructBuilder::field_builder` finds at a
/// field of such numbers, and its `append_value`, which adds a number at the end.
#[verifier::external_body]
pub(crate) fn append_int32(item: &mut arrow_array::builder::StructBuilder, i: usize, value: i32)
    requires
        i < content(*old(item)).fields.len(),
        content(*old(item)).fields[i as int] is Int32s,
    ensures
        content(*final(item)) == content(*old(item)).with_field(
            i as int,
            FieldContent::Int32s(
                (content(*old(item)).fields[i as int]->Int32s_0).push(Some(value)),
            ),
        ),
{
    item.field_builder::<arrow_array::builder::Int32Builder>(i).unwrap().append_value(value)
}

/// Trusted: the `Int32Builder` that `arrow_array::builder::StructBuilder::field_builder` finds at a
/// field of such numbers, and its `append_null`, which adds a null at the end.
#[verifier::external_body]
pub(crate) fn append_null_int32(item: &mut arrow_array::builder::StructBuilder, i: usize)
    requires
        i < content(*old(item)).fields.len(),
        content(*old(item)).fields[i as int] is Int32s,
    ensures
        content(*final(item)) == content(*old(item)).with_field(
            i as int,
            FieldContent::Int32s((content(*old(item)).fields[i as int]->Int32s_0).push(None)),
        ),
{
    item.field_builder::<arrow_array::builder::Int32Builder>(i).unwrap().append_null()
}

/// Trusted: the `Int16Builder` that `arrow_array::builder::StructBuilder::field_builder` finds at a
/// field of such numbers, and its `append_null`, which adds a null at the end.
#[verifier::external_body]
pub(crate) fn append_null_int16(item: &mut arrow_array::builder::StructBuilder, i: usize)
    requires
        i < content(*old(item)).fields.len(),
        content(*old(item)).fields[i as int] is Int16s,
    ensures
        content(*final(item)) == content(*old(item)).with_field(
            i as int,
            FieldContent::Int16s((content(*old(item)).fields[i as int]->Int16s_0).push(None)),
        ),
{
    item.field_builder::<arrow_array::builder::Int16Builder>(i).unwrap().append_null()
}

/// Trusted: the `BooleanBuilder` that `arrow_array::builder::StructBuilder::field_builder` finds at
/// a field of truth values, and its `append_null`, which adds a null at the end.
#[verifier::external_body]
pub(crate) fn append_null_boolean(item: &mut arrow_array::builder::StructBuilder, i: usize)
    requires
        i < content(*old(item)).fields.len(),
        content(*old(item)).fields[i as int] is Booleans,
    ensures
        content(*final(item)) == content(*old(item)).with_field(
            i as int,
            FieldContent::Booleans((content(*old(item)).fields[i as int]->Booleans_0).push(None)),
        ),
{
    item.field_builder::<arrow_array::builder::BooleanBuilder>(i).unwrap().append_null()
}

/// Trusted: the `ListBuilder` that `arrow_array::builder::StructBuilder::field_builder` finds at a
/// field of lists, and its `append`, which closes a list with the items since the last one. It
/// panics where the items no longer fit the offsets.
#[verifier::external_body]
pub(crate) fn append_list(item: &mut arrow_array::builder::StructBuilder, i: usize)
    requires
        i < content(*old(item)).fields.len(),
        content(*old(item)).fields[i as int] is Lists,
        content(*old(item)).lists(i as int).items.rows.len() <= MAX_OFFSET,
    ensures
        content(*final(item)) == content(*old(item)).with_field(
            i as int,
            FieldContent::Lists(content(*old(item)).lists(i as int).with_row(true)),
        ),
{
    item.field_builder::<arrow_array::builder::ListBuilder<Box<dyn ArrayBuilder>>>(i)
        .unwrap()
        .append(true)
}

/// Trusted: the `ListBuilder` that `arrow_array::builder::StructBuilder::field_builder` finds at a
/// field of lists, and its `append_null`, which adds a null at the end. It panics where the items
/// no longer fit the offsets.
#[verifier::external_body]
pub(crate) fn append_null_list(item: &mut arrow_array::builder::StructBuilder, i: usize)
    requires
        i < content(*old(item)).fields.len(),
        content(*old(item)).fields[i as int] is Lists,
        content(*old(item)).lists(i as int).items.rows.len() <= MAX_OFFSET,
    ensures
        content(*final(item)) == content(*old(item)).with_field(
            i as int,
            FieldContent::Lists(content(*old(item)).lists(i as int).with_row(false)),
        ),
{
    item.field_builder::<arrow_array::builder::ListBuilder<Box<dyn ArrayBuilder>>>(i)
        .unwrap()
        .append_null()
}

/// Trusted: `append` of `arrow_array::builder::StructBuilder` adds a structure that is there; the
/// values of its fields are added field by field.
#[verifier::external_body]
pub(crate) fn append_struct(item: &mut arrow_array::builder::StructBuilder)
    ensures
        content(*final(item)) == (StructContent {
            rows: content(*old(item)).rows.push(true),
            ..content(*old(item))
        }),
{
    item.append(true)
}

/// Trusted: the `ListBuilder` that `arrow_array::builder::StructBuilder::field_builder` finds at a
/// field of lists of structures, and its `values`, which is the builder of the items.
#[verifier::external_body]
pub(crate) fn list_items(item: &mut arrow_array::builder::StructBuilder, i: usize) -> (r:
    &mut arrow_array::builder::StructBuilder)
    requires
        i < content(*old(item)).fields.len(),
        content(*old(item)).fields[i as int] is Lists,
    ensures
        content(*r) == content(*old(item)).lists(i as int).items,
        content(*final(item)) == content(*old(item)).with_field(
            i as int,
            FieldContent::Lists(
                (ListContent { items: content(*final(r)), ..content(*old(item)).lists(i as int) }),
            ),
        ),
{
    item.field_builder::<arrow_array::builder::ListBuilder<Box<dyn ArrayBuilder>>>(i)
        .unwrap()
        .values()
        .as_any_mut()
        .downcast_mut::<arrow_array::builder::StructBuilder>()
        .unwrap()
}

} // verus!
