//! The hierarchy of catalogs, schemas, tables and columns.

use arrow_array::builder::ArrayBuilder;
use vstd::prelude::*;

use crate::builders::{
    append_int32, append_list, append_null_boolean, append_null_int16, append_null_int32,
    append_null_list, append_null_text, append_struct, append_text, built_texts, content,
    field_cells, list_items, optional_size, row_start, rows_over, struct_cells, text_size,
    texts_size, FieldContent, ListContent, ListRow, StructContent, TextBuilder, MAX_OFFSET,
};
use crate::columns::{
    batch_fields, cells, column_type, columns, field, field_shape, field_shapes, item_field,
    new_batch, new_field, new_list, new_list_field, new_schema, no_metadata, row_count,
    scalar_field, scalar_type, schema_fields, schema_metadata, struct_type, structures_field, Batch,
    Cell, Column, FieldShape, Scalar, TypeShape,
};

verus! {

/// The fields of a use of a column in a constraint.
pub open spec fn usage_fields() -> Seq<FieldShape> {
    seq![
        scalar_field("fk_catalog"@, Scalar::Utf8, true),
        scalar_field("fk_db_schema"@, Scalar::Utf8, true),
        scalar_field("fk_table"@, Scalar::Utf8, false),
        scalar_field("fk_column_name"@, Scalar::Utf8, false),
    ]
}

/// The fields of a constraint.
pub open spec fn constraint_fields() -> Seq<FieldShape> {
    seq![
        scalar_field("constraint_name"@, Scalar::Utf8, true),
        scalar_field("constraint_type"@, Scalar::Utf8, true),
        field(
            "constraint_column_names"@,
            TypeShape::List(Box::new(item_field(TypeShape::Scalar(Scalar::Utf8), false))),
            false,
        ),
        structures_field("constraint_column_usage"@, usage_fields(), false),
    ]
}

/// The fields of a column.
pub open spec fn column_fields() -> Seq<FieldShape> {
    seq![
        scalar_field("column_name"@, Scalar::Utf8, false),
        scalar_field("ordinal_position"@, Scalar::Int32, true),
        scalar_field("remarks"@, Scalar::Utf8, true),
        scalar_field("xdbc_data_type"@, Scalar::Int16, true),
        scalar_field("xdbc_type_name"@, Scalar::Utf8, true),
        scalar_field("xdbc_column_size"@, Scalar::Int32, true),
        scalar_field("xdbc_decimal_digits"@, Scalar::Int16, true),
        scalar_field("xdbc_num_prec_radix"@, Scalar::Int16, true),
        scalar_field("xdbc_nullable"@, Scalar::Int16, true),
        scalar_field("xdbc_column_def"@, Scalar::Utf8, true),
        scalar_field("xdbc_sql_data_type"@, Scalar::Int16, true),
        scalar_field("xdbc_datetime_sub"@, Scalar::Int16, true),
        scalar_field("xdbc_char_octet_length"@, Scalar::Int32, true),
        scalar_field("xdbc_is_nullable"@, Scalar::Utf8, true),
        scalar_field("xdbc_scope_catalog"@, Scalar::Utf8, true),
        scalar_field("xdbc_scope_schema"@, Scalar::Utf8, true),
        scalar_field("xdbc_scope_table"@, Scalar::Utf8, true),
        scalar_field("xdbc_is_autoincrement"@, Scalar::Boolean, true),
        scalar_field("xdbc_is_generatedcolumn"@, Scalar::Boolean, true),
    ]
}

/// The fields of a table.
pub open spec fn table_fields() -> Seq<FieldShape> {
    seq![
        scalar_field("table_name"@, Scalar::Utf8, false),
        scalar_field("table_type"@, Scalar::Utf8, false),
        structures_field("table_columns"@, column_fields(), true),
        structures_field("table_constraints"@, constraint_fields(), true),
    ]
}

/// The fields of a schema of a database.
pub open spec fn db_schema_fields() -> Seq<FieldShape> {
    seq![
        scalar_field("db_schema_name"@, Scalar::Utf8, true),
        structures_field("db_schema_tables"@, table_fields(), true),
    ]
}

/// The fields of a catalog, which is a row of the hierarchy.
pub open spec fn catalog_fields() -> Seq<FieldShape> {
    seq![
        scalar_field("catalog_name"@, Scalar::Utf8, true),
        structures_field("catalog_db_schemas"@, db_schema_fields(), true),
    ]
}

/// A field of a single value.
fn scalar(name: &str, kind: Scalar, nullable: bool) -> (r: arrow_schema::Field)
    ensures
        field_shape(r) == scalar_field(name@, kind, nullable),
{
    new_field(name, scalar_type(kind), nullable)
}

/// A field whose values are lists of structures that are never null.
fn structures(name: &str, fields: Vec<arrow_schema::Field>, nullable: bool) -> (r:
    arrow_schema::Field)
    ensures
        field_shape(r) == structures_field(
            name@,
            field_shapes(fields@),
            nullable,
        ),
{
    new_list(name, new_list_field(struct_type(fields), false), nullable)
}

/// Makes the fields of a constraint.
fn constraint() -> (r: Vec<arrow_schema::Field>)
    ensures
        field_shapes(r@) == constraint_fields(),
{
    let usage = vec![
        scalar("fk_catalog", Scalar::Utf8, true),
        scalar("fk_db_schema", Scalar::Utf8, true),
        scalar("fk_table", Scalar::Utf8, false),
        scalar("fk_column_name", Scalar::Utf8, false),
    ];
    assert(field_shapes(usage@) =~= usage_fields());
    let r = vec![
        scalar("constraint_name", Scalar::Utf8, true),
        scalar("constraint_type", Scalar::Utf8, true),
        new_list(
            "constraint_column_names",
            new_list_field(scalar_type(Scalar::Utf8), false),
            false,
        ),
        structures("constraint_column_usage", usage, false),
    ];
    assert(field_shapes(r@) =~= constraint_fields());
    r
}

/// Makes the fields of a column.
fn column() -> (r: Vec<arrow_schema::Field>)
    ensures
        field_shapes(r@) == column_fields(),
{
    let r = vec![
        scalar("column_name", Scalar::Utf8, false),
        scalar("ordinal_position", Scalar::Int32, true),
        scalar("remarks", Scalar::Utf8, true),
        scalar("xdbc_data_type", Scalar::Int16, true),
        scalar("xdbc_type_name", Scalar::Utf8, true),
        scalar("xdbc_column_size", Scalar::Int32, true),
        scalar("xdbc_decimal_digits", Scalar::Int16, true),
        scalar("xdbc_num_prec_radix", Scalar::Int16, true),
        scalar("xdbc_nullable", Scalar::Int16, true),
        scalar("xdbc_column_def", Scalar::Utf8, true),
        scalar("xdbc_sql_data_type", Scalar::Int16, true),
        scalar("xdbc_datetime_sub", Scalar::Int16, true),
        scalar("xdbc_char_octet_length", Scalar::Int32, true),
        scalar("xdbc_is_nullable", Scalar::Utf8, true),
        scalar("xdbc_scope_catalog", Scalar::Utf8, true),
        scalar("xdbc_scope_schema", Scalar::Utf8, true),
        scalar("xdbc_scope_table", Scalar::Utf8, true),
        scalar("xdbc_is_autoincrement", Scalar::Boolean, true),
        scalar("xdbc_is_generatedcolumn", Scalar::Boolean, true),
    ];
    assert(field_shapes(r@) =~= column_fields());
    r
}

/// The schema of the hierarchy.
pub fn get_objects_schema() -> (r: arrow_schema::Schema)
    ensures
        schema_fields(r) == catalog_fields(),
        schema_metadata(r) == no_metadata(),
{
    let table = vec![
        scalar("table_name", Scalar::Utf8, false),
        scalar("table_type", Scalar::Utf8, false),
        structures("table_columns", column(), true),
        structures("table_constraints", constraint(), true),
    ];
    assert(field_shapes(table@) =~= table_fields());
    let db_schema = vec![
        scalar("db_schema_name", Scalar::Utf8, true),
        structures("db_schema_tables", table, true),
    ];
    assert(field_shapes(db_schema@) =~= db_schema_fields());
    let catalog = vec![
        scalar("catalog_name", Scalar::Utf8, true),
        structures("catalog_db_schemas", db_schema, true),
    ];
    assert(field_shapes(catalog@) =~= catalog_fields());
    new_schema(catalog)
}

/// How far down the hierarchy a request goes.
#[derive(Clone, Copy, Debug, PartialEq, Eq, Structural)]
pub enum ObjectDepth {
    /// Catalogs, schemas, tables and columns.
    All,
    Catalogs,
    Schemas,
    Tables,
    /// The same as `All`.
    Columns,
}

/// A table.
#[derive(Clone, Debug)]
pub struct TableInfo {
    pub table_name: String,
    pub table_type: String,
}

/// A column of a table.
#[derive(Clone, Debug)]
pub struct ColumnInfo {
    pub column_name: String,
}

/// A table with its columns.
#[derive(Clone, Debug)]
pub struct TableAndColumnInfo {
    pub table: TableInfo,
    pub columns: Vec<ColumnInfo>,
}

/// A table in the hierarchy, with the names of its columns if the request goes down to them.
#[verifier::ext_equal]
pub struct TableView {
    pub name: Seq<char>,
    pub kind: Seq<char>,
    pub columns: Option<Seq<Seq<char>>>,
}

/// A schema in the hierarchy, with its tables if the request goes down to them.
#[verifier::ext_equal]
pub struct SchemaView {
    pub name: Seq<char>,
    pub tables: Option<Seq<TableView>>,
}

impl View for TableInfo {
    type V = TableView;

    open spec fn view(&self) -> TableView {
        TableView { name: self.table_name@, kind: self.table_type@, columns: None }
    }
}

impl View for TableAndColumnInfo {
    type V = TableView;

    open spec fn view(&self) -> TableView {
        TableView {
            name: self.table.table_name@,
            kind: self.table.table_type@,
            columns: Some(column_names(self.columns@)),
        }
    }
}

/// The names of some columns.
pub open spec fn column_names(columns: Seq<ColumnInfo>) -> Seq<Seq<char>> {
    columns.map_values(|c: ColumnInfo| c.column_name@)
}

/// Some tables without columns.
pub open spec fn table_views(tables: Seq<TableInfo>) -> Seq<TableView> {
    tables.map_values(|t: TableInfo| t@)
}

/// Some tables with their columns.
pub open spec fn full_table_views(tables: Seq<TableAndColumnInfo>) -> Seq<TableView> {
    tables.map_values(|t: TableAndColumnInfo| t@)
}

/// A column as a value: its name, its ordinal position, and nothing else.
pub open spec fn column_cell(name: Seq<char>, ordinal: i32) -> Cell {
    Cell::Struct(
        Seq::new(
            19,
            |f: int|
                if f == 0 {
                    Cell::Text(name)
                } else if f == 1 {
                    Cell::Int32(ordinal)
                } else {
                    Cell::Null
                },
        ),
    )
}

/// The columns of a table as values: ordinal positions count from one.
pub open spec fn column_cells(names: Seq<Seq<char>>) -> Seq<Cell> {
    Seq::new(names.len(), |i: int| column_cell(names[i], (i + 1) as i32))
}

/// A table as a value: its name, its type, its columns, and no constraints.
pub open spec fn table_cell(table: TableView) -> Cell {
    Cell::Struct(
        seq![
            Cell::Text(table.name),
            Cell::Text(table.kind),
            match table.columns {
                Some(names) => Cell::List(column_cells(names)),
                None => Cell::Null,
            },
            Cell::Null,
        ],
    )
}

/// A schema as a value: its name and its tables.
pub open spec fn db_schema_cell(schema: SchemaView) -> Cell {
    Cell::Struct(
        seq![
            Cell::Text(schema.name),
            match schema.tables {
                Some(tables) => Cell::List(tables.map_values(|t: TableView| table_cell(t))),
                None => Cell::Null,
            },
        ],
    )
}

/// A column with its ordinal position.
#[verifier::ext_equal]
pub struct NumberedColumn {
    pub name: Seq<char>,
    pub ordinal: i32,
}

/// The columns of a table with their ordinal positions.
pub open spec fn numbered(names: Seq<Seq<char>>) -> Seq<NumberedColumn> {
    Seq::new(names.len(), |i: int| NumberedColumn { name: names[i], ordinal: (i + 1) as i32 })
}

/// The columns of a table with their ordinal positions, if it has any.
pub open spec fn own_columns(table: TableView) -> Seq<NumberedColumn> {
    match table.columns {
        Some(names) => numbered(names),
        None => Seq::empty(),
    }
}

/// The columns of all tables, one table after the other.
pub open spec fn all_columns(tables: Seq<TableView>) -> Seq<NumberedColumn>
    decreases tables.len(),
{
    if tables.len() == 0 {
        Seq::empty()
    } else {
        all_columns(tables.drop_last()) + own_columns(tables.last())
    }
}

/// The tables of a schema, if the request goes down to them.
pub open spec fn own_tables(schema: SchemaView) -> Seq<TableView> {
    match schema.tables {
        Some(tables) => tables,
        None => Seq::empty(),
    }
}

/// The tables of all schemas, one schema after the other.
pub open spec fn all_tables(schemas: Seq<SchemaView>) -> Seq<TableView>
    decreases schemas.len(),
{
    if schemas.len() == 0 {
        Seq::empty()
    } else {
        all_tables(schemas.drop_last()) + own_tables(schemas.last())
    }
}

/// Texts that are all there.
pub open spec fn present(texts: Seq<Seq<char>>) -> Seq<Option<Seq<char>>> {
    texts.map_values(|t: Seq<char>| Some(t))
}

/// Nothing but nulls.
pub open spec fn nulls<T>(n: nat) -> Seq<Option<T>> {
    Seq::new(n, |i: int| None)
}

/// Rows that are all there.
pub open spec fn there(n: nat) -> Seq<bool> {
    Seq::new(n, |i: int| true)
}

/// The names of columns.
pub open spec fn names_of_columns(columns: Seq<NumberedColumn>) -> Seq<Seq<char>> {
    columns.map_values(|c: NumberedColumn| c.name)
}

/// The names of tables.
pub open spec fn names_of_tables(tables: Seq<TableView>) -> Seq<Seq<char>> {
    tables.map_values(|t: TableView| t.name)
}

/// The types of tables.
pub open spec fn kinds_of_tables(tables: Seq<TableView>) -> Seq<Seq<char>> {
    tables.map_values(|t: TableView| t.kind)
}

/// The names of schemas.
pub open spec fn names_of_schemas(schemas: Seq<SchemaView>) -> Seq<Seq<char>> {
    schemas.map_values(|s: SchemaView| s.name)
}

/// A field of a column that is always null.
pub open spec fn null_field(f: int, n: nat) -> FieldContent {
    if f == 5 || f == 12 {
        FieldContent::Int32s(nulls(n))
    } else if f == 3 || 6 <= f <= 8 || f == 10 || f == 11 {
        FieldContent::Int16s(nulls(n))
    } else if f == 17 || f == 18 {
        FieldContent::Booleans(nulls(n))
    } else {
        FieldContent::Texts(nulls(n))
    }
}

/// What a builder of columns holds after some columns were added.
pub open spec fn columns_content(columns: Seq<NumberedColumn>) -> StructContent {
    StructContent {
        fields: Seq::new(
            19,
            |f: int|
                if f == 0 {
                    FieldContent::Texts(present(names_of_columns(columns)))
                } else if f == 1 {
                    FieldContent::Int32s(columns.map_values(|c: NumberedColumn| Some(c.ordinal)))
                } else {
                    null_field(f, columns.len())
                },
        ),
        rows: there(columns.len()),
    }
}

/// What a builder of constraints holds: nothing is ever added to it.
pub open spec fn no_constraints() -> StructContent {
    StructContent {
        fields: seq![
            FieldContent::Texts(Seq::empty()),
            FieldContent::Texts(Seq::empty()),
            FieldContent::TextLists(Seq::empty(), Seq::empty()),
            FieldContent::Lists(
                ListContent {
                    rows: Seq::empty(),
                    items: StructContent {
                        fields: seq![
                            FieldContent::Texts(Seq::empty()),
                            FieldContent::Texts(Seq::empty()),
                            FieldContent::Texts(Seq::empty()),
                            FieldContent::Texts(Seq::empty()),
                        ],
                        rows: Seq::empty(),
                    },
                },
            ),
        ],
        rows: Seq::empty(),
    }
}

/// The rows of the lists of columns of tables.
pub open spec fn column_rows(tables: Seq<TableView>) -> Seq<ListRow> {
    Seq::new(
        tables.len(),
        |i: int|
            ListRow {
                valid: tables[i].columns is Some,
                end: all_columns(tables.take(i + 1)).len(),
            },
    )
}

/// What a builder of tables holds after some tables were added.
pub open spec fn tables_content(tables: Seq<TableView>) -> StructContent {
    StructContent {
        fields: seq![
            FieldContent::Texts(present(names_of_tables(tables))),
            FieldContent::Texts(present(kinds_of_tables(tables))),
            FieldContent::Lists(
                ListContent {
                    rows: column_rows(tables),
                    items: columns_content(all_columns(tables)),
                },
            ),
            FieldContent::Lists(
                ListContent {
                    rows: Seq::new(tables.len(), |i: int| ListRow { valid: false, end: 0 }),
                    items: no_constraints(),
                },
            ),
        ],
        rows: there(tables.len()),
    }
}

/// The rows of the lists of tables of schemas.
pub open spec fn table_rows(schemas: Seq<SchemaView>) -> Seq<ListRow> {
    Seq::new(
        schemas.len(),
        |i: int|
            ListRow {
                valid: schemas[i].tables is Some,
                end: all_tables(schemas.take(i + 1)).len(),
            },
    )
}

/// What a builder of schemas holds after some schemas were added.
pub open spec fn schemas_content(schemas: Seq<SchemaView>) -> StructContent {
    StructContent {
        fields: seq![
            FieldContent::Texts(present(names_of_schemas(schemas))),
            FieldContent::Lists(
                ListContent {
                    rows: table_rows(schemas),
                    items: tables_content(all_tables(schemas)),
                },
            ),
        ],
        rows: there(schemas.len()),
    }
}

/// The columns fit the offsets of Arrow.
pub open spec fn columns_fit(columns: Seq<NumberedColumn>) -> bool {
    texts_size(names_of_columns(columns)) <= MAX_OFFSET && columns.len() <= MAX_OFFSET
}

/// The tables and their columns fit the offsets of Arrow.
pub open spec fn tables_fit(tables: Seq<TableView>) -> bool {
    &&& texts_size(names_of_tables(tables)) <= MAX_OFFSET
    &&& texts_size(kinds_of_tables(tables)) <= MAX_OFFSET
    &&& tables.len() <= MAX_OFFSET
    &&& columns_fit(all_columns(tables))
}

/// The schemas, their tables and their columns fit the offsets of Arrow.
pub open spec fn schemas_fit(schemas: Seq<SchemaView>) -> bool {
    &&& texts_size(names_of_schemas(schemas)) <= MAX_OFFSET
    &&& schemas.len() <= MAX_OFFSET
    &&& tables_fit(all_tables(schemas))
}

/// Texts that are all there take up what they take up.
proof fn lemma_present_size(texts: Seq<Seq<char>>)
    ensures
        optional_size(present(texts)) == texts_size(texts),
    decreases texts.len(),
{
    if texts.len() > 0 {
        assert(present(texts).drop_last() =~= present(texts.drop_last()));
        lemma_present_size(texts.drop_last());
    }
}

/// Nulls take up nothing.
proof fn lemma_nulls_size(n: nat)
    ensures
        optional_size(nulls(n)) == 0,
    decreases n,
{
    if n > 0 {
        assert(nulls::<Seq<char>>(n).drop_last() =~= nulls((n - 1) as nat));
        lemma_nulls_size((n - 1) as nat);
    }
}

/// Fewer texts take up no more.
proof fn lemma_size_grows(texts: Seq<Seq<char>>, n: int)
    requires
        0 <= n <= texts.len(),
    ensures
        texts_size(texts.take(n)) <= texts_size(texts),
    decreases texts.len() - n,
{
    if n == texts.len() {
        assert(texts.take(n) == texts);
    } else {
        lemma_size_grows(texts, n + 1);
        assert(texts.take(n + 1).drop_last() == texts.take(n));
    }
}

/// Fewer columns fit if more do.
proof fn lemma_columns_fit(columns: Seq<NumberedColumn>, n: int)
    requires
        columns_fit(columns),
        0 <= n <= columns.len(),
    ensures
        columns_fit(columns.take(n)),
{
    assert(names_of_columns(columns.take(n)) =~= names_of_columns(columns).take(n));
    lemma_size_grows(names_of_columns(columns), n);
}

/// The columns of the first tables are the first columns.
proof fn lemma_all_columns(tables: Seq<TableView>, n: int)
    requires
        0 <= n <= tables.len(),
    ensures
        all_columns(tables.take(n)).len() <= all_columns(tables).len(),
        all_columns(tables.take(n)) == all_columns(tables).take(
            all_columns(tables.take(n)).len() as int,
        ),
    decreases tables.len() - n,
{
    if n == tables.len() {
        assert(tables.take(n) == tables);
    } else {
        lemma_all_columns(tables, n + 1);
        assert(tables.take(n + 1).drop_last() == tables.take(n));
        let fewer = all_columns(tables.take(n));
        let more = all_columns(tables.take(n + 1));
        assert(fewer =~= more.take(fewer.len() as int));
    }
}

/// The tables of the first schemas are the first tables.
proof fn lemma_all_tables(schemas: Seq<SchemaView>, n: int)
    requires
        0 <= n <= schemas.len(),
    ensures
        all_tables(schemas.take(n)).len() <= all_tables(schemas).len(),
        all_tables(schemas.take(n)) == all_tables(schemas).take(
            all_tables(schemas.take(n)).len() as int,
        ),
    decreases schemas.len() - n,
{
    if n == schemas.len() {
        assert(schemas.take(n) == schemas);
    } else {
        lemma_all_tables(schemas, n + 1);
        assert(schemas.take(n + 1).drop_last() == schemas.take(n));
        let fewer = all_tables(schemas.take(n));
        let more = all_tables(schemas.take(n + 1));
        assert(fewer =~= more.take(fewer.len() as int));
    }
}

/// Fewer tables fit if more do.
proof fn lemma_tables_fit(tables: Seq<TableView>, n: int)
    requires
        tables_fit(tables),
        0 <= n <= tables.len(),
    ensures
        tables_fit(tables.take(n)),
{
    assert(names_of_tables(tables.take(n)) =~= names_of_tables(tables).take(n));
    assert(kinds_of_tables(tables.take(n)) =~= kinds_of_tables(tables).take(n));
    lemma_size_grows(names_of_tables(tables), n);
    lemma_size_grows(kinds_of_tables(tables), n);
    lemma_all_columns(tables, n);
    lemma_columns_fit(all_columns(tables), all_columns(tables.take(n)).len() as int);
}

/// Fewer schemas fit if more do.
pub(crate) proof fn lemma_schemas_fit(schemas: Seq<SchemaView>, n: int)
    requires
        schemas_fit(schemas),
        0 <= n <= schemas.len(),
    ensures
        schemas_fit(schemas.take(n)),
{
    assert(names_of_schemas(schemas.take(n)) =~= names_of_schemas(schemas).take(n));
    lemma_size_grows(names_of_schemas(schemas), n);
    lemma_all_tables(schemas, n);
    lemma_tables_fit(all_tables(schemas), all_tables(schemas.take(n)).len() as int);
}

/// Adds a column: its name, its ordinal position, and nulls.
fn append_column(
    item: &mut arrow_array::builder::StructBuilder,
    name: &str,
    ordinal: i32,
    Ghost(columns): Ghost<Seq<NumberedColumn>>,
)
    requires
        content(*old(item)) == columns_content(columns),
        columns_fit(columns.push(NumberedColumn { name: name@, ordinal })),
    ensures
        content(*final(item)) == columns_content(
            columns.push(NumberedColumn { name: name@, ordinal }),
        ),
{
    let ghost column = NumberedColumn { name: name@, ordinal };
    let ghost more = columns.push(column);
    proof {
        lemma_present_size(names_of_columns(columns));
        lemma_nulls_size(columns.len());
        assert(names_of_columns(more) =~= names_of_columns(columns).push(name@));
        assert(names_of_columns(more).drop_last() =~= names_of_columns(columns));
    }
    append_text(item, 0, name);
    append_int32(item, 1, ordinal);
    append_null_text(item, 2);
    append_null_int16(item, 3);
    append_null_text(item, 4);
    append_null_int32(item, 5);
    append_null_int16(item, 6);
    append_null_int16(item, 7);
    append_null_int16(item, 8);
    append_null_text(item, 9);
    append_null_int16(item, 10);
    append_null_int16(item, 11);
    append_null_int32(item, 12);
    append_null_text(item, 13);
    append_null_text(item, 14);
    append_null_text(item, 15);
    append_null_text(item, 16);
    append_null_boolean(item, 17);
    append_null_boolean(item, 18);
    append_struct(item);
    proof {
        let n = columns.len();
        assert(present(names_of_columns(columns)).push(Some(name@)) =~= present(
            names_of_columns(more),
        ));
        assert(columns.map_values(|c: NumberedColumn| Some(c.ordinal)).push(Some(ordinal))
            =~= more.map_values(|c: NumberedColumn| Some(c.ordinal)));
        assert(nulls::<Seq<char>>(n).push(None) =~= nulls(n + 1));
        assert(nulls::<i32>(n).push(None) =~= nulls(n + 1));
        assert(nulls::<i16>(n).push(None) =~= nulls(n + 1));
        assert(nulls::<bool>(n).push(None) =~= nulls(n + 1));
        assert(there(n).push(true) =~= there(n + 1));
        assert(content(*item).fields =~= columns_content(more).fields);
    }
}

/// Adding a table extends each field by what the table has.
proof fn lemma_table_added(tables: Seq<TableView>, table: TableView)
    ensures
        names_of_tables(tables.push(table)) == names_of_tables(tables).push(table.name),
        kinds_of_tables(tables.push(table)) == kinds_of_tables(tables).push(table.kind),
        all_columns(tables.push(table)) == all_columns(tables) + own_columns(table),
        column_rows(tables.push(table)) == column_rows(tables).push(
            ListRow {
                valid: table.columns is Some,
                end: (all_columns(tables) + own_columns(table)).len(),
            },
        ),
        there(tables.len()).push(true) == there(tables.push(table).len()),
        Seq::new(tables.len(), |i: int| ListRow { valid: false, end: 0 }).push(
            ListRow { valid: false, end: 0 },
        ) == Seq::new(tables.push(table).len(), |i: int| ListRow { valid: false, end: 0 }),
{
    let more = tables.push(table);
    assert(more.drop_last() =~= tables);
    assert(names_of_tables(more) =~= names_of_tables(tables).push(table.name));
    assert(kinds_of_tables(more) =~= kinds_of_tables(tables).push(table.kind));
    assert(there(tables.len()).push(true) =~= there(more.len()));
    assert forall|i: int| 0 <= i < tables.len() implies #[trigger] column_rows(more)[i]
        == column_rows(tables)[i] by {
        assert(more.take(i + 1) =~= tables.take(i + 1));
    }
    assert(more.take(more.len() as int) =~= more);
    assert(column_rows(more) =~= column_rows(tables).push(
        ListRow {
            valid: table.columns is Some,
            end: (all_columns(tables) + own_columns(table)).len(),
        },
    ));
    assert(Seq::new(tables.len(), |i: int| ListRow { valid: false, end: 0 }).push(
        ListRow { valid: false, end: 0 },
    ) =~= Seq::new(more.len(), |i: int| ListRow { valid: false, end: 0 }));
}

/// The texts of tables fit with one more table.
proof fn lemma_table_fits(tables: Seq<TableView>, table: TableView)
    requires
        tables_fit(tables.push(table)),
    ensures
        optional_size(present(names_of_tables(tables))) + text_size(table.name) <= MAX_OFFSET,
        optional_size(present(kinds_of_tables(tables))) + text_size(table.kind) <= MAX_OFFSET,
        present(names_of_tables(tables)).push(Some(table.name)) == present(
            names_of_tables(tables.push(table)),
        ),
        present(kinds_of_tables(tables)).push(Some(table.kind)) == present(
            kinds_of_tables(tables.push(table)),
        ),
{
    lemma_table_added(tables, table);
    lemma_present_size(names_of_tables(tables));
    lemma_present_size(kinds_of_tables(tables));
    let names = names_of_tables(tables.push(table));
    let kinds = kinds_of_tables(tables.push(table));
    assert(names.drop_last() =~= names_of_tables(tables));
    assert(kinds.drop_last() =~= kinds_of_tables(tables));
    assert(present(names_of_tables(tables)).push(Some(table.name)) =~= present(names));
    assert(present(kinds_of_tables(tables)).push(Some(table.kind)) =~= present(kinds));
}

/// A prefix of tables that fit, with the table after it.
proof fn lemma_next_table(all: Seq<TableView>, n: int, table: TableView)
    requires
        tables_fit(all),
        0 <= n < all.len(),
        all[n] == table,
    ensures
        all.take(n + 1) == all.take(n).push(table),
        tables_fit(all.take(n)),
        tables_fit(all.take(n).push(table)),
{
    assert(all.take(n + 1) =~= all.take(n).push(table));
    lemma_tables_fit(all, n);
    lemma_tables_fit(all, n + 1);
}

/// Adds a table without its columns.
#[verifier::spinoff_prover]
fn append_table(
    table_item: &mut arrow_array::builder::StructBuilder,
    table: &TableInfo,
    Ghost(earlier): Ghost<Seq<TableView>>,
)
    requires
        content(*old(table_item)) == tables_content(earlier),
        tables_fit(earlier),
        tables_fit(earlier.push(table@)),
    ensures
        content(*final(table_item)) == tables_content(earlier.push(table@)),
{
    proof {
        lemma_table_fits(earlier, table@);
        lemma_table_added(earlier, table@);
        assert(all_columns(earlier) + own_columns(table@) =~= all_columns(earlier));
    }
    append_text(table_item, 0, table.table_name.as_str());
    append_text(table_item, 1, table.table_type.as_str());
    append_null_list(table_item, 2);
    append_null_list(table_item, 3);
    append_struct(table_item);
    assert(content(*table_item).fields =~= tables_content(earlier.push(table@)).fields);
}

/// Adds tables without their columns.
#[verifier::spinoff_prover]
fn append_tables(
    table_item: &mut arrow_array::builder::StructBuilder,
    tables: &Vec<TableInfo>,
    Ghost(earlier): Ghost<Seq<TableView>>,
)
    requires
        content(*old(table_item)) == tables_content(earlier),
        tables_fit(earlier + table_views(tables@)),
    ensures
        content(*final(table_item)) == tables_content(earlier + table_views(tables@)),
{
    let ghost all = earlier + table_views(tables@);
    let ghost start = earlier.len();
    let mut i: usize = 0;
    assert(all.take(start as int) =~= earlier);
    while i < tables.len()
        invariant
            i <= tables.len(),
            start == earlier.len(),
            all == earlier + table_views(tables@),
            tables_fit(all),
            content(*table_item) == tables_content(all.take(start + i)),
        decreases tables.len() - i,
    {
        let table = &tables[i];
        let ghost so_far = all.take(start + i);
        proof {
            lemma_next_table(all, (start + i) as int, table@);
        }
        append_table(table_item, table, Ghost(so_far));
        i += 1;
    }
    assert(all.take(all.len() as int) =~= all);
}

/// Adds a table with its columns.
#[verifier::spinoff_prover]
fn append_table_columns(
    table_item: &mut arrow_array::builder::StructBuilder,
    table: &TableAndColumnInfo,
    Ghost(earlier): Ghost<Seq<TableView>>,
)
    requires
        content(*old(table_item)) == tables_content(earlier),
        tables_fit(earlier.push(table@)),
    ensures
        content(*final(table_item)) == tables_content(earlier.push(table@)),
{
    proof {
        lemma_table_fits(earlier, table@);
        lemma_table_added(earlier, table@);
    }
    append_text(table_item, 0, table.table.table_name.as_str());
    append_text(table_item, 1, table.table.table_type.as_str());
    let column_item = list_items(table_item, 2);
    append_columns(column_item, &table.columns, Ghost(all_columns(earlier)));
    append_list(table_item, 2);
    append_null_list(table_item, 3);
    append_struct(table_item);
    assert(content(*table_item).fields =~= tables_content(earlier.push(table@)).fields);
}

/// Adds tables with their columns.
#[verifier::spinoff_prover]
fn append_tables_columns(
    table_item: &mut arrow_array::builder::StructBuilder,
    tables: &Vec<TableAndColumnInfo>,
    Ghost(earlier): Ghost<Seq<TableView>>,
)
    requires
        content(*old(table_item)) == tables_content(earlier),
        tables_fit(earlier + full_table_views(tables@)),
    ensures
        content(*final(table_item)) == tables_content(earlier + full_table_views(tables@)),
{
    let ghost all = earlier + full_table_views(tables@);
    let ghost start = earlier.len();
    let mut i: usize = 0;
    assert(all.take(start as int) =~= earlier);
    while i < tables.len()
        invariant
            i <= tables.len(),
            start == earlier.len(),
            all == earlier + full_table_views(tables@),
            tables_fit(all),
            content(*table_item) == tables_content(all.take(start + i)),
        decreases tables.len() - i,
    {
        let table = &tables[i];
        let ghost so_far = all.take(start + i);
        proof {
            lemma_next_table(all, (start + i) as int, table@);
        }
        append_table_columns(table_item, table, Ghost(so_far));
        i += 1;
    }
    assert(all.take(all.len() as int) =~= all);
}

/// Adds the columns of a table, with ordinal positions that count from one.
#[verifier::spinoff_prover]
fn append_columns(
    column_item: &mut arrow_array::builder::StructBuilder,
    columns: &Vec<ColumnInfo>,
    Ghost(earlier): Ghost<Seq<NumberedColumn>>,
)
    requires
        content(*old(column_item)) == columns_content(earlier),
        columns_fit(earlier + numbered(column_names(columns@))),
    ensures
        content(*final(column_item)) == columns_content(
            earlier + numbered(column_names(columns@)),
        ),
{
    let ghost all = earlier + numbered(column_names(columns@));
    let ghost start = earlier.len();
    let mut i: usize = 0;
    assert(all.take(start as int) =~= earlier);
    while i < columns.len()
        invariant
            i <= columns.len(),
            start == earlier.len(),
            all == earlier + numbered(column_names(columns@)),
            columns_fit(all),
            content(*column_item) == columns_content(all.take(start + i)),
        decreases columns.len() - i,
    {
        let ghost so_far = all.take(start + i);
        proof {
            lemma_columns_fit(all, start + i + 1);
            assert(all.take(start + i + 1) =~= so_far.push(
                NumberedColumn { name: columns@[i as int].column_name@, ordinal: (i + 1) as i32 },
            ));
        }
        append_column(
            column_item,
            columns[i].column_name.as_str(),
            i as i32 + 1,
            Ghost(so_far),
        );
        i += 1;
    }
    assert(all.take(all.len() as int) =~= all);
}

/// Adding a schema extends each field by what the schema has.
proof fn lemma_schema_added(schemas: Seq<SchemaView>, schema: SchemaView)
    ensures
        names_of_schemas(schemas.push(schema)) == names_of_schemas(schemas).push(schema.name),
        all_tables(schemas.push(schema)) == all_tables(schemas) + own_tables(schema),
        table_rows(schemas.push(schema)) == table_rows(schemas).push(
            ListRow {
                valid: schema.tables is Some,
                end: (all_tables(schemas) + own_tables(schema)).len(),
            },
        ),
        there(schemas.len()).push(true) == there(schemas.push(schema).len()),
{
    let more = schemas.push(schema);
    assert(more.drop_last() =~= schemas);
    assert(names_of_schemas(more) =~= names_of_schemas(schemas).push(schema.name));
    assert(there(schemas.len()).push(true) =~= there(more.len()));
    assert forall|i: int| 0 <= i < schemas.len() implies #[trigger] table_rows(more)[i]
        == table_rows(schemas)[i] by {
        assert(more.take(i + 1) =~= schemas.take(i + 1));
    }
    assert(more.take(more.len() as int) =~= more);
    assert(table_rows(more) =~= table_rows(schemas).push(
        ListRow {
            valid: schema.tables is Some,
            end: (all_tables(schemas) + own_tables(schema)).len(),
        },
    ));
}

/// The names of schemas fit with one more schema.
proof fn lemma_schema_fits(schemas: Seq<SchemaView>, schema: SchemaView)
    requires
        schemas_fit(schemas.push(schema)),
    ensures
        schemas_fit(schemas),
        optional_size(present(names_of_schemas(schemas))) + text_size(schema.name) <= MAX_OFFSET,
        present(names_of_schemas(schemas)).push(Some(schema.name)) == present(
            names_of_schemas(schemas.push(schema)),
        ),
{
    lemma_schema_added(schemas, schema);
    lemma_present_size(names_of_schemas(schemas));
    let more = schemas.push(schema);
    let names = names_of_schemas(more);
    assert(names.drop_last() =~= names_of_schemas(schemas));
    assert(present(names_of_schemas(schemas)).push(Some(schema.name)) =~= present(names));
    assert(more.take(schemas.len() as int) =~= schemas);
    lemma_schemas_fit(more, schemas.len() as int);
}

/// What is listed below a schema.
pub(crate) enum Listing<'a> {
    /// Nothing: the request does not go down to tables.
    Nothing,
    /// Tables without their columns.
    Tables(&'a Vec<TableInfo>),
    /// Tables with their columns.
    Columns(&'a Vec<TableAndColumnInfo>),
}

/// The tables that are listed.
pub(crate) open spec fn listed(listing: Listing) -> Option<Seq<TableView>> {
    match listing {
        Listing::Nothing => None,
        Listing::Tables(tables) => Some(table_views(tables@)),
        Listing::Columns(tables) => Some(full_table_views(tables@)),
    }
}

/// Adds a schema and what is listed below it.
pub(crate) fn append_db_schema(
    db_schema_item: &mut arrow_array::builder::StructBuilder,
    name: &str,
    listing: Listing,
    Ghost(earlier): Ghost<Seq<SchemaView>>,
)
    requires
        content(*old(db_schema_item)) == schemas_content(earlier),
        schemas_fit(earlier.push(SchemaView { name: name@, tables: listed(listing) })),
    ensures
        content(*final(db_schema_item)) == schemas_content(
            earlier.push(SchemaView { name: name@, tables: listed(listing) }),
        ),
{
    let ghost schema = SchemaView { name: name@, tables: listed(listing) };
    proof {
        lemma_schema_added(earlier, schema);
        lemma_schema_fits(earlier, schema);
        assert(all_tables(earlier) + Seq::<TableView>::empty() =~= all_tables(earlier));
    }
    append_text(db_schema_item, 0, name);
    match listing {
        Listing::Nothing => {
            append_null_list(db_schema_item, 1);
        },
        Listing::Tables(tables) => {
            let table_item = list_items(db_schema_item, 1);
            append_tables(table_item, tables, Ghost(all_tables(earlier)));
            append_list(db_schema_item, 1);
        },
        Listing::Columns(tables) => {
            let table_item = list_items(db_schema_item, 1);
            append_tables_columns(table_item, tables, Ghost(all_tables(earlier)));
            append_list(db_schema_item, 1);
        },
    }
    append_struct(db_schema_item);
    assert(content(*db_schema_item).fields =~= schemas_content(earlier.push(schema)).fields);
}

/// Columns are laid out as values with their names and ordinal positions.
proof fn lemma_columns_cells(columns: Seq<NumberedColumn>)
    ensures
        struct_cells(columns_content(columns)) == columns.map_values(
            |c: NumberedColumn| column_cell(c.name, c.ordinal),
        ),
{
    let content = columns_content(columns);
    let laid = struct_cells(content);
    assert forall|k: int| 0 <= k < columns.len() implies #[trigger] laid[k] == column_cell(
        columns[k].name,
        columns[k].ordinal,
    ) by {
        assert forall|f: int| 0 <= f < 19 implies #[trigger] field_cells(content.fields[f])[k] == (
        if f == 0 {
            Cell::Text(columns[k].name)
        } else if f == 1 {
            Cell::Int32(columns[k].ordinal)
        } else {
            Cell::Null
        }) by {}
        assert(laid[k]->Struct_0 =~= column_cell(columns[k].name, columns[k].ordinal)->Struct_0);
    }
    assert(laid =~= columns.map_values(|c: NumberedColumn| column_cell(c.name, c.ordinal)));
}

/// The columns of a table stand between the ends of its row and of the row before.
proof fn lemma_columns_of_row(tables: Seq<TableView>, k: int)
    requires
        0 <= k < tables.len(),
    ensures
        row_start(column_rows(tables), k) == all_columns(tables.take(k)).len(),
        row_start(column_rows(tables), k) <= column_rows(tables)[k].end <= all_columns(tables).len(),
        all_columns(tables).subrange(
            row_start(column_rows(tables), k) as int,
            column_rows(tables)[k].end as int,
        ) == own_columns(tables[k]),
{
    lemma_all_columns(tables, k);
    lemma_all_columns(tables, k + 1);
    assert(tables.take(k + 1).drop_last() =~= tables.take(k));
    assert(tables.take(k + 1).last() == tables[k]);
    let before = all_columns(tables.take(k));
    let after = all_columns(tables.take(k + 1));
    assert(after == before + own_columns(tables[k]));
    assert forall|i: int| before.len() <= i < after.len() implies #[trigger] all_columns(tables)[i]
        == own_columns(tables[k])[i - before.len()] by {
        assert(after[i] == all_columns(tables).take(after.len() as int)[i]);
    }
    assert(all_columns(tables).subrange(before.len() as int, after.len() as int) =~= own_columns(
        tables[k],
    ));
}

/// Tables are laid out as values with their names, their types and their columns.
proof fn lemma_tables_cells(tables: Seq<TableView>)
    ensures
        struct_cells(tables_content(tables)) == tables.map_values(|t: TableView| table_cell(t)),
{
    let content = tables_content(tables);
    let laid = struct_cells(content);
    let all = all_columns(tables);
    let items = struct_cells(columns_content(all));
    lemma_columns_cells(all);
    assert forall|k: int| 0 <= k < tables.len() implies #[trigger] laid[k] == table_cell(
        tables[k],
    ) by {
        lemma_columns_of_row(tables, k);
        let rows = column_rows(tables);
        let start = row_start(rows, k) as int;
        let end = rows[k].end as int;
        if tables[k].columns is Some {
            let names = tables[k].columns->Some_0;
            assert(items.subrange(start, end) =~= column_cells(names)) by {
                assert forall|i: int| 0 <= i < end - start implies #[trigger] items.subrange(
                    start,
                    end,
                )[i] == column_cells(names)[i] by {
                    assert(all.subrange(start, end)[i] == own_columns(tables[k])[i]);
                }
            }
        }
        assert(field_cells(content.fields[0])[k] == Cell::Text(tables[k].name));
        assert(field_cells(content.fields[1])[k] == Cell::Text(tables[k].kind));
        assert(field_cells(content.fields[2])[k] == rows_over(rows, items)[k]);
        assert(field_cells(content.fields[3])[k] == Cell::Null);
        assert(laid[k]->Struct_0 =~= table_cell(tables[k])->Struct_0);
    }
    assert(laid =~= tables.map_values(|t: TableView| table_cell(t)));
}

/// The tables of a schema stand between the ends of its row and of the row before.
proof fn lemma_tables_of_row(schemas: Seq<SchemaView>, k: int)
    requires
        0 <= k < schemas.len(),
    ensures
        row_start(table_rows(schemas), k) <= table_rows(schemas)[k].end <= all_tables(schemas).len(),
        all_tables(schemas).subrange(
            row_start(table_rows(schemas), k) as int,
            table_rows(schemas)[k].end as int,
        ) == own_tables(schemas[k]),
{
    lemma_all_tables(schemas, k);
    lemma_all_tables(schemas, k + 1);
    assert(schemas.take(k + 1).drop_last() =~= schemas.take(k));
    assert(schemas.take(k + 1).last() == schemas[k]);
    let before = all_tables(schemas.take(k));
    let after = all_tables(schemas.take(k + 1));
    assert(after == before + own_tables(schemas[k]));
    assert forall|i: int| before.len() <= i < after.len() implies #[trigger] all_tables(schemas)[i]
        == own_tables(schemas[k])[i - before.len()] by {
        assert(after[i] == all_tables(schemas).take(after.len() as int)[i]);
    }
    assert(row_start(table_rows(schemas), k) == before.len());
    assert(all_tables(schemas).subrange(before.len() as int, after.len() as int) =~= own_tables(
        schemas[k],
    ));
}

/// Schemas are laid out as values with their names and their tables.
proof fn lemma_schemas_cells(schemas: Seq<SchemaView>)
    ensures
        struct_cells(schemas_content(schemas)) == schemas.map_values(
            |s: SchemaView| db_schema_cell(s),
        ),
{
    let content = schemas_content(schemas);
    let laid = struct_cells(content);
    let all = all_tables(schemas);
    let items = struct_cells(tables_content(all));
    lemma_tables_cells(all);
    assert forall|k: int| 0 <= k < schemas.len() implies #[trigger] laid[k] == db_schema_cell(
        schemas[k],
    ) by {
        lemma_tables_of_row(schemas, k);
        let rows = table_rows(schemas);
        let start = row_start(rows, k) as int;
        let end = rows[k].end as int;
        if schemas[k].tables is Some {
            let tables = schemas[k].tables->Some_0;
            assert(items.subrange(start, end) =~= tables.map_values(
                |t: TableView| table_cell(t),
            )) by {
                assert forall|i: int| 0 <= i < end - start implies #[trigger] items.subrange(
                    start,
                    end,
                )[i] == table_cell(tables[i]) by {
                    assert(all.subrange(start, end)[i] == own_tables(schemas[k])[i]);
                }
            }
        }
        assert(field_cells(content.fields[0])[k] == Cell::Text(schemas[k].name));
        assert(field_cells(content.fields[1])[k] == rows_over(rows, items)[k]);
        assert(laid[k]->Struct_0 =~= db_schema_cell(schemas[k])->Struct_0);
    }
    assert(laid =~= schemas.map_values(|s: SchemaView| db_schema_cell(s)));
}

/// A builder of the column of the schemas of catalogs.
#[verifier::external_body]
pub struct CatalogSchemas {
    inner: Box<dyn ArrayBuilder>,
}

/// What a builder of the schemas of catalogs holds.
pub uninterp spec fn lists(builder: CatalogSchemas) -> ListContent;

/// A builder of the schemas of catalogs to which nothing was added.
pub open spec fn no_lists() -> ListContent {
    ListContent { rows: Seq::empty(), items: schemas_content(Seq::empty()) }
}

/// The content is that of some schemas, added one by one.
pub open spec fn is_complete(content: StructContent) -> bool {
    exists|schemas: Seq<SchemaView>| content == #[trigger] schemas_content(schemas)
}

/// Every row of a list ends among the items, and not before it starts.
pub open spec fn rows_are_sound(rows: Seq<ListRow>, items: nat) -> bool {
    forall|k: int|
        0 <= k < rows.len() ==> row_start(rows, k) <= (#[trigger] rows[k]).end <= items
}

impl CatalogSchemas {
    /// Trusted: `arrow_array::builder::make_builder` for the type of the second field of the
    /// hierarchy's schema makes a builder of lists of structures that holds nothing, with a
    /// builder for each field below.
    #[verifier::external_body]
    pub(crate) fn new(schema: &arrow_schema::Schema) -> (r: CatalogSchemas)
        requires
            schema_fields(*schema) == catalog_fields(),
        ensures
            lists(r) == no_lists(),
    {
        let data_type = schema.fields()[1].data_type();
        CatalogSchemas { inner: arrow_array::builder::make_builder(data_type, 32) }
    }

    /// Trusted: the builder is a `ListBuilder`, and its `values` is the `StructBuilder` of the items.
    #[verifier::external_body]
    pub(crate) fn values(&mut self) -> (r: &mut arrow_array::builder::StructBuilder)
        ensures
            content(*r) == lists(*old(self)).items,
            lists(*final(self)) == (ListContent { items: content(*final(r)), ..lists(*old(self)) }),
    {
        self.inner
            .as_any_mut()
            .downcast_mut::<arrow_array::builder::ListBuilder<Box<dyn ArrayBuilder>>>()
            .unwrap()
            .values()
            .as_any_mut()
            .downcast_mut::<arrow_array::builder::StructBuilder>()
            .unwrap()
    }

    /// Trusted: the builder is a `ListBuilder`, and its `append` closes a list with the items since
    /// the last one. It panics where the items no longer fit the offsets.
    #[verifier::external_body]
    pub(crate) fn append(&mut self)
        requires
            lists(*old(self)).items.rows.len() <= MAX_OFFSET,
        ensures
            lists(*final(self)) == lists(*old(self)).with_row(true),
    {
        self.inner
            .as_any_mut()
            .downcast_mut::<arrow_array::builder::ListBuilder<Box<dyn ArrayBuilder>>>()
            .unwrap()
            .append(true)
    }

    /// Trusted: the builder is a `ListBuilder`, and its `append_null` adds a null at the end. It
    /// panics where the items no longer fit the offsets.
    #[verifier::external_body]
    pub(crate) fn append_null(&mut self)
        requires
            lists(*old(self)).items.rows.len() <= MAX_OFFSET,
        ensures
            lists(*final(self)) == lists(*old(self)).with_row(false),
    {
        self.inner
            .as_any_mut()
            .downcast_mut::<arrow_array::builder::ListBuilder<Box<dyn ArrayBuilder>>>()
            .unwrap()
            .append_null()
    }

    /// Trusted: `arrow_array::builder::ArrayBuilder::finish` makes a column of the lists, and
    /// leaves the builder empty. It panics where a field of a structure has more or fewer values
    /// than there are structures, or a null where none is allowed, and where the last list ends
    /// after the last item. It does not notice a list that ends before it starts.
    #[verifier::external_body]
    pub(crate) fn finish(&mut self) -> (r: Column)
        requires
            is_complete(lists(*old(self)).items),
            rows_are_sound(lists(*old(self)).rows, lists(*old(self)).items.rows.len()),
        ensures
            column_type(r) == catalog_fields()[1].data_type,
            cells(r) == rows_over(lists(*old(self)).rows, struct_cells(lists(*old(self)).items)),
            lists(*final(self)) == no_lists(),
    {
        Column { inner: self.inner.finish() }
    }
}

/// The batch holds one catalog: its name, and its schemas if the request goes down to them.
pub open spec fn holds_catalog(
    batch: Batch,
    name: Seq<char>,
    schemas: Option<Seq<SchemaView>>,
) -> bool {
    &&& batch_fields(batch) == catalog_fields()
    &&& row_count(batch) == 1
    &&& columns(batch).len() == 2
    &&& cells(columns(batch)[0]) == seq![Cell::Text(name)]
    &&& cells(columns(batch)[1]) == seq![
        match schemas {
            Some(schemas) => Cell::List(schemas.map_values(|s: SchemaView| db_schema_cell(s))),
            None => Cell::Null,
        },
    ]
}

/// Makes a batch of one catalog and the schemas that were added for it.
///
/// A request for catalogs alone has no schemas: `deep` tells whether it goes further.
pub(crate) fn append_catalog(
    catalog: &str,
    deep: bool,
    catalog_name: &mut TextBuilder,
    catalog_db_schemas: &mut CatalogSchemas,
    Ghost(schemas): Ghost<Seq<SchemaView>>,
) -> (r: Result<Batch, String>)
    requires
        text_size(catalog@) <= MAX_OFFSET,
        built_texts(*old(catalog_name)) == Seq::<Seq<char>>::empty(),
        lists(*old(catalog_db_schemas)) == (ListContent {
            rows: Seq::empty(),
            items: schemas_content(schemas),
        }),
        schemas.len() <= MAX_OFFSET,
        !deep ==> schemas.len() == 0,
    ensures
        r matches Ok(batch) && holds_catalog(
            batch,
            catalog@,
            if deep {
                Some(schemas)
            } else {
                None
            },
        ),
        built_texts(*final(catalog_name)) == Seq::<Seq<char>>::empty(),
        lists(*final(catalog_db_schemas)) == no_lists(),
{
    catalog_name.append_value(catalog);
    if deep {
        catalog_db_schemas.append();
    } else {
        catalog_db_schemas.append_null();
    }
    let names = catalog_name.finish();
    let rows = catalog_db_schemas.finish();
    proof {
        lemma_schemas_cells(schemas);
        let laid = schemas.map_values(|s: SchemaView| db_schema_cell(s));
        assert(laid.subrange(0, laid.len() as int) =~= laid);
        assert(cells(names) =~= seq![Cell::Text(catalog@)]);
        assert(cells(rows) =~= seq![
            if deep {
                Cell::List(laid)
            } else {
                Cell::Null
            },
        ]);
    }
    new_batch(&get_objects_schema(), names, rows)
}

} // verus!
