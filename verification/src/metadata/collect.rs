//! Reading the answers of a server about its database objects, and finding the schema of a table.

use vstd::prelude::*;

use crate::columns::{
    bytes_value, cells, column, column_len, column_type, columns, field_name, has_scalars, is_null,
    num_columns, num_rows, row_count, schema_fields, schema_len, slot_text, text_value, Batch, Cell,
    Column, Scalar, TypeShape,
};
use crate::error::{
    adbc, adbc_display, bare, flight_view, map_flight_error, AdbcError, AdbcErrorView, Error,
    ErrorHelper, ErrorView, FlightError, FlightSqlErrorHelper, Status,
};
use crate::flight::{
    bytes_view, decodes, encoded_schema, find_ticket, first_ticket, schema_bytes, takes_all,
};
use crate::metadata::objects::{
    column_names, full_table_views, table_views, ColumnInfo, TableAndColumnInfo, TableInfo,
    TableView,
};
use crate::metadata::walk::{CommandGetTables, ObjectsRequest, RequestView, TablesCommandView};
use crate::stream::{lemma_stream_error, stream_error};
use crate::text::{concat2, concat3, opt_str_view, own_opt, views};

verus! {

/// An error of a Flight call, as the walk down the hierarchy reports it: an unknown error that
/// says what the ADBC error says.
pub open spec fn walk_error(err: FlightError, context: Seq<char>) -> ErrorView {
    bare(Status::Unknown).message(adbc_display(flight_view(err, context)))
}

/// Maps an error of a Flight call to an error of the walk.
pub fn map_flight_error_e(err: FlightError, context: &str) -> (r: Error<FlightSqlErrorHelper>)
    ensures
        r@ == walk_error(err, context@),
{
    let wrapped = FlightSqlErrorHelper::to_arrow(map_flight_error(err, context));
    FlightSqlErrorHelper::from_arrow(wrapped)
}

/// The error for an answer without an endpoint to fetch it from.
pub open spec fn no_metadata_endpoint() -> ErrorView {
    bare(Status::Internal).message("metadata response has no endpoints"@)
}

/// The ticket to fetch an answer with.
pub fn metadata_ticket(info: &arrow_flight::FlightInfo) -> (r: Result<
    Vec<u8>,
    Error<FlightSqlErrorHelper>,
>)
    ensures
        match first_ticket(*info) {
            Some(ticket) => r matches Ok(t) && t@ == ticket,
            None => r matches Err(e) && e@ == no_metadata_endpoint(),
        },
{
    match find_ticket(info) {
        Some(ticket) => Ok(ticket),
        None => Err(
            FlightSqlErrorHelper::internal_no_location().message(
                "metadata response has no endpoints",
            ),
        ),
    }
}

impl RequestView {
    /// What the request is for, in an error.
    pub open spec fn asking(self) -> Seq<char> {
        match self {
            RequestView::Catalogs => "getting catalogs"@,
            RequestView::DbSchemas(_) => "getting db schemas"@,
            RequestView::Tables(_) => "getting tables"@,
            RequestView::Columns(_) => "getting tables with columns"@,
        }
    }

    /// Whose stream is opened, in an error.
    pub open spec fn opening(self) -> Seq<char> {
        match self {
            RequestView::Catalogs => "opening metadata stream"@,
            RequestView::DbSchemas(_) => "opening metadata stream"@,
            RequestView::Tables(_) => "opening tables stream"@,
            RequestView::Columns(_) => "opening columns stream"@,
        }
    }

    /// The column of the names in the answer, where it holds nothing but names. Those of schemas
    /// stand after the names of their catalogs.
    pub open spec fn names_at(self) -> Option<usize> {
        match self {
            RequestView::Catalogs => Some(0),
            RequestView::DbSchemas(_) => Some(1),
            _ => None,
        }
    }
}

impl ObjectsRequest {
    /// The column of the names in the answer, where it holds nothing but names.
    pub fn names_column(&self) -> (r: Option<usize>)
        ensures
            r == self@.names_at(),
    {
        match self {
            ObjectsRequest::Catalogs => Some(0),
            ObjectsRequest::DbSchemas(_) => Some(1),
            _ => None,
        }
    }

    /// Takes the answer to the request: the ticket to fetch it with.
    pub fn answer_info(&self, answer: Result<arrow_flight::FlightInfo, FlightError>) -> (r: Result<
        Vec<u8>,
        Error<FlightSqlErrorHelper>,
    >)
        ensures
            match answer {
                Err(e) => r matches Err(x) && x@ == walk_error(e, self@.asking()),
                Ok(info) => match first_ticket(info) {
                    Some(ticket) => r matches Ok(t) && t@ == ticket,
                    None => r matches Err(e) && e@ == no_metadata_endpoint(),
                },
            },
    {
        match answer {
            Ok(info) => metadata_ticket(&info),
            Err(e) => {
                let context = match self {
                    ObjectsRequest::Catalogs => "getting catalogs",
                    ObjectsRequest::DbSchemas(_) => "getting db schemas",
                    ObjectsRequest::Tables(_) => "getting tables",
                    ObjectsRequest::Columns(_) => "getting tables with columns",
                };
                Err(map_flight_error_e(e, context))
            },
        }
    }

    /// Takes the answer to opening the stream of the answer.
    pub fn answer_open<S>(&self, answer: Result<S, FlightError>) -> (r: Result<
        S,
        Error<FlightSqlErrorHelper>,
    >)
        ensures
            match answer {
                Ok(stream) => r == Ok::<S, Error<FlightSqlErrorHelper>>(stream),
                Err(e) => r matches Err(x) && x@ == walk_error(e, self@.opening()),
            },
    {
        match answer {
            Ok(stream) => Ok(stream),
            Err(e) => {
                let context = match self {
                    ObjectsRequest::Catalogs => "opening metadata stream",
                    ObjectsRequest::DbSchemas(_) => "opening metadata stream",
                    ObjectsRequest::Tables(_) => "opening tables stream",
                    ObjectsRequest::Columns(_) => "opening columns stream",
                };
                Err(map_flight_error_e(e, context))
            },
        }
    }
}

/// The texts of a column that are there, in order, up to a row.
pub open spec fn texts_there(column: Column, n: nat) -> Seq<Seq<char>>
    decreases n,
{
    if n == 0 {
        Seq::empty()
    } else {
        match cells(column)[n - 1] {
            Cell::Text(text) => texts_there(column, (n - 1) as nat).push(text),
            _ => texts_there(column, (n - 1) as nat),
        }
    }
}

/// The batch has a column of texts at a position.
pub open spec fn texts_stand_at(batch: Batch, at: int) -> bool {
    0 <= at < columns(batch).len() && column_type(columns(batch)[at]) == TypeShape::Scalar(
        Scalar::Utf8,
    )
}

/// Whether the batch has a column of texts at a position.
pub fn has_texts(batch: &Batch, at: usize) -> (r: bool)
    ensures
        r == texts_stand_at(*batch, at as int),
{
    has_scalars(batch, at, Scalar::Utf8)
}

/// Adds the texts in a column of a batch.
fn add_strings(result: &mut Vec<String>, batch: &Batch, at: usize)
    requires
        texts_stand_at(*batch, at as int),
    ensures
        views(final(result)@) == views(old(result)@) + texts_there(
            columns(*batch)[at as int],
            row_count(*batch),
        ),
{
    let strings = column(batch, at);
    let n = column_len(&strings);
    let ghost before = views(result@);
    let mut i: usize = 0;
    assert(before + texts_there(strings, 0) =~= before);
    while i < n
        invariant
            i <= n,
            n == cells(strings).len(),
            column_type(strings) == TypeShape::Scalar(Scalar::Utf8),
            views(result@) == before + texts_there(strings, i as nat),
        decreases n - i,
    {
        if !is_null(&strings, i) {
            let ghost so_far = result@;
            result.push(text_value(&strings, i));
            assert(views(result@) =~= views(so_far).push(cells(strings)[i as int]->Text_0));
            assert(views(result@) =~= before + texts_there(strings, (i + 1) as nat));
        }
        i += 1;
    }
}

/// The texts in a column of the first `n` batches of an answer.
pub open spec fn texts_read(read: Seq<Result<Batch, FlightError>>, at: int, n: nat) -> Seq<
    Seq<char>,
>
    decreases n,
{
    if n == 0 {
        Seq::empty()
    } else {
        let batch = read[n - 1]->Ok_0;
        texts_read(read, at, (n - 1) as nat) + texts_there(columns(batch)[at], row_count(batch))
    }
}

/// Collects the texts in a column of the batches of an answer, in order. An error ends it.
pub fn collect_string_column(read: Vec<Result<Batch, FlightError>>, at: usize) -> (r: Result<
    Vec<String>,
    Error<FlightSqlErrorHelper>,
>)
    requires
        forall|i: int| 0 <= i < read@.len() ==> ((#[trigger] read@[i]) matches Ok(batch)
            ==> texts_stand_at(batch, at as int)),
    ensures
        match stream_error(read@) {
            Some(e) => r matches Err(x) && x@ == walk_error(e, "reading metadata batch"@),
            None => r matches Ok(names) && views(names@) == texts_read(read@, at as int, read@.len()),
        },
{
    let mut result: Vec<String> = Vec::new();
    assert(views(result@) =~= Seq::<Seq<char>>::empty());
    for next in it: read
        invariant
            it.seq() == read@,
            forall|k: int| 0 <= k < it.index() ==> (#[trigger] read@[k]) is Ok,
            forall|i: int| 0 <= i < read@.len() ==> ((#[trigger] read@[i]) matches Ok(batch)
                ==> texts_stand_at(batch, at as int)),
            views(result@) == texts_read(read@, at as int, it.index() as nat),
    {
        assert(next == read@[it.index() as int]);
        match next {
            Ok(batch) => {
                add_strings(&mut result, &batch, at);
            },
            Err(e) => {
                proof {
                    lemma_stream_error(read@, it.index() as int);
                }
                return Err(map_flight_error_e(e, "reading metadata batch"));
            },
        }
    }
    proof {
        lemma_stream_error(read@, read@.len() as int);
    }
    Ok(result)
}

/// The batch lists tables: their names and types stand in its third and fourth column.
pub open spec fn lists_tables(batch: Batch) -> bool {
    &&& columns(batch).len() >= 4
    &&& column_type(columns(batch)[2]) == TypeShape::Scalar(Scalar::Utf8)
    &&& column_type(columns(batch)[3]) == TypeShape::Scalar(Scalar::Utf8)
}

/// Whether the batch lists tables.
pub fn has_tables(batch: &Batch) -> (r: bool)
    ensures
        r == lists_tables(*batch),
{
    has_scalars(batch, 2, Scalar::Utf8) && has_scalars(batch, 3, Scalar::Utf8)
}

/// The table in a row, without its columns.
pub open spec fn table_in_row(batch: Batch, i: int) -> TableView {
    TableView {
        name: slot_text(columns(batch)[2], i),
        kind: slot_text(columns(batch)[3], i),
        columns: None,
    }
}

/// The tables in a batch, without their columns.
pub open spec fn tables_in(batch: Batch) -> Seq<TableView> {
    Seq::new(row_count(batch), |i: int| table_in_row(batch, i))
}

/// Adds the tables in a batch.
fn add_tables(result: &mut Vec<TableInfo>, batch: &Batch)
    requires
        lists_tables(*batch),
    ensures
        table_views(final(result)@) == table_views(old(result)@) + tables_in(*batch),
{
    let names = column(batch, 2);
    let types = column(batch, 3);
    let n = num_rows(batch);
    let ghost before = table_views(result@);
    let mut i: usize = 0;
    assert(before + tables_in(*batch).take(0) =~= before);
    while i < n
        invariant
            i <= n,
            n == row_count(*batch),
            n == cells(names).len(),
            n == cells(types).len(),
            names == columns(*batch)[2],
            types == columns(*batch)[3],
            lists_tables(*batch),
            table_views(result@) == before + tables_in(*batch).take(i as int),
        decreases n - i,
    {
        let ghost so_far = result@;
        result.push(
            TableInfo { table_name: text_value(&names, i), table_type: text_value(&types, i) },
        );
        proof {
            assert(table_views(result@) =~= table_views(so_far).push(
                table_in_row(*batch, i as int),
            ));
            assert(tables_in(*batch).take(i + 1) =~= tables_in(*batch).take(i as int).push(
                table_in_row(*batch, i as int),
            ));
            assert(table_views(result@) =~= before + tables_in(*batch).take(i + 1));
        }
        i += 1;
    }
    assert(tables_in(*batch).take(n as int) =~= tables_in(*batch));
}

/// The tables in the first `n` batches of an answer.
pub open spec fn tables_read(read: Seq<Result<Batch, FlightError>>, n: nat) -> Seq<TableView>
    decreases n,
{
    if n == 0 {
        Seq::empty()
    } else {
        tables_read(read, (n - 1) as nat) + tables_in(read[n - 1]->Ok_0)
    }
}

/// Collects the tables in the batches of an answer, in order. An error ends it.
pub fn collect_table_info(read: Vec<Result<Batch, FlightError>>) -> (r: Result<
    Vec<TableInfo>,
    Error<FlightSqlErrorHelper>,
>)
    requires
        forall|i: int| 0 <= i < read@.len() ==> ((#[trigger] read@[i]) matches Ok(batch)
            ==> lists_tables(batch)),
    ensures
        match stream_error(read@) {
            Some(e) => r matches Err(x) && x@ == walk_error(e, "reading tables batch"@),
            None => r matches Ok(tables) && table_views(tables@) == tables_read(
                read@,
                read@.len(),
            ),
        },
{
    let mut result: Vec<TableInfo> = Vec::new();
    assert(table_views(result@) =~= Seq::<TableView>::empty());
    for next in it: read
        invariant
            it.seq() == read@,
            forall|k: int| 0 <= k < it.index() ==> (#[trigger] read@[k]) is Ok,
            forall|i: int| 0 <= i < read@.len() ==> ((#[trigger] read@[i]) matches Ok(batch)
                ==> lists_tables(batch)),
            table_views(result@) == tables_read(read@, it.index() as nat),
    {
        assert(next == read@[it.index() as int]);
        match next {
            Ok(batch) => {
                add_tables(&mut result, &batch);
            },
            Err(e) => {
                proof {
                    lemma_stream_error(read@, it.index() as int);
                }
                return Err(map_flight_error_e(e, "reading tables batch"));
            },
        }
    }
    proof {
        lemma_stream_error(read@, read@.len() as int);
    }
    Ok(result)
}

/// The batch lists tables with their encoded schemas, which stand in its fifth column. Without a
/// table that column may be of any type.
pub open spec fn lists_schemas(batch: Batch) -> bool {
    &&& lists_tables(batch)
    &&& columns(batch).len() >= 5
    &&& row_count(batch) > 0 ==> column_type(columns(batch)[4]) == TypeShape::Scalar(Scalar::Binary)
}

/// Whether the batch lists tables with their encoded schemas.
pub fn has_schemas(batch: &Batch) -> (r: bool)
    ensures
        r == lists_schemas(*batch),
{
    has_tables(batch) && num_columns(batch) >= 5 && (num_rows(batch) == 0 || has_scalars(
        batch,
        4,
        Scalar::Binary,
    ))
}

/// The encoded schema in a row: none if it is null or empty.
pub open spec fn schema_in_row(batch: Batch, i: int) -> Option<Seq<u8>> {
    match cells(columns(batch)[4])[i] {
        Cell::Bytes(bytes) if bytes.len() > 0 => Some(bytes),
        _ => None,
    }
}

/// The encoded schema of the table in a row.
pub fn table_schema_bytes(batch: &Batch, i: usize) -> (r: Option<Vec<u8>>)
    requires
        columns(*batch).len() >= 5,
        column_type(columns(*batch)[4]) == TypeShape::Scalar(Scalar::Binary),
        i < row_count(*batch),
    ensures
        bytes_view(r) == schema_in_row(*batch, i as int),
{
    let schema_col = column(batch, 4);
    if is_null(&schema_col, i) {
        return None;
    }
    let bytes = bytes_value(&schema_col, i);
    if bytes.len() == 0 {
        None
    } else {
        Some(bytes)
    }
}

/// The names of the fields of a schema.
pub open spec fn field_names(schema: arrow_schema::Schema) -> Seq<Seq<char>> {
    schema_fields(schema).map_values(|f: crate::columns::FieldShape| f.name)
}

/// The columns that the fields of a schema make up.
fn columns_of(schema: &arrow_schema::Schema) -> (r: Vec<ColumnInfo>)
    ensures
        column_names(r@) == field_names(*schema),
{
    let n = schema_len(schema);
    let mut r: Vec<ColumnInfo> = Vec::new();
    let mut i: usize = 0;
    assert(column_names(r@) =~= field_names(*schema).take(0));
    while i < n
        invariant
            i <= n,
            n == schema_fields(*schema).len(),
            column_names(r@) == field_names(*schema).take(i as int),
        decreases n - i,
    {
        let ghost so_far = r@;
        r.push(ColumnInfo { column_name: field_name(schema, i) });
        proof {
            assert(column_names(r@) =~= column_names(so_far).push(field_names(*schema)[i as int]));
            assert(field_names(*schema).take(i + 1) =~= field_names(*schema).take(i as int).push(
                field_names(*schema)[i as int],
            ));
        }
        i += 1;
    }
    assert(field_names(*schema).take(n as int) =~= field_names(*schema));
    r
}

/// The columns of the table in a row: those of its schema, if the row has one and it was decoded.
pub open spec fn columns_in_row(
    batch: Batch,
    decoded: Seq<Option<arrow_schema::Schema>>,
    i: int,
) -> Seq<Seq<char>> {
    match decoded[i] {
        Some(schema) if schema_in_row(batch, i) is Some => field_names(schema),
        _ => Seq::empty(),
    }
}

/// The tables in a batch with their columns.
pub open spec fn full_tables_in(batch: Batch, decoded: Seq<Option<arrow_schema::Schema>>) -> Seq<
    TableView,
> {
    Seq::new(
        row_count(batch),
        |i: int|
            TableView {
                columns: Some(columns_in_row(batch, decoded, i)),
                ..table_in_row(batch, i)
            },
    )
}

/// Adds the tables in a batch with their columns.
fn add_full_tables(
    result: &mut Vec<TableAndColumnInfo>,
    batch: &Batch,
    decoded: &Vec<Option<arrow_schema::Schema>>,
)
    requires
        lists_schemas(*batch),
        decoded@.len() == row_count(*batch),
    ensures
        full_table_views(final(result)@) == full_table_views(old(result)@) + full_tables_in(
            *batch,
            decoded@,
        ),
{
    let names = column(batch, 2);
    let types = column(batch, 3);
    let n = num_rows(batch);
    let ghost before = full_table_views(result@);
    let ghost all = full_tables_in(*batch, decoded@);
    let mut i: usize = 0;
    assert(before + all.take(0) =~= before);
    while i < n
        invariant
            i <= n,
            n == row_count(*batch),
            n == cells(names).len(),
            n == cells(types).len(),
            n == decoded@.len(),
            names == columns(*batch)[2],
            types == columns(*batch)[3],
            lists_schemas(*batch),
            all == full_tables_in(*batch, decoded@),
            full_table_views(result@) == before + all.take(i as int),
        decreases n - i,
    {
        let ghost so_far = result@;
        let mut columns: Vec<ColumnInfo> = Vec::new();
        assert(column_names(columns@) =~= Seq::<Seq<char>>::empty());
        if table_schema_bytes(batch, i).is_some() {
            if let Some(schema) = &decoded[i] {
                columns = columns_of(schema);
            }
        }
        let table = TableInfo {
            table_name: text_value(&names, i),
            table_type: text_value(&types, i),
        };
        result.push(TableAndColumnInfo { table, columns });
        proof {
            assert(full_table_views(result@) =~= full_table_views(so_far).push(all[i as int]));
            assert(all.take(i + 1) =~= all.take(i as int).push(all[i as int]));
            assert(full_table_views(result@) =~= before + all.take(i + 1));
        }
        i += 1;
    }
    assert(all.take(n as int) =~= all);
}

/// The decoder makes the schemas of the rows of a batch: those that have an encoded schema that can
/// be decoded.
pub open spec fn decodes_rows<D: Fn(Vec<u8>) -> Result<arrow_schema::Schema, String>>(
    decode: D,
    batch: Batch,
    decoded: Seq<Option<arrow_schema::Schema>>,
) -> bool {
    &&& decoded.len() == row_count(batch)
    &&& forall|i: int|
        0 <= i < decoded.len() ==> decodes_row(
            decode,
            schema_in_row(batch, i),
            #[trigger] decoded[i],
        )
}

/// The decoder makes the schema of a row, if the row has one and it can be decoded.
pub open spec fn decodes_row<D: Fn(Vec<u8>) -> Result<arrow_schema::Schema, String>>(
    decode: D,
    encoded: Option<Seq<u8>>,
    decoded: Option<arrow_schema::Schema>,
) -> bool {
    match encoded {
        None => decoded is None,
        Some(bytes) => makes(decode, bytes, decoded),
    }
}

/// The decoder makes the schema of the bytes, unless it cannot decode them.
pub open spec fn makes<D: Fn(Vec<u8>) -> Result<arrow_schema::Schema, String>>(
    decode: D,
    bytes: Seq<u8>,
    decoded: Option<arrow_schema::Schema>,
) -> bool {
    exists|schema: Result<arrow_schema::Schema, String>| #[trigger]
        decodes(decode, bytes, schema) && decoded == schema_made(schema)
}

/// The schema that was decoded, unless it could not be.
pub open spec fn schema_made(schema: Result<arrow_schema::Schema, String>) -> Option<
    arrow_schema::Schema,
> {
    match schema {
        Ok(schema) => Some(schema),
        Err(_) => None,
    }
}

/// The decoder makes the schemas of the rows of some batches.
pub open spec fn decodes_batches<D: Fn(Vec<u8>) -> Result<arrow_schema::Schema, String>>(
    decode: D,
    read: Seq<Result<Batch, FlightError>>,
    decoded: Seq<Seq<Option<arrow_schema::Schema>>>,
) -> bool {
    &&& decoded.len() == read.len()
    &&& forall|i: int|
        0 <= i < read.len() ==> decodes_rows(decode, read[i]->Ok_0, #[trigger] decoded[i])
}

/// Decodes the schemas of the rows of a batch.
fn decode_rows<D: Fn(Vec<u8>) -> Result<arrow_schema::Schema, String>>(
    batch: &Batch,
    decode: &D,
) -> (r: Vec<Option<arrow_schema::Schema>>)
    requires
        lists_schemas(*batch),
        takes_all(*decode),
    ensures
        decodes_rows(*decode, *batch, r@),
{
    let n = num_rows(batch);
    let mut r: Vec<Option<arrow_schema::Schema>> = Vec::new();
    let mut i: usize = 0;
    while i < n
        invariant
            i <= n,
            n == row_count(*batch),
            lists_schemas(*batch),
            takes_all(*decode),
            r@.len() == i,
            forall|k: int|
                0 <= k < i ==> decodes_row(*decode, schema_in_row(*batch, k), #[trigger] r@[k]),
        decreases n - i,
    {
        let decoded = match table_schema_bytes(batch, i) {
            Some(bytes) => {
                let ghost encoded = bytes@;
                assert(schema_in_row(*batch, i as int) == Some(encoded));
                let schema = decode(bytes);
                assert(decodes(*decode, encoded, schema));
                let ghost made = schema_made(schema);
                let decoded = match schema {
                    Ok(schema) => Some(schema),
                    Err(_) => None,
                };
                assert(makes(*decode, encoded, made));
                decoded
            },
            None => None,
        };
        r.push(decoded);
        i += 1;
    }
    r
}

/// The tables in the first `n` batches of an answer with their columns.
pub open spec fn full_tables_read(
    read: Seq<Result<Batch, FlightError>>,
    decoded: Seq<Seq<Option<arrow_schema::Schema>>>,
    n: nat,
) -> Seq<TableView>
    decreases n,
{
    if n == 0 {
        Seq::empty()
    } else {
        full_tables_read(read, decoded, (n - 1) as nat) + full_tables_in(
            read[n - 1]->Ok_0,
            decoded[n - 1],
        )
    }
}

/// Schemas of later batches do not change what earlier ones hold.
proof fn lemma_later_schemas(
    read: Seq<Result<Batch, FlightError>>,
    decoded: Seq<Seq<Option<arrow_schema::Schema>>>,
    more: Seq<Option<arrow_schema::Schema>>,
    n: nat,
)
    requires
        n <= decoded.len(),
    ensures
        full_tables_read(read, decoded.push(more), n) == full_tables_read(read, decoded, n),
    decreases n,
{
    if n > 0 {
        lemma_later_schemas(read, decoded, more, (n - 1) as nat);
    }
}

/// Collects the tables in the batches of an answer with their columns, in order. An error ends it.
/// The columns of a table are those of its schema, which `decode` decodes; a table whose schema is
/// missing or cannot be decoded has none.
pub fn collect_table_and_column_info<D: Fn(Vec<u8>) -> Result<arrow_schema::Schema, String>>(
    read: Vec<Result<Batch, FlightError>>,
    decode: D,
) -> (r: Result<Vec<TableAndColumnInfo>, Error<FlightSqlErrorHelper>>)
    requires
        takes_all(decode),
        forall|i: int| 0 <= i < read@.len() ==> ((#[trigger] read@[i]) matches Ok(batch)
            ==> lists_schemas(batch)),
    ensures
        match stream_error(read@) {
            Some(e) => r matches Err(x) && x@ == walk_error(e, "reading columns batch"@),
            None => r matches Ok(tables) && exists|decoded: Seq<Seq<Option<arrow_schema::Schema>>>|
                #[trigger] decodes_batches(decode, read@, decoded) && full_table_views(tables@)
                    == full_tables_read(read@, decoded, read@.len()),
        },
{
    let mut result: Vec<TableAndColumnInfo> = Vec::new();
    let ghost mut decoded: Seq<Seq<Option<arrow_schema::Schema>>> = Seq::empty();
    assert(full_table_views(result@) =~= Seq::<TableView>::empty());
    for next in it: read
        invariant
            it.seq() == read@,
            takes_all(decode),
            decoded.len() == it.index(),
            forall|k: int| 0 <= k < it.index() ==> (#[trigger] read@[k]) is Ok,
            forall|i: int| 0 <= i < read@.len() ==> ((#[trigger] read@[i]) matches Ok(batch)
                ==> lists_schemas(batch)),
            forall|k: int|
                0 <= k < it.index() ==> decodes_rows(decode, read@[k]->Ok_0, #[trigger] decoded[k]),
            full_table_views(result@) == full_tables_read(read@, decoded, it.index() as nat),
    {
        assert(next == read@[it.index() as int]);
        match next {
            Ok(batch) => {
                let rows = decode_rows(&batch, &decode);
                add_full_tables(&mut result, &batch, &rows);
                proof {
                    lemma_later_schemas(read@, decoded, rows@, it.index() as nat);
                    decoded = decoded.push(rows@);
                }
            },
            Err(e) => {
                proof {
                    lemma_stream_error(read@, it.index() as int);
                }
                return Err(map_flight_error_e(e, "reading columns batch"));
            },
        }
    }
    proof {
        lemma_stream_error(read@, read@.len() as int);
        assert(decodes_batches(decode, read@, decoded));
    }
    Ok(result)
}

/// What to fetch the answer of a server with: its ticket and its schema.
pub struct ResultSource {
    pub ticket: Vec<u8>,
    pub schema: arrow_schema::Schema,
}

/// The error for an encoded schema that cannot be decoded.
pub open spec fn undecodable(message: Seq<char>, text: Seq<char>) -> AdbcErrorView {
    adbc(bare(Status::Internal).message(message + text))
}

/// The error for an answer without an endpoint or a ticket.
pub open spec fn no_ticket(message: Seq<char>) -> AdbcErrorView {
    adbc(bare(Status::Internal).message(message))
}

/// What fetching an answer with the given decoded schema leads to.
pub open spec fn sources(
    r: Result<ResultSource, AdbcError>,
    info: arrow_flight::FlightInfo,
    schema: Result<arrow_schema::Schema, String>,
    schema_message: Seq<char>,
    ticket_message: Seq<char>,
) -> bool {
    match schema {
        Err(text) => r matches Err(e) && e@ == undecodable(schema_message, text@),
        Ok(schema) => match first_ticket(info) {
            None => r matches Err(e) && e@ == no_ticket(ticket_message),
            Some(ticket) => r matches Ok(source) && source.ticket@ == ticket && source.schema
                == schema,
        },
    }
}

/// Finds out how to fetch the answer of a server, whose schema is decoded.
pub fn result_source<D: Fn(Vec<u8>) -> Result<arrow_schema::Schema, String>>(
    info: &arrow_flight::FlightInfo,
    decode: D,
    schema_message: &str,
    ticket_message: &str,
) -> (r: Result<ResultSource, AdbcError>)
    requires
        takes_all(decode),
    ensures
        exists|schema: Result<arrow_schema::Schema, String>| #[trigger]
            decodes(decode, encoded_schema(*info), schema) && sources(
                r,
                *info,
                schema,
                schema_message@,
                ticket_message@,
            ),
{
    let bytes = schema_bytes(info);
    let schema = decode(bytes);
    assert(decodes(decode, encoded_schema(*info), schema));
    let schema = match schema {
        Ok(schema) => schema,
        Err(text) => {
            return Err(
                FlightSqlErrorHelper::internal_no_location().message(
                    concat2(schema_message, text.as_str()).as_str(),
                ).to_adbc(),
            );
        },
    };
    match find_ticket(info) {
        Some(ticket) => Ok(ResultSource { ticket, schema }),
        None => Err(
            FlightSqlErrorHelper::internal_no_location().message(ticket_message).to_adbc(),
        ),
    }
}

/// Takes the answer to asking for the table types of a server.
pub fn answer_table_types(answer: Result<arrow_flight::FlightInfo, FlightError>) -> (r: Result<
    arrow_flight::FlightInfo,
    AdbcError,
>)
    ensures
        match answer {
            Ok(info) => r == Ok::<arrow_flight::FlightInfo, AdbcError>(info),
            Err(e) => r matches Err(x) && x@ == flight_view(e, "getting table types"@),
        },
{
    match answer {
        Ok(info) => Ok(info),
        Err(e) => Err(map_flight_error(e, "getting table types")),
    }
}

/// Takes the answer to opening the stream of the table types of a server.
pub fn open_table_types<S>(answer: Result<S, FlightError>) -> (r: Result<S, AdbcError>)
    ensures
        match answer {
            Ok(stream) => r == Ok::<S, AdbcError>(stream),
            Err(e) => r matches Err(x) && x@ == flight_view(e, "opening table types stream"@),
        },
{
    match answer {
        Ok(stream) => Ok(stream),
        Err(e) => Err(map_flight_error(e, "opening table types stream")),
    }
}

/// Finds out how to fetch the table types of a server.
pub fn get_table_types<D: Fn(Vec<u8>) -> Result<arrow_schema::Schema, String>>(
    info: &arrow_flight::FlightInfo,
    decode: D,
) -> (r: Result<ResultSource, AdbcError>)
    requires
        takes_all(decode),
    ensures
        exists|schema: Result<arrow_schema::Schema, String>| #[trigger]
            decodes(decode, encoded_schema(*info), schema) && sources(
                r,
                *info,
                schema,
                "failed to decode table types schema: "@,
                "get_table_types response has no endpoints"@,
            ),
{
    result_source(
        info,
        decode,
        "failed to decode table types schema: ",
        "get_table_types response has no endpoints",
    )
}

/// Finds out how to fetch what a server says about itself. A server that fails to answer has
/// nothing to say.
pub fn sql_info_ticket(answer: Result<arrow_flight::FlightInfo, FlightError>) -> (r: Result<
    Option<Vec<u8>>,
    AdbcError,
>)
    ensures
        match answer {
            Err(_) => r matches Ok(None),
            Ok(info) => match first_ticket(info) {
                Some(ticket) => r matches Ok(Some(t)) && t@ == ticket,
                None => r matches Err(e) && e@ == no_ticket(
                    "get_sql_info response has no endpoints"@,
                ),
            },
        },
{
    match answer {
        Err(_) => Ok(None),
        Ok(info) => match find_ticket(&info) {
            Some(ticket) => Ok(Some(ticket)),
            None => Err(
                FlightSqlErrorHelper::internal_no_location().message(
                    "get_sql_info response has no endpoints",
                ).to_adbc(),
            ),
        },
    }
}

/// Takes the answer to opening the stream of what a server says about itself.
pub fn open_sql_info<S>(answer: Result<S, FlightError>) -> (r: Result<S, AdbcError>)
    ensures
        match answer {
            Ok(stream) => r == Ok::<S, AdbcError>(stream),
            Err(e) => r matches Err(x) && x@ == flight_view(e, "opening get_sql_info stream"@),
        },
{
    match answer {
        Ok(stream) => Ok(stream),
        Err(e) => Err(map_flight_error(e, "opening get_sql_info stream")),
    }
}

/// The request for the schema of a table.
pub open spec fn table_schema_command(
    catalog: Option<Seq<char>>,
    db_schema: Option<Seq<char>>,
    table_name: Seq<char>,
) -> TablesCommandView {
    TablesCommandView {
        catalog,
        db_schema_filter_pattern: db_schema,
        table_name_filter_pattern: Some(table_name),
        table_types: Seq::empty(),
        include_schema: true,
    }
}

/// The query whose results have the schema of a table, and no rows.
pub open spec fn schema_query(table_name: Seq<char>) -> Seq<char> {
    "SELECT * FROM "@ + table_name + " LIMIT 0"@
}

/// What to do next to find the schema of a table.
pub enum SchemaStep {
    /// Ask for the table with its schema.
    GetTables(CommandGetTables),
    /// Open the stream of the answer.
    Open(Vec<u8>),
    /// Read the first batch of the stream.
    Read,
    /// Prepare a query and take the schema of its results.
    Prepare(String),
    /// The schema was found.
    Found(arrow_schema::Schema),
}

/// The step falls back on a query for the table.
pub open spec fn falls_back(step: SchemaStep, table_name: Seq<char>) -> bool {
    step matches SchemaStep::Prepare(sql) && sql@ == schema_query(table_name)
}

/// The step that follows the decoding of a schema: it is found, or the search falls back.
pub open spec fn is_search_step(
    step: SchemaStep,
    schema: Result<arrow_schema::Schema, String>,
    table_name: Seq<char>,
) -> bool {
    match schema {
        Ok(schema) => step == SchemaStep::Found(schema),
        Err(_) => falls_back(step, table_name),
    }
}

/// The step that follows an encoded schema, which is decoded.
pub open spec fn goes_on<D: Fn(Vec<u8>) -> Result<arrow_schema::Schema, String>>(
    step: SchemaStep,
    decode: D,
    bytes: Seq<u8>,
    table_name: Seq<char>,
) -> bool {
    exists|schema: Result<arrow_schema::Schema, String>| #[trigger]
        decodes(decode, bytes, schema) && is_search_step(step, schema, table_name)
}

/// A search for the schema of a table.
///
/// It asks for the table with its schema. Where anything goes wrong with that, it falls back on a
/// query for no rows of the table, for servers that do not send schemas.
pub struct TableSchemaSearch {
    table_name: String,
}

/// The batch starts with a row whose fifth column may hold an encoded schema.
pub open spec fn starts_with_schema(batch: Batch) -> bool {
    &&& columns(batch).len() >= 5
    &&& column_type(columns(batch)[4]) == TypeShape::Scalar(Scalar::Binary)
    &&& row_count(batch) > 0
}

/// Whether the batch starts with a row whose fifth column may hold an encoded schema.
pub fn has_first_schema(batch: &Batch) -> (r: bool)
    ensures
        r == starts_with_schema(*batch),
{
    has_scalars(batch, 4, Scalar::Binary) && num_rows(batch) > 0
}

/// What is wrong with the first batch of the answer to a request for a table's schema, if
/// anything is.
pub open spec fn schema_batch_fault(
    first: Option<Result<Batch, FlightError>>,
    table_name: Seq<char>,
) -> Option<AdbcErrorView> {
    match first {
        None => Some(
            adbc(bare(Status::NotFound).message("table '"@ + table_name + "' not found"@)),
        ),
        Some(Err(e)) => Some(flight_view(e, "reading table schema batch"@)),
        Some(Ok(batch)) => if schema_in_row(batch, 0) is None {
            Some(
                adbc(
                    bare(Status::NotFound).message(
                        "schema not available for table '"@ + table_name + "' via get_tables"@,
                    ),
                ),
            )
        } else {
            None
        },
    }
}

/// Takes the encoded schema from the first batch of the answer to a request for it.
pub fn first_schema(first: Option<Result<Batch, FlightError>>, table_name: &str) -> (r: Result<
    Vec<u8>,
    AdbcError,
>)
    requires
        first matches Some(Ok(batch)) ==> starts_with_schema(batch),
    ensures
        match schema_batch_fault(first, table_name@) {
            Some(e) => r matches Err(x) && x@ == e,
            None => r matches Ok(bytes) && first matches Some(Ok(batch)) && Some(bytes@)
                == schema_in_row(batch, 0),
        },
{
    match first {
        None => {
            let message = concat3("table '", table_name, "' not found");
            Err(FlightSqlErrorHelper::not_found().message(message.as_str()).to_adbc())
        },
        Some(Err(e)) => Err(map_flight_error(e, "reading table schema batch")),
        Some(Ok(batch)) => match table_schema_bytes(&batch, 0) {
            Some(bytes) => Ok(bytes),
            None => {
                let message = concat3(
                    "schema not available for table '",
                    table_name,
                    "' via get_tables",
                );
                Err(FlightSqlErrorHelper::not_found().message(message.as_str()).to_adbc())
            },
        },
    }
}

impl View for TableSchemaSearch {
    type V = Seq<char>;

    closed spec fn view(&self) -> Seq<char> {
        self.table_name@
    }
}

impl TableSchemaSearch {
    /// The query to fall back on.
    fn fall_back(&self) -> (r: SchemaStep)
        ensures
            falls_back(r, self@),
    {
        SchemaStep::Prepare(concat3("SELECT * FROM ", self.table_name.as_str(), " LIMIT 0"))
    }

    /// Goes on when the table was answered.
    pub fn answer_tables(&self, answer: Result<arrow_flight::FlightInfo, FlightError>) -> (r:
        SchemaStep)
        ensures
            match answer {
                Ok(info) => match first_ticket(info) {
                    Some(ticket) => r matches SchemaStep::Open(t) && t@ == ticket,
                    None => falls_back(r, self@),
                },
                Err(_) => falls_back(r, self@),
            },
    {
        match answer {
            Ok(info) => match find_ticket(&info) {
                Some(ticket) => SchemaStep::Open(ticket),
                None => self.fall_back(),
            },
            Err(_) => self.fall_back(),
        }
    }

    /// Goes on when the stream was opened.
    pub fn answer_open(&self, answer: Result<(), FlightError>) -> (r: SchemaStep)
        ensures
            match answer {
                Ok(_) => r is Read,
                Err(_) => falls_back(r, self@),
            },
    {
        match answer {
            Ok(_) => SchemaStep::Read,
            Err(_) => self.fall_back(),
        }
    }

    /// Goes on when the first batch was read: the schema in it is decoded.
    pub fn answer_read<D: Fn(Vec<u8>) -> Result<arrow_schema::Schema, String>>(
        &self,
        first: Option<Result<Batch, FlightError>>,
        decode: D,
    ) -> (r: SchemaStep)
        requires
            first matches Some(Ok(batch)) ==> starts_with_schema(batch),
            takes_all(decode),
        ensures
            match first {
                Some(Ok(batch)) => match schema_in_row(batch, 0) {
                    Some(bytes) => goes_on(r, decode, bytes, self@),
                    None => falls_back(r, self@),
                },
                _ => falls_back(r, self@),
            },
    {
        match first_schema(first, self.table_name.as_str()) {
            Ok(bytes) => {
                let ghost encoded = bytes@;
                let schema = decode(bytes);
                assert(decodes(decode, encoded, schema));
                let ghost decoded = schema;
                let step = match schema {
                    Ok(schema) => SchemaStep::Found(schema),
                    Err(_) => self.fall_back(),
                };
                assert(is_search_step(step, decoded, self@));
                assert(goes_on(step, decode, encoded, self@));
                step
            },
            Err(_) => self.fall_back(),
        }
    }

    /// Ends when the query was prepared: `answer` holds the schema of its results, or what went
    /// wrong with it, or with preparing the query.
    pub fn answer_prepare(
        &self,
        answer: Result<Result<arrow_schema::Schema, FlightError>, FlightError>,
    ) -> (r: Result<arrow_schema::Schema, AdbcError>)
        ensures
            match answer {
                Ok(Ok(schema)) => r == Ok::<arrow_schema::Schema, AdbcError>(schema),
                Ok(Err(e)) => r matches Err(x) && x@ == flight_view(
                    e,
                    "getting dataset schema from prepared statement"@,
                ),
                Err(e) => r matches Err(x) && x@ == flight_view(
                    e,
                    "preparing query for table schema"@,
                ),
            },
    {
        match answer {
            Ok(Ok(schema)) => Ok(schema),
            Ok(Err(e)) => Err(
                map_flight_error(e, "getting dataset schema from prepared statement"),
            ),
            Err(e) => Err(map_flight_error(e, "preparing query for table schema")),
        }
    }
}

/// Starts a search for the schema of a table.
pub fn get_table_schema(
    catalog: Option<&str>,
    db_schema: Option<&str>,
    table_name: &str,
) -> (r: (TableSchemaSearch, SchemaStep))
    ensures
        r.0@ == table_name@,
        r.1 matches SchemaStep::GetTables(command) && command@ == table_schema_command(
            opt_str_view(catalog),
            opt_str_view(db_schema),
            table_name@,
        ),
{
    let none: Vec<String> = Vec::new();
    assert(views(none@) =~= Seq::<Seq<char>>::empty());
    let command = CommandGetTables {
        catalog: own_opt(catalog),
        db_schema_filter_pattern: own_opt(db_schema),
        table_name_filter_pattern: Some(table_name.to_owned()),
        table_types: none,
        include_schema: true,
    };
    let search = TableSchemaSearch { table_name: table_name.to_owned() };
    (search, SchemaStep::GetTables(command))
}

} // verus!
