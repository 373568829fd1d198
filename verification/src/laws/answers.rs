//! Laws of the answers of a server: which columns they are read from, and how the schema of a table
//! is found.

use vstd::prelude::*;

use crate::columns::{
    cells, column_type, columns, row_count, schema_fields, slot_text, Batch, Cell, Column, Scalar,
    TypeShape,
};
use crate::error::{map_flight_error, AdbcError, Error, FlightError, FlightSqlErrorHelper, Status};
use crate::flight::{decodes, encoded_schema, endpoints, ticket};
use crate::laws::results::may_decode;
use crate::laws::tells;
use crate::metadata::collect::{
    answer_table_types, collect_string_column, collect_table_and_column_info, collect_table_info,
    columns_in_row, decodes_batches, decodes_row, decodes_rows, field_names, first_schema,
    full_tables_in, full_tables_read, get_table_schema, get_table_types, goes_on, has_first_schema,
    has_schemas, has_tables, has_texts, is_search_step, makes, map_flight_error_e, metadata_ticket,
    open_sql_info, open_table_types, schema_in_row, schema_made, sources, sql_info_ticket,
    table_in_row, tables_in, tables_read, texts_read, texts_there, ResultSource, SchemaStep,
    TableSchemaSearch,
};
use crate::metadata::objects::{
    full_table_views, table_views, TableAndColumnInfo, TableInfo,
};
use crate::metadata::walk::ObjectsRequest;
use crate::stream::{lemma_stream_error, stream_error};
use crate::text::views;

verus! {

/// The request for the schema of a table names the table that was asked for: its catalog and its
/// database schema, each if it was given, and its name; tables of every type, with their schemas.
pub proof fn law_table_is_asked_for_by_its_names(
    catalog: Option<&str>,
    db_schema: Option<&str>,
    table_name: &str,
    r: (TableSchemaSearch, SchemaStep),
)
    requires
        call_ensures(get_table_schema, (catalog, db_schema, table_name), r),
    ensures
        r.1 matches SchemaStep::GetTables(command) && {
            &&& match catalog {
                Some(c) => command.catalog matches Some(t) && t@ == c@,
                None => command.catalog is None,
            }
            &&& match db_schema {
                Some(s) => command.db_schema_filter_pattern matches Some(t) && t@ == s@,
                None => command.db_schema_filter_pattern is None,
            }
            &&& command.table_name_filter_pattern matches Some(t) && t@ == table_name@
            &&& command.table_types@.len() == 0
            &&& command.include_schema
        },
{
    if let SchemaStep::GetTables(command) = r.1 {
        assert(views(command.table_types@).len() == command.table_types@.len());
    }
}

/// The step is the query for no rows of that table.
pub open spec fn asks_by_query(step: SchemaStep, table_name: Seq<char>) -> bool {
    step matches SchemaStep::Prepare(sql) && sql@ == "SELECT * FROM "@ + table_name + " LIMIT 0"@
}

/// The search for the schema of a table opens the first ticket of the answer, and reads it. Where
/// the answer fails, has no ticket or cannot be opened, a query for no rows of the same table is
/// next.
pub proof fn law_search_goes_on_or_falls_back(
    catalog: Option<&str>,
    db_schema: Option<&str>,
    table_name: &str,
    r: (TableSchemaSearch, SchemaStep),
    answer: Result<arrow_flight::FlightInfo, FlightError>,
    answered: SchemaStep,
    open: Result<(), FlightError>,
    opened: SchemaStep,
)
    requires
        call_ensures(get_table_schema, (catalog, db_schema, table_name), r),
        call_ensures(TableSchemaSearch::answer_tables, (&r.0, answer), answered),
        call_ensures(TableSchemaSearch::answer_open, (&r.0, open), opened),
    ensures
        answer matches Ok(info) ==> endpoints(info).len() > 0 && ticket(endpoints(info)[0]) is Some
            ==> (answered matches SchemaStep::Open(t) && ticket(endpoints(info)[0]) == Some(t@)),
        answer matches Ok(info) ==> endpoints(info).len() == 0 || ticket(endpoints(info)[0])
            is None ==> asks_by_query(answered, table_name@),
        answer is Err ==> asks_by_query(answered, table_name@),
        open is Ok ==> opened is Read,
        open is Err ==> asks_by_query(opened, table_name@),
{
}

/// The encoded schema in the fifth column of a row, if there is one and it is not empty.
pub open spec fn schema_of_row(batch: Batch, i: int) -> Option<Seq<u8>> {
    match cells(columns(batch)[4])[i] {
        Cell::Bytes(bytes) if bytes.len() > 0 => Some(bytes),
        _ => None,
    }
}

/// The search ends with the schema that was decoded from the first row of the answer. Where there
/// is none, or it cannot be decoded, a query for no rows of the same table is next.
pub proof fn law_search_ends_with_the_schema<
    D: Fn(Vec<u8>) -> Result<arrow_schema::Schema, String>,
>(
    catalog: Option<&str>,
    db_schema: Option<&str>,
    table_name: &str,
    r: (TableSchemaSearch, SchemaStep),
    first: Option<Result<Batch, FlightError>>,
    decode: D,
    step: SchemaStep,
)
    requires
        call_ensures(get_table_schema, (catalog, db_schema, table_name), r),
        call_ensures(TableSchemaSearch::answer_read::<D>, (&r.0, first, decode), step),
    ensures
        step is Found || asks_by_query(step, table_name@),
        step matches SchemaStep::Found(schema) ==> (first matches Some(Ok(batch)) && (schema_of_row(
            batch,
            0,
        ) matches Some(bytes) && may_decode(decode, bytes, Ok(schema)))),
        first matches Some(Ok(batch)) ==> schema_of_row(batch, 0) matches Some(bytes) ==> step
            is Found || exists|text: String| #[trigger] may_decode(decode, bytes, Err(text)),
{
    if let Some(Ok(batch)) = first {
        if let Some(bytes) = schema_of_row(batch, 0) {
            assert(schema_in_row(batch, 0) == Some(bytes));
            assert(goes_on(step, decode, bytes, r.0@));
            let schema = choose|schema: Result<arrow_schema::Schema, String>| #[trigger]
                decodes(decode, bytes, schema)
                    && is_search_step(step, schema, r.0@);
            assert(may_decode(decode, bytes, schema));
            if let Err(text) = schema {
                assert(may_decode(decode, bytes, Err(text)));
            }
        }
    }
}

/// The query that the search fell back on ends it, with the schema of its results.
pub proof fn law_query_ends_the_search(
    search: &TableSchemaSearch,
    answer: Result<Result<arrow_schema::Schema, FlightError>, FlightError>,
    r: Result<arrow_schema::Schema, AdbcError>,
)
    requires
        call_ensures(TableSchemaSearch::answer_prepare, (search, answer), r),
    ensures
        r is Ok <==> (answer matches Ok(Ok(_))),
        answer matches Ok(Ok(schema)) ==> r == Ok::<arrow_schema::Schema, AdbcError>(schema),
{
}

/// The encoded schema of a table is taken from the first row of the answer. Without a row the table
/// was not found, without a schema its schema was not.
pub proof fn law_first_row_holds_the_schema(
    first: Option<Result<Batch, FlightError>>,
    table_name: &str,
    r: Result<Vec<u8>, AdbcError>,
)
    requires
        call_ensures(first_schema, (first, table_name), r),
    ensures
        first matches Some(Ok(batch)) ==> match schema_of_row(batch, 0) {
            Some(bytes) => r matches Ok(b) && b@ == bytes,
            None => r matches Err(e) && tells(
                e,
                Status::NotFound,
                "schema not available for table '"@ + table_name@ + "' via get_tables"@,
            ),
        },
        first is None ==> (r matches Err(e) && tells(
            e,
            Status::NotFound,
            "table '"@ + table_name@ + "' not found"@,
        )),
        first matches Some(Err(_)) ==> r is Err,
{
}

/// The texts among some values, in order.
pub open spec fn texts_among(values: Seq<Cell>) -> Seq<Seq<char>> {
    values.filter(|c: Cell| c is Text).map_values(|c: Cell| c->Text_0)
}

/// The rows of the first batches of an answer.
pub open spec fn rows_before(read: Seq<Result<Batch, FlightError>>, n: nat) -> nat
    decreases n,
{
    if n == 0 {
        0
    } else {
        rows_before(read, (n - 1) as nat) + row_count(read[n - 1]->Ok_0)
    }
}

/// All batches of an answer were read.
pub open spec fn all_read(read: Seq<Result<Batch, FlightError>>) -> bool {
    forall|i: int| 0 <= i < read.len() ==> (#[trigger] read[i]) is Ok
}

/// Reading stops at an error exactly if not all batches were read.
pub proof fn lemma_all_read(read: Seq<Result<Batch, FlightError>>)
    ensures
        stream_error(read) is None <==> all_read(read),
    decreases read.len(),
{
    if all_read(read) {
        lemma_stream_error(read, read.len() as int);
    } else if read[0] is Ok {
        let later = read.drop_first();
        let i = choose|i: int| 0 <= i < read.len() && (#[trigger] read[i]) is Err;
        assert(later[i - 1] == read[i]);
        lemma_all_read(later);
    }
}

/// The texts that are there are the texts among the values.
proof fn lemma_texts_among(column: Column, n: nat)
    requires
        n <= cells(column).len(),
    ensures
        texts_there(column, n) == texts_among(cells(column).take(n as int)),
    decreases n,
{
    let values = cells(column).take(n as int);
    let is_text = |c: Cell| c is Text;
    reveal(Seq::filter);
    if n > 0 {
        lemma_texts_among(column, (n - 1) as nat);
        assert(values.drop_last() =~= cells(column).take(n - 1));
        assert(values.last() == cells(column)[n - 1]);
        let earlier = values.drop_last().filter(is_text);
        if values.last() is Text {
            assert(values.filter(is_text) =~= earlier.push(values.last()));
            assert(texts_among(values) =~= texts_among(values.drop_last()).push(
                values.last()->Text_0,
            ));
        }
    } else {
        assert(values.filter(is_text) =~= Seq::<Cell>::empty());
    }
}

/// Texts are collected from the given column of all batches, in order and without nulls: one batch
/// more adds the texts of that column in it, at the end. An error anywhere fails the whole.
pub proof fn law_texts_are_collected_batch_by_batch(
    read: Vec<Result<Batch, FlightError>>,
    at: usize,
    r: Result<Vec<String>, Error<FlightSqlErrorHelper>>,
    more: Vec<Result<Batch, FlightError>>,
    batch: Batch,
    more_r: Result<Vec<String>, Error<FlightSqlErrorHelper>>,
)
    requires
        call_ensures(collect_string_column, (read, at), r),
        call_ensures(collect_string_column, (more, at), more_r),
        more@ == read@.push(Ok(batch)),
        cells(columns(batch)[at as int]).len() == row_count(batch),
    ensures
        r is Ok <==> all_read(read@),
        more_r is Ok <==> r is Ok,
        read@.len() == 0 ==> (r matches Ok(names) && names@.len() == 0),
        more_r matches Ok(names) ==> views(names@) == views(r->Ok_0@) + texts_among(
            cells(columns(batch)[at as int]),
        ),
{
    lemma_all_read(read@);
    lemma_all_read(more@);
    assert forall|i: int| 0 <= i < read@.len() implies read@[i] == #[trigger] more@[i] by {}
    if all_read(read@) {
        assert(all_read(more@));
        lemma_texts_of_the_first(read@, more@, at as int, read@.len());
        lemma_texts_among(columns(batch)[at as int], row_count(batch));
        assert(cells(columns(batch)[at as int]).take(row_count(batch) as int) =~= cells(
            columns(batch)[at as int],
        ));
        if read@.len() == 0 {
            assert(views(r->Ok_0@).len() == 0);
        }
    } else {
        let i = choose|i: int| 0 <= i < read@.len() && (#[trigger] read@[i]) is Err;
        assert(more@[i] is Err);
    }
}

/// The texts of the first batches are those of the batches, whatever follows.
proof fn lemma_texts_of_the_first(
    read: Seq<Result<Batch, FlightError>>,
    more: Seq<Result<Batch, FlightError>>,
    at: int,
    n: nat,
)
    requires
        n <= read.len() <= more.len(),
        forall|i: int| 0 <= i < read.len() ==> read[i] == #[trigger] more[i],
    ensures
        texts_read(read, at, n) == texts_read(more, at, n),
    decreases n,
{
    if n > 0 {
        lemma_texts_of_the_first(read, more, at, (n - 1) as nat);
        assert(read[n - 1] == more[n - 1]);
    }
}

/// The tables of the first batches stand row after row.
proof fn lemma_tables_read(read: Seq<Result<Batch, FlightError>>, n: nat, b: int, i: int)
    ensures
        tables_read(read, n).len() == rows_before(read, n),
        0 <= b < n && 0 <= i < row_count(read[b]->Ok_0) ==> rows_before(read, b as nat) + i
            < rows_before(read, n) && tables_read(read, n)[rows_before(read, b as nat) + i]
            == table_in_row(read[b]->Ok_0, i),
    decreases n,
{
    if n > 0 {
        lemma_tables_read(read, (n - 1) as nat, b, i);
        assert(tables_in(read[n - 1]->Ok_0).len() == row_count(read[n - 1]->Ok_0));
    }
}

/// Tables are collected row by row: that of each row of each batch, in order, by the name in its
/// third column and the type in its fourth. An error anywhere fails the whole.
pub proof fn law_tables_are_collected_row_by_row(
    read: Vec<Result<Batch, FlightError>>,
    r: Result<Vec<TableInfo>, Error<FlightSqlErrorHelper>>,
    b: int,
    i: int,
)
    requires
        call_ensures(collect_table_info, (read,), r),
    ensures
        r is Ok <==> all_read(read@),
        r matches Ok(tables) ==> {
            &&& tables@.len() == rows_before(read@, read@.len())
            &&& 0 <= b < read@.len() && 0 <= i < row_count(read@[b]->Ok_0) ==> {
                let batch = read@[b]->Ok_0;
                let table = tables@[rows_before(read@, b as nat) + i];
                &&& table.table_name@ == slot_text(columns(batch)[2], i)
                &&& table.table_type@ == slot_text(columns(batch)[3], i)
            }
        },
{
    lemma_all_read(read@);
    lemma_tables_read(read@, read@.len(), b, i);
    if let Ok(tables) = r {
        let seen = table_views(tables@);
        assert(seen.len() == tables@.len());
        if 0 <= b < read@.len() && 0 <= i < row_count(read@[b]->Ok_0) {
            let at = rows_before(read@, b as nat) + i;
            assert(seen[at] == tables@[at]@);
        }
    }
}

/// The tables of the first batches stand row after row, with their columns.
proof fn lemma_full_tables_read(
    read: Seq<Result<Batch, FlightError>>,
    decoded: Seq<Seq<Option<arrow_schema::Schema>>>,
    n: nat,
    b: int,
    i: int,
)
    ensures
        full_tables_read(read, decoded, n).len() == rows_before(read, n),
        0 <= b < n && 0 <= i < row_count(read[b]->Ok_0) ==> rows_before(read, b as nat) + i
            < rows_before(read, n) && full_tables_read(read, decoded, n)[rows_before(
            read,
            b as nat,
        ) + i] == full_tables_in(read[b]->Ok_0, decoded[b])[i],
    decreases n,
{
    if n > 0 {
        lemma_full_tables_read(read, decoded, (n - 1) as nat, b, i);
        assert(full_tables_in(read[n - 1]->Ok_0, decoded[n - 1]).len() == row_count(
            read[n - 1]->Ok_0,
        ));
    }
}

/// Tables with columns are collected row by row: that of each row of each batch, in order, by the
/// name in its third column and the type in its fourth. Its columns are the fields of the schema
/// that was decoded from its fifth, in order; it has none if that is missing or cannot be decoded.
pub proof fn law_columns_are_those_of_the_schema<
    D: Fn(Vec<u8>) -> Result<arrow_schema::Schema, String>,
>(
    read: Vec<Result<Batch, FlightError>>,
    decode: D,
    r: Result<Vec<TableAndColumnInfo>, Error<FlightSqlErrorHelper>>,
    b: int,
    i: int,
)
    requires
        call_ensures(collect_table_and_column_info::<D>, (read, decode), r),
    ensures
        r is Ok <==> all_read(read@),
        r matches Ok(tables) ==> {
            &&& tables@.len() == rows_before(read@, read@.len())
            &&& 0 <= b < read@.len() && 0 <= i < row_count(read@[b]->Ok_0) ==> {
                let batch = read@[b]->Ok_0;
                let full = tables@[rows_before(read@, b as nat) + i];
                &&& full.table.table_name@ == slot_text(columns(batch)[2], i)
                &&& full.table.table_type@ == slot_text(columns(batch)[3], i)
                &&& has_columns_of(decode, schema_of_row(batch, i), full)
            }
        },
{
    lemma_all_read(read@);
    if let Ok(tables) = r {
        let decoded = choose|decoded: Seq<Seq<Option<arrow_schema::Schema>>>| #[trigger]
            decodes_batches(decode, read@, decoded)
                && full_table_views(tables@) == full_tables_read(
                read@,
                decoded,
                read@.len(),
            );
        lemma_full_tables_read(read@, decoded, read@.len(), b, i);
        let seen = full_table_views(tables@);
        assert(seen.len() == tables@.len());
        if 0 <= b < read@.len() && 0 <= i < row_count(read@[b]->Ok_0) {
            let batch = read@[b]->Ok_0;
            let at = rows_before(read@, b as nat) + i;
            let full = tables@[at];
            assert(seen[at] == full@);
            assert(decodes_rows(decode, batch, decoded[b]));
            assert(decodes_row(decode, schema_in_row(batch, i), decoded[b][i]));
            assert(full@.columns == Some(columns_in_row(batch, decoded[b], i)));
            assert(schema_in_row(batch, i) == schema_of_row(batch, i));
            lemma_has_columns(decode, schema_of_row(batch, i), decoded[b][i], full);
        }
    }
}

/// A table has the columns that are the fields of a schema, in order.
pub open spec fn has_fields(full: TableAndColumnInfo, schema: arrow_schema::Schema) -> bool {
    &&& full.columns@.len() == schema_fields(schema).len()
    &&& forall|k: int|
        0 <= k < full.columns@.len() ==> (#[trigger] full.columns@[k]).column_name@
            == schema_fields(schema)[k].name
}

/// A table has the columns of the schema that the decoder may make of its encoded schema, or none.
pub open spec fn has_columns_of<D: Fn(Vec<u8>) -> Result<arrow_schema::Schema, String>>(
    decode: D,
    encoded: Option<Seq<u8>>,
    full: TableAndColumnInfo,
) -> bool {
    match encoded {
        None => full.columns@.len() == 0,
        Some(bytes) => {
            ||| exists|schema: arrow_schema::Schema| #[trigger]
                may_decode(decode, bytes, Ok(schema)) && has_fields(full, schema)
            ||| full.columns@.len() == 0 && exists|text: String| #[trigger]
                may_decode(decode, bytes, Err(text))
        },
    }
}

/// The columns of a row are those of the schema that was decoded for it.
proof fn lemma_has_columns<D: Fn(Vec<u8>) -> Result<arrow_schema::Schema, String>>(
    decode: D,
    encoded: Option<Seq<u8>>,
    decoded: Option<arrow_schema::Schema>,
    full: TableAndColumnInfo,
)
    requires
        decodes_row(decode, encoded, decoded),
        full@.columns == Some(
            match decoded {
                Some(schema) if encoded is Some => field_names(schema),
                _ => Seq::empty(),
            },
        ),
    ensures
        has_columns_of(decode, encoded, full),
{
    let names = full@.columns->Some_0;
    assert(names.len() == full.columns@.len());
    if let Some(bytes) = encoded {
        assert(makes(decode, bytes, decoded));
        let made = choose|made: Result<arrow_schema::Schema, String>| #[trigger]
            decodes(decode, bytes, made)
                && schema_made(made) == decoded;
        assert(may_decode(decode, bytes, made));
        match made {
            Ok(schema) => {
                assert forall|k: int| 0 <= k < full.columns@.len() implies (
                #[trigger] full.columns@[k]).column_name@ == schema_fields(schema)[k].name by {
                    assert(names[k] == full.columns@[k].column_name@);
                    assert(field_names(schema)[k] == schema_fields(schema)[k].name);
                }
                assert(has_fields(full, schema));
            },
            Err(text) => {
                assert(may_decode(decode, bytes, Err(text)));
            },
        }
    }
}

/// The names in an answer on catalogs stand in its first column, those in an answer on schemas in
/// its second, after those of their catalogs.
pub proof fn law_names_stand_in_their_column(request: &ObjectsRequest, r: Option<usize>)
    requires
        call_ensures(ObjectsRequest::names_column, (request,), r),
    ensures
        *request is Catalogs ==> r == Some(0usize),
        *request is DbSchemas ==> r == Some(1usize),
        *request is Tables || *request is Columns ==> r is None,
{
}

/// An answer is fetched with the ticket of its first endpoint, and fails without one.
pub proof fn law_answer_is_fetched_with_its_first_ticket<S>(
    request: &ObjectsRequest,
    answer: Result<arrow_flight::FlightInfo, FlightError>,
    r: Result<Vec<u8>, Error<FlightSqlErrorHelper>>,
    open: Result<S, FlightError>,
    opened: Result<S, Error<FlightSqlErrorHelper>>,
)
    requires
        call_ensures(ObjectsRequest::answer_info, (request, answer), r),
        call_ensures(ObjectsRequest::answer_open::<S>, (request, open), opened),
    ensures
        r matches Ok(t) ==> (answer matches Ok(info) && endpoints(info).len() > 0 && ticket(
            endpoints(info)[0],
        ) == Some(t@)),
        answer matches Ok(info) ==> endpoints(info).len() > 0 && ticket(endpoints(info)[0]) is Some
            ==> r is Ok,
        open matches Ok(stream) ==> opened == Ok::<S, Error<FlightSqlErrorHelper>>(stream),
        open is Err ==> opened is Err,
{
}

/// A failed request tells what it was for.
pub proof fn law_failed_request_tells_what_it_was_for<S>(
    request: &ObjectsRequest,
    error: FlightError,
    r: Result<Vec<u8>, Error<FlightSqlErrorHelper>>,
    opened: Result<S, Error<FlightSqlErrorHelper>>,
    task: &str,
    told: Error<FlightSqlErrorHelper>,
)
    requires
        call_ensures(ObjectsRequest::answer_info, (request, Err(error)), r),
        call_ensures(ObjectsRequest::answer_open::<S>, (request, Err(error)), opened),
        call_ensures(map_flight_error_e, (error, task), told),
    ensures
        *request is Catalogs && task@ == "getting catalogs"@ ==> r->Err_0@ == told@,
        *request is DbSchemas && task@ == "getting db schemas"@ ==> r->Err_0@ == told@,
        *request is Tables && task@ == "getting tables"@ ==> r->Err_0@ == told@,
        *request is Columns && task@ == "getting tables with columns"@ ==> r->Err_0@ == told@,
        (*request is Catalogs || *request is DbSchemas) && task@ == "opening metadata stream"@
            ==> opened->Err_0@ == told@,
        *request is Tables && task@ == "opening tables stream"@ ==> opened->Err_0@ == told@,
        *request is Columns && task@ == "opening columns stream"@ ==> opened->Err_0@ == told@,
{
}

/// The table types of a server are fetched with the first ticket of the answer, and have the schema
/// that was decoded from it.
pub proof fn law_table_types_are_found<D: Fn(Vec<u8>) -> Result<arrow_schema::Schema, String>>(
    info: &arrow_flight::FlightInfo,
    decode: D,
    r: Result<ResultSource, AdbcError>,
)
    requires
        call_ensures(get_table_types::<D>, (info, decode), r),
    ensures
        r matches Ok(source) ==> endpoints(*info).len() > 0 && ticket(endpoints(*info)[0]) == Some(
            source.ticket@,
        ) && may_decode(decode, encoded_schema(*info), Ok(source.schema)),
        r matches Err(e) ==> ((endpoints(*info).len() == 0 || ticket(endpoints(*info)[0]) is None)
            && tells(e, Status::Internal, "get_table_types response has no endpoints"@)) || exists|
            text: String,
        | #[trigger]
            may_decode(decode, encoded_schema(*info), Err(text)) && tells(
                e,
                Status::Internal,
                "failed to decode table types schema: "@ + text@,
            ),
{
    let schema = choose|schema: Result<arrow_schema::Schema, String>| #[trigger]
        decodes(decode, encoded_schema(*info), schema) && sources(
            r,
            *info,
            schema,
            "failed to decode table types schema: "@,
            "get_table_types response has no endpoints"@,
        );
    assert(may_decode(decode, encoded_schema(*info), schema));
    if let Err(text) = schema {
        assert(may_decode(decode, encoded_schema(*info), Err(text)));
    }
}

/// What a server says about itself is fetched with the first ticket of its answer. A server that
/// fails to answer has nothing to say, but one that answers without a ticket is at fault.
pub proof fn law_server_may_say_nothing(
    answer: Result<arrow_flight::FlightInfo, FlightError>,
    r: Result<Option<Vec<u8>>, AdbcError>,
)
    requires
        call_ensures(sql_info_ticket, (answer,), r),
    ensures
        answer is Err ==> (r matches Ok(None)),
        answer matches Ok(info) ==> endpoints(info).len() > 0 && ticket(endpoints(info)[0]) is Some
            ==> (r matches Ok(Some(t)) && ticket(endpoints(info)[0]) == Some(t@)),
        answer matches Ok(info) ==> endpoints(info).len() == 0 || ticket(endpoints(info)[0])
            is None ==> (r matches Err(e) && tells(
            e,
            Status::Internal,
            "get_sql_info response has no endpoints"@,
        )),
{
}

/// Streams and answers are handed on as they are; failures tell what was tried.
pub proof fn law_streams_are_handed_on<S>(
    open: Result<S, FlightError>,
    types: Result<S, AdbcError>,
    information: Result<S, AdbcError>,
    answer: Result<arrow_flight::FlightInfo, FlightError>,
    answered: Result<arrow_flight::FlightInfo, AdbcError>,
    error: FlightError,
    task: &str,
    told: AdbcError,
)
    requires
        call_ensures(open_table_types::<S>, (open,), types),
        call_ensures(open_sql_info::<S>, (open,), information),
        call_ensures(answer_table_types, (answer,), answered),
        call_ensures(map_flight_error, (error, task), told),
    ensures
        open matches Ok(stream) ==> types == Ok::<S, AdbcError>(stream) && information == types,
        open is Err ==> types is Err && information is Err,
        answer matches Ok(info) ==> answered == Ok::<arrow_flight::FlightInfo, AdbcError>(info),
        answer is Err ==> answered is Err,
        open matches Err(e) ==> e == error ==> task@ == "opening table types stream"@
            ==> types->Err_0@ == told@,
        open matches Err(e) ==> e == error ==> task@ == "opening get_sql_info stream"@
            ==> information->Err_0@ == told@,
        answer matches Err(e) ==> e == error ==> task@ == "getting table types"@
            ==> answered->Err_0@ == told@,
{
}

/// The first ticket of an answer is the one to fetch it with; without one, the server is at fault.
pub proof fn law_answer_without_a_ticket_is_a_fault(
    info: &arrow_flight::FlightInfo,
    r: Result<Vec<u8>, Error<FlightSqlErrorHelper>>,
    told: AdbcError,
)
    requires
        call_ensures(metadata_ticket, (info,), r),
        r matches Err(e) ==> call_ensures(Error::<FlightSqlErrorHelper>::to_adbc, (e,), told),
    ensures
        r is Ok <==> endpoints(*info).len() > 0 && ticket(endpoints(*info)[0]) is Some,
        r matches Ok(t) ==> ticket(endpoints(*info)[0]) == Some(t@),
        r is Err ==> tells(told, Status::Internal, "metadata response has no endpoints"@),
{
}

/// A failed call of the walk is an unknown error that says, as a reader sees it, what became of the
/// call.
pub proof fn law_failed_call_of_the_walk_is_told(
    error: FlightError,
    task: &str,
    r: Error<FlightSqlErrorHelper>,
    mapped: AdbcError,
    shown: String,
    told: AdbcError,
)
    requires
        call_ensures(map_flight_error_e, (error, task), r),
        call_ensures(map_flight_error, (error, task), mapped),
        call_ensures(AdbcError::display_text, (&mapped,), shown),
        call_ensures(Error::<FlightSqlErrorHelper>::to_adbc, (r,), told),
    ensures
        tells(told, Status::Unknown, shown@),
{
}

/// Reading that fails at the first batch tells what was being read.
pub proof fn law_failed_reading_tells_what_was_read<
    D: Fn(Vec<u8>) -> Result<arrow_schema::Schema, String>,
>(
    read: Vec<Result<Batch, FlightError>>,
    error: FlightError,
    at: usize,
    names: Result<Vec<String>, Error<FlightSqlErrorHelper>>,
    tables: Result<Vec<TableInfo>, Error<FlightSqlErrorHelper>>,
    decode: D,
    full: Result<Vec<TableAndColumnInfo>, Error<FlightSqlErrorHelper>>,
    task: &str,
    told: Error<FlightSqlErrorHelper>,
)
    requires
        read@.len() > 0,
        read@[0] == Err::<Batch, FlightError>(error),
        call_ensures(collect_string_column, (read, at), names),
        call_ensures(collect_table_info, (read,), tables),
        call_ensures(collect_table_and_column_info::<D>, (read, decode), full),
        call_ensures(map_flight_error_e, (error, task), told),
    ensures
        names is Err && tables is Err && full is Err,
        task@ == "reading metadata batch"@ ==> names->Err_0@ == told@,
        task@ == "reading tables batch"@ ==> tables->Err_0@ == told@,
        task@ == "reading columns batch"@ ==> full->Err_0@ == told@,
{
    lemma_stream_error(read@, 0);
}

/// The search for a table's schema tells which of its steps failed.
pub proof fn law_failed_search_tells_its_step(
    search: &TableSchemaSearch,
    error: FlightError,
    prepared: Result<arrow_schema::Schema, AdbcError>,
    described: Result<arrow_schema::Schema, AdbcError>,
    table_name: &str,
    first: Result<Vec<u8>, AdbcError>,
    task: &str,
    told: AdbcError,
)
    requires
        call_ensures(TableSchemaSearch::answer_prepare, (search, Err(error)), prepared),
        call_ensures(TableSchemaSearch::answer_prepare, (search, Ok(Err(error))), described),
        call_ensures(first_schema, (Some(Err(error)), table_name), first),
        call_ensures(map_flight_error, (error, task), told),
    ensures
        task@ == "preparing query for table schema"@ ==> prepared->Err_0@ == told@,
        task@ == "getting dataset schema from prepared statement"@ ==> described->Err_0@ == told@,
        task@ == "reading table schema batch"@ ==> first->Err_0@ == told@,
{
}

/// An answer has texts at a position if there is a column of them; it lists tables if the third and
/// the fourth column are texts, and their schemas if the fifth is bytes, or there are no tables.
pub proof fn law_answers_are_known_by_their_columns(
    batch: &Batch,
    at: usize,
    texts: bool,
    tables: bool,
    schemas: bool,
    first: bool,
)
    requires
        call_ensures(has_texts, (batch, at), texts),
        call_ensures(has_tables, (batch,), tables),
        call_ensures(has_schemas, (batch,), schemas),
        call_ensures(has_first_schema, (batch,), first),
    ensures
        texts <==> is_column_of(*batch, at as int, Scalar::Utf8),
        tables <==> is_column_of(*batch, 2, Scalar::Utf8) && is_column_of(*batch, 3, Scalar::Utf8),
        schemas <==> tables && columns(*batch).len() > 4 && (row_count(*batch) == 0 || is_column_of(
            *batch,
            4,
            Scalar::Binary,
        )),
        first <==> is_column_of(*batch, 4, Scalar::Binary) && row_count(*batch) > 0,
{
}

/// The batch has a column of that type at a position.
pub open spec fn is_column_of(batch: Batch, at: int, kind: Scalar) -> bool {
    0 <= at < columns(batch).len() && column_type(columns(batch)[at]) == TypeShape::Scalar(kind)
}

} // verus!
