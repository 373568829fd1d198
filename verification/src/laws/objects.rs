//! Laws of the walk down the hierarchy: what it asks for, what it makes of the answers, and what
//! its batches show.

use std::collections::VecDeque;

use vstd::prelude::*;

use crate::builders::{text_size, texts_size};
use crate::columns::{
    batch_fields, cells, columns, row_count, schema_fields, Batch, Cell, FieldShape, Scalar,
    TypeShape,
};
use crate::error::{ArrowError, Error, FlightSqlErrorHelper};
use crate::metadata::objects::{
    all_columns, all_tables, full_table_views, get_objects_schema, kinds_of_tables,
    names_of_columns, names_of_schemas, names_of_tables, table_views, NumberedColumn, ObjectDepth,
    SchemaView, TableAndColumnInfo, TableInfo, TableView,
};
use crate::metadata::walk::{
    bare_schemas, get_catalogs, get_objects, queue_view, BatchIterator, CommandGetTables,
    ObjectsRequest, Phase, Step,
};
use crate::text::{holds_part, opt_str_view, views};

verus! {

/// The field is a single value of that name and type.
pub open spec fn is_value(
    field: FieldShape,
    name: Seq<char>,
    kind: Scalar,
    nullable: bool,
) -> bool {
    field.name == name && field.data_type == TypeShape::Scalar(kind) && field.nullable == nullable
}

/// The field is a list of structures of that name, which are never null.
pub open spec fn is_list_of_structures(field: FieldShape, name: Seq<char>, nullable: bool) -> bool {
    &&& field.name == name
    &&& field.nullable == nullable
    &&& field.data_type matches TypeShape::List(item)
    &&& item.name == "item"@
    &&& !item.nullable
    &&& item.data_type is Struct
}

/// The fields of the structures in a list.
pub open spec fn structure_of(field: FieldShape) -> Seq<FieldShape> {
    field.data_type->List_0.data_type->Struct_0
}

/// The schema of the hierarchy lists catalogs with their schemas, these with their tables, these
/// with their columns and constraints, each field under its ADBC name, type and nullability.
pub proof fn law_hierarchy_has_the_fields_of_adbc(r: arrow_schema::Schema)
    requires
        call_ensures(get_objects_schema, (), r),
    ensures
        ({
            let catalog = schema_fields(r);
            &&& catalog.len() == 2
            &&& is_value(catalog[0], "catalog_name"@, Scalar::Utf8, true)
            &&& is_list_of_structures(catalog[1], "catalog_db_schemas"@, true)
            &&& structure_of(catalog[1]).len() == 2
            &&& is_value(structure_of(catalog[1])[0], "db_schema_name"@, Scalar::Utf8, true)
            &&& is_list_of_structures(structure_of(catalog[1])[1], "db_schema_tables"@, true)
        }),
        ({
            let table = structure_of(structure_of(schema_fields(r)[1])[1]);
            &&& table.len() == 4
            &&& is_value(table[0], "table_name"@, Scalar::Utf8, false)
            &&& is_value(table[1], "table_type"@, Scalar::Utf8, false)
            &&& is_list_of_structures(table[2], "table_columns"@, true)
            &&& is_list_of_structures(table[3], "table_constraints"@, true)
        }),
        ({
            let column = structure_of(structure_of(structure_of(schema_fields(r)[1])[1])[2]);
            &&& column.len() == 19
            &&& is_value(column[0], "column_name"@, Scalar::Utf8, false)
            &&& is_value(column[1], "ordinal_position"@, Scalar::Int32, true)
            &&& is_value(column[2], "remarks"@, Scalar::Utf8, true)
            &&& is_value(column[3], "xdbc_data_type"@, Scalar::Int16, true)
            &&& is_value(column[4], "xdbc_type_name"@, Scalar::Utf8, true)
            &&& is_value(column[5], "xdbc_column_size"@, Scalar::Int32, true)
            &&& is_value(column[6], "xdbc_decimal_digits"@, Scalar::Int16, true)
            &&& is_value(column[7], "xdbc_num_prec_radix"@, Scalar::Int16, true)
            &&& is_value(column[8], "xdbc_nullable"@, Scalar::Int16, true)
            &&& is_value(column[9], "xdbc_column_def"@, Scalar::Utf8, true)
            &&& is_value(column[10], "xdbc_sql_data_type"@, Scalar::Int16, true)
            &&& is_value(column[11], "xdbc_datetime_sub"@, Scalar::Int16, true)
            &&& is_value(column[12], "xdbc_char_octet_length"@, Scalar::Int32, true)
            &&& is_value(column[13], "xdbc_is_nullable"@, Scalar::Utf8, true)
            &&& is_value(column[14], "xdbc_scope_catalog"@, Scalar::Utf8, true)
            &&& is_value(column[15], "xdbc_scope_schema"@, Scalar::Utf8, true)
            &&& is_value(column[16], "xdbc_scope_table"@, Scalar::Utf8, true)
            &&& is_value(column[17], "xdbc_is_autoincrement"@, Scalar::Boolean, true)
            &&& is_value(column[18], "xdbc_is_generatedcolumn"@, Scalar::Boolean, true)
        }),
        ({
            let constraint = structure_of(structure_of(structure_of(schema_fields(r)[1])[1])[3]);
            &&& constraint.len() == 4
            &&& is_value(constraint[0], "constraint_name"@, Scalar::Utf8, true)
            &&& is_value(constraint[1], "constraint_type"@, Scalar::Utf8, true)
            &&& constraint[2].name == "constraint_column_names"@
            &&& !constraint[2].nullable
            &&& (constraint[2].data_type matches TypeShape::List(item) && is_value(
                *item,
                "item"@,
                Scalar::Utf8,
                false,
            ))
            &&& is_list_of_structures(constraint[3], "constraint_column_usage"@, false)
            &&& structure_of(constraint[3]).len() == 4
            &&& is_value(structure_of(constraint[3])[0], "fk_catalog"@, Scalar::Utf8, true)
            &&& is_value(structure_of(constraint[3])[1], "fk_db_schema"@, Scalar::Utf8, true)
            &&& is_value(structure_of(constraint[3])[2], "fk_table"@, Scalar::Utf8, false)
            &&& is_value(structure_of(constraint[3])[3], "fk_column_name"@, Scalar::Utf8, false)
        }),
{
}

/// A name in a request is the given one, or none for an empty one.
pub open spec fn is_asked(name: Option<String>, given: Seq<char>) -> bool {
    match name {
        Some(n) => n@ == given && given.len() > 0,
        None => given.len() == 0,
    }
}

/// A filter in a request is the one that was given, or none.
pub open spec fn is_filter(filter: Option<String>, given: Option<&str>) -> bool {
    match (filter, given) {
        (Some(f), Some(g)) => f@ == g@,
        (None, None) => true,
        _ => false,
    }
}

/// The types of tables in a request are the ones that were given, or none.
pub open spec fn are_types(types: Seq<String>, given: Option<Vec<String>>) -> bool {
    match given {
        Some(g) => types.len() == g@.len() && (forall|i: int|
            0 <= i < types.len() ==> (#[trigger] types[i])@ == g@[i]@),
        None => types.len() == 0,
    }
}

/// A request for tables carries the filter on table names and the types of tables that the walk was
/// started with, and the catalog and the schema that it is at.
pub open spec fn asks_for_tables(
    command: CommandGetTables,
    catalog: Seq<char>,
    db_schema: Seq<char>,
    table_name: Option<&str>,
    table_type: Option<Vec<String>>,
) -> bool {
    &&& is_asked(command.catalog, catalog)
    &&& is_asked(command.db_schema_filter_pattern, db_schema)
    &&& is_filter(command.table_name_filter_pattern, table_name)
    &&& are_types(command.table_types@, table_type)
}

/// The same texts are the same types.
proof fn lemma_types(types: Seq<String>, given: Option<Vec<String>>)
    requires
        given matches Some(g) ==> views(types) == views(g@),
        given is None ==> views(types) == Seq::<Seq<char>>::empty(),
    ensures
        are_types(types, given),
{
    assert(types.len() == views(types).len());
    if let Some(g) = given {
        assert forall|i: int| 0 <= i < types.len() implies (#[trigger] types[i])@ == g@[i]@ by {
            assert(views(types)[i] == types[i]@);
            assert(views(g@)[i] == g@[i]@);
        }
    }
}

/// Every step of a walk keeps what it was started with.
pub proof fn law_walk_keeps_its_scope(
    walk: &mut BatchIterator,
    step: Step,
    names: Result<Vec<String>, Error<FlightSqlErrorHelper>>,
    tables: Result<Vec<TableInfo>, Error<FlightSqlErrorHelper>>,
    full: Result<Vec<TableAndColumnInfo>, Error<FlightSqlErrorHelper>>,
    r: Result<(), ArrowError>,
)
    requires
        ({
            ||| call_ensures(BatchIterator::next, (walk,), step)
            ||| call_ensures(BatchIterator::answer_catalogs, (walk, names), r)
            ||| call_ensures(BatchIterator::answer_db_schemas, (walk, names), r)
            ||| call_ensures(BatchIterator::answer_tables, (walk, tables), r)
            ||| call_ensures(BatchIterator::answer_columns, (walk, full), r)
        }),
    ensures
        final(walk).scope() == old(walk).scope(),
{
}

/// A walk asks for tables as it was started: with the filter on table names and the types of tables
/// that `get_objects` was called with, and with the catalog and the schema that it is at. A walk
/// down to tables asks for tables without their schemas, and one that goes further for tables with
/// them.
pub proof fn law_tables_are_asked_as_the_walk_was_started(
    depth: ObjectDepth,
    catalog: Option<&str>,
    db_schema: Option<&str>,
    table_name: Option<&str>,
    table_type: Option<Vec<String>>,
    column_name: Option<&str>,
    started: BatchIterator,
    walk: &mut BatchIterator,
    step: Step,
)
    requires
        call_ensures(
            get_objects,
            (depth, catalog, db_schema, table_name, table_type, column_name),
            started,
        ),
        old(walk).scope() == started.scope(),
        call_ensures(BatchIterator::next, (walk,), step),
    ensures
        step matches Step::Ask(ObjectsRequest::Tables(command)) ==> {
            &&& depth is Tables
            &&& !command.include_schema
            &&& old(walk).phase() matches Phase::Tables { catalog: at, schemas, .. }
            &&& asks_for_tables(command, at, schemas[0], table_name, table_type)
        },
        step matches Step::Ask(ObjectsRequest::Columns(command)) ==> {
            &&& !(depth is Tables)
            &&& command.include_schema
            &&& old(walk).phase() matches Phase::Tables { catalog: at, schemas, .. }
            &&& asks_for_tables(command, at, schemas[0], table_name, table_type)
        },
        old(walk).phase() matches Phase::Tables { schemas, .. } ==> schemas.len() > 0 ==> (step
            matches Step::Ask(ObjectsRequest::Tables(_))) || (step matches Step::Ask(
            ObjectsRequest::Columns(_),
        )),
        old(walk).phase() is Uninit ==> (step matches Step::Ask(ObjectsRequest::Catalogs)),
        old(walk).phase() is Schemas ==> (step matches Step::Ask(ObjectsRequest::DbSchemas(_))),
        step is Ask && !(old(walk).phase() is Catalogs) ==> final(walk).phase() == old(
            walk
        ).phase(),
        step matches Step::Ask(ObjectsRequest::DbSchemas(command)) ==> {
            &&& is_filter(command.db_schema_filter_pattern, db_schema)
            &&& old(walk).phase() matches Phase::Catalogs(left) ==> is_asked(
                command.catalog,
                left[0],
            )
            &&& old(walk).phase() matches Phase::Schemas { catalog: at, .. } ==> is_asked(
                command.catalog,
                at,
            )
        },
{
    if let Step::Ask(ObjectsRequest::Tables(command)) = step {
        lemma_types(command.table_types@, table_type);
    }
    if let Step::Ask(ObjectsRequest::Columns(command)) = step {
        lemma_types(command.table_types@, table_type);
    }
}

/// Two walks that were started alike but for their depth, and are at the same schema of the same
/// catalog, ask for its tables alike but for whether they want their schemas.
pub proof fn law_depth_decides_on_schemas_alone(
    depth: ObjectDepth,
    other_depth: ObjectDepth,
    catalog: Option<&str>,
    db_schema: Option<&str>,
    table_name: Option<&str>,
    table_type: Option<Vec<String>>,
    column_name: Option<&str>,
    started: BatchIterator,
    other_started: BatchIterator,
    walk: &mut BatchIterator,
    other: &mut BatchIterator,
    step: Step,
    other_step: Step,
    command: CommandGetTables,
    other_command: CommandGetTables,
)
    requires
        call_ensures(
            get_objects,
            (depth, catalog, db_schema, table_name, table_type, column_name),
            started,
        ),
        call_ensures(
            get_objects,
            (other_depth, catalog, db_schema, table_name, table_type, column_name),
            other_started,
        ),
        old(walk).scope() == started.scope(),
        old(other).scope() == other_started.scope(),
        old(walk).phase() == old(other).phase(),
        call_ensures(BatchIterator::next, (walk,), step),
        call_ensures(BatchIterator::next, (other,), other_step),
        step == Step::Ask(ObjectsRequest::Tables(command)),
        other_step == Step::Ask(ObjectsRequest::Columns(other_command)),
    ensures
        same_name(command.catalog, other_command.catalog),
        same_name(command.db_schema_filter_pattern, other_command.db_schema_filter_pattern),
        same_name(command.table_name_filter_pattern, other_command.table_name_filter_pattern),
        command.table_types@.len() == other_command.table_types@.len(),
        forall|i: int|
            0 <= i < command.table_types@.len() ==> (#[trigger] command.table_types@[i])@
                == other_command.table_types@[i]@,
        !command.include_schema,
        other_command.include_schema,
{
    lemma_types(command.table_types@, table_type);
    lemma_types(other_command.table_types@, table_type);
}

/// Two names are the same, or both none.
pub open spec fn same_name(a: Option<String>, b: Option<String>) -> bool {
    match (a, b) {
        (Some(x), Some(y)) => x@ == y@,
        (None, None) => true,
        _ => false,
    }
}

/// A walk that was just started asks for the catalogs; answered with some, without a filter, it
/// goes to the first, asks for the schemas of it that match, and, answered with some, asks for the
/// tables of the first of these that match.
pub proof fn law_walk_goes_down_from_the_first(
    depth: ObjectDepth,
    db_schema: Option<&str>,
    table_name: Option<&str>,
    table_type: Option<Vec<String>>,
    column_name: Option<&str>,
    started: BatchIterator,
    first: &mut BatchIterator,
    first_step: Step,
    found: &mut BatchIterator,
    catalogs: Vec<String>,
    found_r: Result<(), ArrowError>,
    second: &mut BatchIterator,
    second_step: Step,
    listed: &mut BatchIterator,
    schemas: Vec<String>,
    listed_r: Result<(), ArrowError>,
    third: &mut BatchIterator,
    third_step: Step,
)
    requires
        call_ensures(
            get_objects,
            (depth, None, db_schema, table_name, table_type, column_name),
            started,
        ),
        *old(first) == started,
        call_ensures(BatchIterator::next, (first,), first_step),
        *old(found) == *final(first),
        call_ensures(BatchIterator::answer_catalogs, (found, Ok(catalogs)), found_r),
        *old(second) == *final(found),
        call_ensures(BatchIterator::next, (second,), second_step),
        *old(listed) == *final(second),
        call_ensures(BatchIterator::answer_db_schemas, (listed, Ok(schemas)), listed_r),
        *old(third) == *final(listed),
        call_ensures(BatchIterator::next, (third,), third_step),
        catalogs@.len() > 0,
        schemas@.len() > 0,
    ensures
        first_step matches Step::Ask(ObjectsRequest::Catalogs),
        found_r is Ok,
        !(depth is Catalogs) ==> (second_step matches Step::Ask(ObjectsRequest::DbSchemas(command))
            && is_asked(command.catalog, catalogs@[0]@) && is_filter(
            command.db_schema_filter_pattern,
            db_schema,
        )),
        depth is Tables ==> (third_step matches Step::Ask(ObjectsRequest::Tables(command))
            && !command.include_schema && asks_for_tables(
            command,
            catalogs@[0]@,
            schemas@[0]@,
            table_name,
            table_type,
        )),
        depth is Columns || depth is All ==> (third_step matches Step::Ask(
            ObjectsRequest::Columns(command),
        ) && command.include_schema && asks_for_tables(
            command,
            catalogs@[0]@,
            schemas@[0]@,
            table_name,
            table_type,
        )),
{
    assert(views(catalogs@)[0] == catalogs@[0]@);
    assert(views(schemas@)[0] == schemas@[0]@);
    assert(views(catalogs@).len() > 0);
    if let Step::Ask(ObjectsRequest::Tables(command)) = third_step {
        lemma_types(command.table_types@, table_type);
    }
    if let Step::Ask(ObjectsRequest::Columns(command)) = third_step {
        lemma_types(command.table_types@, table_type);
    }
}

/// Catalogs are selected one by one and keep their order: one more that was found is the last of
/// the selected if it holds the filter, or there is none, and changes nothing if it does not. Where
/// none was found, one without a name is selected.
pub proof fn law_catalogs_are_selected_one_by_one(
    found: Vec<String>,
    filter: Option<&str>,
    r: VecDeque<String>,
    more: Vec<String>,
    name: String,
    more_r: VecDeque<String>,
)
    requires
        call_ensures(get_catalogs, (found, filter), r),
        call_ensures(get_catalogs, (more, filter), more_r),
        more@ == found@.push(name),
    ensures
        found@.len() == 0 ==> queue_view(r@) == seq![Seq::<char>::empty()],
        ({
            let earlier = if found@.len() == 0 {
                Seq::<Seq<char>>::empty()
            } else {
                queue_view(r@)
            };
            let wanted = filter matches Some(f) ==> holds_part(name@, f@);
            queue_view(more_r@) == (if wanted {
                earlier.push(name@)
            } else {
                earlier
            })
        }),
{
    reveal(Seq::filter);
    assert(views(more@) =~= views(found@).push(name@));
    assert(views(more@).drop_last() =~= views(found@));
    assert(views(more@).last() == name@);
    assert(views(found@).len() == found@.len());
    if let Some(f) = filter {
        let wanted = |n: Seq<char>| holds_part(n, f@);
        let earlier = views(found@).filter(wanted);
        assert(views(more@).filter(wanted) == (if wanted(name@) {
            earlier.push(name@)
        } else {
            earlier
        }));
        if found@.len() == 0 {
            assert(earlier =~= Seq::<Seq<char>>::empty());
        }
    } else if found@.len() == 0 {
        assert(views(found@) =~= Seq::<Seq<char>>::empty());
    }
}

/// A walk goes through the catalogs that are selected with its filter, and ends with a failure.
pub proof fn law_walk_goes_through_the_selected(
    walk: &mut BatchIterator,
    answer: Result<Vec<String>, Error<FlightSqlErrorHelper>>,
    r: Result<(), ArrowError>,
    filter: Option<&str>,
    selected: VecDeque<String>,
)
    requires
        call_ensures(BatchIterator::answer_catalogs, (walk, answer), r),
        opt_str_view(filter) == old(walk).scope().catalog,
        answer matches Ok(found) ==> call_ensures(get_catalogs, (found, filter), selected),
    ensures
        r is Ok <==> answer is Ok,
        answer is Ok ==> final(walk).phase() == Phase::Catalogs(queue_view(selected@)),
        answer is Err ==> final(walk).phase() is Finished,
{
}

/// The walk takes its catalogs from the first to the last: one for catalogs alone hands out the
/// first with nothing below it; any other asks for its schemas; without any left it ends.
pub proof fn law_catalogs_are_taken_in_order(
    walk: &mut BatchIterator,
    left: Seq<Seq<char>>,
    step: Step,
)
    requires
        old(walk).phase() == Phase::Catalogs(left),
        call_ensures(BatchIterator::next, (walk,), step),
    ensures
        left.len() == 0 ==> step is End && final(walk).phase() is Finished,
        left.len() > 0 && old(walk).scope().depth is Catalogs ==> {
            &&& step matches Step::Yield(Ok(batch))
            &&& shows_catalog(batch, left[0])
            &&& cells(columns(batch)[1])[0] is Null
            &&& final(walk).phase() == Phase::Catalogs(left.skip(1))
        },
        left.len() > 0 && !(old(walk).scope().depth is Catalogs) ==> {
            &&& step matches Step::Ask(ObjectsRequest::DbSchemas(command))
            &&& is_asked(command.catalog, left[0])
            &&& final(walk).phase() == (Phase::Schemas { catalog: left[0], rest: left.skip(1) })
        },
{
    if left.len() > 0 {
        assert(left.drop_first() =~= left.skip(1));
    }
}

/// A batch shows one catalog by its name.
pub open spec fn shows_catalog(batch: Batch, name: Seq<char>) -> bool {
    &&& row_count(batch) == 1
    &&& columns(batch).len() == 2
    &&& cells(columns(batch)[0]).len() == 1
    &&& cells(columns(batch)[0])[0] == Cell::Text(name)
    &&& cells(columns(batch)[1]).len() == 1
}

/// A value shows a column by its name and its position, and nothing else of it.
pub open spec fn shows_column(cell: Cell, name: Seq<char>, position: int) -> bool {
    &&& cell matches Cell::Struct(fields)
    &&& fields.len() == 19
    &&& fields[0] == Cell::Text(name)
    &&& (fields[1] matches Cell::Int32(p) && p == position)
    &&& forall|f: int| 2 <= f < 19 ==> (#[trigger] fields[f]) is Null
}

/// A value shows a table by its name and its type, with no constraints.
pub open spec fn shows_table(cell: Cell, name: Seq<char>, kind: Seq<char>) -> bool {
    &&& cell matches Cell::Struct(fields)
    &&& fields.len() == 4
    &&& fields[0] == Cell::Text(name)
    &&& fields[1] == Cell::Text(kind)
    &&& fields[3] is Null
}

/// A value shows a schema by its name.
pub open spec fn shows_db_schema(cell: Cell, name: Seq<char>) -> bool {
    &&& cell matches Cell::Struct(fields)
    &&& fields.len() == 2
    &&& fields[0] == Cell::Text(name)
}

/// What a batch lists below its catalog.
pub open spec fn schemas_in(batch: Batch) -> Seq<Cell> {
    cells(columns(batch)[1])[0]->List_0
}

/// What a schema lists.
pub open spec fn tables_in(schema: Cell) -> Seq<Cell> {
    schema->Struct_0[1]->List_0
}

/// What a table lists.
pub open spec fn columns_in(table: Cell) -> Seq<Cell> {
    table->Struct_0[2]->List_0
}

/// Once every schema of a catalog has its answer, the walk hands out the catalog by its name with
/// all of them, in order, and goes on to the next catalog: each schema by its name, with its tables
/// if there are any to show, each by its name and its type, with its columns if there are any to
/// show, each by its name and its position, counted from one.
pub proof fn law_batch_shows_what_was_answered(
    walk: &mut BatchIterator,
    catalog: Seq<char>,
    done: Seq<SchemaView>,
    rest: Seq<Seq<char>>,
    step: Step,
    i: int,
    j: int,
    k: int,
)
    requires
        old(walk).phase() == (Phase::Tables { catalog, done, schemas: Seq::empty(), rest }),
        call_ensures(BatchIterator::next, (walk,), step),
    ensures
        final(walk).phase() == Phase::Catalogs(rest),
        step matches Step::Yield(Ok(batch)) && {
            &&& shows_catalog(batch, catalog)
            &&& cells(columns(batch)[1])[0] is List
            &&& schemas_in(batch).len() == done.len()
            &&& 0 <= i < done.len() ==> {
                let schema = schemas_in(batch)[i];
                &&& shows_db_schema(schema, done[i].name)
                &&& done[i].tables is None ==> schema->Struct_0[1] is Null
                &&& done[i].tables matches Some(tables) ==> {
                    &&& schema->Struct_0[1] is List
                    &&& tables_in(schema).len() == tables.len()
                    &&& 0 <= j < tables.len() ==> {
                        let table = tables_in(schema)[j];
                        &&& shows_table(table, tables[j].name, tables[j].kind)
                        &&& tables[j].columns is None ==> table->Struct_0[2] is Null
                        &&& tables[j].columns matches Some(names) ==> {
                            &&& table->Struct_0[2] is List
                            &&& columns_in(table).len() == names.len()
                            &&& 0 <= k < names.len() && names.len() <= i32::MAX ==> shows_column(
                                columns_in(table)[k],
                                names[k],
                                k + 1,
                            )
                        }
                    }
                }
            }
        },
{
}

/// Answered with the schemas of a catalog, a walk for schemas alone has them done, each with
/// nothing below it; any other has them all before it. A failure ends the walk.
pub proof fn law_answered_schemas_are_walked(
    walk: &mut BatchIterator,
    catalog: Seq<char>,
    rest: Seq<Seq<char>>,
    answer: Result<Vec<String>, Error<FlightSqlErrorHelper>>,
    r: Result<(), ArrowError>,
    i: int,
)
    requires
        old(walk).phase() == (Phase::Schemas { catalog, rest }),
        call_ensures(BatchIterator::answer_db_schemas, (walk, answer), r),
    ensures
        r is Ok <==> answer is Ok,
        answer is Err ==> final(walk).phase() is Finished,
        answer matches Ok(names) ==> {
            &&& final(walk).phase() matches Phase::Tables {
                catalog: at,
                done,
                schemas,
                rest: left,
            }
            &&& at == catalog
            &&& left == rest
            &&& old(walk).scope().depth is Schemas ==> {
                &&& schemas.len() == 0
                &&& done.len() == names@.len()
                &&& 0 <= i < done.len() ==> done[i].name == names@[i]@ && done[i].tables is None
            }
            &&& !(old(walk).scope().depth is Schemas) ==> {
                &&& done.len() == 0
                &&& schemas.len() == names@.len()
                &&& 0 <= i < schemas.len() ==> schemas[i] == names@[i]@
            }
        },
{
}

/// Answered with the tables of a schema, the walk has the schema done with these tables, in order
/// and without columns, and goes on to the next schema. A failure ends the walk.
pub proof fn law_answered_tables_are_kept(
    walk: &mut BatchIterator,
    catalog: Seq<char>,
    done: Seq<SchemaView>,
    schemas: Seq<Seq<char>>,
    rest: Seq<Seq<char>>,
    answer: Result<Vec<TableInfo>, Error<FlightSqlErrorHelper>>,
    r: Result<(), ArrowError>,
    i: int,
)
    requires
        schemas.len() > 0,
        old(walk).phase() == (Phase::Tables { catalog, done, schemas, rest }),
        call_ensures(BatchIterator::answer_tables, (walk, answer), r),
    ensures
        r is Ok <==> answer is Ok,
        answer is Err ==> final(walk).phase() is Finished,
        answer matches Ok(tables) ==> {
            &&& final(walk).phase() matches Phase::Tables {
                catalog: at,
                done: now,
                schemas: after,
                rest: left,
            }
            &&& at == catalog
            &&& left == rest
            &&& after == schemas.skip(1)
            &&& now.len() == done.len() + 1
            &&& now.take(done.len() as int) == done
            &&& now.last().name == schemas[0]
            &&& now.last().tables matches Some(kept)
            &&& kept.len() == tables@.len()
            &&& 0 <= i < kept.len() ==> kept[i].name == tables@[i].table_name@ && kept[i].kind
                == tables@[i].table_type@ && kept[i].columns is None
        },
{
    assert(schemas.drop_first() =~= schemas.skip(1));
    if let Ok(tables) = answer {
        if let Phase::Tables { done: now, .. } = final(walk).phase() {
            assert(now.take(done.len() as int) =~= done);
        }
    }
}

/// Answered with the tables of a schema and their columns, the walk has the schema done with these
/// tables and columns, in order, and goes on to the next schema. A failure ends the walk.
pub proof fn law_answered_columns_are_kept(
    walk: &mut BatchIterator,
    catalog: Seq<char>,
    done: Seq<SchemaView>,
    schemas: Seq<Seq<char>>,
    rest: Seq<Seq<char>>,
    answer: Result<Vec<TableAndColumnInfo>, Error<FlightSqlErrorHelper>>,
    r: Result<(), ArrowError>,
    i: int,
    k: int,
)
    requires
        schemas.len() > 0,
        old(walk).phase() == (Phase::Tables { catalog, done, schemas, rest }),
        call_ensures(BatchIterator::answer_columns, (walk, answer), r),
    ensures
        r is Ok <==> answer is Ok,
        answer is Err ==> final(walk).phase() is Finished,
        answer matches Ok(tables) ==> {
            &&& final(walk).phase() matches Phase::Tables {
                catalog: at,
                done: now,
                schemas: after,
                rest: left,
            }
            &&& at == catalog
            &&& left == rest
            &&& after == schemas.skip(1)
            &&& now.len() == done.len() + 1
            &&& now.take(done.len() as int) == done
            &&& now.last().name == schemas[0]
            &&& now.last().tables matches Some(kept)
            &&& kept.len() == tables@.len()
            &&& 0 <= i < kept.len() ==> {
                &&& kept[i].name == tables@[i].table.table_name@
                &&& kept[i].kind == tables@[i].table.table_type@
                &&& kept[i].columns matches Some(names)
                &&& names.len() == tables@[i].columns@.len()
                &&& 0 <= k < names.len() ==> names[k] == tables@[i].columns@[k].column_name@
            }
        },
{
    assert(schemas.drop_first() =~= schemas.skip(1));
    if let Ok(tables) = answer {
        if let Phase::Tables { done: now, .. } = final(walk).phase() {
            assert(now.take(done.len() as int) =~= done);
        }
    }
}

/// A walk that is over stays over.
pub proof fn law_walk_that_is_over_stays_over(walk: &mut BatchIterator, step: Step)
    requires
        old(walk).phase() is Finished,
        call_ensures(BatchIterator::next, (walk,), step),
    ensures
        step is End,
        final(walk).phase() is Finished,
{
}

/// The batches of a walk have the fields of the hierarchy.
pub proof fn law_batches_have_the_fields_of_the_hierarchy(
    walk: &mut BatchIterator,
    step: Step,
    schema: arrow_schema::Schema,
)
    requires
        call_ensures(BatchIterator::next, (walk,), step),
        call_ensures(get_objects_schema, (), schema),
    ensures
        step matches Step::Yield(r) ==> (r matches Ok(batch) && batch_fields(batch)
            == schema_fields(schema)),
{
}

/// A failed answer ends the walk with an Arrow error that wraps the failure as a reader sees it.
pub proof fn law_failed_answer_is_handed_out(
    error: Error<FlightSqlErrorHelper>,
    shown: String,
    a: &mut BatchIterator,
    catalogs: Result<(), ArrowError>,
    b: &mut BatchIterator,
    db_schemas: Result<(), ArrowError>,
    c: &mut BatchIterator,
    tables: Result<(), ArrowError>,
    d: &mut BatchIterator,
    full: Result<(), ArrowError>,
)
    requires
        call_ensures(Error::<FlightSqlErrorHelper>::display_text, (&error,), shown),
        call_ensures(BatchIterator::answer_catalogs, (a, Err(error)), catalogs),
        call_ensures(BatchIterator::answer_db_schemas, (b, Err(error)), db_schemas),
        call_ensures(BatchIterator::answer_tables, (c, Err(error)), tables),
        call_ensures(BatchIterator::answer_columns, (d, Err(error)), full),
    ensures
        catalogs matches Err(ArrowError::ExternalError(text)) && text@ == shown@,
        db_schemas matches Err(ArrowError::ExternalError(text)) && text@ == shown@,
        tables matches Err(ArrowError::ExternalError(text)) && text@ == shown@,
        full matches Err(ArrowError::ExternalError(text)) && text@ == shown@,
        final(a).phase() is Finished,
        final(b).phase() is Finished,
        final(c).phase() is Finished,
        final(d).phase() is Finished,
{
}

/// Catalogs fit exactly if each that is selected takes up less than two gibibytes; schemas that are
/// not shown always fit, and those that are shown fit exactly if together they do.
pub proof fn law_names_fit_up_to_two_gibibytes(
    walk: &BatchIterator,
    found: Vec<String>,
    r: bool,
    filter: Option<&str>,
    selected: VecDeque<String>,
    names: &Vec<String>,
    names_r: bool,
)
    requires
        call_ensures(BatchIterator::fits_catalogs, (walk, &found), r),
        opt_str_view(filter) == walk.scope().catalog,
        call_ensures(get_catalogs, (found, filter), selected),
        call_ensures(BatchIterator::fits_db_schemas, (walk, names), names_r),
    ensures
        r <==> forall|i: int|
            0 <= i < queue_view(selected@).len() ==> text_size(#[trigger] queue_view(selected@)[i])
                < 0x8000_0000,
        !(walk.scope().depth is Schemas) ==> names_r,
        walk.scope().depth is Schemas ==> (names_r <==> texts_size(views(names@)) < 0x8000_0000
            && names@.len() < 0x8000_0000),
{
    let bare = bare_schemas(views(names@));
    assert(names_of_schemas(bare) =~= views(names@));
    lemma_no_tables(bare);
    assert(names_of_tables(all_tables(bare)) =~= Seq::<Seq<char>>::empty());
    assert(kinds_of_tables(all_tables(bare)) =~= Seq::<Seq<char>>::empty());
    assert(all_columns(all_tables(bare)) =~= Seq::<NumberedColumn>::empty());
    assert(names_of_columns(all_columns(all_tables(bare))) =~= Seq::<Seq<char>>::empty());
}

/// Schemas without tables have none together.
proof fn lemma_no_tables(schemas: Seq<SchemaView>)
    requires
        forall|i: int| 0 <= i < schemas.len() ==> (#[trigger] schemas[i]).tables is None,
    ensures
        all_tables(schemas) =~= Seq::<TableView>::empty(),
    decreases schemas.len(),
{
    if schemas.len() > 0 {
        lemma_no_tables(schemas.drop_last());
    }
}

/// The tables of the first schema of a catalog fit exactly if its name, their names, their types
/// and the names of their columns each take up less than two gibibytes, and there are fewer of them
/// than two to the thirty-first.
pub proof fn law_tables_fit_up_to_two_gibibytes(
    walk: &BatchIterator,
    catalog: Seq<char>,
    schemas: Seq<Seq<char>>,
    rest: Seq<Seq<char>>,
    tables: &Vec<TableInfo>,
    r: bool,
    full: &Vec<TableAndColumnInfo>,
    full_r: bool,
)
    requires
        schemas.len() > 0,
        walk.phase() == (Phase::Tables { catalog, done: Seq::empty(), schemas, rest }),
        call_ensures(BatchIterator::fits_tables, (walk, tables), r),
        call_ensures(BatchIterator::fits_columns, (walk, full), full_r),
    ensures
        r <==> {
            let shown = table_views(tables@);
            &&& text_size(schemas[0]) < 0x8000_0000
            &&& texts_size(names_of_tables(shown)) < 0x8000_0000
            &&& texts_size(kinds_of_tables(shown)) < 0x8000_0000
            &&& shown.len() < 0x8000_0000
        },
        full_r <==> {
            let shown = full_table_views(full@);
            &&& text_size(schemas[0]) < 0x8000_0000
            &&& texts_size(names_of_tables(shown)) < 0x8000_0000
            &&& texts_size(kinds_of_tables(shown)) < 0x8000_0000
            &&& shown.len() < 0x8000_0000
            &&& texts_size(names_of_columns(all_columns(shown))) < 0x8000_0000
            &&& all_columns(shown).len() < 0x8000_0000
        },
{
    lemma_one_schema(schemas[0], table_views(tables@));
    lemma_one_schema(schemas[0], full_table_views(full@));
    lemma_no_columns(table_views(tables@));
    assert(names_of_columns(all_columns(table_views(tables@))) =~= Seq::<Seq<char>>::empty());
    let none = Seq::<SchemaView>::empty();
    assert(none.push(SchemaView { name: schemas[0], tables: Some(table_views(tables@)) })
        =~= seq![SchemaView { name: schemas[0], tables: Some(table_views(tables@)) }]);
    assert(none.push(SchemaView { name: schemas[0], tables: Some(full_table_views(full@)) })
        =~= seq![SchemaView { name: schemas[0], tables: Some(full_table_views(full@)) }]);
}

/// One schema has its own name and its own tables.
proof fn lemma_one_schema(name: Seq<char>, tables: Seq<TableView>)
    ensures
        ({
            let one = seq![SchemaView { name, tables: Some(tables) }];
            &&& all_tables(one) == tables
            &&& texts_size(names_of_schemas(one)) == text_size(name)
        }),
{
    let one = seq![SchemaView { name, tables: Some(tables) }];
    assert(one.drop_last() =~= Seq::<SchemaView>::empty());
    assert(all_tables(one.drop_last()) =~= Seq::<TableView>::empty());
    assert(all_tables(one) =~= tables);
    let names = names_of_schemas(one);
    assert(names.len() == 1 && names[0] == name);
    assert(names.drop_last() =~= Seq::<Seq<char>>::empty());
    assert(texts_size(names.drop_last()) == 0);
}

/// Tables without columns have none together.
proof fn lemma_no_columns(tables: Seq<TableView>)
    requires
        forall|i: int| 0 <= i < tables.len() ==> (#[trigger] tables[i]).columns is None,
    ensures
        all_columns(tables) =~= Seq::<NumberedColumn>::empty(),
    decreases tables.len(),
{
    if tables.len() > 0 {
        lemma_no_columns(tables.drop_last());
    }
}

} // verus!
