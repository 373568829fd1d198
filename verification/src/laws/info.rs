//! Laws of the information that the driver and a server give about themselves.

use vstd::prelude::*;

use crate::builders::texts_size;
use crate::columns::{
    batch_fields, cells, column_type, columns, row_count, slot_number, variant_type, Batch, Cell,
    Column, Scalar, TypeShape,
};
use crate::error::{map_flight_error, AdbcError, FlightError};
use crate::laws::answers::{all_read, lemma_all_read};
use crate::metadata::info::{
    booleans_in, build_driver_info_registry, code_numbers, extract_union_string, get_info, has_row,
    has_sql_info, info_code_from_u32, info_code_to_u32, is_answer, is_requested,
    law_each_code_has_one_row, longs_in, merge_server_info, merged, requested, rows_for, says,
    server_registry, texts_in, try_get_info, union_text, with_batches, InfoBuilder, InfoCode,
    InfoRegistry, InfoRow, InfoValue, InfoValueView,
};
use crate::stream::lemma_stream_error;

verus! {

/// The number that ADBC gives to a code.
pub open spec fn is_number_of(number: u32, code: InfoCode) -> bool {
    match code {
        InfoCode::VendorName => number == 0,
        InfoCode::VendorVersion => number == 1,
        InfoCode::VendorArrowVersion => number == 2,
        InfoCode::VendorSql => number == 3,
        InfoCode::VendorSubstrait => number == 4,
        InfoCode::VendorSubstraitMinVersion => number == 5,
        InfoCode::VendorSubstraitMaxVersion => number == 6,
        InfoCode::DriverName => number == 100,
        InfoCode::DriverVersion => number == 101,
        InfoCode::DriverArrowVersion => number == 102,
        InfoCode::DriverAdbcVersion => number == 103,
    }
}

/// A code is found again by its number, which is the one that ADBC gives it; and a number by which
/// a code is found is that of the code.
pub proof fn law_codes_are_found_by_their_numbers(
    code: InfoCode,
    number: u32,
    again: Option<InfoCode>,
    any: u32,
    found: Option<InfoCode>,
    back: u32,
)
    requires
        call_ensures(info_code_to_u32, (code,), number),
        call_ensures(info_code_from_u32, (number,), again),
        call_ensures(info_code_from_u32, (any,), found),
        found matches Some(c) ==> call_ensures(info_code_to_u32, (c,), back),
    ensures
        is_number_of(number, code),
        again == Some(code),
        found is Some ==> back == any,
        found is Some <==> any <= 6 || 100 <= any <= 103,
{
}

/// A registry knows that under a number.
pub open spec fn knows(registry: InfoRegistry, number: u32, value: InfoValueView) -> bool {
    registry@.contains_key(number) && registry@[number] == value
}

/// Two registries agree under a number.
pub open spec fn agree(a: InfoRegistry, b: InfoRegistry, number: u32) -> bool {
    &&& a@.contains_key(number) <==> b@.contains_key(number)
    &&& a@.contains_key(number) ==> a@[number] == b@[number]
}

/// What is added to a registry is known under the number of its code, replaces what was known
/// there, and changes nothing under any other.
pub proof fn law_added_information_is_known(
    registry: &mut InfoRegistry,
    code: InfoCode,
    number: u32,
    value: InfoValue,
    done: (),
    there: bool,
    other: u32,
)
    requires
        is_number_of(number, code),
        call_ensures(InfoRegistry::add_info_value, (registry, code, value), done),
        call_ensures(InfoRegistry::contains, (&*final(registry), code), there),
    ensures
        there,
        value matches InfoValue::String(s) ==> knows(
            *final(registry),
            number,
            InfoValueView::String(s@),
        ),
        value matches InfoValue::Bool(b) ==> knows(
            *final(registry),
            number,
            InfoValueView::Bool(b),
        ),
        value matches InfoValue::Int64(i) ==> knows(
            *final(registry),
            number,
            InfoValueView::Int64(i),
        ),
        other != number ==> agree(*old(registry), *final(registry), other),
{
}

/// Texts, truth values and numbers are added as values of their kinds.
pub proof fn law_values_are_added_as_what_they_are(
    code: InfoCode,
    number: u32,
    a: &mut InfoRegistry,
    text: String,
    a_done: (),
    b: &mut InfoRegistry,
    switch: bool,
    b_done: (),
    c: &mut InfoRegistry,
    count: i64,
    c_done: (),
    other: u32,
)
    requires
        is_number_of(number, code),
        call_ensures(InfoRegistry::add_string, (a, code, text), a_done),
        call_ensures(InfoRegistry::add_bool, (b, code, switch), b_done),
        call_ensures(InfoRegistry::add_int64, (c, code, count), c_done),
    ensures
        knows(*final(a), number, InfoValueView::String(text@)),
        knows(*final(b), number, InfoValueView::Bool(switch)),
        knows(*final(c), number, InfoValueView::Int64(count)),
        other != number ==> agree(*old(a), *final(a), other) && agree(*old(b), *final(b), other)
            && agree(*old(c), *final(c), other),
{
}

/// A new registry knows nothing, and a registry tells what it knows.
pub proof fn law_registry_tells_what_it_knows(
    fresh: InfoRegistry,
    any: u32,
    registry: &InfoRegistry,
    code: InfoCode,
    number: u32,
    r: bool,
)
    requires
        call_ensures(InfoRegistry::new, (), fresh),
        is_number_of(number, code),
        call_ensures(InfoRegistry::contains, (registry, code), r),
    ensures
        !fresh@.contains_key(any),
        r <==> registry@.contains_key(number),
{
}

/// The driver knows the name of the vendor, its own name and version, the version of ADBC, that it
/// takes SQL and that it takes no Substrait plans; and nothing else.
pub proof fn law_driver_knows_itself(r: Result<InfoRegistry, AdbcError>, number: u32)
    requires
        call_ensures(build_driver_info_registry, (), r),
    ensures
        r is Ok,
        knows(r->Ok_0, 0, InfoValueView::String("Apache Arrow Flight SQL"@)),
        knows(r->Ok_0, 3, InfoValueView::Bool(true)),
        knows(r->Ok_0, 4, InfoValueView::Bool(false)),
        knows(r->Ok_0, 100, InfoValueView::String("Arrow ADBC FlightSQL Driver"@)),
        knows(r->Ok_0, 101, InfoValueView::String("0.1.0"@)),
        knows(r->Ok_0, 103, InfoValueView::Int64(1_001_000)),
        r->Ok_0@.contains_key(number) ==> number == 0 || number == 3 || number == 4 || number == 100
            || number == 101 || number == 103,
{
}

/// A row of a batch of information: its number, and its value as the variant of its kind.
pub open spec fn shows_row(batch: Batch, i: int, number: u32, value: InfoValueView) -> bool {
    &&& 0 <= i < row_count(batch)
    &&& cells(columns(batch)[0])[i] == Cell::UInt32(number)
    &&& cells(columns(batch)[1])[i] matches Cell::Union(kind, held)
    &&& match value {
        InfoValueView::String(s) => kind == 0 && *held == Cell::Text(s),
        InfoValueView::Bool(b) => kind == 1 && *held == Cell::Boolean(b),
        InfoValueView::Int64(n) => kind == 2 && *held == Cell::Int64(n),
    }
}

/// A row of a batch of information has that number.
pub open spec fn is_row_of(batch: Batch, i: int, number: u32) -> bool {
    0 <= i < row_count(batch) && cells(columns(batch)[0])[i] == Cell::UInt32(number)
}

/// The code with that number is asked for; without codes, all are.
pub open spec fn is_wanted(codes: Option<Vec<InfoCode>>, number: u32) -> bool {
    match codes {
        Some(list) => exists|k: int|
            0 <= k < list@.len() && is_number_of(number, #[trigger] list@[k]),
        None => number <= 6 || 100 <= number <= 103,
    }
}

/// A batch answers a request out of a registry: for every code that is asked for and known it has
/// exactly one row, with the known value, and it has no other rows.
pub open spec fn answers_request(
    batch: Batch,
    registry: InfoRegistry,
    codes: Option<Vec<InfoCode>>,
    number: u32,
) -> bool {
    if is_wanted(codes, number) && registry@.contains_key(number) {
        exists|i: int| #[trigger]
            is_row_of(batch, i, number) && shows_row(batch, i, number, registry@[number]) && (
            forall|j: int| #[trigger] is_row_of(batch, j, number) ==> j == i)
    } else {
        forall|j: int| !#[trigger] is_row_of(batch, j, number)
    }
}

/// The codes that are asked for are those whose numbers are.
proof fn lemma_wanted(codes: Option<Vec<InfoCode>>, number: u32)
    ensures
        is_wanted(codes, number) <==> is_requested(codes, number),
{
    if let Some(list) = codes {
        let numbers = code_numbers(list@);
        if is_requested(codes, number) {
            let k = choose|k: int| 0 <= k < numbers.len() && numbers[k] == number;
            assert(is_number_of(number, list@[k]));
        }
        if is_wanted(codes, number) {
            let k = choose|k: int|
                0 <= k < list@.len() && is_number_of(number, #[trigger] list@[k]);
            assert(numbers[k] == number);
        }
    }
}

/// A batch that says what the rows for a request say answers the request.
proof fn lemma_answers_request(
    batch: Batch,
    registry: InfoRegistry,
    codes: Option<Vec<InfoCode>>,
    number: u32,
)
    requires
        says(batch, rows_for(registry@, requested(codes))),
    ensures
        answers_request(batch, registry, codes, number),
{
    let rows = rows_for(registry@, requested(codes));
    law_each_code_has_one_row(registry@, codes);
    lemma_wanted(codes, number);
    assert forall|j: int| 0 <= j < rows.len() implies cells(columns(batch)[0])[j] == Cell::UInt32(
        (#[trigger] rows[j]).name,
    ) by {}
    assert forall|j: int| #[trigger] is_row_of(batch, j, number) implies rows[j].name == number by {
        assert(cells(columns(batch)[0])[j] == Cell::UInt32(rows[j].name));
    }
    if has_row(rows, number) {
        let i = choose|i: int| 0 <= i < rows.len() && (#[trigger] rows[i]).name == number;
        assert(cells(columns(batch)[1])[i] == Cell::Union(
            rows[i].value.kind(),
            Box::new(rows[i].value.cell()),
        ));
        assert(is_row_of(batch, i, number));
        assert(shows_row(batch, i, number, registry@[number]));
        assert forall|j: int| #[trigger] is_row_of(batch, j, number) implies j == i by {
            if j < i {
                assert(rows[j].name != rows[i].name);
            } else if i < j {
                assert(rows[i].name != rows[j].name);
            }
        }
    } else {
        assert forall|j: int| !#[trigger] is_row_of(batch, j, number) by {
            if is_row_of(batch, j, number) {
                assert(rows[j].name == number);
                assert(has_row(rows, number));
            }
        }
    }
}

/// A request is answered out of the registry: each code that is asked for and known has exactly one
/// row with what is known, and there are no other rows.
pub proof fn law_request_is_answered_out_of_the_registry(
    registry: &InfoRegistry,
    codes: Option<Vec<InfoCode>>,
    builder: InfoBuilder,
    batch: Batch,
    number: u32,
)
    requires
        call_ensures(InfoRegistry::get_info, (registry, codes), builder),
        call_ensures(InfoBuilder::build, (builder,), batch),
    ensures
        answers_request(batch, *registry, codes, number),
{
    lemma_answers_request(batch, *registry, codes, number);
}

/// A request is answered out of what the driver knows and the server added: by the same rows as out
/// of the registry of both. A failure of the server's answer fails the request.
pub proof fn law_request_is_answered_by_driver_and_server(
    server: Option<Vec<Result<Batch, FlightError>>>,
    codes: Option<Vec<InfoCode>>,
    r: Result<Batch, AdbcError>,
    tried: Result<Option<Batch>, AdbcError>,
    registry: Result<InfoRegistry, AdbcError>,
    fits: bool,
    number: u32,
)
    requires
        call_ensures(get_info, (server, codes), r),
        call_ensures(try_get_info, (server, codes), tried),
        call_ensures(server_registry, (server,), registry),
        registry matches Ok(known) ==> call_ensures(InfoRegistry::fits, (&known, &codes), fits),
    ensures
        r is Ok <==> registry is Ok,
        registry is Ok <==> (server matches Some(read) ==> all_read(read@)),
        r matches Ok(batch) ==> answers_request(batch, registry->Ok_0, codes, number),
        tried matches Ok(Some(batch)) ==> registry is Ok && answers_request(
            batch,
            registry->Ok_0,
            codes,
            number,
        ),
        is_answer(server) ==> (tried is Err <==> registry is Err),
        is_answer(server) && registry is Ok ==> (tried matches Ok(Some(_))) == fits,
        server is None ==> is_answer(server),
{
    if let Some(read) = server {
        lemma_all_read(read@);
    }
    if let Ok(batch) = r {
        lemma_answers_request(batch, registry->Ok_0, codes, number);
    }
    if let Ok(Some(batch)) = tried {
        lemma_answers_request(batch, registry->Ok_0, codes, number);
    }
}

/// Without an answer of a server the registry is what the driver knows; each batch of an answer
/// adds what merging it adds.
pub proof fn law_server_adds_batch_by_batch(
    alone: Result<InfoRegistry, AdbcError>,
    driver: Result<InfoRegistry, AdbcError>,
    read: Vec<Result<Batch, FlightError>>,
    registry: Result<InfoRegistry, AdbcError>,
    merging: &mut InfoRegistry,
    batch: Batch,
    done: (),
    more: Vec<Result<Batch, FlightError>>,
    longer: Result<InfoRegistry, AdbcError>,
)
    requires
        call_ensures(server_registry, (None,), alone),
        call_ensures(build_driver_info_registry, (), driver),
        call_ensures(server_registry, (Some(read),), registry),
        all_read(read@),
        registry == Ok::<InfoRegistry, AdbcError>(*old(merging)),
        call_ensures(merge_server_info, (merging, &batch), done),
        more@ == read@.push(Ok(batch)),
        call_ensures(server_registry, (Some(more),), longer),
    ensures
        alone is Ok && driver is Ok && alone->Ok_0@ == driver->Ok_0@,
        read@.len() == 0 ==> registry->Ok_0@ == driver->Ok_0@,
        longer matches Ok(both) && both@ == final(merging)@,
{
    lemma_all_read(read@);
    lemma_all_read(more@);
    assert forall|i: int| 0 <= i < more@.len() implies (#[trigger] more@[i]) is Ok by {
        if i < read@.len() {
            assert(more@[i] == read@[i]);
        }
    }
    lemma_first_batches(driver->Ok_0@, read@, more@, read@.len());
}

/// What the first batches add is what they add, whatever follows.
proof fn lemma_first_batches(
    values: Map<u32, InfoValueView>,
    read: Seq<Result<Batch, FlightError>>,
    more: Seq<Result<Batch, FlightError>>,
    n: nat,
)
    requires
        n <= read.len() < more.len(),
        forall|i: int| 0 <= i < read.len() ==> read[i] == #[trigger] more[i],
    ensures
        with_batches(values, read, n)
            == with_batches(values, more, n),
    decreases n,
{
    if n > 0 {
        lemma_first_batches(values, read, more, (n - 1) as nat);
        assert(read[n - 1] == more[n - 1]);
    }
}

/// The text that a server gives in a row: that of the first variant of a union.
pub open spec fn told_text(column: Column, i: int) -> Option<Seq<char>> {
    match (column_type(column), cells(column)[i]) {
        (TypeShape::Union(_, _), Cell::Union(kind, held)) => match *held {
            Cell::Text(text) if kind == 0 => Some(text),
            _ => None,
        },
        _ => None,
    }
}

/// The row of a server's answer tells a text under that number.
pub open spec fn tells_under(batch: Batch, i: int, number: u32) -> bool {
    &&& 0 <= i < row_count(batch)
    &&& slot_number(columns(batch)[0], i) == number
    &&& told_text(columns(batch)[1], i) is Some
}

/// What the first rows of an answer add: the first text under each code that nothing was known
/// under.
proof fn lemma_merged(values: Map<u32, InfoValueView>, batch: Batch, n: nat, number: u32)
    requires
        n <= row_count(batch),
    ensures
        ({
            let after = merged(values, columns(batch)[0], columns(batch)[1], n);
            &&& values.contains_key(number) ==> after.contains_key(number) && after[number]
                == values[number]
            &&& after.contains_key(number) && !values.contains_key(number) ==> (number <= 6 || 100
                <= number <= 103) && exists|i: int|
                i < n && #[trigger] tells_under(batch, i, number) && after[number]
                    == InfoValueView::String(told_text(columns(batch)[1], i)->Some_0) && (forall|
                    j: int,
                | #[trigger] tells_under(batch, j, number) && j < n ==> i <= j)
            &&& (number <= 6 || 100 <= number <= 103) && (exists|i: int|
                i < n && #[trigger] tells_under(batch, i, number)) ==> after.contains_key(number)
        }),
    decreases n,
{
    if n > 0 {
        lemma_merged(values, batch, (n - 1) as nat, number);
        let before = merged(values, columns(batch)[0], columns(batch)[1], (n - 1) as nat);
        let after = merged(values, columns(batch)[0], columns(batch)[1], n);
        assert(union_text(columns(batch)[1], n - 1) == told_text(columns(batch)[1], n - 1));
        if after.contains_key(number) && !values.contains_key(number) {
            if before.contains_key(number) {
                let i = choose|i: int|
                    i < n - 1 && #[trigger] tells_under(batch, i, number) && before[number]
                        == InfoValueView::String(told_text(columns(batch)[1], i)->Some_0) && (
                    forall|j: int| #[trigger]
                        tells_under(batch, j, number) && j < n - 1 ==> i <= j);
                assert(tells_under(batch, i, number));
            } else {
                assert(tells_under(batch, n - 1, number));
            }
        }
    }
}

/// A server adds and replaces nothing: what was known stays, and under each code that nothing was
/// known under, the first text that the answer tells is known afterwards. Numbers that are no
/// codes, and values that are no texts, add nothing.
pub proof fn law_server_adds_and_replaces_nothing(
    registry: &mut InfoRegistry,
    batch: &Batch,
    done: (),
    number: u32,
)
    requires
        call_ensures(merge_server_info, (registry, batch), done),
    ensures
        old(registry)@.contains_key(number) ==> agree(*old(registry), *final(registry), number),
        !old(registry)@.contains_key(number) ==> {
            &&& final(registry)@.contains_key(number) <==> (number <= 6 || 100 <= number <= 103) && (
            exists|i: int| #[trigger] tells_under(*batch, i, number))
            &&& final(registry)@.contains_key(number) ==> exists|i: int| #[trigger]
                tells_under(*batch, i, number) && knows(
                    *final(registry),
                    number,
                    InfoValueView::String(told_text(columns(*batch)[1], i)->Some_0),
                ) && (forall|j: int| #[trigger] tells_under(*batch, j, number) ==> i <= j)
        },
{
    lemma_merged(old(registry)@, *batch, row_count(*batch), number);
    if !old(registry)@.contains_key(number) && final(registry)@.contains_key(number) {
        let n = row_count(*batch);
        let i = choose|i: int|
            i < n && #[trigger] tells_under(*batch, i, number) && final(registry)@[number]
                == InfoValueView::String(told_text(columns(*batch)[1], i)->Some_0) && (forall|
                j: int,
            | #[trigger] tells_under(*batch, j, number) && j < n ==> i <= j);
        assert(tells_under(*batch, i, number));
        assert(knows(
            *final(registry),
            number,
            InfoValueView::String(told_text(columns(*batch)[1], i)->Some_0),
        ));
    }
}

/// A text is extracted from a row of a union exactly if the row holds one as its first variant.
pub proof fn law_texts_are_extracted(column: &Column, index: usize, r: Option<String>)
    requires
        call_ensures(extract_union_string, (column, index), r),
    ensures
        match told_text(*column, index as int) {
            Some(text) => r matches Some(t) && t@ == text,
            None => r is None,
        },
{
}

/// Rows that are added to a builder come out of it in order, each with its number and its value,
/// under the two columns of ADBC.
pub proof fn law_added_rows_come_out(
    builder: &mut InfoBuilder,
    number: u32,
    value: &InfoValue,
    done: (),
    batch: Batch,
    before: Batch,
    i: int,
)
    requires
        call_ensures(InfoBuilder::add_info_value, (builder, number, value), done),
        call_ensures(InfoBuilder::build, (*final(builder),), batch),
        call_ensures(InfoBuilder::build, (*old(builder),), before),
    ensures
        row_count(batch) == row_count(before) + 1,
        shows_row(batch, row_count(batch) - 1, number, value@),
        0 <= i < row_count(before) ==> cells(columns(batch)[0])[i] == cells(columns(before)[0])[i]
            && cells(columns(batch)[1])[i] == cells(columns(before)[1])[i],
        batch_fields(batch).len() == 2,
        batch_fields(batch)[0].name == "info_name"@,
        batch_fields(batch)[0].data_type == TypeShape::Scalar(Scalar::UInt32),
        !batch_fields(batch)[0].nullable,
        batch_fields(batch)[1].name == "info_value"@,
        batch_fields(batch)[1].data_type is Union,
        !batch_fields(batch)[1].nullable,
{
    let rows = old(builder)@;
    let row = InfoRow { name: number, value: value@ };
    let all = rows.push(row);
    assert(cells(columns(batch)[1])[rows.len() as int] == Cell::Union(
        all[rows.len() as int].value.kind(),
        Box::new(all[rows.len() as int].value.cell()),
    ));
    if 0 <= i < rows.len() {
        assert(all[i] == rows[i]);
        assert(cells(columns(batch)[1])[i] == Cell::Union(
            all[i].value.kind(),
            Box::new(all[i].value.cell()),
        ));
        assert(cells(columns(before)[1])[i] == Cell::Union(
            rows[i].value.kind(),
            Box::new(rows[i].value.cell()),
        ));
    }
}

/// Texts, truth values and numbers are added to a builder as values of their kinds.
pub proof fn law_rows_are_added_as_what_they_are(
    number: u32,
    a: &mut InfoBuilder,
    text: &str,
    a_done: (),
    a_batch: Batch,
    b: &mut InfoBuilder,
    switch: bool,
    b_done: (),
    b_batch: Batch,
    c: &mut InfoBuilder,
    count: i64,
    c_done: (),
    c_batch: Batch,
)
    requires
        call_ensures(InfoBuilder::add_string, (a, number, text), a_done),
        call_ensures(InfoBuilder::build, (*final(a),), a_batch),
        call_ensures(InfoBuilder::add_bool, (b, number, switch), b_done),
        call_ensures(InfoBuilder::build, (*final(b),), b_batch),
        call_ensures(InfoBuilder::add_int64, (c, number, count), c_done),
        call_ensures(InfoBuilder::build, (*final(c),), c_batch),
    ensures
        shows_row(a_batch, row_count(a_batch) - 1, number, InfoValueView::String(text@)),
        shows_row(b_batch, row_count(b_batch) - 1, number, InfoValueView::Bool(switch)),
        shows_row(c_batch, row_count(c_batch) - 1, number, InfoValueView::Int64(count)),
{
    let i = old(a)@.len() as int;
    assert(cells(columns(a_batch)[1])[i] == Cell::Union(
        final(a)@[i].value.kind(),
        Box::new(final(a)@[i].value.cell()),
    ));
    let j = old(b)@.len() as int;
    assert(cells(columns(b_batch)[1])[j] == Cell::Union(
        final(b)@[j].value.kind(),
        Box::new(final(b)@[j].value.cell()),
    ));
    let k = old(c)@.len() as int;
    assert(cells(columns(c_batch)[1])[k] == Cell::Union(
        final(c)@[k].value.kind(),
        Box::new(final(c)@[k].value.cell()),
    ));
}

/// A failure of the server's answer is told as one of reading it.
pub proof fn law_failed_answer_is_told(
    read: Vec<Result<Batch, FlightError>>,
    error: FlightError,
    registry: Result<InfoRegistry, AdbcError>,
    task: &str,
    told: AdbcError,
)
    requires
        task@ == "reading get_sql_info batch"@,
        read@.len() > 0,
        read@[0] == Err::<Batch, FlightError>(error),
        call_ensures(server_registry, (Some(read),), registry),
        call_ensures(map_flight_error, (error, task), told),
    ensures
        registry matches Err(e) && e@ == told@,
{
    lemma_stream_error(read@, 0);
}

/// Rows fit exactly if their texts take up less than two gibibytes and there are fewer of each kind
/// than two to the thirty-first.
pub proof fn law_rows_fit_up_to_two_gibibytes(
    registry: &InfoRegistry,
    codes: &Option<Vec<InfoCode>>,
    r: bool,
)
    requires
        call_ensures(InfoRegistry::fits, (registry, codes), r),
    ensures
        r <==> {
            let rows = rows_for(registry@, requested(*codes));
            &&& texts_size(texts_in(rows)) < 0x8000_0000
            &&& texts_in(rows).len() < 0x8000_0000
            &&& booleans_in(rows).len() < 0x8000_0000
            &&& longs_in(rows).len() < 0x8000_0000
        },
{
}

/// An answer of a server has numbers in its first column and a second column. That is enough if the
/// second is no union, or its first variant holds texts.
pub proof fn law_server_answers_are_known_by_their_columns(
    registry: &InfoRegistry,
    batch: &Batch,
    r: bool,
)
    requires
        call_ensures(has_sql_info, (registry, batch), r),
    ensures
        r ==> columns(*batch).len() >= 2 && column_type(columns(*batch)[0]) == TypeShape::Scalar(
            Scalar::UInt32,
        ),
        columns(*batch).len() >= 2 && column_type(columns(*batch)[0]) == TypeShape::Scalar(
            Scalar::UInt32,
        ) && (!(column_type(columns(*batch)[1]) is Union) || variant_type(columns(*batch)[1], 0)
            == TypeShape::Scalar(Scalar::Utf8)) ==> r,
{
}

} // verus!
