//! Laws of results: partitions, tickets, schemas and readers.

use vstd::prelude::*;

use crate::columns::Batch;
use crate::error::{map_flight_error, AdbcError, ArrowError, FlightError, Status};
use crate::flight::{
    decoded, decodes, encoded_schema, endpoints, find_ticket, is_partition_schema,
    open_partition, open_partition_stream, partition_schema, partitions, read_partition,
    schema_bytes, ticket, PartitionSource,
};
use crate::laws::{tells, tells_of};
use crate::metadata::collect::{sources, ResultSource};
use crate::statement::{are_partitions, FlightSqlStatement, PartitionedResult};
use crate::stream::{flight_error_to_arrow, FlightSqlRecordBatchReader, Validity};
use crate::text::decimal;

verus! {

/// The ticket to fetch results with is that of the first endpoint.
pub proof fn law_first_ticket_counts(info: &arrow_flight::FlightInfo, r: Option<Vec<u8>>)
    requires
        call_ensures(find_ticket, (info,), r),
    ensures
        r is Some <==> endpoints(*info).len() > 0 && ticket(endpoints(*info)[0]) is Some,
        r matches Some(bytes) ==> ticket(endpoints(*info)[0]) == Some(bytes@),
{
}

/// Results have one partition for each endpoint, in order. Each is read back with the ticket of its
/// own endpoint and with the schema of the whole; one whose endpoint has no ticket cannot be read.
pub proof fn law_each_endpoint_has_its_partition(
    info: &arrow_flight::FlightInfo,
    r: Vec<Vec<u8>>,
    i: int,
    bytes: &[u8],
    read: Result<PartitionSource, AdbcError>,
)
    requires
        call_ensures(partitions, (info,), r),
        0 <= i < r@.len(),
        bytes@ == r@[i]@,
        call_ensures(read_partition, (bytes,), read),
    ensures
        r@.len() == endpoints(*info).len(),
        read is Ok <==> ticket(endpoints(*info)[i]) is Some,
        read matches Ok(source) ==> ticket(endpoints(*info)[i]) == Some(source.ticket@)
            && source.schema@ == encoded_schema(*info),
        read matches Err(e) ==> tells_of(
            e,
            Status::Internal,
            "reading partition"@,
            "partition endpoint has no ticket"@,
        ),
{
}

/// Bytes that are no flight, or one with no endpoint or several, are no partition.
pub proof fn law_other_bytes_are_no_partition(
    bytes: &[u8],
    r: Result<PartitionSource, AdbcError>,
)
    requires
        call_ensures(read_partition, (bytes,), r),
    ensures
        match decoded(bytes@) {
            Err(text) => r matches Err(e) && tells_of(
                e,
                Status::InvalidArguments,
                "reading partition"@,
                "failed to decode partition: "@ + text,
            ),
            Ok(info) => {
                &&& endpoints(info).len() != 1 ==> (r matches Err(e) && tells_of(
                    e,
                    Status::InvalidArguments,
                    "reading partition"@,
                    "invalid partition: expected 1 endpoint, got "@ + decimal(
                        endpoints(info).len(),
                    ),
                ))
                &&& endpoints(info).len() == 1 ==> (r is Ok <==> ticket(endpoints(info)[0])
                    is Some)
                &&& r matches Ok(source) ==> ticket(endpoints(info)[0]) == Some(source.ticket@)
                    && source.schema@ == encoded_schema(info)
            },
        },
{
}

/// The decoder may give that schema, or that complaint, for those bytes.
pub open spec fn may_decode<D: Fn(Vec<u8>) -> Result<arrow_schema::Schema, String>>(
    decode: D,
    bytes: Seq<u8>,
    r: Result<arrow_schema::Schema, String>,
) -> bool {
    exists|b: Vec<u8>| b@ == bytes && #[trigger] decode.ensures((b,), r)
}

/// The results of a statement are fetched with the first ticket, and have the schema that was
/// decoded from the flight: without a ticket, or without a schema, they are not found.
pub proof fn law_results_are_found<D: Fn(Vec<u8>) -> Result<arrow_schema::Schema, String>>(
    statement: &FlightSqlStatement,
    info: &arrow_flight::FlightInfo,
    decode: D,
    r: Result<ResultSource, AdbcError>,
)
    requires
        call_ensures(FlightSqlStatement::find_results::<D>, (statement, info, decode), r),
    ensures
        r matches Ok(source) ==> endpoints(*info).len() > 0 && ticket(endpoints(*info)[0]) == Some(
            source.ticket@,
        ) && may_decode(decode, encoded_schema(*info), Ok(source.schema)),
        r matches Err(e) ==> ((endpoints(*info).len() == 0 || ticket(endpoints(*info)[0]) is None)
            && tells(
            e,
            Status::Internal,
            "server returned FlightInfo with no endpoints/tickets"@,
        )) || exists|text: String| #[trigger]
            may_decode(decode, encoded_schema(*info), Err(text)) && tells(
                e,
                Status::Internal,
                "failed to decode result schema: "@ + text@,
            ),
{
    let schema = choose|schema: Result<arrow_schema::Schema, String>| #[trigger]
        decodes(decode, encoded_schema(*info), schema) && sources(
            r,
            *info,
            schema,
            "failed to decode result schema: "@,
            "server returned FlightInfo with no endpoints/tickets"@,
        );
    assert(may_decode(decode, encoded_schema(*info), schema));
    if let Err(text) = schema {
        assert(may_decode(decode, encoded_schema(*info), Err(text)));
    }
}

/// Results in partitions have a partition for each endpoint, each read back with the ticket of that
/// endpoint, and the schema that was decoded from the flight. How many rows there are is not known.
pub proof fn law_results_are_split<D: Fn(Vec<u8>) -> Result<arrow_schema::Schema, String>>(
    statement: &FlightSqlStatement,
    info: &arrow_flight::FlightInfo,
    decode: D,
    r: Result<PartitionedResult, AdbcError>,
    i: int,
    bytes: &[u8],
    read: Result<PartitionSource, AdbcError>,
)
    requires
        call_ensures(FlightSqlStatement::partition_results::<D>, (statement, info, decode), r),
        call_ensures(read_partition, (bytes,), read),
    ensures
        r matches Ok(result) ==> {
            &&& result.partitions@.len() == endpoints(*info).len()
            &&& may_decode(decode, encoded_schema(*info), Ok(result.schema))
            &&& result.rows_affected == -1
            &&& 0 <= i < result.partitions@.len() && bytes@ == result.partitions@[i]@ ==> {
                &&& read is Ok <==> ticket(endpoints(*info)[i]) is Some
                &&& read matches Ok(source) ==> ticket(endpoints(*info)[i]) == Some(source.ticket@)
                    && source.schema@ == encoded_schema(*info)
            }
        },
        r matches Err(e) ==> exists|text: String| #[trigger]
            may_decode(decode, encoded_schema(*info), Err(text)) && tells(
                e,
                Status::Internal,
                "failed to decode partition schema: "@ + text@,
            ),
{
    let schema = choose|schema: Result<arrow_schema::Schema, String>| #[trigger]
        decodes(decode, encoded_schema(*info), schema) && are_partitions(r, *info, schema);
    assert(may_decode(decode, encoded_schema(*info), schema));
    if let Err(text) = schema {
        assert(may_decode(decode, encoded_schema(*info), Err(text)));
    }
}

/// The schema of a partition is the one that was decoded from its bytes, and none other.
pub proof fn law_partition_has_its_schema<
    D: Fn(Vec<u8>) -> Result<arrow_schema::Schema, String>,
>(bytes: Vec<u8>, decode: D, r: Result<arrow_schema::Schema, AdbcError>)
    requires
        call_ensures(partition_schema::<D>, (bytes, decode), r),
    ensures
        r matches Ok(schema) ==> may_decode(decode, bytes@, Ok(schema)),
        r matches Err(e) ==> exists|text: String| #[trigger]
            may_decode(decode, bytes@, Err(text)) && tells(
                e,
                Status::Internal,
                "failed to decode partition schema: "@ + text@,
            ),
{
    let schema = choose|schema: Result<arrow_schema::Schema, String>| #[trigger]
        decodes(decode, bytes@, schema) && is_partition_schema(r, schema);
    assert(may_decode(decode, bytes@, schema));
    if let Err(text) = schema {
        assert(may_decode(decode, bytes@, Err(text)));
    }
}

/// A reader has the schema that it was made with, and goes on exactly as long as its results are
/// the latest and were not given up.
pub proof fn law_reader_reads_the_latest_results(
    schema: arrow_schema::Schema,
    number: u64,
    reader: FlightSqlRecordBatchReader,
    its_schema: arrow_schema::Schema,
    validity: &Validity,
    fetches: bool,
    cancelled: bool,
)
    requires
        call_ensures(FlightSqlRecordBatchReader::new, (schema, number), reader),
        call_ensures(FlightSqlRecordBatchReader::schema, (&reader,), its_schema),
        call_ensures(FlightSqlRecordBatchReader::fetches, (&reader, validity), fetches),
        call_ensures(Validity::is_cancelled, (validity, number), cancelled),
    ensures
        its_schema == schema,
        fetches <==> number == validity.latest && !validity.cancelled,
        cancelled <==> !fetches,
{
}

/// Giving up ends the latest results, and new results, which have a number of their own, are
/// wanted.
pub proof fn law_giving_up_ends_results(
    validity: &mut Validity,
    done: (),
    renewed: &mut Validity,
    number: u64,
    other: u64,
    ended: bool,
    wanted: bool,
    others: bool,
)
    requires
        old(renewed).latest < u64::MAX,
        call_ensures(Validity::cancel, (validity,), done),
        *old(renewed) == *final(validity),
        call_ensures(Validity::renew, (renewed,), number),
        call_ensures(Validity::is_cancelled, (&*final(validity), other), ended),
        call_ensures(Validity::is_cancelled, (&*final(renewed), number), wanted),
        call_ensures(Validity::is_cancelled, (&*final(renewed), other), others),
    ensures
        ended,
        !wanted,
        other <= old(validity).latest ==> others,
        number == old(validity).latest + 1,
{
}

/// A reader hands out what was fetched: batches as they are, nothing at the end, and errors as
/// Arrow errors.
pub proof fn law_reader_hands_out_what_was_fetched(
    reader: &FlightSqlRecordBatchReader,
    fetched: Option<Result<Batch, FlightError>>,
    r: Option<Result<Batch, ArrowError>>,
)
    requires
        call_ensures(FlightSqlRecordBatchReader::next, (reader, fetched), r),
    ensures
        fetched is None <==> r is None,
        fetched matches Some(Ok(batch)) ==> r == Some(Ok::<Batch, ArrowError>(batch)),
        fetched matches Some(Err(FlightError::Arrow { error, .. })) ==> r == Some(
            Err::<Batch, ArrowError>(error),
        ),
        fetched matches Some(Err(FlightError::Tonic { text, .. })) ==> r == Some(
            Err::<Batch, ArrowError>(ArrowError::ExternalError(text)),
        ),
        fetched matches Some(Err(FlightError::Other { text })) ==> r == Some(
            Err::<Batch, ArrowError>(ArrowError::ExternalError(text)),
        ),
{
}

/// An Arrow error comes out of a Flight error as it went in, and any other error is wrapped whole.
pub proof fn law_arrow_errors_come_out(error: FlightError, r: ArrowError)
    requires
        call_ensures(flight_error_to_arrow, (error,), r),
    ensures
        match error {
            FlightError::Arrow { error, .. } => r == error,
            FlightError::Tonic { text, .. } => r == ArrowError::ExternalError(text),
            FlightError::Other { text } => r == ArrowError::ExternalError(text),
        },
{
}

/// The stream of a partition is handed on as it is; a failure tells that a partition was read.
pub proof fn law_stream_of_a_partition_is_handed_on<S>(
    answer: Result<S, FlightError>,
    r: Result<S, AdbcError>,
    error: FlightError,
    task: &str,
    told: AdbcError,
)
    requires
        call_ensures(open_partition_stream::<S>, (answer,), r),
        call_ensures(map_flight_error, (error, task), told),
    ensures
        answer matches Ok(stream) ==> r == Ok::<S, AdbcError>(stream),
        answer matches Err(e) ==> r is Err && (e == error && task@ == "ReadPartition(DoGet)"@
            ==> r->Err_0@ == told@),
{
}

/// A partition that was decoded is opened as one that was read: its only endpoint has the ticket to
/// fetch it with.
pub proof fn law_decoded_partition_is_opened(
    info: arrow_flight::FlightInfo,
    r: Result<PartitionSource, AdbcError>,
    bytes: Vec<u8>,
)
    requires
        call_ensures(open_partition, (Ok(info),), r),
        call_ensures(schema_bytes, (&info,), bytes),
    ensures
        r is Ok <==> endpoints(info).len() == 1 && ticket(endpoints(info)[0]) is Some,
        r matches Ok(source) ==> ticket(endpoints(info)[0]) == Some(source.ticket@)
            && source.schema@ == bytes@,
        bytes@ == encoded_schema(info),
{
}

} // verus!
