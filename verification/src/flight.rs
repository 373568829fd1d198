//! Flight information: where the results of a query are, as a server describes it.

use prost::Message;
use vstd::prelude::*;

use crate::error::{
    adbc, bare, flight_view, map_flight_error, AdbcError, AdbcErrorView, ErrorHelper, FlightError,
    FlightSqlErrorHelper, Status,
};
use crate::text::{decimal, u64_text};

verus! {

#[verifier::external_type_specification]
#[verifier::external_body]
pub struct ExFlightInfo(arrow_flight::FlightInfo);

#[verifier::external_type_specification]
#[verifier::external_body]
pub struct ExFlightEndpoint(arrow_flight::FlightEndpoint);

/// The endpoints of a flight.
pub uninterp spec fn endpoints(info: arrow_flight::FlightInfo) -> Seq<arrow_flight::FlightEndpoint>;

/// The schema of the results of a flight, encoded.
pub uninterp spec fn encoded_schema(info: arrow_flight::FlightInfo) -> Seq<u8>;

/// The flight with other endpoints.
pub uninterp spec fn replaced(
    info: arrow_flight::FlightInfo,
    endpoints: Seq<arrow_flight::FlightEndpoint>,
) -> arrow_flight::FlightInfo;

/// The ticket of an endpoint.
pub uninterp spec fn ticket(endpoint: arrow_flight::FlightEndpoint) -> Option<Seq<u8>>;

/// A flight in the encoding of Protocol Buffers.
pub uninterp spec fn encoded(info: arrow_flight::FlightInfo) -> Seq<u8>;

/// The flight that bytes encode, or what is wrong with them.
pub uninterp spec fn decoded(bytes: Seq<u8>) -> Result<arrow_flight::FlightInfo, Seq<char>>;

/// The endpoints of a flight.
///
/// Trusted: the field `endpoint` of `arrow_flight::FlightInfo`.
#[verifier::external_body]
fn info_endpoints(info: &arrow_flight::FlightInfo) -> (r: Vec<arrow_flight::FlightEndpoint>)
    ensures
        r@ == endpoints(*info),
{
    info.endpoint.clone()
}

/// The encoded schema of the results of a flight.
///
/// Trusted: the field `schema` of `arrow_flight::FlightInfo`.
#[verifier::external_body]
fn info_schema(info: &arrow_flight::FlightInfo) -> (r: Vec<u8>)
    ensures
        r@ == encoded_schema(*info),
{
    info.schema.to_vec()
}

/// The ticket of an endpoint.
///
/// Trusted: the field `ticket` of `arrow_flight::FlightEndpoint`, and that of
/// `arrow_flight::Ticket`.
#[verifier::external_body]
fn endpoint_ticket(endpoint: &arrow_flight::FlightEndpoint) -> (r: Option<Vec<u8>>)
    ensures
        bytes_view(r) == ticket(*endpoint),
{
    endpoint.ticket.as_ref().map(|t| t.ticket.to_vec())
}

/// The flight with other endpoints.
///
/// Trusted: assigning the field `endpoint` of an `arrow_flight::FlightInfo` changes its endpoints
/// and nothing else.
#[verifier::external_body]
fn with_endpoints(
    info: &arrow_flight::FlightInfo,
    endpoint: Vec<arrow_flight::FlightEndpoint>,
) -> (r: arrow_flight::FlightInfo)
    ensures
        r == replaced(*info, endpoint@),
        endpoints(r) == endpoint@,
        encoded_schema(r) == encoded_schema(*info),
{
    let mut partition = info.clone();
    partition.endpoint = endpoint;
    partition
}

/// Trusted: cloning an `arrow_flight::FlightEndpoint` gives the same endpoint.
pub assume_specification[ <arrow_flight::FlightEndpoint as Clone>::clone ](
    endpoint: &arrow_flight::FlightEndpoint,
) -> (r: arrow_flight::FlightEndpoint)
    ensures
        r == *endpoint,
;

/// Encodes a flight.
///
/// Trusted: `prost::Message::encode_to_vec` depends on the flight alone, and
/// `prost::Message::decode` gives the flight back.
#[verifier::external_body]
fn encode_to_vec(info: &arrow_flight::FlightInfo) -> (r: Vec<u8>)
    ensures
        r@ == encoded(*info),
        reads_as(r@, *info),
{
    info.encode_to_vec()
}

/// Decodes a flight.
///
/// Trusted: what `prost::Message::decode` gives depends on the bytes alone. An error is given here
/// as the text in which it prints.
#[verifier::external_body]
fn decode(bytes: &[u8]) -> (r: Result<arrow_flight::FlightInfo, String>)
    ensures
        decoded_view(r) == decoded(bytes@),
{
    match arrow_flight::FlightInfo::decode(bytes) {
        Ok(info) => Ok(info),
        Err(e) => Err(e.to_string()),
    }
}

/// The result of decoding, with the error by its view.
pub open spec fn decoded_view(r: Result<arrow_flight::FlightInfo, String>) -> Result<
    arrow_flight::FlightInfo,
    Seq<char>,
> {
    match r {
        Ok(info) => Ok(info),
        Err(e) => Err(e@),
    }
}

/// The view of optional bytes.
pub open spec fn bytes_view(bytes: Option<Vec<u8>>) -> Option<Seq<u8>> {
    match bytes {
        Some(b) => Some(b@),
        None => None,
    }
}

/// The ticket of the first endpoint, if there is an endpoint and it has one.
pub open spec fn first_ticket(info: arrow_flight::FlightInfo) -> Option<Seq<u8>> {
    if endpoints(info).len() == 0 {
        None
    } else {
        ticket(endpoints(info)[0])
    }
}

/// The ticket of the first endpoint of a flight.
pub fn find_ticket(info: &arrow_flight::FlightInfo) -> (r: Option<Vec<u8>>)
    ensures
        bytes_view(r) == first_ticket(*info),
{
    let all = info_endpoints(info);
    if all.len() == 0 {
        None
    } else {
        endpoint_ticket(&all[0])
    }
}

/// The encoded schema of the results of a flight.
pub fn schema_bytes(info: &arrow_flight::FlightInfo) -> (r: Vec<u8>)
    ensures
        r@ == encoded_schema(*info),
{
    info_schema(info)
}

/// The partition of a flight that holds one endpoint: everything else is as in the flight.
pub open spec fn partition_of(
    info: arrow_flight::FlightInfo,
    endpoint: arrow_flight::FlightEndpoint,
) -> arrow_flight::FlightInfo {
    replaced(info, seq![endpoint])
}

/// The bytes read as a flight give this flight.
pub open spec fn reads_as(bytes: Seq<u8>, info: arrow_flight::FlightInfo) -> bool {
    decoded(bytes) == Ok::<arrow_flight::FlightInfo, Seq<char>>(info)
}

/// The bytes of a partition.
pub open spec fn is_partition(
    bytes: Seq<u8>,
    info: arrow_flight::FlightInfo,
    endpoint: arrow_flight::FlightEndpoint,
) -> bool {
    &&& bytes == encoded(partition_of(info, endpoint))
    &&& reads_as(bytes, partition_of(info, endpoint))
    &&& endpoints(partition_of(info, endpoint)) == seq![endpoint]
    &&& encoded_schema(partition_of(info, endpoint)) == encoded_schema(info)
}

/// Splits a flight into partitions, one for each endpoint in order.
pub fn partitions(info: &arrow_flight::FlightInfo) -> (r: Vec<Vec<u8>>)
    ensures
        r@.len() == endpoints(*info).len(),
        forall|i: int|
            0 <= i < r@.len() ==> is_partition((#[trigger] r@[i])@, *info, endpoints(*info)[i]),
{
    let all = info_endpoints(info);
    let mut r: Vec<Vec<u8>> = Vec::new();
    let mut i: usize = 0;
    while i < all.len()
        invariant
            i <= all.len(),
            all@ == endpoints(*info),
            r@.len() == i,
            forall|k: int|
                0 <= k < i ==> is_partition((#[trigger] r@[k])@, *info, endpoints(*info)[k]),
        decreases all.len() - i,
    {
        let single = vec![all[i].clone()];
        assert(single@ =~= seq![endpoints(*info)[i as int]]);
        let partition = with_endpoints(info, single);
        r.push(encode_to_vec(&partition));
        i += 1;
    }
    r
}

/// What reading a partition needs: the ticket to fetch it with, and its encoded schema.
pub struct PartitionSource {
    pub ticket: Vec<u8>,
    pub schema: Vec<u8>,
}

/// What is wrong with the bytes of a partition, if anything is.
pub open spec fn partition_fault(decoded: Result<arrow_flight::FlightInfo, Seq<char>>) -> Option<
    AdbcErrorView,
> {
    match decoded {
        Err(text) => Some(
            adbc(
                bare(Status::InvalidArguments).message(
                    "failed to decode partition: "@ + text,
                ).context("reading partition"@),
            ),
        ),
        Ok(info) => if endpoints(info).len() != 1 {
            Some(
                adbc(
                    bare(Status::InvalidArguments).message(
                        "invalid partition: expected 1 endpoint, got "@ + decimal(
                            endpoints(info).len(),
                        ),
                    ).context("reading partition"@),
                ),
            )
        } else if ticket(endpoints(info)[0]) is None {
            Some(
                adbc(
                    bare(Status::Internal).message("partition endpoint has no ticket"@).context(
                        "reading partition"@,
                    ),
                ),
            )
        } else {
            None
        },
    }
}

/// Finds out how to read the partition that was decoded.
pub fn open_partition(partition: Result<arrow_flight::FlightInfo, String>) -> (r: Result<
    PartitionSource,
    AdbcError,
>)
    ensures
        match partition_fault(decoded_view(partition)) {
            Some(e) => r matches Err(x) && x@ == e,
            None => r matches Ok(source) && partition matches Ok(info) && Some(source.ticket@)
                == first_ticket(info) && source.schema@ == encoded_schema(info),
        },
{
    let info = match partition {
        Ok(info) => info,
        Err(text) => {
            let message = "failed to decode partition: ".to_owned().concat(text.as_str());
            return Err(
                FlightSqlErrorHelper::invalid_argument().message(message.as_str()).context(
                    "reading partition",
                ).to_adbc(),
            );
        },
    };
    let all = info_endpoints(&info);
    if all.len() != 1 {
        let message = "invalid partition: expected 1 endpoint, got ".to_owned().concat(
            u64_text(all.len() as u64).as_str(),
        );
        return Err(
            FlightSqlErrorHelper::invalid_argument().message(message.as_str()).context(
                "reading partition",
            ).to_adbc(),
        );
    }
    match endpoint_ticket(&all[0]) {
        Some(ticket) => Ok(PartitionSource { ticket, schema: info_schema(&info) }),
        None => Err(
            FlightSqlErrorHelper::internal_no_location().message(
                "partition endpoint has no ticket",
            ).context("reading partition").to_adbc(),
        ),
    }
}

/// Finds out how to read a partition.
pub fn read_partition(partition: &[u8]) -> (r: Result<PartitionSource, AdbcError>)
    ensures
        match partition_fault(decoded(partition@)) {
            Some(e) => r matches Err(x) && x@ == e,
            None => r matches Ok(source) && decoded(partition@) matches Ok(info) && Some(
                source.ticket@,
            ) == first_ticket(info) && source.schema@ == encoded_schema(info),
        },
{
    open_partition(decode(partition))
}

/// The decoder takes all bytes.
pub open spec fn takes_all<D: Fn(Vec<u8>) -> Result<arrow_schema::Schema, String>>(
    decode: D,
) -> bool {
    forall|bytes: Vec<u8>| #[trigger] decode.requires((bytes,))
}

/// The decoder makes the schema, or the complaint, of the bytes.
pub open spec fn decodes<D: Fn(Vec<u8>) -> Result<arrow_schema::Schema, String>>(
    decode: D,
    bytes: Seq<u8>,
    r: Result<arrow_schema::Schema, String>,
) -> bool {
    exists|b: Vec<u8>| b@ == bytes && #[trigger] decode.ensures((b,), r)
}

/// What the decoded schema of a partition leads to.
pub open spec fn is_partition_schema(
    r: Result<arrow_schema::Schema, AdbcError>,
    schema: Result<arrow_schema::Schema, String>,
) -> bool {
    match schema {
        Ok(schema) => r == Ok::<arrow_schema::Schema, AdbcError>(schema),
        Err(text) => r matches Err(e) && e@ == adbc(
            bare(Status::Internal).message("failed to decode partition schema: "@ + text@),
        ),
    }
}

/// Decodes the schema of a partition.
pub fn partition_schema<D: Fn(Vec<u8>) -> Result<arrow_schema::Schema, String>>(
    bytes: Vec<u8>,
    decode: D,
) -> (r: Result<arrow_schema::Schema, AdbcError>)
    requires
        takes_all(decode),
    ensures
        exists|schema: Result<arrow_schema::Schema, String>| #[trigger]
            decodes(decode, bytes@, schema) && is_partition_schema(r, schema),
{
    let schema = decode(bytes);
    assert(decodes(decode, bytes@, schema));
    match schema {
        Ok(schema) => Ok(schema),
        Err(text) => {
            let message = "failed to decode partition schema: ".to_owned().concat(text.as_str());
            Err(FlightSqlErrorHelper::internal_no_location().message(message.as_str()).to_adbc())
        },
    }
}

/// Takes the answer to opening the stream of a partition.
pub fn open_partition_stream<S>(answer: Result<S, FlightError>) -> (r: Result<S, AdbcError>)
    ensures
        match answer {
            Ok(stream) => r == Ok::<S, AdbcError>(stream),
            Err(e) => r matches Err(x) && x@ == flight_view(e, "ReadPartition(DoGet)"@),
        },
{
    match answer {
        Ok(stream) => Ok(stream),
        Err(e) => Err(map_flight_error(e, "ReadPartition(DoGet)")),
    }
}

/// A partition of a flight is read with the ticket of its endpoint and has the schema of the
/// flight; reading it fails only if the endpoint has no ticket.
pub proof fn law_partitions_are_read_back(
    info: arrow_flight::FlightInfo,
    i: int,
    bytes: Seq<u8>,
)
    requires
        0 <= i < endpoints(info).len(),
        is_partition(bytes, info, endpoints(info)[i]),
    ensures
        partition_fault(decoded(bytes)) is None <==> ticket(endpoints(info)[i]) is Some,
        decoded(bytes) matches Ok(partition) && first_ticket(partition) == ticket(
            endpoints(info)[i],
        ) && encoded_schema(partition) == encoded_schema(info),
{
}

} // verus!
