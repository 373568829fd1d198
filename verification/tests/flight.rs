use adbc_flightsql::error::{FlightError, Status};
use adbc_flightsql::flight::{
    find_ticket, open_partition, open_partition_stream, partition_schema, partitions,
    read_partition, schema_bytes,
};
use arrow_flight::{FlightDescriptor, FlightEndpoint, FlightInfo, Ticket};
use prost::Message;

fn endpoint(ticket: &'static str) -> FlightEndpoint {
    FlightEndpoint::new().with_ticket(Ticket::new(ticket)).with_location("grpc://elsewhere")
}

fn sample() -> FlightInfo {
    let mut info = FlightInfo::new()
        .with_endpoint(endpoint("one"))
        .with_endpoint(endpoint("two"))
        .with_endpoint(FlightEndpoint::new())
        .with_descriptor(FlightDescriptor::new_cmd("query"))
        .with_total_records(17)
        .with_total_bytes(300);
    info.schema = vec![1u8, 2, 3].into();
    info
}

#[test]
fn partitions_are_read_back() {
    let info = sample();
    let parts = partitions(&info);
    assert_eq!(parts.len(), 3);
    for (i, part) in parts.iter().enumerate() {
        let mut expected = info.clone();
        expected.endpoint = vec![info.endpoint[i].clone()];
        assert_eq!(*part, expected.encode_to_vec());
        assert_eq!(FlightInfo::decode(part.as_slice()).unwrap(), expected);
    }
    let first = read_partition(&parts[0]).ok().unwrap();
    assert_eq!((first.ticket, first.schema), (b"one".to_vec(), vec![1, 2, 3]));
    let second = read_partition(&parts[1]).ok().unwrap();
    assert_eq!((second.ticket, second.schema), (b"two".to_vec(), vec![1, 2, 3]));
    let third = read_partition(&parts[2]).err().unwrap();
    assert_eq!(third.status, Status::Internal);
    assert_eq!(
        third.message,
        "[adbc_flightsql] could not reading partition: partition endpoint has no ticket"
    );
    assert!(partitions(&FlightInfo::new()).is_empty());
}

#[test]
fn other_bytes_are_no_partition() {
    let whole = read_partition(&sample().encode_to_vec()).err().unwrap();
    assert_eq!(whole.status, Status::InvalidArguments);
    assert_eq!(
        whole.message,
        "[adbc_flightsql] could not reading partition: invalid partition: expected 1 endpoint, \
         got 3"
    );
    let empty = read_partition(&[]).err().unwrap();
    assert!(empty.message.ends_with("expected 1 endpoint, got 0"));
    let bytes = [0xff, 0xff, 0xff];
    let broken = read_partition(&bytes).err().unwrap();
    assert_eq!(broken.status, Status::InvalidArguments);
    assert_eq!(
        broken.message,
        format!(
            "[adbc_flightsql] could not reading partition: failed to decode partition: {}",
            FlightInfo::decode(&bytes[..]).unwrap_err()
        )
    );
    let told = open_partition(Err("so".to_string())).err().unwrap();
    assert!(told.message.ends_with("failed to decode partition: so"));
    let direct = open_partition(Ok(FlightInfo::new().with_endpoint(endpoint("x")))).ok().unwrap();
    assert_eq!((direct.ticket, direct.schema), (b"x".to_vec(), Vec::new()));
}

#[test]
fn partitions_are_opened_with_their_schema() {
    let schema = arrow_schema::Schema::empty();
    let decode = |bytes: Vec<u8>| match bytes.as_slice() {
        [7] => Ok(schema.clone()),
        _ => Err("odd".to_string()),
    };
    assert_eq!(partition_schema(vec![7], decode).ok().unwrap(), schema);
    let error = partition_schema(vec![8], decode).err().unwrap();
    assert_eq!(error.status, Status::Internal);
    assert_eq!(error.message, "[adbc_flightsql] failed to decode partition schema: odd");
    assert_eq!(open_partition_stream(Ok(5)).ok().unwrap(), 5);
    let lost = FlightError::Other { text: "lost".to_string() };
    let error = open_partition_stream::<u8>(Err(lost)).err().unwrap();
    assert_eq!(error.message, "[adbc_flightsql] could not ReadPartition(DoGet): lost");
}

#[test]
fn the_first_ticket_counts() {
    assert_eq!(find_ticket(&sample()), Some(b"one".to_vec()));
    assert_eq!(find_ticket(&FlightInfo::new()), None);
    let info = FlightInfo::new()
        .with_endpoint(FlightEndpoint::new())
        .with_endpoint(endpoint("two"));
    assert_eq!(find_ticket(&info), None);
    assert_eq!(schema_bytes(&sample()), vec![1, 2, 3]);
}
