use cdrs_tokio::compression::{Compression, CompressionError};
use cdrs_tokio::frame::{Direction, Flags, Frame, Opcode, Version};
use cdrs_tokio::query::{CBytes, Consistency, Query, QueryParams, QueryValues, Value};

fn bare_params(consistency: Consistency) -> QueryParams {
    QueryParams {
        consistency,
        with_names: false,
        values: None,
        page_size: None,
        paging_state: None,
        serial_consistency: None,
        timestamp: None,
        is_idempotent: false,
        keyspace: None,
        token: None,
        routing_key: None,
    }
}

#[test]
fn select_one_body_has_no_optional_fields() {
    let frame = Frame::new_req_query(
        "SELECT 1".to_string(),
        Consistency::One,
        None,
        false,
        None,
        None,
        None,
        None,
        Flags { bits: 0 },
        false,
        Version::V4,
    );
    let mut expected = vec![0, 0, 0, 8];
    expected.extend_from_slice(b"SELECT 1");
    expected.extend_from_slice(&[0, 1, 0]);
    assert_eq!(frame.body, expected);
    assert_eq!(frame.direction, Direction::Request);
    assert_eq!(frame.opcode, Opcode::Query);
    assert_eq!(frame.version, Version::V4);
    assert_eq!(frame.tracing_id, None);
    assert!(frame.warnings.is_empty());
}

#[test]
fn every_optional_field_in_fixed_order() {
    let frame = Frame::new_req_query(
        "Q".to_string(),
        Consistency::Quorum,
        Some(QueryValues::SimpleValues(vec![
            Value::Bytes(vec![7, 8]),
            Value::Null,
            Value::NotSet,
        ])),
        false,
        Some(100),
        Some(CBytes { bytes: Some(vec![9]) }),
        Some(Consistency::LocalSerial),
        Some(258),
        Flags { bits: 2 },
        true,
        Version::V4,
    );
    let expected: Vec<u8> = vec![
        0, 0, 0, 1, b'Q', // query
        0, 4, // consistency
        0x01 | 0x04 | 0x08 | 0x10 | 0x20, // flags
        0, 3, 0, 0, 0, 2, 7, 8, 0xff, 0xff, 0xff, 0xff, 0xff, 0xff, 0xff, 0xfe, // values
        0, 0, 0, 100, // page size
        0, 0, 0, 1, 9, // paging state
        0, 9, // serial consistency
        0, 0, 0, 0, 0, 0, 1, 2, // timestamp
    ];
    assert_eq!(frame.body, expected);
    assert_eq!(frame.flags, Flags { bits: 2 });
}

#[test]
fn named_values_carry_names() {
    let frame = Frame::new_req_query(
        "Q".to_string(),
        Consistency::Any,
        Some(QueryValues::NamedValues(vec![("ab".to_string(), Value::Bytes(vec![]))])),
        true,
        None,
        Some(CBytes { bytes: None }),
        None,
        None,
        Flags { bits: 0 },
        false,
        Version::V3,
    );
    let expected: Vec<u8> = vec![
        0, 0, 0, 1, b'Q', 0, 0, 0x01 | 0x08 | 0x40, 0, 1, 0, 2, b'a', b'b', 0, 0, 0, 0, 0xff, 0xff,
        0xff, 0xff,
    ];
    assert_eq!(frame.body, expected);
}

#[test]
fn new_query_writes_keyspace_last() {
    let mut params = bare_params(Consistency::LocalOne);
    params.page_size = Some(-1);
    params.keyspace = Some("music".to_string());
    let frame = Frame::new_query(
        Query { query: "SELECT 1".to_string(), params },
        Flags { bits: 1 },
        Version::V5,
    );
    let mut expected = vec![0, 0, 0, 8];
    expected.extend_from_slice(b"SELECT 1");
    expected.extend_from_slice(&[0, 10, 0x04 | 0x80, 0xff, 0xff, 0xff, 0xff, 0, 5]);
    expected.extend_from_slice(b"music");
    assert_eq!(frame.body, expected);
    assert_eq!(frame.version, Version::V5);
    assert_eq!(frame.opcode, Opcode::Query);
}

#[test]
fn params_with_keyspace_append_it_last() {
    let mut params = bare_params(Consistency::Two);
    params.timestamp = Some(-1);
    params.keyspace = Some("ks".to_string());
    assert_eq!(params.flags(), 0x20 | 0x80);
    let mut out = Vec::new();
    params.serialize(&mut out);
    let expected: Vec<u8> =
        vec![0, 2, 0xa0, 0xff, 0xff, 0xff, 0xff, 0xff, 0xff, 0xff, 0xff, 0, 2, b'k', b's'];
    assert_eq!(out, expected);
}

#[test]
fn consistency_codes() {
    assert_eq!(Consistency::Any.code(), 0);
    assert_eq!(Consistency::One.code(), 1);
    assert_eq!(Consistency::EachQuorum.code(), 7);
    assert_eq!(Consistency::LocalOne.code(), 10);
}

fn frame_with(opcode: Opcode, flags: u8, body: Vec<u8>) -> Frame {
    Frame::new(Version::V4, Direction::Request, Flags { bits: flags }, opcode, body, None, vec![])
}

#[test]
fn startup_frame_is_never_compressed() {
    let body = vec![b'a'; 64];
    let f = frame_with(Opcode::Startup, 0, body.clone()).compress_body(Compression::Snappy).unwrap();
    assert_eq!(f.body, body);
    assert_eq!(f.flags, Flags { bits: 0 });
}

#[test]
fn query_frame_is_compressed_and_flagged() {
    let body = vec![b'a'; 64];
    let f = frame_with(Opcode::Query, 2, body.clone()).compress_body(Compression::Snappy).unwrap();
    assert_eq!(f.flags, Flags { bits: 3 });
    assert_ne!(f.body, body);
    assert_eq!(Compression::Snappy.decode(f.body.clone()).unwrap(), body);
    let back = f.decompress_body(Compression::Snappy).unwrap();
    assert_eq!(back.body, body);
    assert_eq!(back.opcode, Opcode::Query);
}

#[test]
fn no_compression_leaves_frame_alone() {
    let body = vec![1, 2, 3];
    let f = frame_with(Opcode::Query, 0, body.clone()).compress_body(Compression::NoCompression).unwrap();
    assert_eq!(f.body, body);
    assert_eq!(f.flags, Flags { bits: 0 });
}

#[test]
fn unflagged_response_is_not_decompressed() {
    let body = vec![0xff, 0xff, 0xff];
    let f = frame_with(Opcode::Result, 0, body.clone()).decompress_body(Compression::Lz4).unwrap();
    assert_eq!(f.body, body);
}

#[test]
fn flagged_corrupt_lz4_response_fails() {
    let f = frame_with(Opcode::Result, 1, vec![0, 0, 0, 9, 0x7f, 0x7f]);
    assert!(matches!(f.decompress_body(Compression::Lz4), Err(CompressionError::Lz4(_))));
}
