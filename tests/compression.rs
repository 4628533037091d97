use cdrs_tokio::compression::{Compression, CompressionError, LZ4, SNAPPY};

#[test]
fn test_compression_from_str() {
    let lz4 = "lz4";
    assert_eq!(Compression::from(lz4), Compression::Lz4);
    let snappy = "snappy";
    assert_eq!(Compression::from(snappy), Compression::Snappy);
    let none = "x";
    assert_eq!(Compression::from(none), Compression::NoCompression);
}

#[test]
fn test_compression_from_string() {
    let lz4 = "lz4".to_string();
    assert_eq!(Compression::from(lz4), Compression::Lz4);
    let snappy = "snappy".to_string();
    assert_eq!(Compression::from(snappy), Compression::Snappy);
    let none = "x".to_string();
    assert_eq!(Compression::from(none), Compression::NoCompression);
}

#[test]
fn test_compression_encode_snappy() {
    let snappy_compression = Compression::Snappy;
    let bytes = String::from("Hello World").into_bytes().to_vec();
    snappy_compression
        .encode(bytes)
        .expect("Should work without exceptions");
}

#[test]
fn test_compression_decode_snappy() {
    let snappy_compression = Compression::Snappy;
    let bytes = String::from("Hello World").into_bytes().to_vec();
    let encoded = snappy_compression.encode(bytes.clone()).unwrap();
    assert_eq!(snappy_compression.decode(encoded).unwrap(), bytes);
}

#[test]
fn test_compression_encode_lz4() {
    let snappy_compression = Compression::Lz4;
    let bytes = String::from("Hello World").into_bytes().to_vec();
    snappy_compression
        .encode(bytes)
        .expect("Should work without exceptions");
}

#[test]
fn test_compression_decode_lz4() {
    let lz4_compression = Compression::Lz4;
    let bytes = String::from("Hello World").into_bytes().to_vec();
    let encoded = lz4_compression.encode(bytes.clone()).unwrap();
    let len = encoded.len() as u8;
    let mut input = vec![0, 0, 0, len];
    input.extend_from_slice(encoded.as_slice());
    assert_eq!(lz4_compression.decode(input).unwrap(), bytes);
}

#[test]
fn test_compression_encode_none() {
    let none_compression = Compression::NoCompression;
    let bytes = String::from("Hello World").into_bytes().to_vec();
    none_compression
        .encode(bytes)
        .expect("Should work without exceptions");
}

#[test]
fn test_compression_decode_none() {
    let none_compression = Compression::NoCompression;
    let bytes = String::from("Hello World").into_bytes().to_vec();
    let encoded = none_compression.encode(bytes.clone()).unwrap();
    assert_eq!(none_compression.decode(encoded).unwrap(), bytes);
}

#[test]
fn test_compression_encode_lz4_with_invalid_input() {
    let lz4_compression = Compression::Lz4;
    let bytes: Vec<u8> = vec![0x7f, 0x7f, 0x7f, 0x7f, 0x7f];
    let encoded = lz4_compression.encode(bytes).unwrap();
    let decode = lz4_compression.decode(encoded);
    assert_eq!(decode.is_err(), true);
}

#[test]
fn test_compression_encode_snappy_with_non_utf8() {
    let snappy_compression = Compression::Snappy;
    let v = vec![0xff, 0xff];
    let encoded = snappy_compression
        .encode(v.clone())
        .expect("Should work without exceptions");
    assert_eq!(snappy_compression.decode(encoded).unwrap(), v);
}

#[test]
fn empty_name_means_no_compression() {
    assert_eq!(Compression::from(""), Compression::NoCompression);
    assert_eq!(Compression::from(String::new()), Compression::NoCompression);
    assert_eq!(Compression::from("LZ4"), Compression::NoCompression);
}

#[test]
fn names_round_trip() {
    assert_eq!(Compression::Lz4.as_str(), Some("lz4"));
    assert_eq!(Compression::from(LZ4), Compression::Lz4);
    assert_eq!(Compression::from(SNAPPY), Compression::Snappy);
    assert_eq!(Compression::Snappy.as_str(), Some("snappy"));
    assert_eq!(Compression::NoCompression.as_str(), None);
}

#[test]
fn no_compression_is_identity() {
    let v: Vec<u8> = vec![0, 1, 0xfe, 0xff];
    assert_eq!(Compression::NoCompression.encode(v.clone()).unwrap(), v);
    assert_eq!(Compression::NoCompression.decode(v.clone()).unwrap(), v);
    assert_eq!(Compression::NoCompression.encode(vec![]).unwrap(), Vec::<u8>::new());
}

#[test]
fn round_trip_empty_and_binary() {
    for bytes in [vec![], vec![0u8, 0xff, 0x80, 0x00, 0x7f], vec![b'a'; 1000]] {
        let s = Compression::Snappy.encode(bytes.clone()).unwrap();
        assert_eq!(Compression::Snappy.decode(s).unwrap(), bytes);
        let l = Compression::Lz4.encode(bytes.clone()).unwrap();
        let mut wire = (bytes.len() as u32).to_be_bytes().to_vec();
        wire.extend_from_slice(&l);
        assert_eq!(Compression::Lz4.decode(wire).unwrap(), bytes);
    }
}

#[test]
fn compression_changes_repetitive_input() {
    let bytes = vec![b'a'; 1000];
    let s = Compression::Snappy.encode(bytes.clone()).unwrap();
    assert!(s.len() < bytes.len());
    let l = Compression::Lz4.encode(bytes.clone()).unwrap();
    assert!(l.len() < bytes.len());
}

#[test]
fn lz4_corrupt_payload_is_an_error() {
    let r = Compression::Lz4.decode(vec![0x7f, 0x7f, 0x7f, 0x7f, 0x7f]);
    assert!(matches!(r, Err(CompressionError::Lz4(_))));
}

#[test]
fn lz4_body_without_length_prefix_is_an_error() {
    let r = Compression::Lz4.decode(vec![0, 0, 1]);
    assert!(matches!(r, Err(CompressionError::Lz4(_))));
}

#[test]
fn snappy_corrupt_payload_is_an_error() {
    let r = Compression::Snappy.decode(vec![0xff, 0xff, 0xff, 0xff, 0xff, 0xff]);
    assert!(matches!(r, Err(CompressionError::Snappy(_))));
}

#[test]
fn modes_are_ordered() {
    assert!(Compression::Lz4 < Compression::Snappy);
    assert!(Compression::Snappy < Compression::NoCompression);
}
