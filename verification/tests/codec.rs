use eth_bridge::codec::{decode, decode_header, encode};

#[test]
fn encode_prepends_big_endian_length() {
    let frame = vec![1u8, 2, 3];
    assert_eq!(encode(&frame), vec![0, 0, 0, 3, 1, 2, 3]);
}

#[test]
fn encode_empty_frame_is_header_only() {
    let frame: Vec<u8> = vec![];
    assert_eq!(encode(&frame), vec![0, 0, 0, 0]);
}

#[test]
fn decode_header_reads_big_endian() {
    assert_eq!(decode_header(&[0, 0, 0, 20]), 20);
    assert_eq!(decode_header(&[0, 0, 0x13, 0x88]), 5000);
    assert_eq!(decode_header(&[1, 2, 3, 4]), 0x01020304);
    assert_eq!(decode_header(&[0xff, 0xff, 0xff, 0xff]), u32::MAX);
}

#[test]
fn round_trip_small_frame() {
    let frame = vec![9u8, 8, 7, 6, 5];
    assert_eq!(decode(&encode(&frame)), Some(frame));
}

#[test]
fn round_trip_empty_frame() {
    let frame: Vec<u8> = vec![];
    assert_eq!(decode(&encode(&frame)), Some(frame));
}

#[test]
fn round_trip_largest_frame() {
    let frame = vec![0xabu8; 4096];
    let wire = encode(&frame);
    assert_eq!(wire.len(), 4100);
    assert_eq!(&wire[0..4], &[0, 0, 0x10, 0x00]);
    assert_eq!(decode(&wire), Some(frame));
}

#[test]
fn decode_rejects_short_input() {
    assert_eq!(decode(&vec![0u8, 0, 0]), None);
    assert_eq!(decode(&vec![]), None);
}

#[test]
fn decode_rejects_oversized_declared_length() {
    let mut wire = vec![0u8, 0, 0x10, 0x01];
    wire.extend(std::iter::repeat(0u8).take(4097));
    assert_eq!(decode(&wire), None);
}

#[test]
fn decode_rejects_length_mismatch() {
    assert_eq!(decode(&vec![0u8, 0, 0, 5, 1, 2]), None);
    assert_eq!(decode(&vec![0u8, 0, 0, 1, 1, 2]), None);
}
