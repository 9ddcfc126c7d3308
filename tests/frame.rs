use encoder_protocol::frame::{
    checksum_matches, decode_frame, encode_frame, stuffed_length, CRC_START, MAX_COBS_LEN,
    MAX_PAYLOAD_LEN, PAYLOAD_START, SYNC_HEADER, SYNC_HEADER_LEN,
};
use encoder_protocol::BUFFER_SIZE;

// Serialized packets as postcard lays them out: variant index, then the
// fields, integers as varints (signed ones zigzag-encoded).
fn sensor_payload(seq: u8) -> Vec<u8> {
    vec![0, seq, 2, 3, 6, 7, 10, 11, 14, 15]
}

fn reset_payload(id: u8) -> Vec<u8> {
    vec![1, id]
}

fn reset_all_frame() -> [u8; BUFFER_SIZE] {
    encode_frame(&reset_payload(255))
}

#[test]
fn test_packet_roundtrip() {
    let payload = sensor_payload(42);
    let serialized = encode_frame(&payload);
    let deserialized = decode_frame(&serialized).unwrap();
    assert_eq!(deserialized[1], 42);
    assert_eq!(deserialized, payload);
}

#[test]
fn test_serialize_deserialize_sensor_data() {
    let payload = sensor_payload(123);
    let serialized = encode_frame(&payload);
    assert_eq!(decode_frame(&serialized), Some(payload));
}

#[test]
fn test_serialize_deserialize_reset_command() {
    let serialized = encode_frame(&reset_payload(3));
    let deserialized = decode_frame(&serialized).unwrap();
    assert_eq!(deserialized, vec![1, 3]);
}

#[test]
fn test_invalid_crc() {
    let mut serialized = reset_all_frame();
    serialized[CRC_START] = !serialized[CRC_START];
    assert!(decode_frame(&serialized).is_none());
}

#[test]
fn test_invalid_sync_header() {
    let mut serialized = reset_all_frame();
    serialized[0] = 0x00;
    assert!(decode_frame(&serialized).is_none());
}

#[test]
fn test_invalid_cobs_length_zero() {
    let mut serialized = reset_all_frame();
    serialized[SYNC_HEADER_LEN] = 0;
    assert!(decode_frame(&serialized).is_none());
}

#[test]
fn test_invalid_cobs_length_overflow() {
    let mut serialized = reset_all_frame();
    serialized[SYNC_HEADER_LEN] = MAX_COBS_LEN as u8 + 1;
    assert!(decode_frame(&serialized).is_none());
}

#[test]
fn test_corrupted_cobs_data() {
    let mut serialized = reset_all_frame();
    serialized[PAYLOAD_START] = !serialized[PAYLOAD_START];
    assert!(decode_frame(&serialized).is_none());
}

#[test]
fn test_buffer_size_mismatch() {
    let small_buf = [0u8; BUFFER_SIZE - 1];
    assert!(decode_frame(&small_buf).is_none());
}

#[test]
fn test_crc_calculation_range() {
    let serialized = reset_all_frame();
    let used_len = serialized[SYNC_HEADER_LEN] as usize;
    let kermit = crc::Crc::<u16>::new(&crc::CRC_16_KERMIT);
    let expected_crc = kermit.checksum(&serialized[..PAYLOAD_START + used_len]);
    let stored_crc = u16::from_be_bytes([serialized[CRC_START], serialized[CRC_START + 1]]);
    assert_eq!(stored_crc, expected_crc);
}

#[test]
fn test_empty_payload() {
    let mut serialized = reset_all_frame();
    serialized[SYNC_HEADER_LEN] = 0;
    assert!(decode_frame(&serialized).is_none());
}

#[test]
fn reset_all_frame_has_exact_layout() {
    let f = reset_all_frame();
    let mut expected = [0u8; BUFFER_SIZE];
    expected[..9].copy_from_slice(&[0xAA, 0x55, 0xAA, 0x55, 4, 3, 1, 255, 0]);
    expected[62] = 0x8B;
    expected[63] = 0xD8;
    assert_eq!(f, expected);
    assert_eq!(f[..4], SYNC_HEADER);
}

#[test]
fn zero_bytes_are_stuffed() {
    let f = encode_frame(&[0, 0, 0]);
    assert_eq!(f[SYNC_HEADER_LEN], 5);
    assert_eq!(f[PAYLOAD_START..PAYLOAD_START + 5], [1, 1, 1, 1, 0]);
    for b in &f[PAYLOAD_START..PAYLOAD_START + 4] {
        assert_ne!(*b, 0);
    }
    assert_eq!(decode_frame(&f), Some(vec![0, 0, 0]));
}

#[test]
fn every_frame_is_buffer_size_and_round_trips() {
    for len in 0..=MAX_PAYLOAD_LEN {
        let payload: Vec<u8> = (0..len).map(|i| (i * 37 % 256) as u8).collect();
        let f = encode_frame(&payload);
        assert_eq!(f.len(), BUFFER_SIZE);
        assert_eq!(f[SYNC_HEADER_LEN] as usize, len + 2);
        assert_eq!(decode_frame(&f), Some(payload));
    }
}

#[test]
fn largest_payload_fills_the_frame() {
    let payload = vec![0x11u8; MAX_PAYLOAD_LEN];
    let f = encode_frame(&payload);
    assert_eq!(f[SYNC_HEADER_LEN] as usize, MAX_COBS_LEN);
    assert_eq!(f[CRC_START - 1], 0);
    assert_eq!(decode_frame(&f), Some(payload));
}

#[test]
fn single_bit_flips_in_checked_region_are_rejected() {
    let f = encode_frame(&sensor_payload(42));
    let end = PAYLOAD_START + f[SYNC_HEADER_LEN] as usize;
    for byte in 0..end {
        for bit in 0..8 {
            let mut g = f;
            g[byte] ^= 1 << bit;
            assert!(decode_frame(&g).is_none(), "flip at byte {byte} bit {bit}");
        }
    }
}

#[test]
fn every_header_byte_is_guarded() {
    let f = reset_all_frame();
    for i in 0..SYNC_HEADER_LEN {
        let mut g = f;
        g[i] = g[i].wrapping_add(1);
        assert!(decode_frame(&g).is_none());
    }
}

#[test]
fn checksum_byte_xor_is_rejected() {
    let mut f = encode_frame(&sensor_payload(42));
    f[BUFFER_SIZE - 1] ^= 0xFF;
    assert!(decode_frame(&f).is_none());
}

#[test]
fn padding_does_not_affect_decoding() {
    let mut f = reset_all_frame();
    f[40] = 0x77;
    assert_eq!(decode_frame(&f), Some(reset_payload(255)));
}

#[test]
fn oversized_input_is_rejected() {
    let mut big = reset_all_frame().to_vec();
    big.push(0);
    assert!(decode_frame(&big).is_none());
    assert!(decode_frame(&[]).is_none());
}

#[test]
fn stuffed_length_reads_the_length_byte() {
    let f = reset_all_frame();
    assert_eq!(stuffed_length(&f), Some(4));
    let mut g = f;
    g[SYNC_HEADER_LEN] = MAX_COBS_LEN as u8;
    assert_eq!(stuffed_length(&g), Some(MAX_COBS_LEN));
    g[1] = 0;
    assert_eq!(stuffed_length(&g), None);
    assert_eq!(stuffed_length(&f[..10]), None);
}

#[test]
fn checksum_matches_compares_big_endian() {
    let f = reset_all_frame();
    assert!(checksum_matches(&f, 0x8BD8));
    assert!(!checksum_matches(&f, 0xD88B));
}

#[test]
fn malformed_stuffing_with_valid_checksum_is_rejected() {
    // A code byte that promises more bytes than precede the delimiter.
    let mut f = [0u8; BUFFER_SIZE];
    f[..SYNC_HEADER_LEN].copy_from_slice(&SYNC_HEADER);
    f[SYNC_HEADER_LEN] = 3;
    f[PAYLOAD_START..PAYLOAD_START + 3].copy_from_slice(&[5, 1, 0]);
    let kermit = crc::Crc::<u16>::new(&crc::CRC_16_KERMIT);
    let c = kermit.checksum(&f[..PAYLOAD_START + 3]);
    f[CRC_START..].copy_from_slice(&c.to_be_bytes());
    assert!(decode_frame(&f).is_none());
}
