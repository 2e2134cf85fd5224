use aya_log_ebpf::tlv::{decode, encode, FieldTag};
use aya_log_ebpf::wire::{LEN_BYTES, RESERVED_BYTES, TAG_BYTES};
use aya_log_ebpf::LogError;

#[test]
fn tag_values_are_fixed() {
    assert_eq!(FieldTag::Target.value(), 1);
    assert_eq!(FieldTag::Level.value(), 2);
    assert_eq!(FieldTag::Module.value(), 3);
    assert_eq!(FieldTag::File.value(), 4);
    assert_eq!(FieldTag::Line.value(), 5);
    assert_eq!(FieldTag::Log.value(), 6);
}

#[test]
fn widths_are_fixed() {
    assert_eq!(TAG_BYTES, 8);
    assert_eq!(LEN_BYTES, 8);
    assert_eq!(RESERVED_BYTES, 16);
}

#[test]
fn encode_writes_exact_bytes() {
    let mut buf = vec![0u8; 32];
    let value = [0xABu8, 0xCD];
    let written = encode(FieldTag::Module, &value, &mut buf, 0).unwrap();
    assert_eq!(written, 18);
    let mut expected = vec![0u8; 32];
    expected[0..8].copy_from_slice(&3u64.to_le_bytes());
    expected[8..16].copy_from_slice(&2u64.to_le_bytes());
    expected[16] = 0xAB;
    expected[17] = 0xCD;
    assert_eq!(buf, expected);
}

#[test]
fn encode_at_offset_keeps_surroundings() {
    let mut buf = vec![0x55u8; 40];
    let value = [9u8];
    let written = encode(FieldTag::File, &value, &mut buf, 10).unwrap();
    assert_eq!(written, 17);
    assert!(buf[..10].iter().all(|&b| b == 0x55));
    assert_eq!(buf[10..18], 4u64.to_le_bytes());
    assert_eq!(buf[18..26], 1u64.to_le_bytes());
    assert_eq!(buf[26], 9);
    assert!(buf[27..].iter().all(|&b| b == 0x55));
}

#[test]
fn encode_decode_round_trip() {
    let mut buf = vec![0u8; 64];
    let value = b"app";
    let written = encode(FieldTag::Target, value, &mut buf, 0).unwrap();
    assert_eq!(written, TAG_BYTES + LEN_BYTES + 3);
    let (tag, decoded, consumed) = decode(&buf, 0).unwrap();
    assert_eq!(tag, FieldTag::Target);
    assert_eq!(decoded, value.to_vec());
    assert_eq!(consumed, written);
}

#[test]
fn encode_empty_value_round_trips() {
    let mut buf = vec![0u8; 16];
    let written = encode(FieldTag::Log, &[], &mut buf, 0).unwrap();
    assert_eq!(written, 16);
    let (tag, decoded, consumed) = decode(&buf, 0).unwrap();
    assert_eq!(tag, FieldTag::Log);
    assert!(decoded.is_empty());
    assert_eq!(consumed, 16);
}

#[test]
fn encode_too_small_is_atomic() {
    // Needs 18 bytes; 17 are offered. Nothing may change.
    let before: Vec<u8> = (0..17u8).collect();
    let mut buf = before.clone();
    let r = encode(FieldTag::Target, &[1, 2], &mut buf, 0);
    assert_eq!(r, Err(LogError::CapacityExceeded));
    assert_eq!(buf, before);
}

#[test]
fn encode_offset_past_end_is_atomic() {
    let before = vec![7u8; 20];
    let mut buf = before.clone();
    let r = encode(FieldTag::Line, &[], &mut buf, 21);
    assert_eq!(r, Err(LogError::CapacityExceeded));
    assert_eq!(buf, before);
}

#[test]
fn encode_boundary_exactly_fits() {
    // 16 + 2 = 18 bytes needed, 18 offered: the write must succeed.
    let mut buf = vec![0u8; 18];
    let written = encode(FieldTag::Target, &[1, 2], &mut buf, 0).unwrap();
    assert_eq!(written, 18);
}

#[test]
fn decode_rejects_short_region() {
    let buf = vec![0u8; 15];
    assert!(decode(&buf, 0).is_none());
}

#[test]
fn decode_rejects_unknown_tag() {
    let mut buf = vec![0u8; 32];
    buf[0..8].copy_from_slice(&7u64.to_le_bytes());
    assert!(decode(&buf, 0).is_none());
}

#[test]
fn decode_rejects_truncated_payload() {
    let mut buf = vec![0u8; 20];
    buf[0..8].copy_from_slice(&1u64.to_le_bytes());
    buf[8..16].copy_from_slice(&100u64.to_le_bytes());
    assert!(decode(&buf, 0).is_none());
}
