use std::collections::hash_map::DefaultHasher;
use std::hash::{Hash, Hasher};

use jeep::frame::{LenTooBig, ID_MASK};
use jeep::Frame;

fn hash_of(frame: &Frame) -> u64 {
    let mut hasher = DefaultHasher::new();
    frame.hash(&mut hasher);
    hasher.finish()
}

#[test]
fn test_data() {
    let frame = Frame::from_id_data_len(1, [2, 3, 4, 5, 6, 7, 8, 9], 2).unwrap();
    assert_eq!(frame.data(), &[2, 3]);
}

#[test]
fn test_validate_len() {
    let ret = Frame::from_id_data_len(1, [2, 3, 4, 5, 6, 7, 8, 9], 255);
    assert!(ret.is_err())
}

#[test]
fn round_trip_reads_back_what_was_given() {
    for len in 0..=8u8 {
        let frame = Frame::from_id_data_len(0x2d3, [1, 2, 3, 4, 5, 6, 7, 8], len).unwrap();
        assert_eq!(frame.id(), 0x2d3);
        assert_eq!(frame.raw_id(), 0x2d3);
        assert_eq!(frame.dlc(), len as usize);
        assert_eq!(frame.data(), &[1, 2, 3, 4, 5, 6, 7, 8][..len as usize]);
    }
}

#[test]
fn identifier_is_masked_on_read_only() {
    let frame = Frame::from_id_data_len(0x8000_02d3, [0; 8], 8).unwrap();
    assert_eq!(frame.raw_id(), 0x8000_02d3);
    assert_eq!(frame.id(), 0x2d3);
    assert_eq!(frame.id(), frame.raw_id() & ID_MASK);
}

#[test]
fn padding_takes_no_part_in_equality_hash_or_text() {
    let a = Frame::from_id_data_len(0x1c0, [0x21, 0, 0, 9, 9, 9, 9, 9], 3).unwrap();
    let b = Frame::from_id_data_len(0x1c0, [0x21, 0, 0, 1, 2, 3, 4, 5], 3).unwrap();
    assert_eq!(a, b);
    assert_eq!(hash_of(&a), hash_of(&b));
    assert_eq!(a.to_string(), b.to_string());
    let c = Frame::from_id_slice(0x1c0, &[0x21, 0, 0]).unwrap();
    assert_eq!(a, c);
    assert_eq!(hash_of(&a), hash_of(&c));
}

#[test]
fn frames_differ_on_payload_length_or_identifier() {
    let a = Frame::from_id_data_len(0x1c0, [0; 8], 3).unwrap();
    let b = Frame::from_id_data_len(0x1c0, [0; 8], 4).unwrap();
    let c = Frame::from_id_data_len(0x1c1, [0; 8], 3).unwrap();
    let d = Frame::from_id_data_len(0x1c0, [0, 0, 1, 0, 0, 0, 0, 0], 3).unwrap();
    assert_ne!(a, b);
    assert_ne!(a, c);
    assert_ne!(a, d);
}

#[test]
fn construction_fails_past_eight_bytes() {
    for len in 9..=255u8 {
        assert_eq!(Frame::from_id_data_len(1, [0; 8], len), Err(LenTooBig));
    }
    assert_eq!(Frame::from_id_slice(1, &[0; 9]), Err(LenTooBig));
    assert!(Frame::from_id_data_len(1, [0; 8], 8).is_ok());
}

#[test]
fn from_id_slice_pads_with_zeros() {
    let frame = Frame::from_id_slice(0x350, &[7, 34, 13]).unwrap();
    assert_eq!(frame.data(), &[7, 34, 13]);
    assert_eq!(frame.dlc(), 3);
    let empty = Frame::from_id_slice(0x350, &[]).unwrap();
    assert_eq!(empty.data(), &[] as &[u8]);
}

#[test]
fn frame_text_is_hex_identifier_and_payload() {
    let frame = Frame::from_id_data_len(1, [2, 3, 4, 5, 6, 7, 8, 9], 2).unwrap();
    assert_eq!(frame.to_string(), "  1#[2, 3]");
    let frame = Frame::from_id_slice(0x2d3, &[0x07, 0x00, 0xe7, 0xff]).unwrap();
    assert_eq!(frame.to_string(), "2D3#[7, 0, E7, FF]");
    let frame = Frame::from_id_slice(0x1c, &[]).unwrap();
    assert_eq!(frame.to_string(), " 1C#[]");
}
