use bytes::{BufMut, BytesMut};
use peat_sapient::codec::{SapientCodec, MAX_FRAME_BYTES};
use peat_sapient::error::SapientError;

fn test_message() -> Vec<u8> {
    b"550e8400-e29b-41d4-a716-446655440000".to_vec()
}

#[test]
fn encode_produces_le_length_prefix() {
    let mut codec = SapientCodec;
    let expected_payload = test_message();
    let mut buf = BytesMut::new();
    codec.encode(&expected_payload, &mut buf).unwrap();
    let prefix = u32::from_le_bytes([buf[0], buf[1], buf[2], buf[3]]) as usize;
    assert_eq!(prefix, expected_payload.len());
    assert_eq!(&buf[4..], expected_payload.as_slice());
}

#[test]
fn room_ends_with_the_address_space() {
    let codec = SapientCodec;
    let buf = BytesMut::from(&[1, 2, 3][..]);
    let most = isize::MAX as usize;
    assert!(codec.has_room(0, &buf));
    assert!(codec.has_room(most - 7, &buf));
    assert!(!codec.has_room(most - 6, &buf));
    assert!(!codec.has_room(usize::MAX, &buf));
}

#[test]
fn decode_roundtrip() {
    let mut codec = SapientCodec;
    let msg = test_message();
    let mut buf = BytesMut::new();
    codec.encode(&msg, &mut buf).unwrap();
    let decoded = codec.decode(&mut buf).unwrap().expect("should have a message");
    assert_eq!(msg, decoded);
    assert!(buf.is_empty(), "buffer should be fully consumed");
}

#[test]
fn decode_returns_none_on_incomplete_prefix() {
    let mut codec = SapientCodec;
    let mut buf = BytesMut::from(&[0x05, 0x00][..]);
    assert!(codec.decode(&mut buf).unwrap().is_none());
    assert_eq!(&buf[..], &[0x05, 0x00]);
}

#[test]
fn decode_returns_none_on_incomplete_payload() {
    let mut codec = SapientCodec;
    let mut buf = BytesMut::new();
    codec.encode(&test_message(), &mut buf).unwrap();
    buf.truncate(5);
    assert!(codec.decode(&mut buf).unwrap().is_none());
    assert_eq!(buf.len(), 5);
}

#[test]
fn decode_rejects_oversized_frame() {
    let mut codec = SapientCodec;
    let oversized = (MAX_FRAME_BYTES + 1) as u32;
    let mut buf = BytesMut::new();
    buf.put_u32_le(oversized);
    buf.put_bytes(0, MAX_FRAME_BYTES + 1);
    let err = codec.decode(&mut buf).unwrap_err();
    assert!(matches!(err, SapientError::FrameTooLarge { .. }));
}

#[test]
fn decode_handles_two_messages_in_one_buffer() {
    let mut codec = SapientCodec;
    let msg = test_message();
    let mut buf = BytesMut::new();
    codec.encode(&msg, &mut buf).unwrap();
    codec.encode(&msg, &mut buf).unwrap();
    let first = codec.decode(&mut buf).unwrap().unwrap();
    let second = codec.decode(&mut buf).unwrap().unwrap();
    assert_eq!(first, msg);
    assert_eq!(second, msg);
    assert!(buf.is_empty());
}

#[test]
fn wire_format_is_little_endian_length_prefix() {
    let payload = vec![7u8; 0x1234];
    let payload_len = payload.len() as u32;
    let mut codec = SapientCodec;
    let mut buf = BytesMut::new();
    codec.encode(&payload, &mut buf).unwrap();
    let wire_len = u32::from_le_bytes([buf[0], buf[1], buf[2], buf[3]]);
    assert_eq!(wire_len, payload_len);
    let be_len = u32::from_be_bytes([buf[0], buf[1], buf[2], buf[3]]);
    if payload_len > 0xFF {
        assert_ne!(be_len, payload_len, "prefix must be little-endian");
    }
    assert_eq!(&buf[..4], &[0x34, 0x12, 0, 0]);
}

#[test]
fn oversized_frame_is_rejected() {
    let mut codec = SapientCodec;
    let mut buf = BytesMut::new();
    let bad_len = (MAX_FRAME_BYTES + 1) as u32;
    buf.extend_from_slice(&bad_len.to_le_bytes());
    buf.resize(4 + MAX_FRAME_BYTES + 1, 0);
    let result = codec.decode(&mut buf);
    assert!(matches!(result, Err(SapientError::FrameTooLarge { .. })));
}

#[test]
fn oversized_prefix_is_refused_before_the_payload_arrives() {
    let mut codec = SapientCodec;
    let mut buf = BytesMut::from(&[1, 0, 0, 1][..]);
    let err = codec.decode(&mut buf).unwrap_err();
    assert_eq!(err, SapientError::FrameTooLarge { size: 16_777_217, max: 16_777_216 });
    assert_eq!(&buf[..], &[1, 0, 0, 1]);
}

#[test]
fn largest_payload_is_accepted() {
    let mut codec = SapientCodec;
    let payload = vec![9u8; MAX_FRAME_BYTES];
    let mut buf = BytesMut::new();
    codec.encode(&payload, &mut buf).unwrap();
    assert_eq!(&buf[..4], &[0, 0, 0, 1]);
    assert_eq!(codec.decode(&mut buf).unwrap(), Some(payload));
    assert!(buf.is_empty());
}

#[test]
fn empty_payload_is_a_frame() {
    let mut codec = SapientCodec;
    let mut buf = BytesMut::new();
    codec.encode(&[], &mut buf).unwrap();
    assert_eq!(&buf[..], &[0, 0, 0, 0]);
    assert_eq!(codec.decode(&mut buf).unwrap(), Some(vec![]));
    assert_eq!(codec.decode(&mut buf).unwrap(), None);
}

#[test]
fn payloads_come_out_in_order_with_what_follows_kept() {
    let mut codec = SapientCodec;
    let mut buf = BytesMut::new();
    codec.encode(&[1, 2, 3], &mut buf).unwrap();
    codec.encode(&[4], &mut buf).unwrap();
    buf.put_slice(&[0xFF, 0xFE]);
    assert_eq!(&buf[..], &[3, 0, 0, 0, 1, 2, 3, 1, 0, 0, 0, 4, 0xFF, 0xFE]);
    assert_eq!(codec.decode(&mut buf).unwrap(), Some(vec![1, 2, 3]));
    assert_eq!(codec.decode(&mut buf).unwrap(), Some(vec![4]));
    assert_eq!(codec.decode(&mut buf).unwrap(), None);
    assert_eq!(&buf[..], &[0xFF, 0xFE]);
}

#[test]
fn every_proper_prefix_of_a_frame_is_incomplete() {
    let mut codec = SapientCodec;
    let mut whole = BytesMut::new();
    codec.encode(&[5, 6, 7], &mut whole).unwrap();
    for n in 0..whole.len() {
        let mut part = BytesMut::from(&whole[..n]);
        assert_eq!(codec.decode(&mut part).unwrap(), None);
        assert_eq!(part.len(), n);
    }
}
