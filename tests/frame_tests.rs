use pprefox_rs::frame::{decode_frame, encode_frame, ByteOrder, FrameError, FrameRead, MAX_PAYLOAD_LEN};

#[test]
fn frame_little_endian_bytes() {
    let f = encode_frame(b"ab", ByteOrder::Little).unwrap();
    assert_eq!(f, vec![2, 0, 0, 0, b'a', b'b']);
}

#[test]
fn frame_big_endian_bytes() {
    let f = encode_frame(b"ab", ByteOrder::Big).unwrap();
    assert_eq!(f, vec![0, 0, 0, 2, b'a', b'b']);
}

#[test]
fn frame_multi_byte_length() {
    let payload = vec![7u8; 300];
    let f = encode_frame(&payload, ByteOrder::Little).unwrap();
    assert_eq!(&f[..4], &[44, 1, 0, 0]);
    assert_eq!(f.len(), 304);
}

#[test]
fn frame_round_trip_with_trailing_bytes() {
    for order in [ByteOrder::Little, ByteOrder::Big] {
        let mut buf = encode_frame(b"{\"uuid\":\"x\"}", order).unwrap();
        buf.extend_from_slice(&[9, 9, 9]);
        match decode_frame(&buf, order) {
            FrameRead::Frame { payload, used } => {
                assert_eq!(payload, b"{\"uuid\":\"x\"}".to_vec());
                assert_eq!(used, 16);
            }
            other => panic!("unexpected {:?}", other),
        }
    }
}

#[test]
fn zero_length_frame_is_legal() {
    let f = encode_frame(&[], ByteOrder::Little).unwrap();
    assert_eq!(f, vec![0, 0, 0, 0]);
    assert_eq!(
        decode_frame(&[0, 0, 0, 0], ByteOrder::Little),
        FrameRead::Frame { payload: vec![], used: 4 }
    );
}

#[test]
fn short_buffer_is_incomplete() {
    assert_eq!(decode_frame(&[], ByteOrder::Little), FrameRead::Incomplete);
    assert_eq!(decode_frame(&[1, 0, 0], ByteOrder::Little), FrameRead::Incomplete);
    assert_eq!(decode_frame(&[3, 0, 0, 0, b'a'], ByteOrder::Little), FrameRead::Incomplete);
}

#[test]
fn oversized_declared_length_is_refused() {
    assert_eq!(decode_frame(&[255, 255, 255, 255], ByteOrder::Little), FrameRead::Oversized);
    let just_over = (MAX_PAYLOAD_LEN + 1).to_le_bytes();
    assert_eq!(decode_frame(&just_over, ByteOrder::Little), FrameRead::Oversized);
    let at_cap = MAX_PAYLOAD_LEN.to_be_bytes();
    assert_eq!(decode_frame(&at_cap, ByteOrder::Big), FrameRead::Incomplete);
}

#[test]
fn oversized_payload_is_not_framed() {
    let big = vec![0u8; MAX_PAYLOAD_LEN as usize + 1];
    assert_eq!(encode_frame(&big, ByteOrder::Little), Err(FrameError::Oversized));
}
