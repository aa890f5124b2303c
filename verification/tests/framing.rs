use bittrade_websockets::control::framing::{encode_frame, payload_length};

#[test]
fn frame_starts_with_big_endian_length() {
    let payload = vec![7u8; 300];
    let frame = encode_frame(&payload);
    assert_eq!(frame.len(), 304);
    assert_eq!(&frame[..4], &[0, 0, 1, 44]);
    assert_eq!(&frame[4..], &payload[..]);
}

#[test]
fn empty_payload_frame_is_header_only() {
    assert_eq!(encode_frame(&Vec::new()), vec![0, 0, 0, 0]);
}

#[test]
fn header_is_read_big_endian() {
    assert_eq!(payload_length(&[0, 0, 0, 5]), 5);
    assert_eq!(payload_length(&[1, 2, 3, 4]), 0x01020304);
    assert_eq!(payload_length(&[255, 255, 255, 255]), u32::MAX);
}

#[test]
fn header_round_trip() {
    for n in [0usize, 1, 255, 256, 65535, 65536, 70000] {
        let payload = vec![1u8; n];
        let frame = encode_frame(&payload);
        let header = [frame[0], frame[1], frame[2], frame[3]];
        assert_eq!(payload_length(&header) as usize, n);
        assert_eq!(&frame[4..], &payload[..]);
    }
}
