use goxlr_utility_ui::frame::{encode_frame, FrameError, Incoming, Socket, MAX_FRAME_LEN};

#[test]
fn frame_has_big_endian_length_head() {
    let bytes = encode_frame(b"hello").unwrap();
    assert_eq!(bytes, vec![0, 0, 0, 5, b'h', b'e', b'l', b'l', b'o']);
}

#[test]
fn empty_payload_frame() {
    let bytes = encode_frame(b"").unwrap();
    assert_eq!(bytes, vec![0, 0, 0, 0]);
    let mut socket = Socket::new();
    socket.receive(bytes);
    assert_eq!(socket.try_read(), Ok(Incoming::Frame(vec![])));
}

#[test]
fn long_payload_head() {
    let payload = vec![7u8; 300];
    let bytes = encode_frame(&payload).unwrap();
    assert_eq!(&bytes[..4], &[0, 0, 1, 44]);
    assert_eq!(bytes.len(), 304);
}

#[test]
fn round_trip_through_socket() {
    let payload = br#"{"Status":{"config":{}}}"#.to_vec();
    let socket = Socket::new();
    let bytes = socket.send(&payload).unwrap();
    let mut reader = Socket::new();
    reader.receive(bytes);
    assert_eq!(reader.try_read(), Ok(Incoming::Frame(payload)));
    assert_eq!(reader.try_read(), Ok(Incoming::NeedMore));
}

#[test]
fn one_byte_at_a_time() {
    let payload = b"\"GetStatus\"".to_vec();
    let bytes = encode_frame(&payload).unwrap();
    let mut reader = Socket::new();
    for (i, b) in bytes.iter().enumerate() {
        reader.receive(vec![*b]);
        let got = reader.try_read();
        if i + 1 < bytes.len() {
            assert_eq!(got, Ok(Incoming::NeedMore));
        } else {
            assert_eq!(got, Ok(Incoming::Frame(payload.clone())));
        }
    }
}

#[test]
fn uneven_chunks_give_same_message() {
    let payload = b"{\"Daemon\":null}".to_vec();
    let bytes = encode_frame(&payload).unwrap();
    let mut reader = Socket::new();
    reader.receive(bytes[..2].to_vec());
    assert_eq!(reader.try_read(), Ok(Incoming::NeedMore));
    reader.receive(bytes[2..7].to_vec());
    assert_eq!(reader.try_read(), Ok(Incoming::NeedMore));
    reader.receive(bytes[7..].to_vec());
    assert_eq!(reader.try_read(), Ok(Incoming::Frame(payload)));
}

#[test]
fn coalesced_frames_split_apart() {
    let mut bytes = encode_frame(b"one").unwrap();
    bytes.extend(encode_frame(b"two").unwrap());
    let mut reader = Socket::new();
    reader.receive(bytes);
    assert_eq!(reader.try_read(), Ok(Incoming::Frame(b"one".to_vec())));
    assert_eq!(reader.try_read(), Ok(Incoming::Frame(b"two".to_vec())));
    assert_eq!(reader.try_read(), Ok(Incoming::NeedMore));
}

#[test]
fn clean_end_between_frames() {
    let mut reader = Socket::new();
    reader.receive(encode_frame(b"x").unwrap());
    reader.end();
    assert_eq!(reader.try_read(), Ok(Incoming::Frame(b"x".to_vec())));
    assert_eq!(reader.try_read(), Ok(Incoming::Ended));
}

#[test]
fn end_inside_frame_is_truncated() {
    let bytes = encode_frame(b"abcdef").unwrap();
    let mut reader = Socket::new();
    reader.receive(bytes[..6].to_vec());
    reader.end();
    assert_eq!(reader.try_read(), Err(FrameError::Truncated));
}

#[test]
fn oversized_head_is_refused() {
    let mut reader = Socket::new();
    reader.receive(vec![1, 0, 0, 0]);
    assert_eq!(reader.try_read(), Err(FrameError::TooLong));
}

#[test]
fn largest_head_is_accepted() {
    let mut reader = Socket::new();
    reader.receive(vec![0, 0x80, 0, 0]);
    assert_eq!(reader.try_read(), Ok(Incoming::NeedMore));
}

#[test]
fn oversized_payload_is_refused() {
    let payload = vec![0u8; MAX_FRAME_LEN + 1];
    assert_eq!(encode_frame(&payload), Err(FrameError::TooLong));
}
