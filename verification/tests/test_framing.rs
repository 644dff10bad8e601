use hyperion_framework::network::framing::{frame_message, FrameDecoder};

#[test]
fn frame_has_big_endian_length_prefix() {
    let framed = frame_message(b"hello");
    assert_eq!(framed, vec![0, 0, 0, 5, b'h', b'e', b'l', b'l', b'o']);
    assert_eq!(frame_message(&[]), vec![0, 0, 0, 0]);
    let big = vec![7u8; 0x0102_03];
    let framed = frame_message(&big);
    assert_eq!(&framed[..4], &[0x00, 0x01, 0x02, 0x03]);
    assert_eq!(framed.len(), 4 + big.len());
}

#[test]
fn decoder_returns_frames_in_order() {
    let mut d = FrameDecoder::new();
    let mut bytes = frame_message(b"\"Beta\"");
    bytes.extend(frame_message(b"\"Charlie\""));
    d.push_bytes(&bytes);
    let frames = d.drain_frames();
    assert_eq!(frames, vec![b"\"Beta\"".to_vec(), b"\"Charlie\"".to_vec()]);
    assert_eq!(d.buffered_len(), 0);
}

#[test]
fn decoder_waits_for_partial_frame() {
    let mut d = FrameDecoder::new();
    let bytes = frame_message(b"abcdef");
    d.push_bytes(&bytes[..2]);
    assert!(d.next_frame().is_none());
    d.push_bytes(&bytes[2..7]);
    assert!(d.drain_frames().is_empty());
    assert_eq!(d.buffered_len(), 7);
    d.push_bytes(&bytes[7..]);
    assert_eq!(d.next_frame(), Some(b"abcdef".to_vec()));
    assert!(d.next_frame().is_none());
}

#[test]
fn decoder_is_independent_of_read_boundaries() {
    let mut stream = Vec::new();
    for p in [&b"one"[..], &b""[..], &b"three!"[..]] {
        stream.extend(frame_message(p));
    }
    for cut in 0..=stream.len() {
        let mut d = FrameDecoder::new();
        d.push_bytes(&stream[..cut]);
        let mut frames = d.drain_frames();
        d.push_bytes(&stream[cut..]);
        frames.extend(d.drain_frames());
        assert_eq!(frames, vec![b"one".to_vec(), Vec::new(), b"three!".to_vec()]);
        assert_eq!(d.buffered_len(), 0);
    }
}

#[test]
fn garbage_prefix_waits_for_announced_bytes() {
    // A prefix announcing 0xFFFFFFFF bytes is never complete: nothing is handed out.
    let mut d = FrameDecoder::new();
    d.push_bytes(&[0xFF, 0xFF, 0xFF, 0xFF]);
    assert!(d.drain_frames().is_empty());
    assert_eq!(d.buffered_len(), 4);
}
