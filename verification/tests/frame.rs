//! Frame parsing: three varints and a payload, bit 6 as the
//! compression mark.

use cs2demo::{DemoCommand, Frame, FrameIterator, FrameParseError};

#[test]
fn packet_frame_parses_and_leaves_rest() {
    // varints 7 (Packet), 128 (tick), 0 (size); one trailing byte.
    let input = [0x07, 0x80, 0x01, 0x00, 0xff];
    let (rest, frame) = Frame::parse(&input).unwrap();
    assert_eq!(frame.cmd, DemoCommand::Packet);
    assert_eq!(frame.tick, 128);
    assert!(!frame.compressed);
    assert!(frame.inner.is_empty());
    assert_eq!(rest, &[0xff]);
}

#[test]
fn compression_flag_is_bit_six() {
    // Command 7 | 64, tick 1, size 0.
    let input = [0x47, 0x01, 0x00];
    let (rest, frame) = Frame::parse(&input).unwrap();
    assert_eq!(frame.cmd, DemoCommand::Packet);
    assert!(frame.compressed);
    assert!(rest.is_empty());
}

#[test]
fn unknown_command_is_preserved() {
    let input = [23, 0x00, 0x00];
    match Frame::parse(&input) {
        Err(FrameParseError::ParseDemoCommand(code)) => assert_eq!(code, 23),
        other => panic!("unexpected: {:?}", other.map(|_| ())),
    }
}

#[test]
fn short_payload_is_not_enough_bytes() {
    let input = [0x07, 0x00, 0x05, 1, 2];
    match Frame::parse(&input) {
        Err(FrameParseError::NotEnoughBytes) => {}
        other => panic!("unexpected: {:?}", other.map(|_| ())),
    }
}

#[test]
fn iterator_yields_frames_in_order() {
    let mut input = Vec::new();
    // Frame one: FileHeader (1), tick 0, 2 payload bytes.
    input.extend_from_slice(&[0x01, 0x00, 0x02, 0xaa, 0xbb]);
    // Frame two: Stop (0), tick 5, no payload.
    input.extend_from_slice(&[0x00, 0x05, 0x00]);
    let mut it = FrameIterator::parse(&input);
    let f1 = it.next().unwrap();
    assert_eq!(f1.cmd, DemoCommand::FileHeader);
    assert_eq!(f1.inner, vec![0xaa, 0xbb]);
    let f2 = it.next().unwrap();
    assert_eq!(f2.cmd, DemoCommand::Stop);
    assert_eq!(f2.tick, 5);
    assert!(it.next().is_none());
}

#[test]
fn scratch_buffer_decompression_reuses_the_buffer() {
    let payload = b"scratch buffer payload".to_vec();
    let compressed = snap::raw::Encoder::new().compress_vec(&payload).unwrap();
    let mut input = Vec::new();
    input.push(0x47); // Packet | compressed
    input.push(0x00);
    input.push(compressed.len() as u8);
    input.extend_from_slice(&compressed);
    let (_, frame) = Frame::parse(&input).unwrap();
    assert!(frame.compressed);
    let mut buf = vec![0xEE; 64];
    frame.decompress_with_buf(&mut buf).unwrap();
    assert_eq!(buf, payload);
    // The frame itself is untouched.
    assert!(frame.compressed);
    assert_eq!(frame.inner, compressed);
    // An uncompressed frame copies its payload into the buffer.
    let plain = [0x07, 0x00, 0x02, 0xAB, 0xCD];
    let (_, f2) = Frame::parse(&plain).unwrap();
    f2.decompress_with_buf(&mut buf).unwrap();
    assert_eq!(buf, vec![0xAB, 0xCD]);
}

#[test]
fn parse_failure_ends_iterator() {
    // A truncated varint run: iterator ends without a frame.
    let input = [0x87];
    let mut it = FrameIterator::parse(&input);
    assert!(it.next().is_none());
    assert!(it.next().is_none());
}
