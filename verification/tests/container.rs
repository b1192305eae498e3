//! The outer container: header floor, magic check, declared length.

use cs2demo::{Container, ParseContainerError};

#[test]
fn fifteen_bytes_is_missing_header() {
    let input = [0u8; 15];
    match Container::parse(&input) {
        Err(ParseContainerError::MissingHeader) => {}
        other => panic!("unexpected: {:?}", other),
    }
}

#[test]
fn sixteen_bytes_mismatched_length() {
    // Declared length 100 at offset 8, nothing after the header.
    let mut input = [0u8; 16];
    input[..8].copy_from_slice(b"PBDEMS2\0");
    input[8] = 100;
    match Container::parse(&input) {
        Err(ParseContainerError::MismatchedLength {
            buffer_len,
            expected_len,
        }) => {
            assert_eq!(buffer_len, 0);
            assert_eq!(expected_len, 102);
        }
        other => panic!("unexpected: {:?}", other),
    }
}

#[test]
fn inner_length_is_declared_plus_two() {
    // A declared length of 3 needs 5 inner bytes.
    let mut input = Vec::new();
    input.extend_from_slice(b"PBDEMS2\0");
    input.extend_from_slice(&3u32.to_le_bytes());
    input.extend_from_slice(&[0, 0, 0, 0]);
    input.extend_from_slice(&[9, 8, 7, 6, 5]);
    let c = Container::parse(&input).unwrap();
    assert_eq!(c.inner.len(), 3 + 2);
    assert_eq!(c.magic, b"PBDEMS2\0");
    assert_eq!(c.inner, vec![9, 8, 7, 6, 5]);
}

#[test]
fn non_ascii_magic_rejected() {
    let mut input = [0u8; 16];
    input[0] = 0xff;
    match Container::parse(&input) {
        Err(ParseContainerError::InvalidMagic) => {}
        other => panic!("unexpected: {:?}", other),
    }
}
