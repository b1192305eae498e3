//! Byte-level varint decoding.

use cs2demo::parse_varint;

#[test]
fn single_byte() {
    let input = &[40, 0xff];

    let (remaining, value) = parse_varint(input).unwrap();

    assert_eq!(&[0xff], remaining);
    assert_eq!(40, value);
}

#[test]
fn double_byte() {
    let input = &[0x87, 0x60, 0xff];

    let (remaining, _value) = parse_varint(input).unwrap();

    assert_eq!(&[0xff], remaining);
}

#[test]
fn three_byte() {
    let input = &[0x87, 0x80, 0x61, 0xff];

    let (remaining, _value) = parse_varint(input).unwrap();

    assert_eq!(&[0xff], remaining);
}

#[test]
fn four_byte() {
    let input = &[0x87, 0x80, 0x88, 0x61, 0xff];

    let (remaining, _value) = parse_varint(input).unwrap();

    assert_eq!(&[0xff], remaining);
}

#[test]
fn five_byte() {
    let input = &[0x87, 0x80, 0x88, 0x89, 0x81, 0xff];

    let (remaining, _value) = parse_varint(input).unwrap();

    assert_eq!(&[0xff], remaining);
}

#[test]
fn empty_input_fails() {
    assert!(parse_varint(&[]).is_err());
}

#[test]
fn truncated_encoding_fails() {
    assert!(parse_varint(&[0x87, 0x80]).is_err());
}

#[test]
fn value_assembly() {
    let (rest, v) = parse_varint(&[0x87, 0x60]).unwrap();
    assert!(rest.is_empty());
    assert_eq!(v, 7 | (0x60 << 7));
}
