//! The bit-level reader: little-endian extraction and the variable
//! encodings.

use cs2demo::bitreader::{BitReadError, Bitreader};

/// Little-endian bit writer for building test streams.
struct BitWriter {
    bytes: Vec<u8>,
    used: u32,
}

impl BitWriter {
    fn new() -> Self {
        BitWriter {
            bytes: Vec::new(),
            used: 0,
        }
    }
    fn push_bits(&mut self, value: u64, n: u32) {
        for i in 0..n {
            let bit = (value >> i) & 1;
            if self.used % 8 == 0 {
                self.bytes.push(0);
            }
            let idx = self.bytes.len() - 1;
            self.bytes[idx] |= (bit as u8) << (self.used % 8);
            self.used += 1;
        }
    }
    fn finish(self) -> Vec<u8> {
        self.bytes
    }
}

#[test]
fn nbits_little_endian() {
    // 0xb3 = 1011_0011: lowest bits first.
    let mut r = Bitreader::new(vec![0xb3, 0x01]);
    assert_eq!(r.read_nbits(4).unwrap(), 0x3);
    assert_eq!(r.read_nbits(4).unwrap(), 0xb);
    assert_eq!(r.read_nbits(8).unwrap(), 0x01);
    assert!(matches!(
        r.read_nbits(1),
        Err(BitReadError::MalformedMessage)
    ));
}

#[test]
fn varint_over_bits() {
    let mut r = Bitreader::new(vec![0x87, 0x60, 0xff]);
    assert_eq!(r.read_varint().unwrap(), 7 | (0x60 << 7));
    assert_eq!(r.read_nbits(8).unwrap(), 0xff);
}

#[test]
fn varint32_zigzag() {
    // 3 zig-zags to -2, 4 to 2.
    let mut r = Bitreader::new(vec![0x03, 0x04]);
    assert_eq!(r.read_varint32().unwrap(), -2);
    assert_eq!(r.read_varint32().unwrap(), 2);
}

#[test]
fn varint64_tenth_byte_cap() {
    // Ten continuation-heavy bytes with a too-large tenth byte.
    let mut r = Bitreader::new(vec![0xff, 0xff, 0xff, 0xff, 0xff, 0xff, 0xff, 0xff, 0xff, 0x02]);
    assert!(matches!(
        r.read_varint_u_64(),
        Err(BitReadError::MalformedMessage)
    ));
    let mut ok = Bitreader::new(vec![0xff, 0xff, 0xff, 0xff, 0xff, 0xff, 0xff, 0xff, 0xff, 0x01]);
    assert_eq!(ok.read_varint_u_64().unwrap(), u64::MAX);
}

#[test]
fn u_bit_var_selectors() {
    // Plain 6-bit value (selector bits 00).
    let mut w = BitWriter::new();
    w.push_bits(9, 6);
    let mut r = Bitreader::new(w.finish());
    assert_eq!(r.read_u_bit_var().unwrap(), 9);

    // Selector 01: 4 extra bits above the low 4.
    let mut w = BitWriter::new();
    w.push_bits(0b01_0000 | 13, 6);
    w.push_bits(12, 4);
    let mut r = Bitreader::new(w.finish());
    assert_eq!(r.read_u_bit_var().unwrap(), 13 | (12 << 4));

    // Selector 10: 8 extra bits.
    let mut w = BitWriter::new();
    w.push_bits(0b10_0000 | 5, 6);
    w.push_bits(0xAB, 8);
    let mut r = Bitreader::new(w.finish());
    assert_eq!(r.read_u_bit_var().unwrap(), 5 | (0xAB << 4));

    // Selector 11: 28 extra bits.
    let mut w = BitWriter::new();
    w.push_bits(0b11_0000 | 1, 6);
    w.push_bits(0x0123_4567, 28);
    let mut r = Bitreader::new(w.finish());
    assert_eq!(r.read_u_bit_var().unwrap(), 1 | (0x0123_4567 << 4));
}

#[test]
fn ubit_var_fp_prefixes() {
    // First flag set: a 2-bit payload.
    let mut w = BitWriter::new();
    w.push_bits(1, 1);
    w.push_bits(0b10, 2);
    let mut r = Bitreader::new(w.finish());
    assert_eq!(r.read_ubit_var_fp().unwrap(), 0b10);

    // Two clear flags then one set: a 10-bit payload.
    let mut w = BitWriter::new();
    w.push_bits(0, 1);
    w.push_bits(0, 1);
    w.push_bits(1, 1);
    w.push_bits(777, 10);
    let mut r = Bitreader::new(w.finish());
    assert_eq!(r.read_ubit_var_fp().unwrap(), 777);
}

#[test]
fn n_bytes_at_bit_offset() {
    let mut w = BitWriter::new();
    w.push_bits(0b101, 3);
    w.push_bits(0xCD, 8);
    w.push_bits(0x44, 8);
    let mut r = Bitreader::new(w.finish());
    assert_eq!(r.read_nbits(3).unwrap(), 0b101);
    let bytes = r.read_n_bytes(2).unwrap();
    assert_eq!(bytes, vec![0xCD, 0x44]);
    match r.read_n_bytes(4) {
        Err(BitReadError::FailedByteRead {
            remaining,
            requested,
        }) => {
            assert_eq!(requested, 4);
            assert!(remaining < 4);
        }
        other => panic!("unexpected: {:?}", other),
    }
}

#[test]
fn peek_pads_with_zero_bits() {
    let r = Bitreader::new(vec![0xff]);
    assert_eq!(r.peek(17), 0xff);
}
