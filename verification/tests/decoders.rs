//! The primitive decoders: each maps fixed bit patterns to fixed
//! variants, with float results matching native arithmetic bit for bit.

use cs2demo::bitreader::Bitreader;
use cs2demo::qfloat::QfMapper;
use cs2demo::{Decoder, Variant};

struct BitWriter {
    bytes: Vec<u8>,
    used: u32,
}

impl BitWriter {
    fn new() -> Self {
        BitWriter {
            bytes: Vec::new(),
            used: 0,
        }
    }
    fn push_bits(&mut self, value: u64, n: u32) {
        for i in 0..n {
            let bit = (value >> i) & 1;
            if self.used % 8 == 0 {
                self.bytes.push(0);
            }
            let idx = self.bytes.len() - 1;
            self.bytes[idx] |= (bit as u8) << (self.used % 8);
            self.used += 1;
        }
    }
    fn reader(self) -> Bitreader {
        Bitreader::new(self.bytes)
    }
}

#[test]
fn boolean_component_gamemode() {
    let empty = QfMapper::new();
    let mut w = BitWriter::new();
    w.push_bits(1, 1);
    w.push_bits(0, 1);
    w.push_bits(97, 7);
    let mut r = w.reader();
    assert_eq!(
        Decoder::BooleanDecoder.decode(&mut r, &empty).unwrap(),
        Variant::Bool(true)
    );
    assert_eq!(
        Decoder::ComponentDecoder.decode(&mut r, &empty).unwrap(),
        Variant::Bool(false)
    );
    assert_eq!(
        Decoder::GameModeRulesDecoder.decode(&mut r, &empty).unwrap(),
        Variant::U32(97)
    );
}

#[test]
fn unsigned_signed_and_wide() {
    let empty = QfMapper::new();
    let mut w = BitWriter::new();
    w.push_bits(0x87, 8);
    w.push_bits(0x60, 8); // varint 12295
    w.push_bits(0x03, 8); // zig-zag -2
    w.push_bits(0x2a, 8); // varint64 42
    let mut r = w.reader();
    assert_eq!(
        Decoder::UnsignedDecoder.decode(&mut r, &empty).unwrap(),
        Variant::U32(7 | (0x60 << 7))
    );
    assert_eq!(
        Decoder::SignedDecoder.decode(&mut r, &empty).unwrap(),
        Variant::I32(-2)
    );
    assert_eq!(
        Decoder::Unsigned64Decoder.decode(&mut r, &empty).unwrap(),
        Variant::U64(42)
    );
}

#[test]
fn fixed64_is_little_endian_bytes() {
    let empty = QfMapper::new();
    let mut w = BitWriter::new();
    for b in [1u8, 2, 3, 4, 5, 6, 7, 8] {
        w.push_bits(b as u64, 8);
    }
    let mut r = w.reader();
    assert_eq!(
        Decoder::Fixed64Decoder.decode(&mut r, &empty).unwrap(),
        Variant::U64(u64::from_le_bytes([1, 2, 3, 4, 5, 6, 7, 8]))
    );
}

#[test]
fn noscale_is_raw_pattern() {
    let empty = QfMapper::new();
    let bits = 1.5f32.to_bits();
    let mut w = BitWriter::new();
    w.push_bits(bits as u64, 32);
    let mut r = w.reader();
    assert_eq!(
        Decoder::NoscaleDecoder.decode(&mut r, &empty).unwrap(),
        Variant::F32(bits)
    );
}

#[test]
fn simulation_time_scales_by_one_thirtieth() {
    let empty = QfMapper::new();
    let mut w = BitWriter::new();
    w.push_bits(45, 8); // varint 45
    let mut r = w.reader();
    let expect = (45f32 * (1.0 / 30.0)).to_bits();
    assert_eq!(
        Decoder::FloatSimulationTimeDecoder
            .decode(&mut r, &empty)
            .unwrap(),
        Variant::F32(expect)
    );
}

#[test]
fn float_coord_integer_and_fraction() {
    let empty = QfMapper::new();
    // int flag, frac flag, sign clear, int part 2 (+1 = 3), frac 16/32.
    let mut w = BitWriter::new();
    w.push_bits(1, 1);
    w.push_bits(1, 1);
    w.push_bits(0, 1);
    w.push_bits(2, 14);
    w.push_bits(16, 5);
    let mut r = w.reader();
    assert_eq!(
        Decoder::FloatCoordDecoder.decode(&mut r, &empty).unwrap(),
        Variant::F32(3.5f32.to_bits())
    );
    // Neither part: exactly zero.
    let mut w = BitWriter::new();
    w.push_bits(0, 2);
    let mut r = w.reader();
    assert_eq!(
        Decoder::FloatCoordDecoder.decode(&mut r, &empty).unwrap(),
        Variant::F32(0)
    );
}

#[test]
fn string_is_wire_bytes_until_zero() {
    let empty = QfMapper::new();
    let mut w = BitWriter::new();
    for b in [0x61u8, 0x62, 0x00, 0x7f] {
        w.push_bits(b as u64, 8);
    }
    let mut r = w.reader();
    assert_eq!(
        Decoder::StringDecoder.decode(&mut r, &empty).unwrap(),
        Variant::String(b"ab".to_vec())
    );
}

#[test]
fn ammo_decrements_when_positive() {
    let empty = QfMapper::new();
    let mut w = BitWriter::new();
    w.push_bits(5, 8);
    w.push_bits(0, 8);
    let mut r = w.reader();
    assert_eq!(
        Decoder::AmmoDecoder.decode(&mut r, &empty).unwrap(),
        Variant::U32(4)
    );
    assert_eq!(
        Decoder::AmmoDecoder.decode(&mut r, &empty).unwrap(),
        Variant::U32(0)
    );
}

#[test]
fn qangle_pitch_yaw_scales_by_two_pow_32() {
    let empty = QfMapper::new();
    let raw = 90f32.to_bits();
    let mut w = BitWriter::new();
    for _ in 0..3 {
        w.push_bits(raw as u64, 32);
    }
    let mut r = w.reader();
    let expect = (90f32 / (1u64 << 32) as f32).to_bits();
    assert_eq!(
        Decoder::QanglePitchYawDecoder
            .decode(&mut r, &empty)
            .unwrap(),
        Variant::VecXYZ([expect, expect, expect])
    );
}

#[test]
fn normal_vector_rebuilds_z() {
    let empty = QfMapper::new();
    // has_x set with sign clear and length 1000, has_y clear, z positive.
    let mut w = BitWriter::new();
    w.push_bits(1, 1); // has_x
    w.push_bits(0, 1); // has_y
    w.push_bits(0, 1); // x sign
    w.push_bits(1000, 11); // x length
    w.push_bits(0, 1); // z sign
    let mut r = w.reader();
    let x = (1000f64 * (1.0 / 2048.0 - 1.0)) as f32;
    let prod = x * x;
    let z = if prod < 1.0 { (1.0 - prod).sqrt() } else { 0.0 };
    match Decoder::VectorNormalDecoder.decode(&mut r, &empty).unwrap() {
        Variant::VecXYZ([vx, vy, vz]) => {
            assert_eq!(vx, x.to_bits());
            assert_eq!(vy, 0);
            assert_eq!(vz, z.to_bits());
        }
        other => panic!("unexpected: {:?}", other),
    }
}

#[test]
fn coord_pres_maps_onto_half_circle() {
    let empty = QfMapper::new();
    let raw = 0x90000u64;
    let mut w = BitWriter::new();
    w.push_bits(1, 1);
    w.push_bits(0, 1);
    w.push_bits(0, 1);
    w.push_bits(raw, 20);
    let mut r = w.reader();
    let expect = ((raw as f32) * 360.0 / (1 << 20) as f32 - 180.0).to_bits();
    match Decoder::QanglePresDecoder.decode(&mut r, &empty).unwrap() {
        Variant::VecXYZ([vx, vy, vz]) => {
            assert_eq!(vx, expect);
            assert_eq!(vy, 0);
            assert_eq!(vz, 0);
        }
        other => panic!("unexpected: {:?}", other),
    }
}
