//! The single-precision emulation against the machine's own floats:
//! every operation must agree bit-for-bit (NaNs compared as a class).

use cs2demo::softfloat;

fn patterns() -> Vec<u32> {
    let mut v = vec![
        0x0000_0000, // +0
        0x8000_0000, // -0
        0x3f80_0000, // 1.0
        0xbf80_0000, // -1.0
        0x3f00_0000, // 0.5
        0x4000_0000, // 2.0
        0x40a8_0000, // 5.25
        0x7f7f_ffff, // max finite
        0xff7f_ffff,
        0x0080_0000, // min normal
        0x8080_0000,
        0x0000_0001, // min subnormal
        0x8000_0001,
        0x007f_ffff, // max subnormal
        0x7f80_0000, // +inf
        0xff80_0000, // -inf
        0x7fc0_0000, // NaN
        0x3eaa_aaab, // ~1/3
        0x4049_0fdb, // ~pi
        0x3dcc_cccd, // 0.1
        0x4234_851f, // 45.13
        0xc234_851f,
        0x501502f9, // ~1e10
        0x1e3ce508, // tiny
        0x0034_0000, // subnormal mid
        0x3f7f_ffff, // just below 1
        0x3f80_0001, // just above 1
        0x4b7f_ffff, // 2^24-1
        0x4b80_0000, // 2^24
        0x5f00_0000, // 2^63
        0x2f00_0000,
        0x0055_5555,
        0x1234_5678,
        0x789a_bcde,
        0xdead_beef,
        0x0bad_f00d,
    ];
    // A few spread-out extras.
    let mut x: u32 = 0x9e37_79b9;
    for _ in 0..24 {
        v.push(x);
        x = x.wrapping_mul(0x85eb_ca6b).wrapping_add(0xc2b2_ae35);
    }
    v
}

fn same(a: u32, b: u32) -> bool {
    let fa = f32::from_bits(a);
    let fb = f32::from_bits(b);
    if fa.is_nan() || fb.is_nan() {
        fa.is_nan() && fb.is_nan()
    } else {
        a == b
    }
}

#[test]
fn addition_matches_hardware() {
    for &a in &patterns() {
        for &b in &patterns() {
            let ours = softfloat::f32_add(a, b);
            let native = (f32::from_bits(a) + f32::from_bits(b)).to_bits();
            assert!(
                same(ours, native),
                "add {a:08x} {b:08x}: ours {ours:08x} native {native:08x}"
            );
        }
    }
}

#[test]
fn subtraction_matches_hardware() {
    for &a in &patterns() {
        for &b in &patterns() {
            let ours = softfloat::f32_sub(a, b);
            let native = (f32::from_bits(a) - f32::from_bits(b)).to_bits();
            assert!(
                same(ours, native),
                "sub {a:08x} {b:08x}: ours {ours:08x} native {native:08x}"
            );
        }
    }
}

#[test]
fn multiplication_matches_hardware() {
    for &a in &patterns() {
        for &b in &patterns() {
            let ours = softfloat::f32_mul(a, b);
            let native = (f32::from_bits(a) * f32::from_bits(b)).to_bits();
            assert!(
                same(ours, native),
                "mul {a:08x} {b:08x}: ours {ours:08x} native {native:08x}"
            );
        }
    }
}

#[test]
fn division_matches_hardware() {
    for &a in &patterns() {
        for &b in &patterns() {
            let ours = softfloat::f32_div(a, b);
            let native = (f32::from_bits(a) / f32::from_bits(b)).to_bits();
            assert!(
                same(ours, native),
                "div {a:08x} {b:08x}: ours {ours:08x} native {native:08x}"
            );
        }
    }
}

#[test]
fn square_root_matches_hardware() {
    for &a in &patterns() {
        let ours = softfloat::f32_sqrt(a);
        let native = f32::from_bits(a).sqrt().to_bits();
        assert!(
            same(ours, native),
            "sqrt {a:08x}: ours {ours:08x} native {native:08x}"
        );
    }
}

#[test]
fn conversions_match_hardware() {
    let ints: Vec<u32> = vec![
        0,
        1,
        2,
        3,
        30,
        100,
        255,
        1000,
        65535,
        0x00ff_ffff,
        0x0100_0000,
        0x0100_0001,
        0x7fff_ffff,
        0x8000_0000,
        0xffff_ffff,
        123_456_789,
    ];
    for &v in &ints {
        assert_eq!(
            softfloat::f32_from_u32(v),
            (v as f32).to_bits(),
            "from_u32 {v}"
        );
    }
    for &v in &[0u64, 1, 1 << 32, u64::MAX, 0x0123_4567_89ab_cdef] {
        assert_eq!(
            softfloat::f32_from_u64(v),
            (v as f32).to_bits(),
            "from_u64 {v}"
        );
    }
    for &a in &patterns() {
        assert_eq!(
            softfloat::f32_to_u32(a),
            f32::from_bits(a) as u32,
            "to_u32 {a:08x}"
        );
    }
}

#[test]
fn comparisons_match_hardware() {
    for &a in &patterns() {
        for &b in &patterns() {
            let fa = f32::from_bits(a);
            let fb = f32::from_bits(b);
            assert_eq!(softfloat::f32_lt(a, b), fa < fb, "lt {a:08x} {b:08x}");
            assert_eq!(softfloat::f32_gt(a, b), fa > fb, "gt {a:08x} {b:08x}");
            assert_eq!(softfloat::f32_eq(a, b), fa == fb, "eq {a:08x} {b:08x}");
        }
    }
}

#[test]
fn ceil_log2_matches_hardware() {
    for v in [1u32, 2, 3, 4, 5, 7, 8, 9, 100, 1024, 1025, 1 << 20] {
        let bits = (v as f32).to_bits();
        let expect = (v as f32).log2().ceil() as u32;
        assert_eq!(softfloat::f32_ceil_log2(bits), expect, "ceil_log2 {v}");
    }
}
