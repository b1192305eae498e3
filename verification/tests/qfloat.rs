//! The quantised-float descriptor against a native-float reference:
//! normalisation must agree field by field, and decoding must agree
//! bit for bit.  The range property is checked over many descriptors.

use cs2demo::bitreader::Bitreader;
use cs2demo::qfloat::QuantalizedFloat;

const RD: u32 = 1;
const RU: u32 = 2;
const EZ: u32 = 4;
const EI: u32 = 8;

/// Native reference of the descriptor initialisation.
#[derive(Debug, Clone, Copy)]
struct RefQf {
    low: f32,
    high: f32,
    high_low_mul: f32,
    dec_mul: f32,
    bit_count: u32,
    flags: u32,
    no_scale: bool,
}

impl RefQf {
    fn validate_flags(&mut self) {
        if self.flags == 0 {
            return;
        }
        if (self.low == 0.0 && (self.flags & RD) != 0) || (self.high == 0.0 && (self.flags & RU) != 0)
        {
            self.flags &= !EZ;
        }
        if self.low == 0.0 && (self.flags & EZ) != 0 {
            self.flags |= RD;
            self.flags &= !EZ;
        }
        if self.high == 0.0 && (self.flags & EZ) != 0 {
            self.flags |= RU;
            self.flags &= !EZ;
        }
        if self.low > 0.0 || self.high < 0.0 {
            self.flags &= !EZ;
        }
        if (self.flags & EI) != 0 {
            self.flags &= !(RU | RD | EZ);
        }
        self.flags &= 15;
    }

    fn assign_multipliers(&mut self, steps: u64) {
        self.high_low_mul = 0.0;
        let range = self.high - self.low;
        let high: u32 = if self.bit_count == 32 {
            0xFFFF_FFFE
        } else {
            (1u32 << self.bit_count) - 1
        };
        let mut high_mul: f32;
        if range.abs() <= 0.0 || range.is_nan() {
            high_mul = high as f32;
        } else {
            high_mul = (high as f32) / range;
        }
        if high_mul * range > (high as f32) {
            for m in [0.9999f32, 0.99, 0.9, 0.8, 0.7] {
                high_mul = (high as f32) / range * m;
                if !(high_mul * range > (high as f32)) {
                    break;
                }
            }
        }
        self.high_low_mul = high_mul;
        self.dec_mul = 1.0 / (steps - 1) as f32;
    }

    fn quantize(&self, val: f32) -> f32 {
        if val < self.low {
            return self.low;
        }
        if val > self.high {
            return self.high;
        }
        let i = ((val - self.low) * self.high_low_mul) as u32;
        self.low + (self.high - self.low) * ((i as f32) * self.dec_mul)
    }

    fn new(bitcount: u32, flags: i32, low: f32, high: f32) -> Self {
        let mut qf = RefQf {
            low: 0.0,
            high: 0.0,
            high_low_mul: 0.0,
            dec_mul: 0.0,
            bit_count: 0,
            flags: 0,
            no_scale: false,
        };
        if bitcount == 0 || bitcount >= 32 {
            qf.no_scale = true;
            qf.bit_count = 32;
            return qf;
        }
        qf.bit_count = bitcount;
        qf.low = low;
        qf.high = high;
        qf.flags = flags as u32;
        qf.validate_flags();
        let mut steps: u64 = 1 << qf.bit_count;
        if (qf.flags & RD) != 0 {
            let range = qf.high - qf.low;
            qf.high -= range / steps as f32;
        } else if (qf.flags & RU) != 0 {
            let range = qf.high - qf.low;
            qf.low += range / steps as f32;
        }
        if (qf.flags & EI) != 0 {
            let mut delta = qf.high - qf.low;
            if delta < 1.0 {
                delta = 1.0;
            }
            let delta_log2 = delta.log2().ceil() as u32 & 31;
            let range_2: u32 = 1 << delta_log2;
            let mut bit_count = qf.bit_count;
            while bit_count < 32 && (1u64 << bit_count) <= range_2 as u64 {
                bit_count += 1;
            }
            if bit_count > qf.bit_count {
                qf.bit_count = bit_count;
                steps = 1 << qf.bit_count;
            }
            let offset = range_2 as f32 / steps as f32;
            qf.high = qf.low + (range_2 as f32 - offset);
        }
        qf.assign_multipliers(steps);
        if (qf.flags & RD) != 0 && qf.quantize(qf.low) == qf.low {
            qf.flags &= !RD;
        }
        if (qf.flags & RU) != 0 && qf.quantize(qf.high) == qf.high {
            qf.flags &= !RU;
        }
        if (qf.flags & EZ) != 0 && qf.quantize(0.0) == 0.0 {
            qf.flags &= !EZ;
        }
        qf
    }
}

fn descriptors() -> Vec<(u32, i32, f32, f32)> {
    vec![
        (10, 0, 0.0, 102.3),
        (10, 1, 0.0, 102.3),
        (10, 2, 0.0, 102.3),
        (10, 4, -30.0, 30.0),
        (10, 8, 0.0, 1000.0),
        (12, 1, -500.0, 500.0),
        (8, 2, -4.0, 0.0),
        (16, 0, 0.0, 1.0),
        (20, 5, -1.0, 1.0),
        (7, 3, 0.0, 360.0),
        (11, 0, -180.0, 180.0),
        (6, 8, 0.0, 64.0),
        (1, 0, 0.0, 1.0),
        (31, 0, 0.0, 1024.0),
        (0, 0, 0.0, 0.0),
        (32, 0, 0.0, 0.0),
        (15, 4, -102.4, 102.4),
        (10, 1, 5.0, 5.0),
    ]
}

#[test]
fn initialisation_matches_reference() {
    for (bc, fl, lo, hi) in descriptors() {
        let ours = QuantalizedFloat::new(bc, Some(fl), Some(lo.to_bits()), Some(hi.to_bits()));
        let refq = RefQf::new(bc, fl, lo, hi);
        assert_eq!(ours.no_scale, refq.no_scale, "{bc} {fl} {lo} {hi}");
        assert_eq!(ours.bit_count, refq.bit_count, "{bc} {fl} {lo} {hi}");
        if !ours.no_scale {
            assert_eq!(ours.flags, refq.flags, "{bc} {fl} {lo} {hi}");
            assert_eq!(ours.low, refq.low.to_bits(), "{bc} {fl} {lo} {hi}");
            assert_eq!(ours.high, refq.high.to_bits(), "{bc} {fl} {lo} {hi}");
            assert_eq!(
                ours.high_low_mul,
                refq.high_low_mul.to_bits(),
                "{bc} {fl} {lo} {hi}"
            );
            assert_eq!(ours.dec_mul, refq.dec_mul.to_bits(), "{bc} {fl} {lo} {hi}");
        }
    }
}

#[test]
fn decoding_matches_reference_and_range() {
    for (bc, fl, lo, hi) in descriptors() {
        let ours = QuantalizedFloat::new(bc, Some(fl), Some(lo.to_bits()), Some(hi.to_bits()));
        if ours.no_scale {
            continue;
        }
        let refq = RefQf::new(bc, fl, lo, hi);
        // Bit fields drawn across the range, with all specials clear.
        for raw in [0u64, 1, 2, 5, 100, (1 << bc.min(31)) - 1] {
            let mut stream: Vec<u8> = Vec::new();
            // Special booleans (all zero), then the raw field, LSB first.
            let special_bits = (ours.flags & 1) + ((ours.flags >> 1) & 1) + ((ours.flags >> 2) & 1);
            let total = special_bits + ours.bit_count;
            let mut acc: u128 = (raw as u128) << special_bits;
            for _ in 0..(total + 7) / 8 {
                stream.push((acc & 0xff) as u8);
                acc >>= 8;
            }
            let mut r = Bitreader::new(stream);
            let got = ours.decode(&mut r).unwrap();
            let bits = (raw as u128 & ((1u128 << ours.bit_count) - 1)) as u32;
            let expect = refq.low + (refq.high - refq.low) * (bits as f32) * refq.dec_mul;
            assert_eq!(got, expect.to_bits(), "decode {bc} {fl} {lo} {hi} raw {raw}");
            // Range property: within the adjusted bounds plus a step.
            let v = f32::from_bits(got);
            let step = (refq.high - refq.low).abs() * refq.dec_mul;
            assert!(
                v >= refq.low.min(refq.high) - step - 1e-3
                    && v <= refq.low.max(refq.high) + step + 1e-3,
                "range {bc} {fl} {lo} {hi} raw {raw} v {v}"
            );
        }
        // The flag-gated specials return the exact bounds.
        if ours.flags & 1 != 0 {
            let mut r = Bitreader::new(vec![0x01]);
            assert_eq!(ours.decode(&mut r).unwrap(), refq.low.to_bits());
        }
        if ours.flags & 2 != 0 {
            let first = (ours.flags & 1) as u8;
            let mut r = Bitreader::new(vec![0x01 << first]);
            assert_eq!(ours.decode(&mut r).unwrap(), refq.high.to_bits());
        }
    }
}
