//! The quantised-float descriptor: a bit-packed float encoding with
//! optional rounding and zero-encode behaviour.  All float values are
//! kept and computed as raw single-precision bit patterns.

use crate::bitreader::Bitreader;
use crate::parser::FirstPassError;
use crate::softfloat::{
    f32_add, f32_ceil_log2, f32_div, f32_eq, f32_from_u32, f32_from_u64, f32_gt, f32_lt, f32_mul,
    f32_sub, f32_to_u32, spec_f32_eq, spec_f32_lt, F32_ONE,
};
use vstd::prelude::*;

verus! {

pub const QFF_ROUNDDOWN: u32 = 1;

pub const QFF_ROUNDUP: u32 = 2;

pub const QFF_ENCODE_ZERO: u32 = 4;

pub const QFF_ENCODE_INTEGERS: u32 = 8;

/// A quantised-float descriptor; `low`, `high`, `high_low_mul`,
/// `dec_mul` and `offset` are single-precision bit patterns.
#[derive(Debug, Clone, Copy, PartialEq, Eq, Structural)]
pub struct QuantalizedFloat {
    pub low: u32,
    pub high: u32,
    pub high_low_mul: u32,
    pub dec_mul: u32,
    pub offset: u32,
    pub bit_count: u32,
    pub flags: u32,
    pub no_scale: bool,
}

/// The descriptor table built while the schema is read; entry `idx` of
/// the table backs `QuantalizedFloatDecoder(idx)`.
#[derive(Debug)]
pub struct QfMapper {
    pub idx: u32,
    pub map: Vec<QuantalizedFloat>,
}

impl QfMapper {
    pub fn new() -> (r: QfMapper)
        ensures
            r.idx == 0,
            r.map@.len() == 0,
    {
        QfMapper { idx: 0, map: Vec::new() }
    }
}

/// The flag normalisation of a raw descriptor: rounding towards a zero
/// bound replaces zero-encoding, a range that excludes zero drops it,
/// and integer encoding drops every other flag (pure pattern logic over
/// the IEEE order).
pub open spec fn spec_validate_flags(flags: u32, low: u32, high: u32) -> u32 {
    if flags == 0 {
        0
    } else {
        let lz = spec_f32_eq(low, 0);
        let hz = spec_f32_eq(high, 0);
        let f1 = if (lz && flags & QFF_ROUNDDOWN != 0) || (hz && flags & QFF_ROUNDUP != 0) {
            flags & !QFF_ENCODE_ZERO
        } else {
            flags
        };
        let f2 = if lz && f1 & QFF_ENCODE_ZERO != 0 {
            (f1 | QFF_ROUNDDOWN) & !QFF_ENCODE_ZERO
        } else {
            f1
        };
        let f3 = if hz && f2 & QFF_ENCODE_ZERO != 0 {
            (f2 | QFF_ROUNDUP) & !QFF_ENCODE_ZERO
        } else {
            f2
        };
        let f4 = if spec_f32_lt(0, low) || spec_f32_lt(high, 0) {
            f3 & !QFF_ENCODE_ZERO
        } else {
            f3
        };
        let f5 = if f4 & QFF_ENCODE_INTEGERS != 0 {
            f4 & !(QFF_ROUNDUP | QFF_ROUNDDOWN | QFF_ENCODE_ZERO)
        } else {
            f4
        };
        f5 & 15
    }
}

/// Bits one decode of a descriptor with these flags consumes at `pos`:
/// each flag-gated leading boolean short-circuits when set, else the
/// bit field follows the gates.
pub open spec fn qf_read_len(flags: u32, bit_count: u32, data: Seq<u8>, pos: int) -> int {
    let rd = flags & QFF_ROUNDDOWN != 0;
    if rd && crate::bitreader::bit_at(data, pos) == 1 {
        1
    } else {
        let p1 = pos + (if rd {
            1int
        } else {
            0int
        });
        let ru = flags & QFF_ROUNDUP != 0;
        if ru && crate::bitreader::bit_at(data, p1) == 1 {
            p1 + 1 - pos
        } else {
            let p2 = p1 + (if ru {
                1int
            } else {
                0int
            });
            let ez = flags & QFF_ENCODE_ZERO != 0;
            if ez && crate::bitreader::bit_at(data, p2) == 1 {
                p2 + 1 - pos
            } else {
                let p3 = p2 + (if ez {
                    1int
                } else {
                    0int
                });
                p3 - pos + bit_count
            }
        }
    }
}

impl QuantalizedFloat {
    /// A usable descriptor reads at most 32 bits at a time.
    pub open spec fn wf(&self) -> bool {
        1 <= self.bit_count <= 32
    }

    /// Normalises the flags: rounding towards a zero bound replaces
    /// zero-encoding, a range that excludes zero drops it, and integer
    /// encoding drops every other flag.
    fn validate_flags(&mut self)
        ensures
            final (self).flags < 16,
            *final (self) == (QuantalizedFloat { flags: final (self).flags, ..*old(self) }),
            final (self).flags == spec_validate_flags(
                old(self).flags,
                old(self).low,
                old(self).high,
            ),
    {
        if self.flags == 0 {
            self.flags = 0;
            return ;
        }
        let low_zero = f32_eq(self.low, 0);
        let high_zero = f32_eq(self.high, 0);
        if (low_zero && (self.flags & QFF_ROUNDDOWN) != 0) || (high_zero && (self.flags
            & QFF_ROUNDUP) != 0) {
            self.flags = self.flags & !QFF_ENCODE_ZERO;
        }
        if low_zero && (self.flags & QFF_ENCODE_ZERO) != 0 {
            self.flags = self.flags | QFF_ROUNDDOWN;
            self.flags = self.flags & !QFF_ENCODE_ZERO;
        }
        if high_zero && (self.flags & QFF_ENCODE_ZERO) != 0 {
            self.flags = self.flags | QFF_ROUNDUP;
            self.flags = self.flags & !QFF_ENCODE_ZERO;
        }
        if f32_gt(self.low, 0) || f32_lt(self.high, 0) {
            self.flags = self.flags & !QFF_ENCODE_ZERO;
        }
        if (self.flags & QFF_ENCODE_INTEGERS) != 0 {
            self.flags = self.flags & !(QFF_ROUNDUP | QFF_ROUNDDOWN | QFF_ENCODE_ZERO);
        }
        let f = self.flags;
        proof {
            assert(f & 15 < 16) by (bit_vector);
        }
        self.flags = f & 15;
    }

    /// Computes the multiplier taking a value in `[low, high]` onto the
    /// integer grid, backing off when rounding pushes it past the top.
    fn assign_multipliers(&mut self, steps: u64)
        requires
            1 <= old(self).bit_count <= 32,
            steps >= 2,
        ensures
            final (self).bit_count == old(self).bit_count,
            final (self).flags == old(self).flags,
            final (self).low == old(self).low,
            final (self).high == old(self).high,
            final (self).no_scale == old(self).no_scale,
    {
        self.high_low_mul = 0;
        let range = f32_sub(self.high, self.low);
        let bc = self.bit_count;
        let high: u32 = if bc == 32 {
            0xFFFF_FFFE
        } else {
            proof {
                assert(1u32 << bc >= 1) by (bit_vector)
                    requires
                        bc < 32,
                ;
            }
            (1u32 << bc) - 1
        };
        let high_f = f32_from_u32(high);
        let range_zero = crate::softfloat::f32_is_zero(range) || crate::softfloat::f32_is_nan(
            range,
        );
        let mut high_mul: u32 = if range_zero {
            high_f
        } else {
            f32_div(high_f, range)
        };
        if f32_gt(f32_mul(high_mul, range), high_f) {
            // Back off through the fixed fallback factors.
            let mut k: u32 = 0;
            while k < 5
                invariant
                    k <= 5,
                decreases 5 - k,
            {
                let factor: u32 = if k == 0 {
                    f32_div(f32_from_u32(9999), f32_from_u32(10000))
                } else if k == 1 {
                    f32_div(f32_from_u32(99), f32_from_u32(100))
                } else if k == 2 {
                    f32_div(f32_from_u32(9), f32_from_u32(10))
                } else if k == 3 {
                    f32_div(f32_from_u32(8), f32_from_u32(10))
                } else {
                    f32_div(f32_from_u32(7), f32_from_u32(10))
                };
                high_mul = f32_mul(f32_div(high_f, range), factor);
                if !f32_gt(f32_mul(high_mul, range), high_f) {
                    break ;
                }
                k = k + 1;
            }
        }
        self.high_low_mul = high_mul;
        self.dec_mul = f32_div(F32_ONE, f32_from_u64(steps - 1));
    }

    /// Snaps a value onto the descriptor's grid.
    pub fn quantize(&self, val: u32) -> (r: u32) {
        if f32_lt(val, self.low) {
            return self.low;
        }
        if f32_gt(val, self.high) {
            return self.high;
        }
        let i = f32_to_u32(f32_mul(f32_sub(val, self.low), self.high_low_mul));
        f32_add(self.low, f32_mul(f32_sub(self.high, self.low), f32_mul(f32_from_u32(i), self.dec_mul)))
    }

    /// Builds a descriptor from the schema's raw bit count, flags and
    /// bounds (bound patterns as sent).  A bit count of 0 or at least
    /// 32 keeps the full 32-bit encoding.
    pub fn new(bitcount: u32, flags: Option<i32>, low_value: Option<u32>, high_value: Option<u32>) -> (r:
        QuantalizedFloat)
        ensures
            r.wf(),
            r.no_scale == (bitcount == 0 || bitcount >= 32),
            r.no_scale ==> r.bit_count == 32,
            !r.no_scale ==> r.bit_count >= bitcount,
            r.flags < 16,
            (!r.no_scale && (flags is None || flags == Some(0i32))) ==> ({
                &&& r.flags == 0
                &&& r.bit_count == bitcount
                &&& r.low == (match low_value {
                    Some(b) => b,
                    None => 0,
                })
                &&& r.high == (match high_value {
                    Some(b) => b,
                    None => F32_ONE,
                })
            }),
            !r.no_scale ==> ({
                let low_in = match low_value {
                    Some(b) => b,
                    None => 0u32,
                };
                let high_in = match high_value {
                    Some(b) => b,
                    None => F32_ONE,
                };
                let vf = spec_validate_flags(
                    match flags {
                        Some(f) => f as u32,
                        None => 0u32,
                    },
                    low_in,
                    high_in,
                );
                &&& r.flags & vf == r.flags
                &&& r.flags & QFF_ENCODE_INTEGERS == vf & QFF_ENCODE_INTEGERS
                &&& (vf & QFF_ENCODE_INTEGERS == 0 ==> r.bit_count == bitcount)
                &&& (vf & (QFF_ROUNDDOWN | QFF_ROUNDUP | QFF_ENCODE_INTEGERS) == 0 ==> (r.low
                    == low_in && r.high == high_in))
            }),
    {
        let mut qf = QuantalizedFloat {
            no_scale: false,
            bit_count: 0,
            dec_mul: 0,
            low: 0,
            high: 0,
            high_low_mul: 0,
            offset: 0,
            flags: 0,
        };
        if bitcount == 0 || bitcount >= 32 {
            qf.no_scale = true;
            qf.bit_count = 32;
            return qf;
        }
        qf.no_scale = false;
        qf.bit_count = bitcount;
        qf.offset = 0;
        qf.low = match low_value {
            Some(bits) => bits,
            None => 0,
        };
        qf.high = match high_value {
            Some(bits) => bits,
            None => F32_ONE,
        };
        qf.flags = match flags {
            Some(f) => f as u32,
            None => 0,
        };
        qf.validate_flags();
        let ghost vf0 = qf.flags;
        proof {
            assert(0u32 & 1 == 0 && 0u32 & 2 == 0 && 0u32 & 4 == 0 && 0u32 & 8 == 0 && vf0 & vf0
                == vf0 && (vf0 & (1u32 | 2 | 8) == 0 ==> (vf0 & 1 == 0 && vf0 & 2 == 0 && vf0 & 8
                == 0))) by (bit_vector);
        }
        let mut steps: u64 = 1u64 << qf.bit_count;
        if (qf.flags & QFF_ROUNDDOWN) != 0 {
            let range = f32_sub(qf.high, qf.low);
            qf.offset = f32_div(range, f32_from_u64(steps));
            qf.high = f32_sub(qf.high, qf.offset);
        } else if (qf.flags & QFF_ROUNDUP) != 0 {
            let range = f32_sub(qf.high, qf.low);
            qf.offset = f32_div(range, f32_from_u64(steps));
            qf.low = f32_add(qf.low, qf.offset);
        }
        if (qf.flags & QFF_ENCODE_INTEGERS) != 0 {
            let mut delta = f32_sub(qf.high, qf.low);
            if f32_lt(delta, F32_ONE) {
                delta = F32_ONE;
            }
            let raw_log2 = f32_ceil_log2(delta);
            let delta_log2 = raw_log2 & 31;
            proof {
                assert(raw_log2 & 31 < 32) by (bit_vector);
            }
            let range_2: u32 = 1u32 << delta_log2;
            let mut bit_count = qf.bit_count;
            while bit_count < 32 && (1u64 << bit_count) <= range_2 as u64
                invariant
                    1 <= bit_count <= 32,
                decreases 32 - bit_count,
            {
                bit_count = bit_count + 1;
            }
            if bit_count > qf.bit_count {
                qf.bit_count = bit_count;
                steps = 1u64 << qf.bit_count;
            }
            qf.offset = f32_div(f32_from_u32(range_2), f32_from_u64(steps));
            qf.high = f32_add(qf.low, f32_sub(f32_from_u32(range_2), qf.offset));
        }
        let bc2 = qf.bit_count;
        proof {
            assert(1u64 << bc2 >= 2) by (bit_vector)
                requires
                    1 <= bc2 <= 32,
            ;
        }
        qf.assign_multipliers(steps);
        if (qf.flags & QFF_ROUNDDOWN) != 0 {
            if f32_eq(qf.quantize(qf.low), qf.low) {
                let fcur = qf.flags;
                proof {
                    assert(fcur & !QFF_ROUNDDOWN <= fcur && (fcur & vf0 == fcur ==> (fcur
                        & !QFF_ROUNDDOWN) & vf0 == fcur & !QFF_ROUNDDOWN) && (fcur & !QFF_ROUNDDOWN) & 8
                        == fcur & 8) by (bit_vector);
                }
                qf.flags = fcur & !QFF_ROUNDDOWN;
            }
        }
        if (qf.flags & QFF_ROUNDUP) != 0 {
            if f32_eq(qf.quantize(qf.high), qf.high) {
                let fcur = qf.flags;
                proof {
                    assert(fcur & !QFF_ROUNDUP <= fcur && (fcur & vf0 == fcur ==> (fcur
                        & !QFF_ROUNDUP) & vf0 == fcur & !QFF_ROUNDUP) && (fcur & !QFF_ROUNDUP) & 8
                        == fcur & 8) by (bit_vector);
                }
                qf.flags = fcur & !QFF_ROUNDUP;
            }
        }
        if (qf.flags & QFF_ENCODE_ZERO) != 0 {
            if f32_eq(qf.quantize(0), 0) {
                let fcur = qf.flags;
                proof {
                    assert(fcur & !QFF_ENCODE_ZERO <= fcur && (fcur & vf0 == fcur ==> (fcur
                        & !QFF_ENCODE_ZERO) & vf0 == fcur & !QFF_ENCODE_ZERO) && (fcur & !QFF_ENCODE_ZERO) & 8
                        == fcur & 8) by (bit_vector);
                }
                qf.flags = fcur & !QFF_ENCODE_ZERO;
            }
        }
        qf
    }

    /// Decodes one value: flag-gated specials for the low bound, the
    /// high bound and zero, else `bit_count` bits scaled onto the
    /// range as `low + (high - low) * bits * dec_mul`.  Returns the
    /// value's bit pattern; the gated specials are pinned exactly in
    /// the contract, while the scaled form is floating-point work that
    /// the differential tests check bit for bit.
    pub fn decode(&self, bitreader: &mut Bitreader) -> (r: Result<u32, FirstPassError>)
        requires
            self.wf(),
            old(bitreader).wf(),
        ensures
            final (bitreader).wf(),
            final (bitreader).data@ == old(bitreader).data@,
            final (bitreader).pos >= old(bitreader).pos,
            ({
                let data = old(bitreader).data@;
                let pos = old(bitreader).pos as int;
                let len = qf_read_len(self.flags, self.bit_count, data, pos);
                let rd = self.flags & QFF_ROUNDDOWN != 0;
                let ru = self.flags & QFF_ROUNDUP != 0;
                let p1 = pos + (if rd {
                    1int
                } else {
                    0int
                });
                let p2 = p1 + (if ru {
                    1int
                } else {
                    0int
                });
                &&& (r is Err <==> pos + len > old(bitreader).total_bits())
                &&& r is Ok ==> final (bitreader).pos == pos + len
                &&& (r is Ok && rd && crate::bitreader::bit_at(data, pos) == 1) ==> r == Ok::<
                    u32,
                    FirstPassError,
                >(self.low)
                &&& (r is Ok && ru && crate::bitreader::bit_at(data, p1) == 1 && (!rd
                    || crate::bitreader::bit_at(data, pos) == 0)) ==> r == Ok::<
                    u32,
                    FirstPassError,
                >(self.high)
                &&& (r is Ok && self.flags & QFF_ENCODE_ZERO != 0 && (!rd
                    || crate::bitreader::bit_at(data, pos) == 0) && (!ru
                    || crate::bitreader::bit_at(data, p1) == 0) && crate::bitreader::bit_at(
                    data,
                    p2,
                ) == 1) ==> r == Ok::<u32, FirstPassError>(0)
            }),
    {
        if self.flags & QFF_ROUNDDOWN != 0 {
            let b = bitreader.read_boolean().map_err(|e| FirstPassError::Bitreader(e))?;
            if b {
                return Ok(self.low);
            }
        }
        if self.flags & QFF_ROUNDUP != 0 {
            let b = bitreader.read_boolean().map_err(|e| FirstPassError::Bitreader(e))?;
            if b {
                return Ok(self.high);
            }
        }
        if self.flags & QFF_ENCODE_ZERO != 0 {
            let b = bitreader.read_boolean().map_err(|e| FirstPassError::Bitreader(e))?;
            if b {
                return Ok(0);
            }
        }
        let bits = bitreader.read_nbits(self.bit_count).map_err(
            |e| FirstPassError::Bitreader(e),
        )?;
        Ok(
            f32_add(
                self.low,
                f32_mul(
                    f32_mul(f32_sub(self.high, self.low), f32_from_u32(bits)),
                    self.dec_mul,
                ),
            ),
        )
    }
}

} // verus!
