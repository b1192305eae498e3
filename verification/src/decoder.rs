//! The catalogue of primitive value decoders: the fixed mapping from
//! the bit stream to a `Variant` for each named decoder, and the rules
//! assigning a decoder to a schema field.

use crate::bitreader::Bitreader;
use crate::byteops::{bytes_contains, bytes_eq};
use crate::parser::FirstPassError;
use crate::qfloat::{QfMapper, QuantalizedFloat};
use crate::softfloat::{
    f32_add, f32_div, f32_from_u32, f32_from_u64, f32_lt, f32_mul, f32_sqrt, f32_sub, F32_ONE,
    F32_SIGN,
};
use crate::variant::Variant;
use vstd::prelude::*;
use vstd::string::StringSliceAdditionalSpecFns;

verus! {

/// The named decoders; a quantised-float decoder carries the index of
/// its descriptor in the `QfMapper`.
#[derive(Debug, Clone, Copy, PartialEq, Eq, Structural)]
pub enum Decoder {
    QuantalizedFloatDecoder(u8),
    VectorNormalDecoder,
    VectorNoscaleDecoder,
    VectorFloatCoordDecoder,
    Unsigned64Decoder,
    CentityHandleDecoder,
    NoscaleDecoder,
    BooleanDecoder,
    StringDecoder,
    SignedDecoder,
    UnsignedDecoder,
    ComponentDecoder,
    FloatCoordDecoder,
    FloatSimulationTimeDecoder,
    Fixed64Decoder,
    QanglePitchYawDecoder,
    Qangle3Decoder,
    QangleVarDecoder,
    BaseDecoder,
    AmmoDecoder,
    QanglePresDecoder,
    GameModeRulesDecoder,
}

/// Common shape of a decoding step: the buffer is untouched and the
/// cursor only moves forward.
pub open spec fn reader_advanced(old_r: Bitreader, new_r: Bitreader) -> bool {
    &&& new_r.wf()
    &&& new_r.data@ == old_r.data@
    &&& new_r.pos >= old_r.pos
}

/// Bits one bit-coord occupies at `pos`: two flags, and when either is
/// set a sign bit plus the flagged 14-bit and 5-bit parts.
pub open spec fn coord_len(data: Seq<u8>, pos: int) -> int {
    let i2 = crate::bitreader::bit_at(data, pos) == 1;
    let f2 = crate::bitreader::bit_at(data, pos + 1) == 1;
    if !i2 && !f2 {
        2
    } else {
        3 + (if i2 {
            14int
        } else {
            0int
        }) + (if f2 {
            5int
        } else {
            0int
        })
    }
}

/// Bits a presence-masked angle triple occupies: three flags, then one
/// bit-coord per set flag.
pub open spec fn qangle_var_len(data: Seq<u8>, pos: int) -> int {
    let hx = crate::bitreader::bit_at(data, pos) == 1;
    let hy = crate::bitreader::bit_at(data, pos + 1) == 1;
    let hz = crate::bitreader::bit_at(data, pos + 2) == 1;
    let p = pos + 3;
    let lx: int = if hx {
        coord_len(data, p)
    } else {
        0
    };
    let ly: int = if hy {
        coord_len(data, p + lx)
    } else {
        0
    };
    let lz: int = if hz {
        coord_len(data, p + lx + ly)
    } else {
        0
    };
    3 + lx + ly + lz
}

/// Bits three chained bit-coords occupy.
pub open spec fn vec_coord_len(data: Seq<u8>, pos: int) -> int {
    let l0 = coord_len(data, pos);
    let l1 = coord_len(data, pos + l0);
    let l2 = coord_len(data, pos + l0 + l1);
    l0 + l1 + l2
}

/// Bits a normal vector occupies: two presence flags, a 12-bit normal
/// per set flag, and the z sign.
pub open spec fn normal_vec_len(data: Seq<u8>, pos: int) -> int {
    let hx = crate::bitreader::bit_at(data, pos) == 1;
    let hy = crate::bitreader::bit_at(data, pos + 1) == 1;
    2 + (if hx {
        12int
    } else {
        0int
    }) + (if hy {
        12int
    } else {
        0int
    }) + 1
}

/// Bits a presence-masked precise-angle triple occupies.
pub open spec fn qangle_pres_len(data: Seq<u8>, pos: int) -> int {
    let hx = crate::bitreader::bit_at(data, pos) == 1;
    let hy = crate::bitreader::bit_at(data, pos + 1) == 1;
    let hz = crate::bitreader::bit_at(data, pos + 2) == 1;
    3 + (if hx {
        20int
    } else {
        0int
    }) + (if hy {
        20int
    } else {
        0int
    }) + (if hz {
        20int
    } else {
        0int
    })
}

/// Byte length of the zero-terminated string at `pos`, not counting the
/// terminator; -1 when no terminator fits in the buffer.
pub open spec fn spec_strlen(data: Seq<u8>, pos: int) -> int
    decreases data.len() * 8 - pos,
{
    if pos < 0 || pos + 8 > data.len() * 8 {
        -1
    } else if crate::bitreader::byte_at(data, pos) == 0 {
        0
    } else {
        let rest = spec_strlen(data, pos + 8);
        if rest < 0 {
            -1
        } else {
            1 + rest
        }
    }
}

/// Walking past `k` non-zero leading bytes shortens the string by `k`.
pub proof fn lemma_strlen_unroll(data: Seq<u8>, pos: int, k: int)
    requires
        0 <= pos,
        k >= 0,
        pos + 8 * k <= data.len() * 8,
        forall|j: int| 0 <= j < k ==> #[trigger] crate::bitreader::byte_at(data, pos + 8 * j) != 0,
    ensures
        spec_strlen(data, pos) == if spec_strlen(data, pos + 8 * k) < 0 {
            -1int
        } else {
            k + spec_strlen(data, pos + 8 * k)
        },
    decreases k,
{
    if k > 0 {
        assert(crate::bitreader::byte_at(data, pos + 8 * 0) != 0);
        assert forall|j: int| 0 <= j < k - 1 implies #[trigger] crate::bitreader::byte_at(
            data,
            pos + 8 + 8 * j,
        ) != 0 by {
            assert(crate::bitreader::byte_at(data, pos + 8 * (j + 1)) != 0);
        }
        lemma_strlen_unroll(data, pos + 8, k - 1);
    }
}

impl Bitreader {
    /// An optional 14-bit integer part, an optional 5-bit fraction in
    /// 1/32 steps, and a sign; returns the value's bit pattern.
    pub fn read_bit_coord(&mut self) -> (r: Result<u32, FirstPassError>)
        requires
            old(self).wf(),
        ensures
            reader_advanced(*old(self), *final (self)),
            r is Err <==> old(self).pos + coord_len(old(self).data@, old(self).pos as int) > old(
                self,
            ).total_bits(),
            r is Ok ==> final (self).pos == old(self).pos + coord_len(
                old(self).data@,
                old(self).pos as int,
            ),
            r is Ok && crate::bitreader::bit_at(old(self).data@, old(self).pos as int) == 0
                && crate::bitreader::bit_at(old(self).data@, old(self).pos + 1) == 0 ==> r == Ok::<
                u32,
                FirstPassError,
            >(0),
    {
        let mut int_val: u32 = 0;
        let mut frac_val: u32 = 0;
        let i2 = self.read_boolean().map_err(|e| FirstPassError::Bitreader(e))?;
        let f2 = self.read_boolean().map_err(|e| FirstPassError::Bitreader(e))?;
        if !i2 && !f2 {
            return Ok(0);
        }
        let sign = self.read_boolean().map_err(|e| FirstPassError::Bitreader(e))?;
        if i2 {
            let ghost d = self.data@;
            let ghost p = self.pos as int;
            let v = self.read_nbits(14).map_err(|e| FirstPassError::Bitreader(e))?;
            proof {
                crate::bitreader::lemma_bits_val_bound(d, p, 14);
                vstd::arithmetic::power2::lemma2_to64();
            }
            int_val = v + 1;
        }
        if f2 {
            let ghost d2 = self.data@;
            let ghost p2 = self.pos as int;
            let fv = self.read_nbits(5).map_err(|e| FirstPassError::Bitreader(e))?;
            proof {
                crate::bitreader::lemma_bits_val_bound(d2, p2, 5);
                vstd::arithmetic::power2::lemma2_to64();
            }
            frac_val = fv;
        }
        // The value is (int + frac/32), exactly (int*32 + frac)/32.
        let m = int_val * 32 + frac_val;
        let bits = f32_div(f32_from_u32(m), f32_from_u32(32));
        if sign {
            Ok(bits | F32_SIGN)
        } else {
            Ok(bits)
        }
    }

    /// A 20-bit reading mapped uniformly onto [-180, 180).
    pub fn read_bit_coord_pres(&mut self) -> (r: Result<u32, FirstPassError>)
        requires
            old(self).wf(),
        ensures
            reader_advanced(*old(self), *final (self)),
            r is Err <==> old(self).pos + 20 > old(self).total_bits(),
            r is Ok ==> final (self).pos == old(self).pos + 20,
    {
        let v = self.read_nbits(20).map_err(|e| FirstPassError::Bitreader(e))?;
        Ok(
            f32_sub(
                f32_div(f32_mul(f32_from_u32(v), f32_from_u32(360)), f32_from_u32(0x10_0000)),
                f32_from_u32(180),
            ),
        )
    }

    /// A raw 32-bit IEEE pattern.
    pub fn decode_noscale(&mut self) -> (r: Result<u32, FirstPassError>)
        requires
            old(self).wf(),
        ensures
            reader_advanced(*old(self), *final (self)),
            r is Err <==> old(self).pos + 32 > old(self).total_bits(),
            r matches Ok(v) ==> final (self).pos == old(self).pos + 32 && v
                == crate::bitreader::bits_val(old(self).data@, old(self).pos as int, 32),
    {
        self.read_nbits(32).map_err(|e| FirstPassError::Bitreader(e))
    }

    /// A zero-terminated byte string, kept as its exact wire bytes
    /// without the terminator.
    pub fn read_string(&mut self) -> (r: Result<Vec<u8>, FirstPassError>)
        requires
            old(self).wf(),
        ensures
            reader_advanced(*old(self), *final (self)),
            r is Err <==> spec_strlen(old(self).data@, old(self).pos as int) < 0,
            r matches Ok(v) ==> ({
                let n = spec_strlen(old(self).data@, old(self).pos as int);
                &&& v@.len() == n
                &&& forall|i: int|
                    0 <= i < n ==> v@[i] == crate::bitreader::byte_at(
                        old(self).data@,
                        old(self).pos + 8 * i,
                    )
                &&& final (self).pos == old(self).pos + 8 * (n + 1)
            }),
    {
        let ghost d0 = old(self).data@;
        let ghost p0 = old(self).pos as int;
        let mut s: Vec<u8> = Vec::new();
        loop
            invariant
                self.wf(),
                self.data@ == d0,
                d0 == old(self).data@,
                p0 == old(self).pos,
                self.pos == p0 + 8 * s@.len(),
                forall|i: int|
                    0 <= i < s@.len() ==> s@[i] == crate::bitreader::byte_at(d0, p0 + 8 * i),
                forall|i: int|
                    0 <= i < s@.len() ==> #[trigger] crate::bitreader::byte_at(d0, p0 + 8 * i)
                        != 0,
            decreases self.total_bits() - self.pos,
        {
            let ghost k = s@.len() as int;
            let ghost d = self.data@;
            let ghost p = self.pos as int;
            let c = match self.read_nbits(8) {
                Ok(c) => c,
                Err(e) => {
                    proof {
                        lemma_strlen_unroll(d0, p0, k);
                    }
                    return Err(FirstPassError::Bitreader(e));
                },
            };
            proof {
                crate::bitreader::lemma_bits_val_bound(d, p, 8);
                vstd::arithmetic::power2::lemma2_to64();
                lemma_strlen_unroll(d0, p0, k);
            }
            if c == 0 {
                return Ok(s);
            }
            s.push(c as u8);
        }
    }

    /// A varint, decremented by one when non-zero.
    pub fn decode_ammo(&mut self) -> (r: Result<u32, FirstPassError>)
        requires
            old(self).wf(),
        ensures
            reader_advanced(*old(self), *final (self)),
            ({
                let s = crate::bitreader::varint_bytes(old(self).data@, old(self).pos as int);
                let len = crate::varint::spec_varint_len(s);
                let val = crate::varint::spec_varint_value(s, len);
                &&& (r is Err <==> old(self).pos + 8 * len > old(self).total_bits())
                &&& r is Ok ==> final (self).pos == old(self).pos + 8 * len && r == Ok::<
                    u32,
                    FirstPassError,
                >(
                    if val > 0 {
                        (val - 1) as u32
                    } else {
                        val
                    },
                )
            }),
    {
        let ammo = self.read_varint().map_err(|e| FirstPassError::Bitreader(e))?;
        if ammo > 0 {
            return Ok(ammo - 1);
        }
        Ok(ammo)
    }

    /// Eight raw little-endian bytes.
    pub fn decode_uint64(&mut self) -> (r: Result<u64, FirstPassError>)
        requires
            old(self).wf(),
        ensures
            reader_advanced(*old(self), *final (self)),
            r is Err <==> old(self).pos + 64 > old(self).total_bits(),
            r matches Ok(v) ==> final (self).pos == old(self).pos + 64 && v as int
                == crate::bitreader::bits_val(old(self).data@, old(self).pos as int, 64),
    {
        let ghost d = old(self).data@;
        let ghost p = old(self).pos as int;
        let bytes = self.read_n_bytes(8).map_err(|e| FirstPassError::Bitreader(e))?;
        let mut v: u64 = 0;
        let mut i: usize = 0;
        while i < 8
            invariant
                bytes@.len() == 8,
                i <= 8,
                v as int == crate::bitreader::bits_val(d, p, 8 * i),
                forall|j: int|
                    0 <= j < 8 ==> bytes@[j] == crate::bitreader::byte_at(d, p + 8 * j),
            decreases 8 - i,
        {
            let b = bytes[i];
            let sh: u32 = (8 * i) as u32;
            proof {
                crate::bitreader::lemma_bits_val_bound(d, p + 8 * (i as int), 8);
                crate::bitreader::lemma_bits_val_bound(d, p, 8 * (i as int));
                vstd::arithmetic::power2::lemma2_to64();
                vstd::bits::lemma_u64_pow2_no_overflow(sh as nat);
                vstd::bits::lemma_u64_shl_is_mul(1u64, sh as u64);
                assert((b as u64) == crate::bitreader::bits_val(d, p + 8 * (i as int), 8));
                crate::bitreader::lemma_bits_val_split(d, p, 8 * (i as int), 8);
                let bb = b as u64;
                assert(v < (1u64 << sh) && sh <= 56 && bb < 256 ==> (v | (bb << sh)) == v + bb * (
                1u64 << sh)) by (bit_vector);
            }
            v = v | ((b as u64) << sh);
            i = i + 1;
        }
        Ok(v)
    }

    /// A varint scaled by one thirtieth of a second.
    fn decode_simul_time(&mut self) -> (r: Result<u32, FirstPassError>)
        requires
            old(self).wf(),
        ensures
            reader_advanced(*old(self), *final (self)),
            r is Err <==> old(self).pos + 8 * crate::varint::spec_varint_len(
                crate::bitreader::varint_bytes(old(self).data@, old(self).pos as int),
            ) > old(self).total_bits(),
            r is Ok ==> final (self).pos == old(self).pos + 8 * crate::varint::spec_varint_len(
                crate::bitreader::varint_bytes(old(self).data@, old(self).pos as int),
            ),
    {
        let v = self.read_varint().map_err(|e| FirstPassError::Bitreader(e))?;
        Ok(f32_mul(f32_from_u32(v), f32_div(F32_ONE, f32_from_u32(30))))
    }

    /// Three raw IEEE patterns.
    pub fn decode_vector_noscale(&mut self) -> (r: Result<[u32; 3], FirstPassError>)
        requires
            old(self).wf(),
        ensures
            reader_advanced(*old(self), *final (self)),
            r is Err <==> old(self).pos + 96 > old(self).total_bits(),
            r is Ok ==> final (self).pos == old(self).pos + 96,
            r matches Ok(a) ==> ({
                let d = old(self).data@;
                let p = old(self).pos as int;
                &&& a[0] == crate::bitreader::bits_val(d, p, 32)
                &&& a[1] == crate::bitreader::bits_val(d, p + 32, 32)
                &&& a[2] == crate::bitreader::bits_val(d, p + 64, 32)
            }),
    {
        let x = self.decode_noscale()?;
        let y = self.decode_noscale()?;
        let z = self.decode_noscale()?;
        Ok([x, y, z])
    }

    /// A raw pattern scaled down by 2^32.
    pub fn read_angle(&mut self, n: u32) -> (r: Result<u32, FirstPassError>)
        requires
            old(self).wf(),
            1 <= n <= 32,
        ensures
            reader_advanced(*old(self), *final (self)),
            r is Err <==> old(self).pos + 32 > old(self).total_bits(),
            r is Ok ==> final (self).pos == old(self).pos + 32,
    {
        let v = self.decode_noscale()?;
        let divisor = f32_from_u64(1u64 << n);
        Ok(f32_div(v, divisor))
    }

    /// Three 32-bit angles scaled by 2^-32.
    pub fn decode_qangle_pitch_yaw(&mut self) -> (r: Result<[u32; 3], FirstPassError>)
        requires
            old(self).wf(),
        ensures
            reader_advanced(*old(self), *final (self)),
            r is Err <==> old(self).pos + 96 > old(self).total_bits(),
            r is Ok ==> final (self).pos == old(self).pos + 96,
    {
        let x = self.read_angle(32)?;
        let y = self.read_angle(32)?;
        let z = self.read_angle(32)?;
        Ok([x, y, z])
    }

    /// Three raw IEEE patterns (angle form).
    pub fn decode_qangle_all_3(&mut self) -> (r: Result<[u32; 3], FirstPassError>)
        requires
            old(self).wf(),
        ensures
            reader_advanced(*old(self), *final (self)),
            r is Err <==> old(self).pos + 96 > old(self).total_bits(),
            r is Ok ==> final (self).pos == old(self).pos + 96,
            r matches Ok(a) ==> ({
                let d = old(self).data@;
                let p = old(self).pos as int;
                &&& a[0] == crate::bitreader::bits_val(d, p, 32)
                &&& a[1] == crate::bitreader::bits_val(d, p + 32, 32)
                &&& a[2] == crate::bitreader::bits_val(d, p + 64, 32)
            }),
    {
        let x = self.decode_noscale()?;
        let y = self.decode_noscale()?;
        let z = self.decode_noscale()?;
        Ok([x, y, z])
    }

    /// Presence-mask prefix, then each present axis as a bit-coord.
    pub fn decode_qangle_variant(&mut self) -> (r: Result<[u32; 3], FirstPassError>)
        requires
            old(self).wf(),
        ensures
            reader_advanced(*old(self), *final (self)),
            r is Err <==> old(self).pos + qangle_var_len(old(self).data@, old(self).pos as int)
                > old(self).total_bits(),
            r is Ok ==> final (self).pos == old(self).pos + qangle_var_len(
                old(self).data@,
                old(self).pos as int,
            ),
    {
        let has_x = self.read_boolean().map_err(|e| FirstPassError::Bitreader(e))?;
        let has_y = self.read_boolean().map_err(|e| FirstPassError::Bitreader(e))?;
        let has_z = self.read_boolean().map_err(|e| FirstPassError::Bitreader(e))?;
        let mut v: [u32; 3] = [0, 0, 0];
        if has_x {
            v[0] = self.read_bit_coord()?;
        }
        if has_y {
            v[1] = self.read_bit_coord()?;
        }
        if has_z {
            v[2] = self.read_bit_coord()?;
        }
        Ok(v)
    }

    /// A sign, an 11-bit length, and the fixed normal step.
    pub fn decode_normal(&mut self) -> (r: Result<u32, FirstPassError>)
        requires
            old(self).wf(),
        ensures
            reader_advanced(*old(self), *final (self)),
            r is Err <==> old(self).pos + 12 > old(self).total_bits(),
            r is Ok ==> final (self).pos == old(self).pos + 12,
    {
        let is_neg = self.read_boolean().map_err(|e| FirstPassError::Bitreader(e))?;
        let ghost d = self.data@;
        let ghost p = self.pos as int;
        let len = self.read_nbits(11).map_err(|e| FirstPassError::Bitreader(e))?;
        proof {
            crate::bitreader::lemma_bits_val_bound(d, p, 11);
            vstd::arithmetic::power2::lemma2_to64();
        }
        // len * (1/2048 - 1) == -(len * 2047) / 2048, exactly.
        let mag = f32_div(f32_from_u32(len * 2047), f32_from_u32(2048)) | F32_SIGN;
        if is_neg {
            Ok(mag ^ F32_SIGN)
        } else {
            Ok(mag)
        }
    }

    /// Presence bits for x and y, each axis a normal reading, and a z
    /// rebuilt from the unit-length constraint.
    pub fn decode_normal_vec(&mut self) -> (r: Result<[u32; 3], FirstPassError>)
        requires
            old(self).wf(),
        ensures
            reader_advanced(*old(self), *final (self)),
            r is Err <==> old(self).pos + normal_vec_len(old(self).data@, old(self).pos as int)
                > old(self).total_bits(),
            r is Ok ==> final (self).pos == old(self).pos + normal_vec_len(
                old(self).data@,
                old(self).pos as int,
            ),
    {
        let mut v: [u32; 3] = [0, 0, 0];
        let has_x = self.read_boolean().map_err(|e| FirstPassError::Bitreader(e))?;
        let has_y = self.read_boolean().map_err(|e| FirstPassError::Bitreader(e))?;
        if has_x {
            v[0] = self.decode_normal()?;
        }
        if has_y {
            v[1] = self.decode_normal()?;
        }
        let neg_z = self.read_boolean().map_err(|e| FirstPassError::Bitreader(e))?;
        let prod_sum = f32_add(f32_mul(v[0], v[0]), f32_mul(v[1], v[1]));
        if f32_lt(prod_sum, F32_ONE) {
            v[2] = f32_sqrt(f32_sub(F32_ONE, prod_sum));
        } else {
            v[2] = 0;
        }
        if neg_z {
            v[2] = v[2] ^ F32_SIGN;
        }
        Ok(v)
    }

    /// Three bit-coords.
    pub fn decode_vector_float_coord(&mut self) -> (r: Result<[u32; 3], FirstPassError>)
        requires
            old(self).wf(),
        ensures
            reader_advanced(*old(self), *final (self)),
            r is Err <==> old(self).pos + vec_coord_len(old(self).data@, old(self).pos as int)
                > old(self).total_bits(),
            r is Ok ==> final (self).pos == old(self).pos + vec_coord_len(
                old(self).data@,
                old(self).pos as int,
            ),
    {
        let x = self.read_bit_coord()?;
        let y = self.read_bit_coord()?;
        let z = self.read_bit_coord()?;
        Ok([x, y, z])
    }

    /// Presence-mask prefix, then each present axis as a 20-bit
    /// precise-angle reading.
    pub fn decode_qangle_variant_pres(&mut self) -> (r: Result<[u32; 3], FirstPassError>)
        requires
            old(self).wf(),
        ensures
            reader_advanced(*old(self), *final (self)),
            r is Err <==> old(self).pos + qangle_pres_len(old(self).data@, old(self).pos as int)
                > old(self).total_bits(),
            r is Ok ==> final (self).pos == old(self).pos + qangle_pres_len(
                old(self).data@,
                old(self).pos as int,
            ),
    {
        let has_x = self.read_boolean().map_err(|e| FirstPassError::Bitreader(e))?;
        let has_y = self.read_boolean().map_err(|e| FirstPassError::Bitreader(e))?;
        let has_z = self.read_boolean().map_err(|e| FirstPassError::Bitreader(e))?;
        let mut v: [u32; 3] = [0, 0, 0];
        if has_x {
            v[0] = self.read_bit_coord_pres()?;
        }
        if has_y {
            v[1] = self.read_bit_coord_pres()?;
        }
        if has_z {
            v[2] = self.read_bit_coord_pres()?;
        }
        Ok(v)
    }

    /// Looks up a descriptor and decodes one quantised float.
    pub fn decode_qfloat(&mut self, qf_idx: u8, qf_map: &QfMapper) -> (r: Result<
        Variant,
        FirstPassError,
    >)
        requires
            old(self).wf(),
            forall|j: int| 0 <= j < qf_map.map@.len() ==> (#[trigger] qf_map.map@[j]).wf(),
        ensures
            reader_advanced(*old(self), *final (self)),
            r matches Ok(v) ==> v is F32,
            ({
                let known = (qf_idx as int) < qf_map.map@.len();
                let qf = qf_map.map@[qf_idx as int];
                let len = crate::qfloat::qf_read_len(
                    qf.flags,
                    qf.bit_count,
                    old(self).data@,
                    old(self).pos as int,
                );
                &&& (r is Err <==> (!known || old(self).pos + len > old(self).total_bits()))
                &&& (r is Ok && known) ==> final (self).pos == old(self).pos + len
            }),
    {
        if (qf_idx as usize) < qf_map.map.len() {
            let qf = &qf_map.map[qf_idx as usize];
            let bits = qf.decode(self)?;
            Ok(Variant::F32(bits))
        } else {
            Err(FirstPassError::UnknownDescriptor)
        }
    }
}

impl Decoder {
    /// Applies this decoder to the bit stream.  The variant of the
    /// result is fixed by the decoder family.
    pub fn decode(&self, bitreader: &mut Bitreader, qf_map: &QfMapper) -> (r: Result<
        Variant,
        FirstPassError,
    >)
        requires
            old(bitreader).wf(),
            forall|j: int| 0 <= j < qf_map.map@.len() ==> (#[trigger] qf_map.map@[j]).wf(),
        ensures
            reader_advanced(*old(bitreader), *final (bitreader)),
            r matches Ok(v) ==> match *self {
                Decoder::NoscaleDecoder => v is F32,
                Decoder::FloatSimulationTimeDecoder => v is F32,
                Decoder::UnsignedDecoder => v is U32,
                Decoder::QuantalizedFloatDecoder(_) => v is F32,
                Decoder::Qangle3Decoder => v is VecXYZ,
                Decoder::SignedDecoder => v is I32,
                Decoder::VectorNoscaleDecoder => v is VecXYZ,
                Decoder::BooleanDecoder => v is Bool,
                Decoder::BaseDecoder => v is U32,
                Decoder::CentityHandleDecoder => v is U32,
                Decoder::ComponentDecoder => v is Bool,
                Decoder::FloatCoordDecoder => v is F32,
                Decoder::StringDecoder => v is String,
                Decoder::QanglePitchYawDecoder => v is VecXYZ,
                Decoder::QangleVarDecoder => v is VecXYZ,
                Decoder::VectorNormalDecoder => v is VecXYZ,
                Decoder::Unsigned64Decoder => v is U64,
                Decoder::Fixed64Decoder => v is U64,
                Decoder::VectorFloatCoordDecoder => v is VecXYZ,
                Decoder::AmmoDecoder => v is U32,
                Decoder::QanglePresDecoder => v is VecXYZ,
                Decoder::GameModeRulesDecoder => v is U32,
            },
            ({
                let data = old(bitreader).data@;
                let pos = old(bitreader).pos as int;
                let total = old(bitreader).total_bits();
                let varlen = 8 * crate::varint::spec_varint_len(
                    crate::bitreader::varint_bytes(data, pos),
                );
                let need: int = match *self {
                    Decoder::NoscaleDecoder => 32,
                    Decoder::FloatSimulationTimeDecoder => varlen,
                    Decoder::UnsignedDecoder => varlen,
                    Decoder::QuantalizedFloatDecoder(idx) => if (idx as int)
                        < qf_map.map@.len() {
                        crate::qfloat::qf_read_len(
                            qf_map.map@[idx as int].flags,
                            qf_map.map@[idx as int].bit_count,
                            data,
                            pos,
                        )
                    } else {
                        0
                    },
                    Decoder::Qangle3Decoder => 96,
                    Decoder::SignedDecoder => varlen,
                    Decoder::VectorNoscaleDecoder => 96,
                    Decoder::BooleanDecoder => 1,
                    Decoder::BaseDecoder => varlen,
                    Decoder::CentityHandleDecoder => varlen,
                    Decoder::ComponentDecoder => 1,
                    Decoder::FloatCoordDecoder => coord_len(data, pos),
                    Decoder::StringDecoder => if spec_strlen(data, pos) >= 0 {
                        8 * (spec_strlen(data, pos) + 1)
                    } else {
                        total - pos + 1
                    },
                    Decoder::QanglePitchYawDecoder => 96,
                    Decoder::QangleVarDecoder => qangle_var_len(data, pos),
                    Decoder::VectorNormalDecoder => normal_vec_len(data, pos),
                    Decoder::Unsigned64Decoder => 8 * crate::bitreader::spec_varint64_len(
                        crate::bitreader::varint64_bytes(data, pos),
                    ),
                    Decoder::Fixed64Decoder => 64,
                    Decoder::VectorFloatCoordDecoder => vec_coord_len(data, pos),
                    Decoder::AmmoDecoder => varlen,
                    Decoder::QanglePresDecoder => qangle_pres_len(data, pos),
                    Decoder::GameModeRulesDecoder => 7,
                };
                let idx_bad = match *self {
                    Decoder::QuantalizedFloatDecoder(idx) => (idx as int) >= qf_map.map@.len(),
                    _ => false,
                };
                let len64_bad = match *self {
                    Decoder::Unsigned64Decoder => ({
                        let s64 = crate::bitreader::varint64_bytes(data, pos);
                        crate::bitreader::spec_varint64_len(s64) == 10 && s64[9] > 1
                    }),
                    _ => false,
                };
                &&& (r is Err <==> (pos + need > total || idx_bad || len64_bad))
                &&& r is Ok ==> final (bitreader).pos == pos + need
            }),
            r matches Ok(v) ==> ({
                let data = old(bitreader).data@;
                let pos = old(bitreader).pos as int;
                let s = crate::bitreader::varint_bytes(data, pos);
                let vval = crate::varint::spec_varint_value(s, crate::varint::spec_varint_len(s));
                let s64 = crate::bitreader::varint64_bytes(data, pos);
                let v64 = crate::bitreader::spec_varint64_value(
                    s64,
                    crate::bitreader::spec_varint64_len(s64),
                );
                match *self {
                    Decoder::NoscaleDecoder => (v matches Variant::F32(b) && b
                        == crate::bitreader::bits_val(data, pos, 32)),
                    Decoder::UnsignedDecoder => v == Variant::U32(vval),
                    Decoder::BaseDecoder => v == Variant::U32(vval),
                    Decoder::CentityHandleDecoder => v == Variant::U32(vval),
                    Decoder::SignedDecoder => v == Variant::I32(
                        crate::bitreader::spec_zigzag(vval),
                    ),
                    Decoder::BooleanDecoder => v == Variant::Bool(
                        crate::bitreader::bit_at(data, pos) == 1,
                    ),
                    Decoder::ComponentDecoder => v == Variant::Bool(
                        crate::bitreader::bit_at(data, pos) == 1,
                    ),
                    Decoder::Fixed64Decoder => (v matches Variant::U64(u) && u as int
                        == crate::bitreader::bits_val(data, pos, 64)),
                    Decoder::Unsigned64Decoder => v == Variant::U64(v64),
                    Decoder::AmmoDecoder => v == Variant::U32(
                        if vval > 0 {
                            (vval - 1) as u32
                        } else {
                            0u32
                        },
                    ),
                    Decoder::GameModeRulesDecoder => (v matches Variant::U32(u) && u
                        == crate::bitreader::bits_val(data, pos, 7)),
                    Decoder::StringDecoder => (v matches Variant::String(b) && ({
                        let n = spec_strlen(data, pos);
                        &&& b@.len() == n
                        &&& forall|i: int|
                            0 <= i < n ==> b@[i] == crate::bitreader::byte_at(data, pos + 8 * i)
                    })),
                    Decoder::VectorNoscaleDecoder => (v matches Variant::VecXYZ(a) && ({
                        &&& a[0] == crate::bitreader::bits_val(data, pos, 32)
                        &&& a[1] == crate::bitreader::bits_val(data, pos + 32, 32)
                        &&& a[2] == crate::bitreader::bits_val(data, pos + 64, 32)
                    })),
                    Decoder::Qangle3Decoder => (v matches Variant::VecXYZ(a) && ({
                        &&& a[0] == crate::bitreader::bits_val(data, pos, 32)
                        &&& a[1] == crate::bitreader::bits_val(data, pos + 32, 32)
                        &&& a[2] == crate::bitreader::bits_val(data, pos + 64, 32)
                    })),
                    _ => true,
                }
            }),
    {
        match self {
            Decoder::NoscaleDecoder => Ok(Variant::F32(bitreader.decode_noscale()?)),
            Decoder::FloatSimulationTimeDecoder => Ok(Variant::F32(bitreader.decode_simul_time()?)),
            Decoder::UnsignedDecoder => Ok(
                Variant::U32(bitreader.read_varint().map_err(|e| FirstPassError::Bitreader(e))?),
            ),
            Decoder::QuantalizedFloatDecoder(qf_idx) => Ok(
                bitreader.decode_qfloat(*qf_idx, qf_map)?,
            ),
            Decoder::Qangle3Decoder => Ok(Variant::VecXYZ(bitreader.decode_qangle_all_3()?)),
            Decoder::SignedDecoder => Ok(
                Variant::I32(bitreader.read_varint32().map_err(|e| FirstPassError::Bitreader(e))?),
            ),
            Decoder::VectorNoscaleDecoder => Ok(Variant::VecXYZ(bitreader.decode_vector_noscale()?)),
            Decoder::BooleanDecoder => Ok(
                Variant::Bool(bitreader.read_boolean().map_err(|e| FirstPassError::Bitreader(e))?),
            ),
            Decoder::BaseDecoder => Ok(
                Variant::U32(bitreader.read_varint().map_err(|e| FirstPassError::Bitreader(e))?),
            ),
            Decoder::CentityHandleDecoder => Ok(
                Variant::U32(bitreader.read_varint().map_err(|e| FirstPassError::Bitreader(e))?),
            ),
            Decoder::ComponentDecoder => Ok(
                Variant::Bool(bitreader.read_boolean().map_err(|e| FirstPassError::Bitreader(e))?),
            ),
            Decoder::FloatCoordDecoder => Ok(Variant::F32(bitreader.read_bit_coord()?)),
            Decoder::StringDecoder => Ok(Variant::String(bitreader.read_string()?)),
            Decoder::QanglePitchYawDecoder => Ok(
                Variant::VecXYZ(bitreader.decode_qangle_pitch_yaw()?),
            ),
            Decoder::QangleVarDecoder => Ok(Variant::VecXYZ(bitreader.decode_qangle_variant()?)),
            Decoder::VectorNormalDecoder => Ok(Variant::VecXYZ(bitreader.decode_normal_vec()?)),
            Decoder::Unsigned64Decoder => Ok(
                Variant::U64(
                    bitreader.read_varint_u_64().map_err(|e| FirstPassError::Bitreader(e))?,
                ),
            ),
            Decoder::Fixed64Decoder => Ok(Variant::U64(bitreader.decode_uint64()?)),
            Decoder::VectorFloatCoordDecoder => Ok(
                Variant::VecXYZ(bitreader.decode_vector_float_coord()?),
            ),
            Decoder::AmmoDecoder => Ok(Variant::U32(bitreader.decode_ammo()?)),
            Decoder::QanglePresDecoder => Ok(
                Variant::VecXYZ(bitreader.decode_qangle_variant_pres()?),
            ),
            Decoder::GameModeRulesDecoder => {
                let ghost d = bitreader.data@;
                let v = bitreader.read_nbits(7).map_err(|e| FirstPassError::Bitreader(e))?;
                Ok(Variant::U32(v))
            },
        }
    }
}

/// The base-type table as a function of the name: which decoder a
/// base type selects, when the table lists it.
pub open spec fn spec_basetype_decoder(name: Seq<u8>) -> Option<Decoder> {
    if name == "bool".spec_bytes() {
        Some(Decoder::BooleanDecoder)
    } else if name == "char".spec_bytes() || name == "CUtlString".spec_bytes() || name == "CUtlSymbolLarge".spec_bytes() {
        Some(Decoder::StringDecoder)
    } else if name == "int16".spec_bytes() || name == "int32".spec_bytes() || name == "int64".spec_bytes()
        || name == "int8".spec_bytes() {
        Some(Decoder::SignedDecoder)
    } else if name == "uint16".spec_bytes() || name == "uint32".spec_bytes() || name == "uint8".spec_bytes()
        || name == "color32".spec_bytes() || name == "CGameSceneNodeHandle".spec_bytes() || name == "Color".spec_bytes() || name == "CUtlStringToken".spec_bytes() {
        Some(Decoder::UnsignedDecoder)
    } else if name == "GameTime_t".spec_bytes() || name == "Quaternion".spec_bytes() || name == "CTransform".spec_bytes() {
        Some(Decoder::NoscaleDecoder)
    } else if name == "CBodyComponent".spec_bytes() || name == "CPhysicsComponent".spec_bytes()
        || name == "CRenderComponent".spec_bytes() {
        Some(Decoder::ComponentDecoder)
    } else if name == "HSequence".spec_bytes() || name == "AttachmentHandle_t".spec_bytes() || name == "CEntityIndex".spec_bytes() || name == "MoveCollide_t".spec_bytes() || name == "MoveType_t".spec_bytes() || name == "RenderMode_t".spec_bytes() || name == "RenderFx_t".spec_bytes() || name == "SolidType_t".spec_bytes() || name == "SurroundingBoundsType_t".spec_bytes() || name == "ModelConfigHandle_t".spec_bytes() || name == "NPC_STATE".spec_bytes() || name == "StanceType_t".spec_bytes() || name == "AbilityPathType_t".spec_bytes() || name == "WeaponState_t".spec_bytes() || name == "DoorState_t".spec_bytes() || name == "RagdollBlendDirection".spec_bytes() || name == "BeamType_t".spec_bytes() || name == "BeamClipStyle_t".spec_bytes() || name == "EntityDisolveType_t".spec_bytes() || name == "tablet_skin_state_t".spec_bytes()
        || name == "CStrongHandle".spec_bytes() || name == "CSWeaponMode".spec_bytes() || name == "ESurvivalSpawnTileState".spec_bytes() || name == "SpawnStage_t".spec_bytes() || name == "ESurvivalGameRuleDecision_t".spec_bytes()
        || name == "RelativeDamagedDirection_t".spec_bytes() || name == "CSPlayerState".spec_bytes()
        || name == "MedalRank_t".spec_bytes() || name == "CSPlayerBlockingUseAction_t".spec_bytes()
        || name == "MoveMountingAmount_t".spec_bytes() || name == "QuestProgress::Reason".spec_bytes() {
        Some(Decoder::Unsigned64Decoder)
    } else {
        None
    }
}

/// The base-type lookup table: which decoder a base type name selects.
fn basetype_decoder(name: &[u8]) -> (r: Option<Decoder>)
    ensures
        r == spec_basetype_decoder(name@),
{
    if bytes_eq(name, "bool".as_bytes()) {
        Some(Decoder::BooleanDecoder)
    } else if bytes_eq(name, "char".as_bytes()) || bytes_eq(name, "CUtlString".as_bytes()) || bytes_eq(
        name,
        "CUtlSymbolLarge".as_bytes(),
    ) {
        Some(Decoder::StringDecoder)
    } else if bytes_eq(name, "int16".as_bytes()) || bytes_eq(name, "int32".as_bytes()) || bytes_eq(name, "int64".as_bytes())
        || bytes_eq(name, "int8".as_bytes()) {
        Some(Decoder::SignedDecoder)
    } else if bytes_eq(name, "uint16".as_bytes()) || bytes_eq(name, "uint32".as_bytes()) || bytes_eq(name, "uint8".as_bytes())
        || bytes_eq(name, "color32".as_bytes()) || bytes_eq(name, "CGameSceneNodeHandle".as_bytes()) || bytes_eq(
        name,
        "Color".as_bytes(),
    ) || bytes_eq(name, "CUtlStringToken".as_bytes()) {
        Some(Decoder::UnsignedDecoder)
    } else if bytes_eq(name, "GameTime_t".as_bytes()) || bytes_eq(name, "Quaternion".as_bytes()) || bytes_eq(
        name,
        "CTransform".as_bytes(),
    ) {
        Some(Decoder::NoscaleDecoder)
    } else if bytes_eq(name, "CBodyComponent".as_bytes()) || bytes_eq(name, "CPhysicsComponent".as_bytes())
        || bytes_eq(name, "CRenderComponent".as_bytes()) {
        Some(Decoder::ComponentDecoder)
    } else if bytes_eq(name, "HSequence".as_bytes()) || bytes_eq(name, "AttachmentHandle_t".as_bytes()) || bytes_eq(
        name,
        "CEntityIndex".as_bytes(),
    ) || bytes_eq(name, "MoveCollide_t".as_bytes()) || bytes_eq(name, "MoveType_t".as_bytes()) || bytes_eq(
        name,
        "RenderMode_t".as_bytes(),
    ) || bytes_eq(name, "RenderFx_t".as_bytes()) || bytes_eq(name, "SolidType_t".as_bytes()) || bytes_eq(
        name,
        "SurroundingBoundsType_t".as_bytes(),
    ) || bytes_eq(name, "ModelConfigHandle_t".as_bytes()) || bytes_eq(name, "NPC_STATE".as_bytes()) || bytes_eq(
        name,
        "StanceType_t".as_bytes(),
    ) || bytes_eq(name, "AbilityPathType_t".as_bytes()) || bytes_eq(name, "WeaponState_t".as_bytes()) || bytes_eq(
        name,
        "DoorState_t".as_bytes(),
    ) || bytes_eq(name, "RagdollBlendDirection".as_bytes()) || bytes_eq(name, "BeamType_t".as_bytes()) || bytes_eq(
        name,
        "BeamClipStyle_t".as_bytes(),
    ) || bytes_eq(name, "EntityDisolveType_t".as_bytes()) || bytes_eq(name, "tablet_skin_state_t".as_bytes())
        || bytes_eq(name, "CStrongHandle".as_bytes()) || bytes_eq(name, "CSWeaponMode".as_bytes()) || bytes_eq(
        name,
        "ESurvivalSpawnTileState".as_bytes(),
    ) || bytes_eq(name, "SpawnStage_t".as_bytes()) || bytes_eq(name, "ESurvivalGameRuleDecision_t".as_bytes())
        || bytes_eq(name, "RelativeDamagedDirection_t".as_bytes()) || bytes_eq(name, "CSPlayerState".as_bytes())
        || bytes_eq(name, "MedalRank_t".as_bytes()) || bytes_eq(name, "CSPlayerBlockingUseAction_t".as_bytes())
        || bytes_eq(name, "MoveMountingAmount_t".as_bytes()) || bytes_eq(name, "QuestProgress::Reason".as_bytes()) {
        Some(Decoder::Unsigned64Decoder)
    } else {
        None
    }
}

/// Picks the decoder for one schema field, consulting the var-name and
/// encoder overrides, the base-type table, and the per-type fallbacks;
/// quantised-float fields register a descriptor in the mapper.
pub fn find_decoder(field: &crate::sendtables::ConstructorField, qf_map: &mut QfMapper) -> (r:
    Decoder)
    ensures
        forall|j: int|
            0 <= j < old(qf_map).map@.len() ==> final (qf_map).map@[j] == old(qf_map).map@[j],
        final (qf_map).map@.len() >= old(qf_map).map@.len(),
        forall|j: int|
            old(qf_map).map@.len() <= j < final (qf_map).map@.len() ==> (#[trigger] final (qf_map).map@[j]).wf(),
        field.var_name@ == "m_iClip1".spec_bytes() ==> r == Decoder::AmmoDecoder,
        field.var_name@ != "m_iClip1".spec_bytes() ==> (spec_basetype_decoder(
            field.field_type.base_type@,
        ) matches Some(d) ==> r == d),
{
    if bytes_eq(field.var_name.as_slice(), "m_iClip1".as_bytes()) {
        return Decoder::AmmoDecoder;
    }
    match basetype_decoder(field.field_type.base_type.as_slice()) {
        Some(d) => d,
        None => {
            let base = field.field_type.base_type.as_slice();
            if bytes_eq(base, "float32".as_bytes()) {
                float_decoder(field, qf_map)
            } else if bytes_eq(base, "Vector".as_bytes()) {
                find_vector_type(3, field, qf_map)
            } else if bytes_eq(base, "Vector2D".as_bytes()) {
                find_vector_type(2, field, qf_map)
            } else if bytes_eq(base, "Vector4D".as_bytes()) {
                find_vector_type(4, field, qf_map)
            } else if bytes_eq(base, "uint64".as_bytes()) {
                find_uint_decoder(field)
            } else if bytes_eq(base, "QAngle".as_bytes()) {
                find_qangle_decoder(field)
            } else if bytes_eq(base, "CHandle".as_bytes()) {
                Decoder::UnsignedDecoder
            } else if bytes_eq(base, "CNetworkedQuantizedFloat".as_bytes()) {
                float_decoder(field, qf_map)
            } else if bytes_eq(base, "CStrongHandle".as_bytes()) {
                find_uint_decoder(field)
            } else if bytes_eq(base, "CEntityHandle".as_bytes()) {
                find_uint_decoder(field)
            } else {
                Decoder::UnsignedDecoder
            }
        },
    }
}

/// Angle fields: the eye-angles name selects pitch-yaw; a bit count
/// selects the three-angle form, else the presence-masked form.
pub fn find_qangle_decoder(field: &crate::sendtables::ConstructorField) -> (r: Decoder) {
    if bytes_eq(field.var_name.as_slice(), "m_angEyeAngles".as_bytes()) {
        Decoder::QanglePitchYawDecoder
    } else if field.bitcount != 0 {
        Decoder::Qangle3Decoder
    } else {
        Decoder::QangleVarDecoder
    }
}

/// Wide unsigned fields: the fixed64 encoder selects raw bytes, else a
/// 64-bit varint.
pub fn find_uint_decoder(field: &crate::sendtables::ConstructorField) -> (r: Decoder) {
    if bytes_eq(field.encoder.as_slice(), "fixed64".as_bytes()) {
        Decoder::Fixed64Decoder
    } else {
        Decoder::Unsigned64Decoder
    }
}

/// Float fields: simulation-time names and the coord encoder override;
/// a usable bit count registers a quantised-float descriptor.
fn float_decoder(field: &crate::sendtables::ConstructorField, qf_map: &mut QfMapper) -> (r:
    Decoder)
    ensures
        forall|j: int|
            0 <= j < old(qf_map).map@.len() ==> final (qf_map).map@[j] == old(qf_map).map@[j],
        final (qf_map).map@.len() >= old(qf_map).map@.len(),
        forall|j: int|
            old(qf_map).map@.len() <= j < final (qf_map).map@.len() ==> (#[trigger] final (qf_map).map@[j]).wf(),
{
    if bytes_eq(field.var_name.as_slice(), "m_flSimulationTime".as_bytes()) || bytes_eq(
        field.var_name.as_slice(),
        "m_flAnimTime".as_bytes(),
    ) {
        return Decoder::FloatSimulationTimeDecoder;
    }
    if bytes_eq(field.encoder.as_slice(), "coord".as_bytes()) {
        return Decoder::FloatCoordDecoder;
    }
    if bytes_eq(field.encoder.as_slice(), "m_flSimulationTime".as_bytes()) {
        return Decoder::FloatSimulationTimeDecoder;
    }
    if field.bitcount <= 0 || field.bitcount >= 32 {
        return Decoder::NoscaleDecoder;
    }
    let qf = QuantalizedFloat::new(
        field.bitcount as u32,
        Some(field.encode_flags),
        Some(field.low_value),
        Some(field.high_value),
    );
    let idx = qf_map.idx;
    qf_map.map.push(qf);
    if qf_map.idx < u32::MAX {
        qf_map.idx = qf_map.idx + 1;
    }
    Decoder::QuantalizedFloatDecoder(idx as u8)
}

/// Vector fields: a three-part normal-encoded vector, else the float
/// rule lifted over the vector forms.
fn find_vector_type(
    dimensions: u32,
    field: &crate::sendtables::ConstructorField,
    qf_map: &mut QfMapper,
) -> (r: Decoder)
    ensures
        forall|j: int|
            0 <= j < old(qf_map).map@.len() ==> final (qf_map).map@[j] == old(qf_map).map@[j],
        final (qf_map).map@.len() >= old(qf_map).map@.len(),
        forall|j: int|
            old(qf_map).map@.len() <= j < final (qf_map).map@.len() ==> (#[trigger] final (qf_map).map@[j]).wf(),
{
    if dimensions == 3 && bytes_eq(field.encoder.as_slice(), "normal".as_bytes()) {
        return Decoder::VectorNormalDecoder;
    }
    let float_type = float_decoder(field, qf_map);
    match float_type {
        Decoder::NoscaleDecoder => Decoder::VectorNoscaleDecoder,
        Decoder::FloatCoordDecoder => Decoder::VectorFloatCoordDecoder,
        _ => Decoder::VectorNormalDecoder,
    }
}

} // verus!
