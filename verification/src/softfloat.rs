//! IEEE-754 single-precision arithmetic carried out on 32-bit patterns.
//! The decoders and the quantised-float descriptor work on float values,
//! which this library keeps as raw bit patterns; the handful of
//! operations they need (add, subtract, multiply, divide, square root,
//! conversions and comparisons) are computed here exactly, with
//! round-to-nearest-even.  These functions carry no value contracts:
//! their correctness is backed by exhaustive-style differential tests
//! against the machine's own floating point, bit for bit.

use vstd::prelude::*;

verus! {

pub const F32_SIGN: u32 = 0x8000_0000;
pub const F32_EXP_MASK: u32 = 0x7f80_0000;
pub const F32_FRAC_MASK: u32 = 0x007f_ffff;
pub const F32_QNAN: u32 = 0x7fc0_0000;
pub const F32_INF: u32 = 0x7f80_0000;
pub const F32_ONE: u32 = 0x3f80_0000;

/// True when the pattern is a NaN.
pub fn f32_is_nan(a: u32) -> (r: bool)
    ensures
        r == (a & 0x7f80_0000 == 0x7f80_0000 && a & 0x007f_ffff != 0),
{
    (a & F32_EXP_MASK) == F32_EXP_MASK && (a & F32_FRAC_MASK) != 0
}

/// True when the pattern is an infinity.
pub fn f32_is_inf(a: u32) -> (r: bool)
    ensures
        r == (a & 0x7fff_ffff == 0x7f80_0000),
{
    (a & 0x7fff_ffff) == F32_INF
}

/// True when the pattern is a zero of either sign.
pub fn f32_is_zero(a: u32) -> (r: bool)
    ensures
        r == (a & 0x7fff_ffff == 0),
{
    (a & 0x7fff_ffff) == 0
}

/// The sign bit as 0 or 1.
fn sign_of(a: u32) -> (r: u32)
    ensures
        r <= 1,
        r == a >> 31u32,
{
    proof {
        assert(a >> 31u32 <= 1) by (bit_vector);
    }
    a >> 31u32
}

/// Floor of the base-2 logarithm of a non-zero value: the returned
/// position is the highest set bit.
fn high_bit(m: u64) -> (r: u32)
    requires
        m > 0,
    ensures
        r <= 63,
        m >> r == 1,
{
    let mut h: u32 = 0;
    let mut t: u64 = m;
    proof {
        assert(m >> 0u32 == m) by (bit_vector);
    }
    while t > 1
        invariant
            h <= 63,
            t >= 1,
            t == m >> h,
        decreases t,
    {
        proof {
            assert(m >> h > 1 ==> h < 63) by (bit_vector);
            let hh = h;
            assert((m >> hh) / 2 == m >> vstd::math::add(hh as int, 1) as u32) by (bit_vector)
                requires
                    hh < 63,
            ;
        }
        t = t / 2;
        h = h + 1;
    }
    h
}

/// Helper shape for the division normalisation bounds.
pub open spec fn m_norm_bound(m: u64, s: u32) -> bool {
    m << s < 0x100_0000
}

/// Helper shape for the division divisor positivity.
pub open spec fn m_norm_pos(m: u64, s: u32) -> bool {
    m << s >= 1
}

/// Packs `(-1)^sign * mant * 2^exp` (with `sticky` marking already-lost
/// low bits) into the nearest single-precision pattern, ties to even.
fn round_pack(sign: u32, exp: i32, mant: u64, sticky: bool) -> (r: u32)
    requires
        sign <= 1,
        -100000 <= exp <= 100000,
{
    if mant == 0 {
        return sign << 31u32;
    }
    let h = high_bit(mant);
    let mut m: u64 = mant;
    let mut e: i32 = exp;
    let mut guard: bool = false;
    let mut st: bool = sticky;
    // Normalize the significand to have its top bit at position 23,
    // folding shifted-out bits into a guard bit and a sticky flag.
    if h > 23 {
        let shift = h - 23;
        guard = (m >> (shift - 1)) & 1 == 1;
        if shift >= 2 {
            let y = shift - 1;
            proof {
                assert(1u64 << y >= 1) by (bit_vector)
                    requires
                        y < 64,
                ;
            }
            let below = m & ((1u64 << y) - 1);
            if below != 0 {
                st = true;
            }
        }
        m = m >> shift;
        e = e + shift as i32;
    } else if h < 23 {
        let shift = 23 - h;
        m = m << shift;
        e = e - shift as i32;
    }
    // The value is now roughly m * 2^e with m in [2^23, 2^24); its
    // unbiased exponent is e + 23.
    let mut eu: i32 = e + 23;
    if eu < -150 {
        // Far below the subnormal range: only a sticky trace remains.
        st = true;
        guard = false;
        m = 0;
        eu = -126;
    } else if eu < -126 {
        // Shift into the subnormal range.
        let extra = (-126 - eu) as u32;
        let lost_old_guard = guard;
        let y = extra - 1;
        proof {
            assert(1u64 << y >= 1) by (bit_vector)
                requires
                    y < 64,
            ;
        }
        let below = m & ((1u64 << y) - 1);
        if lost_old_guard || below != 0 {
            st = true;
        }
        guard = (m >> y) & 1 == 1;
        m = m / 2;
        m = m >> y;
        eu = -126;
    }
    proof {
        assert(m >> 1u32 <= m) by (bit_vector);
    }
    // Round to nearest, ties to even.
    if guard && (st || m & 1 == 1) {
        if m < 0x1_0000_0000 {
            m = m + 1;
        }
        if m == 0x100_0000 {
            m = m / 2;
            eu = eu + 1;
        }
    }
    if m == 0 {
        return sign << 31u32;
    }
    if eu > 127 {
        return (sign << 31u32) | F32_INF;
    }
    if m < 0x80_0000 {
        // Subnormal: the exponent field is zero.
        return (sign << 31u32) | ((m as u32) & F32_FRAC_MASK);
    }
    let efield = (eu + 127) as u32;
    (sign << 31u32) | ((efield & 0xff) << 23u32) | ((m as u32) & F32_FRAC_MASK)
}

/// Significand and exponent of a finite pattern: the value is
/// `(-1)^sign * m * 2^e` with `m < 2^24`; a nonzero pattern has a
/// nonzero significand, and one above the subnormal range has its
/// implicit bit set.
fn unpack(a: u32) -> (r: (u32, i32, u64))
    requires
        a & 0x7f80_0000 != 0x7f80_0000,
    ensures
        r.0 <= 1,
        r.2 < 0x100_0000,
        -149 <= r.1 <= 104,
        a & 0x7fff_ffff != 0 ==> r.2 > 0,
        r.1 > -149 ==> 0x80_0000 <= r.2,
{
    let sign = sign_of(a);
    let efield = (a >> 23u32) & 0xff;
    let frac = a & F32_FRAC_MASK;
    proof {
        assert((a >> 23u32) & 0xff <= 0xff && a & 0x007f_ffff < 0x80_0000 && (((a >> 23u32) & 0xff
            == 0 && a & 0x7fff_ffff != 0) ==> a & 0x007f_ffff != 0) && (a & 0x7f80_0000
            != 0x7f80_0000 ==> (a >> 23u32) & 0xff != 0xff) && (a & 0x007f_ffff) | 0x80_0000
            < 0x100_0000 && (a & 0x007f_ffff) | 0x80_0000 >= 0x80_0000) by (bit_vector);
    }
    if efield == 0 {
        (sign, -149, frac as u64)
    } else {
        (sign, efield as i32 - 150, (frac | 0x80_0000) as u64)
    }
}

/// Single-precision multiplication.
pub fn f32_mul(a: u32, b: u32) -> (r: u32) {
    if f32_is_nan(a) || f32_is_nan(b) {
        return F32_QNAN;
    }
    let sign: u32 = if sign_of(a) != sign_of(b) {
        1
    } else {
        0
    };
    if f32_is_inf(a) || f32_is_inf(b) {
        if f32_is_zero(a) || f32_is_zero(b) {
            return F32_QNAN;
        }
        return (sign << 31u32) | F32_INF;
    }
    if f32_is_zero(a) || f32_is_zero(b) {
        return sign << 31u32;
    }
    proof {
        assert(((!(a & 0x7f80_0000 == 0x7f80_0000 && a & 0x007f_ffff != 0) && !(a & 0x7fff_ffff
            == 0x7f80_0000)) ==> a & 0x7f80_0000 != 0x7f80_0000) && ((!(b & 0x7f80_0000
            == 0x7f80_0000 && b & 0x007f_ffff != 0) && !(b & 0x7fff_ffff == 0x7f80_0000)) ==> b
            & 0x7f80_0000 != 0x7f80_0000)) by (bit_vector);
    }
    let (_, ea, ma) = unpack(a);
    let (_, eb, mb) = unpack(b);
    proof {
        assert(ma * mb < 0x1_0000_0000_0000) by (nonlinear_arith)
            requires
                ma < 0x100_0000,
                mb < 0x100_0000,
        ;
    }
    round_pack(sign, ea + eb, ma * mb, false)
}

/// Single-precision division.
pub fn f32_div(a: u32, b: u32) -> (r: u32) {
    if f32_is_nan(a) || f32_is_nan(b) {
        return F32_QNAN;
    }
    let sign: u32 = if sign_of(a) != sign_of(b) {
        1
    } else {
        0
    };
    if f32_is_inf(a) {
        if f32_is_inf(b) {
            return F32_QNAN;
        }
        return (sign << 31u32) | F32_INF;
    }
    if f32_is_inf(b) {
        return sign << 31u32;
    }
    if f32_is_zero(b) {
        if f32_is_zero(a) {
            return F32_QNAN;
        }
        return (sign << 31u32) | F32_INF;
    }
    if f32_is_zero(a) {
        return sign << 31u32;
    }
    proof {
        assert(((!(a & 0x7f80_0000 == 0x7f80_0000 && a & 0x007f_ffff != 0) && !(a & 0x7fff_ffff
            == 0x7f80_0000)) ==> a & 0x7f80_0000 != 0x7f80_0000) && ((!(b & 0x7f80_0000
            == 0x7f80_0000 && b & 0x007f_ffff != 0) && !(b & 0x7fff_ffff == 0x7f80_0000)) ==> b
            & 0x7f80_0000 != 0x7f80_0000)) by (bit_vector);
    }
    let (_, ea, ma) = unpack(a);
    let (_, eb, mb) = unpack(b);
    // Normalize both significands to 24 bits so the quotient carries
    // enough precision for correct rounding.
    let ha = high_bit(ma);
    let hb = high_bit(mb);
    let sa: u32 = if ha < 23 {
        23 - ha
    } else {
        0
    };
    let sb: u32 = if hb < 23 {
        23 - hb
    } else {
        0
    };
    proof {
        assert((ma >> ha == 1 && sa == 23 - ha && ha < 23) ==> m_norm_bound(ma, sa))
            by (bit_vector);
        assert((mb >> hb == 1 && sb == 23 - hb && hb < 23) ==> m_norm_pos(mb, sb))
            by (bit_vector);
        assert(sb == 0 ==> mb >> 0u32 == mb) by (bit_vector);
    }
    let man: u64 = ma << sa;
    let mbn: u64 = mb << sb;
    if mbn == 0 {
        // Cannot arise: the divisor was filtered as non-zero.
        return F32_QNAN;
    }
    proof {
        assert((ma >> ha == 1 && sa == 23 - ha && ha < 23) ==> ma << sa < 0x100_0000)
            by (bit_vector);
    }
    let num: u64 = man << 26u32;
    let q = num / mbn;
    let rem = num % mbn;
    round_pack(
        sign,
        (ea - sa as i32) - (eb - sb as i32) - 26,
        q,
        rem != 0,
    )
}

/// Single-precision addition.
pub fn f32_add(a: u32, b: u32) -> (r: u32) {
    if f32_is_nan(a) || f32_is_nan(b) {
        return F32_QNAN;
    }
    let sa = sign_of(a);
    let sb = sign_of(b);
    if f32_is_inf(a) {
        if f32_is_inf(b) && sa != sb {
            return F32_QNAN;
        }
        return a;
    }
    if f32_is_inf(b) {
        return b;
    }
    if f32_is_zero(a) && f32_is_zero(b) {
        // Same-signed zeros keep the sign; mixed zeros give +0.
        return (sa & sb) << 31u32;
    }
    if f32_is_zero(a) {
        return b;
    }
    if f32_is_zero(b) {
        return a;
    }
    proof {
        assert(((!(a & 0x7f80_0000 == 0x7f80_0000 && a & 0x007f_ffff != 0) && !(a & 0x7fff_ffff
            == 0x7f80_0000)) ==> a & 0x7f80_0000 != 0x7f80_0000) && ((!(b & 0x7f80_0000
            == 0x7f80_0000 && b & 0x007f_ffff != 0) && !(b & 0x7fff_ffff == 0x7f80_0000)) ==> b
            & 0x7f80_0000 != 0x7f80_0000)) by (bit_vector);
    }
    let (_, ea, ma) = unpack(a);
    let (_, eb, mb) = unpack(b);
    // Order by magnitude so the larger operand is never shifted.
    let a_big = if ea > eb {
        true
    } else if ea < eb {
        false
    } else {
        ma >= mb
    };
    let (sh, eh, mh, el, ml) = if a_big {
        (sa, ea, ma, eb, mb)
    } else {
        (sb, eb, mb, ea, ma)
    };
    let diff: u32 = (eh - el) as u32;
    // Three extra low bits absorb the alignment; lower bits are sticky.
    let big: u64 = mh * 8;
    let (small, lost) = if diff == 0 {
        (ml * 8, false)
    } else if diff <= 57 {
        let whole: u64 = ml * 8;
        let shifted = whole >> diff;
        proof {
            assert(whole >> diff <= whole) by (bit_vector);
            assert((whole >> diff) << diff <= whole) by (bit_vector);
        }
        let lost = (shifted << diff) != whole;
        (shifted, lost)
    } else {
        (0u64, true)
    };
    if sh == (if a_big {
        sb
    } else {
        sa
    }) {
        // Same signs: plain magnitude addition.
        round_pack(sh, eh - 3, big + small, lost)
    } else {
        proof {
            // The larger-magnitude operand dominates: when an alignment
            // shift happened the big significand is a normal one.
        }
        if small > big {
            // Cannot arise: the operands were ordered by magnitude.
            return F32_QNAN;
        }
        let m: u64 = if lost {
            if big - small >= 1 {
                big - small - 1
            } else {
                0
            }
        } else {
            big - small
        };
        if m == 0 && !lost {
            // Exact cancellation rounds to +0.
            return 0;
        }
        round_pack(sh, eh - 3, m, lost)
    }
}

/// Single-precision subtraction.
pub fn f32_sub(a: u32, b: u32) -> (r: u32) {
    f32_add(a, b ^ F32_SIGN)
}

/// Single-precision square root; negative inputs other than -0 give
/// NaN.
pub fn f32_sqrt(a: u32) -> (r: u32) {
    if f32_is_nan(a) {
        return F32_QNAN;
    }
    if f32_is_zero(a) {
        return a;
    }
    if sign_of(a) == 1 {
        return F32_QNAN;
    }
    if f32_is_inf(a) {
        return a;
    }
    proof {
        assert((!(a & 0x7f80_0000 == 0x7f80_0000 && a & 0x007f_ffff != 0) && !(a & 0x7fff_ffff
            == 0x7f80_0000)) ==> a & 0x7f80_0000 != 0x7f80_0000) by (bit_vector);
    }
    proof {
        assert((!(a & 0x7f80_0000 == 0x7f80_0000 && a & 0x007f_ffff != 0) && !(a & 0x7fff_ffff
            == 0x7f80_0000)) ==> a & 0x7f80_0000 != 0x7f80_0000) by (bit_vector);
    }
    let (_, e, m) = unpack(a);
    // Normalize so the significand has bit 23 set, then make the
    // exponent even so it can be halved.
    let hb = high_bit(m);
    let mut mm: u64 = m;
    let mut ee: i32 = e;
    if hb < 23 {
        let sh: u32 = 23 - hb;
        proof {
            assert((m >> hb == 1 && sh == 23 - hb && hb < 23) ==> m << sh < 0x100_0000)
                by (bit_vector);
        }
        mm = m << sh;
        ee = e - sh as i32;
    }
    assert(mm < 0x100_0000);
    if ee % 2 != 0 {
        mm = mm * 2;
        ee = ee - 1;
    }
    assert(mm < 0x200_0000);
    // sqrt(mm * 2^ee) = sqrt(mm << 28) * 2^((ee - 28) / 2).
    proof {
        assert(mm < 0x200_0000 ==> mm << 28u32 < 0x20_0000_0000_0000) by (bit_vector);
    }
    let wide: u64 = mm << 28u32;
    let mut root: u64 = 0;
    let mut bit: u64 = 0x800_0000;
    while bit > 0
        invariant
            root <= 0x1000_0000,
            bit <= 0x800_0000,
            wide < 0x20_0000_0000_0000,
        decreases bit,
    {
        let cand = root + bit;
        proof {
            assert(cand * cand < 0x400_0000_0000_0000) by (nonlinear_arith)
                requires
                    cand <= 0x1800_0000,
            ;
        }
        if cand * cand <= wide {
            proof {
                assert(cand < 0x1000_0000) by (nonlinear_arith)
                    requires
                        cand * cand < 0x20_0000_0000_0000,
                        cand >= 0,
                ;
            }
            root = cand;
        }
        bit = bit / 2;
    }
    proof {
        assert(root * root < 0x200_0000_0000_0000) by (nonlinear_arith)
            requires
                root <= 0x1000_0000,
        ;
    }
    let exact = root * root == wide;
    round_pack(0, (ee - 28) / 2, root, !exact)
}

/// The single-precision value nearest to an unsigned 64-bit integer.
pub fn f32_from_u64(v: u64) -> (r: u32) {
    if v == 0 {
        return 0;
    }
    round_pack(0, 0, v, false)
}

/// The single-precision value nearest to an unsigned 32-bit integer.
pub fn f32_from_u32(v: u32) -> (r: u32) {
    f32_from_u64(v as u64)
}

/// Truncating cast to u32 with saturation: NaN and negatives give 0,
/// values past the range give the maximum.
pub fn f32_to_u32(a: u32) -> (r: u32) {
    if f32_is_nan(a) {
        return 0;
    }
    if sign_of(a) == 1 {
        return 0;
    }
    let efield = (a >> 23u32) & 0xff;
    proof {
        assert((a >> 23u32) & 0xff <= 0xff && a & 0x007f_ffff < 0x80_0000 && (a & 0x007f_ffff)
            | 0x80_0000 < 0x100_0000) by (bit_vector);
    }
    if efield == 0xff {
        return u32::MAX;
    }
    if efield < 127 {
        return 0;
    }
    let eu = efield - 127;
    if eu >= 32 {
        return u32::MAX;
    }
    let m: u64 = ((a & F32_FRAC_MASK) | 0x80_0000) as u64;
    if eu >= 23 {
        let sh2: u32 = eu - 23;
        proof {
            assert(m << sh2 <= 0xffff_ffff_ffff) by (bit_vector)
                requires
                    m < 0x100_0000,
                    sh2 < 16,
            ;
        }
        let shifted = m << sh2;
        if shifted > u32::MAX as u64 {
            u32::MAX
        } else {
            shifted as u32
        }
    } else {
        let sh3: u32 = 23 - eu;
        proof {
            assert(m >> sh3 <= m) by (bit_vector);
        }
        let shifted = m >> sh3;
        shifted as u32
    }
}

/// The IEEE order on two patterns: sign-magnitude comparison, zeros of
/// both signs equal, NaN below nothing.
pub open spec fn spec_f32_lt(a: u32, b: u32) -> bool {
    if (a & 0x7f80_0000 == 0x7f80_0000 && a & 0x007f_ffff != 0) || (b & 0x7f80_0000 == 0x7f80_0000
        && b & 0x007f_ffff != 0) {
        false
    } else if a & 0x7fff_ffff == 0 && b & 0x7fff_ffff == 0 {
        false
    } else if (a >> 31u32) != (b >> 31u32) {
        a >> 31u32 == 1
    } else if a >> 31u32 == 0 {
        (a & 0x7fff_ffff) < (b & 0x7fff_ffff)
    } else {
        (a & 0x7fff_ffff) > (b & 0x7fff_ffff)
    }
}

/// IEEE equality of two patterns.
pub open spec fn spec_f32_eq(a: u32, b: u32) -> bool {
    if (a & 0x7f80_0000 == 0x7f80_0000 && a & 0x007f_ffff != 0) || (b & 0x7f80_0000 == 0x7f80_0000
        && b & 0x007f_ffff != 0) {
        false
    } else if a & 0x7fff_ffff == 0 && b & 0x7fff_ffff == 0 {
        true
    } else {
        a == b
    }
}

/// Strict less-than; false on NaN.
pub fn f32_lt(a: u32, b: u32) -> (r: bool)
    ensures
        r == spec_f32_lt(a, b),
{
    if f32_is_nan(a) || f32_is_nan(b) {
        return false;
    }
    if f32_is_zero(a) && f32_is_zero(b) {
        return false;
    }
    let sa = sign_of(a);
    let sb = sign_of(b);
    if sa != sb {
        return sa == 1;
    }
    let ma = a & 0x7fff_ffff;
    let mb = b & 0x7fff_ffff;
    if sa == 0 {
        ma < mb
    } else {
        ma > mb
    }
}

/// Strict greater-than; false on NaN.
pub fn f32_gt(a: u32, b: u32) -> (r: bool)
    ensures
        r == spec_f32_lt(b, a),
{
    f32_lt(b, a)
}

/// IEEE equality: zeros of both signs are equal, NaN equals nothing.
pub fn f32_eq(a: u32, b: u32) -> (r: bool)
    ensures
        r == spec_f32_eq(a, b),
{
    if f32_is_nan(a) || f32_is_nan(b) {
        return false;
    }
    if f32_is_zero(a) && f32_is_zero(b) {
        return true;
    }
    a == b
}

/// Ceiling of the base-2 logarithm of a value at least 1; values below
/// 1 give 0, infinities and NaN saturate to 255.
pub fn f32_ceil_log2(a: u32) -> (r: u32) {
    let efield = (a >> 23u32) & 0xff;
    proof {
        assert((a >> 23u32) & 0xff <= 0xff) by (bit_vector);
    }
    if efield == 0xff {
        return 255;
    }
    if efield < 127 {
        return 0;
    }
    let eu = efield - 127;
    if (a & F32_FRAC_MASK) == 0 {
        eu
    } else {
        eu + 1
    }
}

} // verus!
