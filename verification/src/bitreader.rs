//! Little-endian bit-level reader over a byte buffer, with the primitive
//! encodings the entity protocol uses: fixed-width bit fields, byte-level
//! varints restated over bits, the 6-bit-selector variable encoding and the
//! unary-prefixed variable encoding.

use vstd::arithmetic::power2::pow2;
use vstd::prelude::*;

verus! {

/// Failure of a bit-level read.
#[derive(Debug, Clone, PartialEq, Eq)]
pub enum BitReadError {
    /// A value ran past the end of the buffer or violated its encoding.
    MalformedMessage,
    /// A whole-byte read asked for more bytes than remain.
    FailedByteRead { remaining: usize, requested: usize },
}

/// Bit `i` of the buffer in little-endian order (bit 0 is the least
/// significant bit of byte 0); bits past the end read as 0.
pub open spec fn bit_at(data: Seq<u8>, i: int) -> u32 {
    if 0 <= i < data.len() * 8 {
        ((data[i / 8] as u32) >> ((i % 8) as u32)) & 1
    } else {
        0u32
    }
}

/// Value of the `n` bits starting at bit `pos`, least significant first.
pub open spec fn bits_val(data: Seq<u8>, pos: int, n: int) -> int
    decreases n,
{
    if n <= 0 {
        0
    } else {
        bits_val(data, pos, n - 1) + bit_at(data, pos + (n - 1)) * pow2((n - 1) as nat)
    }
}

pub broadcast proof fn lemma_bits_val_bound(data: Seq<u8>, pos: int, n: int)
    requires
        n >= 0,
    ensures
        0 <= #[trigger] bits_val(data, pos, n) < pow2(n as nat),
    decreases n,
{
    vstd::arithmetic::power2::lemma_pow2_pos(n as nat);
    if n > 0 {
        lemma_bits_val_bound(data, pos, n - 1);
        assert(bit_at(data, pos + (n - 1)) <= 1) by {
            let j = pos + (n - 1);
            if 0 <= j < data.len() * 8 {
                let b = data[j / 8] as u32;
                let s = (j % 8) as u32;
                assert((b >> s) & 1 <= 1) by (bit_vector);
            }
        }
        assert(bit_at(data, pos + (n - 1)) * pow2((n - 1) as nat) <= pow2((n - 1) as nat))
            by (nonlinear_arith)
            requires
                bit_at(data, pos + (n - 1)) <= 1,
                pow2((n - 1) as nat) >= 0,
        ;
        assert(pow2(n as nat) == 2 * pow2((n - 1) as nat)) by {
            vstd::arithmetic::power2::lemma_pow2_unfold(n as nat);
        }
    }
}

/// A bit field splits at any point: the low `a` bits plus the high
/// `b` bits scaled by 2^a.
pub proof fn lemma_bits_val_split(data: Seq<u8>, pos: int, a: int, b: int)
    requires
        a >= 0,
        b >= 0,
    ensures
        bits_val(data, pos, a + b) == bits_val(data, pos, a) + bits_val(data, pos + a, b) * pow2(
            a as nat,
        ),
    decreases b,
{
    if b == 0 {
        assert(bits_val(data, pos + a, 0) == 0);
    } else {
        lemma_bits_val_split(data, pos, a, b - 1);
        vstd::arithmetic::power2::lemma_pow2_adds(a as nat, (b - 1) as nat);
        assert(a as nat + (b - 1) as nat == (a + b - 1) as nat);
        assert(pow2((a + b - 1) as nat) == pow2(a as nat) * pow2((b - 1) as nat));
        assert(bits_val(data, pos, a + b) == bits_val(data, pos, a + b - 1) + bit_at(
            data,
            pos + a + (b - 1),
        ) * pow2((a + b - 1) as nat));
        assert(bits_val(data, pos + a, b) == bits_val(data, pos + a, b - 1) + bit_at(
            data,
            pos + a + (b - 1),
        ) * pow2((b - 1) as nat));
        let bit = bit_at(data, pos + a + (b - 1)) as int;
        assert(bit * pow2((a + b - 1) as nat) == (bit * pow2((b - 1) as nat)) * pow2(a as nat))
            by (nonlinear_arith)
            requires
                pow2((a + b - 1) as nat) == pow2(a as nat) * pow2((b - 1) as nat),
        ;
        assert((bits_val(data, pos + a, b - 1) + bit * pow2((b - 1) as nat)) * pow2(a as nat)
            == bits_val(data, pos + a, b - 1) * pow2(a as nat) + (bit * pow2((b - 1) as nat))
            * pow2(a as nat)) by (nonlinear_arith);
    }
}

/// The byte formed by the 8 bits starting at `pos`.
pub open spec fn byte_at(data: Seq<u8>, pos: int) -> u8 {
    bits_val(data, pos, 8) as u8
}

/// The five bytes a bit-level varint could occupy, starting at `pos`.
pub open spec fn varint_bytes(data: Seq<u8>, pos: int) -> Seq<u8> {
    Seq::new(5, |i: int| byte_at(data, pos + 8 * i))
}

/// The ten bytes a 64-bit bit-level varint could occupy, starting at `pos`.
pub open spec fn varint64_bytes(data: Seq<u8>, pos: int) -> Seq<u8> {
    Seq::new(10, |i: int| byte_at(data, pos + 8 * i))
}

/// Bytes occupied by a 64-bit varint in `s` (1 to 10): one past the first
/// byte without its continuation bit, the tenth byte always terminal.
pub open spec fn varint64_len_from(s: Seq<u8>, i: int) -> int
    decreases 9 - i,
{
    if i >= 9 {
        i + 1
    } else if s[i] & 0x80 == 0 {
        i + 1
    } else {
        varint64_len_from(s, i + 1)
    }
}

pub open spec fn spec_varint64_len(s: Seq<u8>) -> int {
    varint64_len_from(s, 0)
}

/// Value of the 64-bit varint formed by the first `n` bytes of `s`.
pub open spec fn spec_varint64_value(s: Seq<u8>, n: int) -> u64
    decreases n,
{
    if n <= 0 || n > s.len() {
        0u64
    } else {
        spec_varint64_value(s, n - 1) | (((s[n - 1] & 0x7f) as u64) << (7 * (n - 1)))
    }
}

/// Zig-zag unfolding of a 32-bit varint, at the bit level: an arithmetic
/// shift right by one of the reinterpreted value, complemented when odd.
/// For encodings with bit 31 set this arithmetic-shift form differs from
/// the plain `(v >> 1) ^ -(v & 1)` unfolding; the wire uses this form.
pub open spec fn spec_zigzag(v: u32) -> i32 {
    if v & 1 == 0 {
        ((v >> 1) | (v & 0x8000_0000)) as i32
    } else {
        (!((v >> 1) | (v & 0x8000_0000))) as i32
    }
}

/// Length in bits of the 6-bit-selector variable encoding at `pos`:
/// bits 4 and 5 of the first 6 bits select 0, 4, 8 or 28 extra bits.
pub open spec fn ubitvar_len(data: Seq<u8>, pos: int) -> int {
    let sel = (bits_val(data, pos, 6) as u32) & 48;
    6 + if sel == 16 {
        4int
    } else if sel == 32 {
        8int
    } else if sel == 48 {
        28int
    } else {
        0int
    }
}

/// Value of the 6-bit-selector variable encoding at `pos`.
pub open spec fn ubitvar_val(data: Seq<u8>, pos: int) -> u32 {
    let b6 = bits_val(data, pos, 6) as u32;
    let sel = b6 & 48;
    if sel == 16 {
        (b6 & 15) | ((bits_val(data, pos + 6, 4) as u32) << 4)
    } else if sel == 32 {
        (b6 & 15) | ((bits_val(data, pos + 6, 8) as u32) << 4)
    } else if sel == 48 {
        (b6 & 15) | ((bits_val(data, pos + 6, 28) as u32) << 4)
    } else {
        b6
    }
}

/// Length in bits of the unary-prefixed variable encoding at `pos`:
/// each set prefix bit selects a 2-, 4-, 10- or 17-bit payload; four
/// clear bits select a 31-bit payload.
pub open spec fn ubitfp_len(data: Seq<u8>, pos: int) -> int {
    if bit_at(data, pos) == 1 {
        3int
    } else if bit_at(data, pos + 1) == 1 {
        6int
    } else if bit_at(data, pos + 2) == 1 {
        13int
    } else if bit_at(data, pos + 3) == 1 {
        21int
    } else {
        35int
    }
}

/// Value of the unary-prefixed variable encoding at `pos`.
pub open spec fn ubitfp_val(data: Seq<u8>, pos: int) -> u32 {
    if bit_at(data, pos) == 1 {
        bits_val(data, pos + 1, 2) as u32
    } else if bit_at(data, pos + 1) == 1 {
        bits_val(data, pos + 2, 4) as u32
    } else if bit_at(data, pos + 2) == 1 {
        bits_val(data, pos + 3, 10) as u32
    } else if bit_at(data, pos + 3) == 1 {
        bits_val(data, pos + 4, 17) as u32
    } else {
        bits_val(data, pos + 4, 31) as u32
    }
}

/// Bit-level reader.  `pos` is the index of the next unread bit.
pub struct Bitreader {
    pub data: Vec<u8>,
    pub pos: usize,
}

impl Bitreader {
    /// Well-formedness: the cursor is inside the buffer and the buffer's
    /// bit count fits the machine word.
    pub open spec fn wf(&self) -> bool {
        &&& self.pos <= self.data@.len() * 8
        &&& self.data@.len() * 8 <= usize::MAX
    }

    pub open spec fn total_bits(&self) -> int {
        self.data@.len() * 8int
    }

    pub fn new(data: Vec<u8>) -> (r: Bitreader)
        requires
            data@.len() <= usize::MAX / 8,
        ensures
            r.wf(),
            r.data@ == data@,
            r.pos == 0,
    {
        Bitreader { data, pos: 0 }
    }

    /// Bits not yet consumed.
    pub fn bits_remaining(&self) -> (r: Option<usize>)
        requires
            self.wf(),
        ensures
            r == Some((self.total_bits() - self.pos) as usize),
    {
        Some(self.data.len() * 8 - self.pos)
    }

    /// The value of the next `n` bits without advancing; bits past the end
    /// of the buffer read as 0.
    pub fn peek(&self, n: u32) -> (r: u32)
        requires
            self.wf(),
            n <= 32,
        ensures
            r == bits_val(self.data@, self.pos as int, n as int),
    {
        let ghost data = self.data@;
        let mut result: u32 = 0;
        let mut i: u32 = 0;
        proof {
            assert(bits_val(data, self.pos as int, 0) == 0);
        }
        while i < n
            invariant
                self.wf(),
                data == self.data@,
                i <= n <= 32,
                result == bits_val(data, self.pos as int, i as int),
            decreases n - i,
        {
            proof {
                lemma_bits_val_bound(data, self.pos as int, i as int);
                vstd::bits::lemma_u32_pow2_no_overflow(i as nat);
            }
            let b: u32 = if (i as usize) < self.data.len() * 8 - self.pos {
                let j = self.pos + i as usize;
                proof {
                    assert(j / 8 < data.len()) by (nonlinear_arith)
                        requires
                            j < data.len() * 8,
                            j >= 0,
                    ;
                }
                let byte = self.data[j / 8];
                ((byte as u32) >> ((j % 8) as u32)) & 1
            } else {
                0
            };
            proof {
                assert(b == bit_at(data, self.pos + i)) by {
                    let jj = self.pos + i;
                    if 0 <= jj < data.len() * 8 {
                        assert(jj / 8 < data.len()) by (nonlinear_arith)
                            requires
                                jj < data.len() * 8,
                                jj >= 0,
                        ;
                    }
                }
                assert(b <= 1) by {
                    let jj = self.pos + i;
                    if 0 <= jj < data.len() * 8 {
                        let byte = data[jj / 8] as u32;
                        let s = (jj % 8) as u32;
                        assert((byte >> s) & 1 <= 1) by (bit_vector);
                    }
                }
                assert(b * pow2(i as nat) <= pow2(i as nat)) by (nonlinear_arith)
                    requires
                        b <= 1,
                        pow2(i as nat) >= 0,
                ;
                vstd::bits::lemma_u32_shl_is_mul(b, i);
            }
            let term: u32 = b << i;
            proof {
                assert(result + term < 0x1_0000_0000) by {
                    assert(result < pow2(i as nat));
                    assert(term == b * pow2(i as nat));
                    assert(pow2(i as nat) <= 0x8000_0000) by {
                        if i as nat <= 31 {
                            vstd::arithmetic::power2::lemma_pow2_adds(i as nat, (31 - i) as nat);
                            vstd::arithmetic::power2::lemma_pow2_pos((31 - i) as nat);
                            vstd::arithmetic::power2::lemma2_to64();
                            assert(pow2(i as nat) * pow2((31 - i) as nat) == pow2(31));
                            assert(pow2(i as nat) <= pow2(31)) by (nonlinear_arith)
                                requires
                                    pow2(i as nat) * pow2((31 - i) as nat) == pow2(31),
                                    pow2((31 - i) as nat) >= 1,
                                    pow2(i as nat) >= 0,
                            ;
                        }
                    }
                }
            }
            result = result + term;
            i = i + 1;
        }
        result
    }

    /// Advances the cursor by `n` bits.
    pub fn consume(&mut self, n: u32)
        requires
            old(self).wf(),
            old(self).pos + n <= old(self).total_bits(),
        ensures
            final (self).wf(),
            final (self).data@ == old(self).data@,
            final (self).pos == old(self).pos + n,
    {
        self.pos = self.pos + n as usize;
    }

    /// Reads `n` bits (1 to 32) and advances; fails exactly when fewer
    /// than `n` bits remain, leaving the reader unchanged.
    pub fn read_nbits(&mut self, n: u32) -> (r: Result<u32, BitReadError>)
        requires
            old(self).wf(),
            n <= 32,
        ensures
            final (self).wf(),
            final (self).data@ == old(self).data@,
            match r {
                Ok(v) => {
                    &&& old(self).pos + n <= old(self).total_bits()
                    &&& final (self).pos == old(self).pos + n
                    &&& v == bits_val(old(self).data@, old(self).pos as int, n as int)
                },
                Err(e) => {
                    &&& old(self).pos + n > old(self).total_bits()
                    &&& *final (self) == *old(self)
                    &&& e == BitReadError::MalformedMessage
                },
            },
    {
        if (n as usize) > self.data.len() * 8 - self.pos {
            return Err(BitReadError::MalformedMessage);
        }
        let v = self.peek(n);
        self.pos = self.pos + n as usize;
        Ok(v)
    }

    /// Reads one bit as a boolean.
    pub fn read_boolean(&mut self) -> (r: Result<bool, BitReadError>)
        requires
            old(self).wf(),
        ensures
            final (self).wf(),
            final (self).data@ == old(self).data@,
            match r {
                Ok(v) => {
                    &&& old(self).pos + 1 <= old(self).total_bits()
                    &&& final (self).pos == old(self).pos + 1
                    &&& v == (bit_at(old(self).data@, old(self).pos as int) == 1)
                },
                Err(e) => {
                    &&& old(self).pos + 1 > old(self).total_bits()
                    &&& *final (self) == *old(self)
                    &&& e == BitReadError::MalformedMessage
                },
            },
    {
        let v = self.read_nbits(1)?;
        proof {
            let data = old(self).data@;
            let p = old(self).pos as int;
            vstd::arithmetic::power2::lemma2_to64();
            assert(bits_val(data, p, 0) == 0);
            assert(bits_val(data, p, 1) == bit_at(data, p) * pow2(0));
            assert(bit_at(data, p) * pow2(0) == bit_at(data, p) * 1);
            lemma_bits_val_bound(data, p, 1);
            assert(v <= 1);
            assert(v as int == bit_at(data, p) as int);
        }
        Ok(v != 0)
    }

    /// Reads a 32-bit varint restated over the bit stream: low 7 bits per
    /// byte, least significant group first, at most 5 bytes.
    pub fn read_varint(&mut self) -> (r: Result<u32, BitReadError>)
        requires
            old(self).wf(),
        ensures
            final (self).wf(),
            final (self).data@ == old(self).data@,
            final (self).pos >= old(self).pos,
            ({
                let s = varint_bytes(old(self).data@, old(self).pos as int);
                let len = crate::varint::spec_varint_len(s);
                match r {
                    Ok(v) => {
                        &&& old(self).pos + 8 * len <= old(self).total_bits()
                        &&& final (self).pos == old(self).pos + 8 * len
                        &&& final (self).pos <= old(self).pos + 40
                        &&& v == crate::varint::spec_varint_value(s, len)
                    },
                    Err(e) => {
                        &&& old(self).pos + 8 * len > old(self).total_bits()
                        &&& e == BitReadError::MalformedMessage
                    },
                }
            }),
    {
        let ghost data = old(self).data@;
        let ghost p = old(self).pos as int;
        let ghost s = varint_bytes(data, p);
        proof {
            crate::varint::lemma_varint_len_from_le(s, 0);
        }
        let mut result: u32 = 0;
        let mut count: u32 = 0;
        loop
            invariant
                self.wf(),
                self.data@ == data,
                data == old(self).data@,
                p == old(self).pos,
                count <= 4,
                self.pos == p + 8 * count,
                s == varint_bytes(data, p),
                result == crate::varint::spec_varint_value(s, count as int),
                forall|j: int| 0 <= j < count ==> crate::varint::varint_cont(s, j),
            decreases 4 - count,
        {
            proof {
                crate::varint::lemma_varint_len_unroll(s, count as int);
                crate::varint::lemma_varint_len_from_ge(s, count as int);
            }
            let b = match self.read_nbits(8) {
                Ok(b) => b,
                Err(_) => {
                    return Err(BitReadError::MalformedMessage);
                },
            };
            proof {
                lemma_bits_val_bound(data, p + 8 * (count as int), 8);
                vstd::arithmetic::power2::lemma2_to64();
                assert(s[count as int] == bits_val(data, p + 8 * (count as int), 8) as u8);
                assert(b == s[count as int] as u32);
                let x = s[count as int];
                assert(((x as u32) & 127) == ((x & 0x7f) as u32)) by (bit_vector);
                assert((((x as u32) & 0x80) == 0) == ((x & 0x80) == 0)) by (bit_vector);
                assert(crate::varint::spec_varint_value(s, count + 1) == crate::varint::spec_varint_value(
                s, count as int) | (((s[count as int] & 0x7f) as u32) << (7 * (count as int))));
            }
            result = result | ((b & 127) << (7 * count));
            count = count + 1;
            if b & 0x80 == 0 || count == 5 {
                proof {
                    crate::varint::lemma_varint_len_unroll(s, (count - 1) as int);
                }
                return Ok(result);
            }
        }
    }

    /// Reads a 32-bit varint and undoes the zig-zag fold.
    pub fn read_varint32(&mut self) -> (r: Result<i32, BitReadError>)
        requires
            old(self).wf(),
        ensures
            final (self).wf(),
            final (self).data@ == old(self).data@,
            final (self).pos >= old(self).pos,
            ({
                let s = varint_bytes(old(self).data@, old(self).pos as int);
                let len = crate::varint::spec_varint_len(s);
                match r {
                    Ok(v) => {
                        &&& old(self).pos + 8 * len <= old(self).total_bits()
                        &&& final (self).pos == old(self).pos + 8 * len
                        &&& final (self).pos <= old(self).pos + 40
                        &&& v == spec_zigzag(crate::varint::spec_varint_value(s, len))
                    },
                    Err(e) => {
                        &&& old(self).pos + 8 * len > old(self).total_bits()
                        &&& e == BitReadError::MalformedMessage
                    },
                }
            }),
    {
        let v = self.read_varint()?;
        let mut y: u32 = (v >> 1) | (v & 0x8000_0000);
        if v & 1 != 0 {
            y = !y;
        }
        Ok(y as i32)
    }

    /// Reads a 64-bit varint: at most 10 bytes, and the tenth byte may
    /// only hold 0 or 1, else the message is malformed.
    pub fn read_varint_u_64(&mut self) -> (r: Result<u64, BitReadError>)
        requires
            old(self).wf(),
        ensures
            final (self).wf(),
            final (self).data@ == old(self).data@,
            final (self).pos >= old(self).pos,
            ({
                let s = varint64_bytes(old(self).data@, old(self).pos as int);
                let len = spec_varint64_len(s);
                match r {
                    Ok(v) => {
                        &&& old(self).pos + 8 * len <= old(self).total_bits()
                        &&& final (self).pos == old(self).pos + 8 * len
                        &&& final (self).pos <= old(self).pos + 80
                        &&& v == spec_varint64_value(s, len)
                        &&& len == 10 ==> s[9] <= 1
                    },
                    Err(e) => {
                        &&& e == BitReadError::MalformedMessage
                        &&& (old(self).pos + 8 * len > old(self).total_bits() || (len == 10 && s[9]
                            > 1))
                    },
                }
            }),
    {
        let ghost data = old(self).data@;
        let ghost p = old(self).pos as int;
        let ghost s = varint64_bytes(data, p);
        proof {
            lemma_varint64_len_from_le(s, 0);
        }
        let mut result: u64 = 0;
        let mut count: u32 = 0;
        loop
            invariant
                self.wf(),
                self.data@ == data,
                data == old(self).data@,
                p == old(self).pos,
                count <= 9,
                self.pos == p + 8 * count,
                s == varint64_bytes(data, p),
                result == spec_varint64_value(s, count as int),
                forall|j: int| 0 <= j < count ==> s[j] & 0x80 != 0,
            decreases 9 - count,
        {
            proof {
                lemma_varint64_len_unroll(s, count as int);
                lemma_varint64_len_from_ge(s, count as int);
            }
            let b = match self.read_nbits(8) {
                Ok(b) => b,
                Err(_) => {
                    return Err(BitReadError::MalformedMessage);
                },
            };
            proof {
                lemma_bits_val_bound(data, p + 8 * (count as int), 8);
                vstd::arithmetic::power2::lemma2_to64();
                assert(s[count as int] == bits_val(data, p + 8 * (count as int), 8) as u8);
                assert(b == s[count as int] as u32);
                let x = s[count as int];
                assert((((x as u32) & 127) as u64) == ((x & 0x7f) as u64)) by (bit_vector);
                assert((((x as u32) & 0x80) == 0) == ((x & 0x80) == 0)) by (bit_vector);
                assert((x as u32) <= 1 ==> ((x & 0x7f) as u64) == (x as u32) as u64) by (bit_vector);
                assert(spec_varint64_value(s, count + 1) == spec_varint64_value(s, count as int) | (((
                s[count as int] & 0x7f) as u64) << (7 * (count as int))));
            }
            if count == 9 {
                if b > 1 {
                    return Err(BitReadError::MalformedMessage);
                }
                result = result | ((b as u64) << 63u32);
                return Ok(result);
            }
            result = result | (((b & 127) as u64) << (7 * count));
            count = count + 1;
            if b & 0x80 == 0 {
                proof {
                    lemma_varint64_len_unroll(s, (count - 1) as int);
                }
                return Ok(result);
            }
        }
    }

    /// Reads the 6-bit-selector variable encoding: 6 bits, whose bits 4
    /// and 5 select 0, 4, 8 or 28 further bits placed above bit 3.
    pub fn read_u_bit_var(&mut self) -> (r: Result<u32, BitReadError>)
        requires
            old(self).wf(),
        ensures
            final (self).wf(),
            final (self).data@ == old(self).data@,
            final (self).pos >= old(self).pos,
            match r {
                Ok(v) => {
                    &&& old(self).pos + ubitvar_len(old(self).data@, old(self).pos as int) <= old(
                        self,
                    ).total_bits()
                    &&& final (self).pos == old(self).pos + ubitvar_len(
                        old(self).data@,
                        old(self).pos as int,
                    )
                    &&& v == ubitvar_val(old(self).data@, old(self).pos as int)
                },
                Err(e) => {
                    &&& old(self).pos + ubitvar_len(old(self).data@, old(self).pos as int) > old(
                        self,
                    ).total_bits()
                    &&& e == BitReadError::MalformedMessage
                },
            },
    {
        let bits = self.read_nbits(6)?;
        let sel = bits & 0b110000;
        if sel == 0b010000 {
            let extra = self.read_nbits(4)?;
            Ok((bits & 0b1111) | (extra << 4u32))
        } else if sel == 0b100000 {
            let extra = self.read_nbits(8)?;
            Ok((bits & 0b1111) | (extra << 4u32))
        } else if sel == 0b110000 {
            let extra = self.read_nbits(28)?;
            Ok((bits & 0b1111) | (extra << 4u32))
        } else {
            Ok(bits)
        }
    }

    /// Reads the unary-prefixed variable encoding: up to four flag bits
    /// selecting a 2-, 4-, 10-, 17- or 31-bit payload.
    pub fn read_ubit_var_fp(&mut self) -> (r: Result<u32, BitReadError>)
        requires
            old(self).wf(),
        ensures
            final (self).wf(),
            final (self).data@ == old(self).data@,
            final (self).pos >= old(self).pos,
            match r {
                Ok(v) => {
                    &&& old(self).pos + ubitfp_len(old(self).data@, old(self).pos as int) <= old(
                        self,
                    ).total_bits()
                    &&& final (self).pos == old(self).pos + ubitfp_len(
                        old(self).data@,
                        old(self).pos as int,
                    )
                    &&& v == ubitfp_val(old(self).data@, old(self).pos as int)
                },
                Err(e) => {
                    &&& old(self).pos + ubitfp_len(old(self).data@, old(self).pos as int) > old(
                        self,
                    ).total_bits()
                    &&& e == BitReadError::MalformedMessage
                },
            },
    {
        if self.read_boolean()? {
            return self.read_nbits(2);
        }
        if self.read_boolean()? {
            return self.read_nbits(4);
        }
        if self.read_boolean()? {
            return self.read_nbits(10);
        }
        if self.read_boolean()? {
            return self.read_nbits(17);
        }
        self.read_nbits(31)
    }

    /// Reads `n` whole bytes from the current bit position.
    pub fn read_n_bytes(&mut self, n: usize) -> (r: Result<Vec<u8>, BitReadError>)
        requires
            old(self).wf(),
        ensures
            final (self).wf(),
            final (self).data@ == old(self).data@,
            match r {
                Ok(v) => {
                    &&& old(self).pos + 8 * n <= old(self).total_bits()
                    &&& final (self).pos == old(self).pos + 8 * n
                    &&& v@.len() == n
                    &&& forall|i: int|
                        0 <= i < n ==> v@[i] == byte_at(old(self).data@, old(self).pos + 8 * i)
                },
                Err(e) => {
                    &&& old(self).pos + 8 * n > old(self).total_bits()
                    &&& *final (self) == *old(self)
                    &&& e == (BitReadError::FailedByteRead {
                        remaining: ((old(self).total_bits() - old(self).pos) / 8) as usize,
                        requested: n,
                    })
                },
            },
    {
        let avail = (self.data.len() * 8 - self.pos) / 8;
        if n > avail {
            proof {
                let t = old(self).total_bits() - old(self).pos;
                assert(8 * n > t) by (nonlinear_arith)
                    requires
                        n > t / 8,
                        t >= 0,
                ;
            }
            return Err(BitReadError::FailedByteRead { remaining: avail, requested: n });
        }
        proof {
            let t = old(self).total_bits() - old(self).pos;
            assert(8 * n <= t) by (nonlinear_arith)
                requires
                    n <= t / 8,
                    t >= 0,
            ;
        }
        let ghost data = old(self).data@;
        let ghost p = old(self).pos as int;
        let mut out: Vec<u8> = Vec::new();
        let mut i: usize = 0;
        while i < n
            invariant
                self.wf(),
                self.data@ == data,
                data == old(self).data@,
                p == old(self).pos,
                i <= n,
                p + 8 * n <= self.total_bits(),
                self.pos == p + 8 * i,
                out@.len() == i,
                forall|k: int| 0 <= k < i ==> out@[k] == byte_at(data, p + 8 * k),
            decreases n - i,
        {
            let b = match self.read_nbits(8) {
                Ok(b) => b,
                Err(_) => {
                    proof {
                        assert(false);
                    }
                    return Err(BitReadError::MalformedMessage);
                },
            };
            proof {
                lemma_bits_val_bound(data, p + 8 * (i as int), 8);
                vstd::arithmetic::power2::lemma2_to64();
            }
            out.push(b as u8);
            i = i + 1;
        }
        Ok(out)
    }

    /// Reads `n` whole bytes into the front of `buf`, which must be at
    /// least `n` long; the rest of `buf` is kept.
    pub fn read_n_bytes_mut(&mut self, n: usize, buf: &mut Vec<u8>) -> (r: Result<
        (),
        BitReadError,
    >)
        requires
            old(self).wf(),
        ensures
            final (self).wf(),
            final (self).data@ == old(self).data@,
            final (buf)@.len() == old(buf)@.len(),
            match r {
                Ok(()) => {
                    &&& old(buf)@.len() >= n
                    &&& old(self).pos + 8 * n <= old(self).total_bits()
                    &&& final (self).pos == old(self).pos + 8 * n
                    &&& forall|i: int|
                        0 <= i < n ==> final (buf)@[i] == byte_at(
                            old(self).data@,
                            old(self).pos + 8 * i,
                        )
                    &&& forall|i: int|
                        n <= i < old(buf)@.len() ==> final (buf)@[i] == old(buf)@[i]
                },
                Err(_) => {
                    &&& *final (self) == *old(self)
                    &&& final (buf)@ == old(buf)@
                    &&& (old(buf)@.len() < n || old(self).pos + 8 * n > old(self).total_bits())
                },
            },
    {
        if buf.len() < n {
            return Err(BitReadError::MalformedMessage);
        }
        let avail = (self.data.len() * 8 - self.pos) / 8;
        if n > avail {
            proof {
                let t = old(self).total_bits() - old(self).pos;
                assert(8 * n > t) by (nonlinear_arith)
                    requires
                        n > t / 8,
                        t >= 0,
                ;
            }
            return Err(BitReadError::FailedByteRead { remaining: avail, requested: n });
        }
        proof {
            let t = old(self).total_bits() - old(self).pos;
            assert(8 * n <= t) by (nonlinear_arith)
                requires
                    n <= t / 8,
                    t >= 0,
            ;
        }
        let ghost data = old(self).data@;
        let ghost p = old(self).pos as int;
        let mut i: usize = 0;
        while i < n
            invariant
                self.wf(),
                self.data@ == data,
                data == old(self).data@,
                p == old(self).pos,
                i <= n <= buf@.len(),
                buf@.len() == old(buf)@.len(),
                p + 8 * n <= self.total_bits(),
                self.pos == p + 8 * i,
                forall|k: int| 0 <= k < i ==> buf@[k] == byte_at(data, p + 8 * k),
                forall|k: int| i <= k < buf@.len() ==> buf@[k] == old(buf)@[k],
            decreases n - i,
        {
            let b = match self.read_nbits(8) {
                Ok(b) => b,
                Err(_) => {
                    proof {
                        assert(false);
                    }
                    return Err(BitReadError::MalformedMessage);
                },
            };
            proof {
                lemma_bits_val_bound(data, p + 8 * (i as int), 8);
                vstd::arithmetic::power2::lemma2_to64();
            }
            buf[i] = b as u8;
            i = i + 1;
        }
        Ok(())
    }
}

pub proof fn lemma_varint64_len_from_le(s: Seq<u8>, i: int)
    requires
        0 <= i,
    ensures
        varint64_len_from(s, i) <= vstd::math::max(i + 1, 10),
    decreases 9 - i,
{
    if i < 9 && s[i] & 0x80 != 0 {
        lemma_varint64_len_from_le(s, i + 1);
    }
}

pub proof fn lemma_varint64_len_from_ge(s: Seq<u8>, i: int)
    ensures
        varint64_len_from(s, i) >= i + 1,
    decreases 9 - i,
{
    if i < 9 && s[i] & 0x80 != 0 {
        lemma_varint64_len_from_ge(s, i + 1);
    }
}

pub proof fn lemma_varint64_len_unroll(s: Seq<u8>, i: int)
    requires
        0 <= i <= 9,
        forall|j: int| 0 <= j < i ==> s[j] & 0x80 != 0,
    ensures
        spec_varint64_len(s) == varint64_len_from(s, i),
    decreases i,
{
    if i > 0 {
        lemma_varint64_len_unroll(s, i - 1);
        assert(s[i - 1] & 0x80 != 0);
    }
}

} // verus!
