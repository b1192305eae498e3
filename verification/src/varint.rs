//! Byte-level variable-length unsigned integers, as used between frames of
//! the outer demo stream: low 7 bits per byte, least significant group
//! first, a clear high bit ends the encoding, at most 5 bytes.

use vstd::prelude::*;
use vstd::slice::slice_subrange;

verus! {

/// True when `data[i]` carries a set continuation (high) bit.
pub open spec fn varint_cont(data: Seq<u8>, i: int) -> bool {
    data[i] & 0x80 != 0
}

/// Bytes a varint occupies when the reader stands at offset `i` of it:
/// the fifth byte is always terminal; a missing byte still counts, so the
/// result exceeds `data.len()` exactly when the input is too short.
pub open spec fn varint_len_from(data: Seq<u8>, i: int) -> int
    decreases 4 - i,
{
    if i >= 4 {
        i + 1
    } else if i >= data.len() {
        i + 1
    } else if !varint_cont(data, i) {
        i + 1
    } else {
        varint_len_from(data, i + 1)
    }
}

/// Bytes the varint at the head of `data` occupies (1 to 5); greater than
/// `data.len()` exactly when the input ends inside the encoding.
pub open spec fn spec_varint_len(data: Seq<u8>) -> int {
    varint_len_from(data, 0)
}

/// Value of the varint formed by the first `n` bytes of `data`.
pub open spec fn spec_varint_value(data: Seq<u8>, n: int) -> u32
    decreases n,
{
    if n <= 0 || n > data.len() {
        0u32
    } else {
        spec_varint_value(data, n - 1) | (((data[n - 1] & 0x7f) as u32) << (7 * (n - 1)))
    }
}

pub proof fn lemma_varint_len_from_le(data: Seq<u8>, i: int)
    requires
        0 <= i,
    ensures
        varint_len_from(data, i) <= vstd::math::max(i + 1, 5),
    decreases 4 - i,
{
    if i < 4 && i < data.len() && varint_cont(data, i) {
        lemma_varint_len_from_le(data, i + 1);
    }
}

pub proof fn lemma_varint_len_from_ge(data: Seq<u8>, i: int)
    ensures
        varint_len_from(data, i) >= i + 1,
    decreases 4 - i,
{
    if i < 4 && i < data.len() && varint_cont(data, i) {
        lemma_varint_len_from_ge(data, i + 1);
    }
}

pub proof fn lemma_varint_len_unroll(data: Seq<u8>, i: int)
    requires
        0 <= i <= 4,
        i <= data.len(),
        forall|j: int| 0 <= j < i ==> varint_cont(data, j),
    ensures
        spec_varint_len(data) == varint_len_from(data, i),
    decreases i,
{
    if i > 0 {
        lemma_varint_len_unroll(data, i - 1);
        assert(varint_cont(data, i - 1));
    }
}

/// Reads a variable-length unsigned integer from the head of `input` and
/// returns the remaining bytes beside it.  Fails exactly when the input
/// ends before the encoding does.
pub fn parse_varint(input: &[u8]) -> (r: Result<(&[u8], u32), ()>)
    ensures
        match r {
            Ok((rest, value)) => {
                let n = spec_varint_len(input@);
                &&& 1 <= n <= 5
                &&& n <= input@.len()
                &&& rest@ == input@.subrange(n, input@.len() as int)
                &&& value == spec_varint_value(input@, n)
            },
            Err(()) => spec_varint_len(input@) > input@.len(),
        },
{
    let ghost data = input@;
    let mut result: u32 = 0;
    let mut count: usize = 0;
    loop
        invariant
            count <= 4,
            count <= data.len(),
            data == input@,
            result == spec_varint_value(data, count as int),
            forall|j: int| 0 <= j < count ==> varint_cont(data, j),
        decreases 4 - count,
    {
        proof {
            lemma_varint_len_unroll(data, count as int);
        }
        if count >= input.len() {
            return Err(());
        }
        let b = input[count];
        result = result | (((b & 0x7f) as u32) << (7 * count));
        proof {
            assert(spec_varint_value(data, count + 1) == spec_varint_value(data, count as int) | (((
            data[count as int] & 0x7f) as u32) << (7 * (count as int))));
        }
        count = count + 1;
        if b & 0x80 == 0 || count == 5 {
            let rest = slice_subrange(input, count, input.len());
            return Ok((rest, result));
        }
    }
}

} // verus!
