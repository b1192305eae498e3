//! The outer layer of a demo file: an 8-byte ASCII magic, a declared
//! length, two pad bytes, and the raw frame data.

use vstd::prelude::*;
use vstd::slice::slice_subrange;

verus! {

#[derive(Debug, PartialEq, Eq)]
pub enum ParseContainerError {
    /// Fewer than the 16 header bytes were given.
    MissingHeader,
    /// The 8 magic bytes are not ASCII.
    InvalidMagic,
    /// The bytes after the header do not match the declared length.
    MismatchedLength { buffer_len: usize, expected_len: usize },
}

/// The 32-bit little-endian value stored at offset `i` of `s`.
pub open spec fn spec_u32_le(s: Seq<u8>, i: int) -> u32 {
    (s[i] as u32) | ((s[i + 1] as u32) << 8) | ((s[i + 2] as u32) << 16) | ((s[i + 3] as u32) << 24)
}

/// True when the first 8 bytes are ASCII.
pub open spec fn magic_is_ascii(s: Seq<u8>) -> bool {
    forall|i: int| 0 <= i < 8 ==> s[i] < 128
}

/// The outer container of a demo: a magic string, then the raw bytes of
/// the frame stream.
#[derive(Debug)]
pub struct Container {
    pub magic: Vec<u8>,
    pub inner: Vec<u8>,
}

impl Container {
    /// Splits the given bytes into a container.  The input must hold the
    /// 16 header bytes, ASCII magic, and exactly `declared + 2` bytes
    /// after the header, where `declared` is the little-endian 32-bit
    /// value at offset 8.
    pub fn parse(input: &[u8]) -> (r: Result<Container, ParseContainerError>)
        ensures
            match r {
                Ok(c) => {
                    &&& input@.len() >= 16
                    &&& magic_is_ascii(input@)
                    &&& c.magic@ == input@.subrange(0, 8)
                    &&& c.inner@ == input@.subrange(16, input@.len() as int)
                    &&& c.inner@.len() == spec_u32_le(input@, 8) + 2
                },
                Err(ParseContainerError::MissingHeader) => input@.len() < 16,
                Err(ParseContainerError::InvalidMagic) => input@.len() >= 16 && !magic_is_ascii(
                    input@,
                ),
                Err(ParseContainerError::MismatchedLength { buffer_len, expected_len }) => {
                    &&& input@.len() >= 16
                    &&& magic_is_ascii(input@)
                    &&& buffer_len == input@.len() - 16
                    &&& if spec_u32_le(input@, 8) + 2 <= usize::MAX {
                        expected_len == spec_u32_le(input@, 8) + 2
                    } else {
                        expected_len == usize::MAX
                    }
                    &&& buffer_len != spec_u32_le(input@, 8) + 2
                },
            },
    {
        if input.len() < 16 {
            return Err(ParseContainerError::MissingHeader);
        }
        let mut i: usize = 0;
        while i < 8
            invariant
                i <= 8,
                input@.len() >= 16,
                forall|j: int| 0 <= j < i ==> input@[j] < 128,
            decreases 8 - i,
        {
            if input[i] >= 128 {
                return Err(ParseContainerError::InvalidMagic);
            }
            i = i + 1;
        }
        let declared: u32 = (input[8] as u32) | ((input[9] as u32) << 8u32) | ((input[10] as u32)
            << 16u32) | ((input[11] as u32) << 24u32);
        let expected64: u64 = declared as u64 + 2;
        let buffer_len = input.len() - 16;
        if (buffer_len as u64) != expected64 {
            let expected_len: usize = if expected64 <= usize::MAX as u64 {
                expected64 as usize
            } else {
                usize::MAX
            };
            return Err(ParseContainerError::MismatchedLength { buffer_len, expected_len });
        }
        let magic_slice = slice_subrange(input, 0, 8);
        let inner_slice = slice_subrange(input, 16, input.len());
        Ok(Container {
            magic: crate::byteops::copy_bytes(magic_slice),
            inner: crate::byteops::copy_bytes(inner_slice),
        })
    }
}

} // verus!
