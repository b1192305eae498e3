//! The tagged union of decoded property values.  Float-family values
//! are carried as raw single-precision bit patterns; strings are the
//! exact wire bytes.

use vstd::prelude::*;

verus! {

/// One sticker of a weapon-sticker list.
#[derive(Debug, Clone, PartialEq, Eq)]
pub struct Sticker {
    pub name: Vec<u8>,
    pub wear: u32,
    pub id: u32,
    pub x: u32,
    pub y: u32,
}

/// A decoded property value.
#[derive(Debug, Clone, PartialEq, Eq)]
pub enum Variant {
    Bool(bool),
    U32(u32),
    I32(i32),
    I16(i16),
    F32(u32),
    U64(u64),
    U8(u8),
    String(Vec<u8>),
    VecXY([u32; 2]),
    VecXYZ([u32; 3]),
    StringVec(Vec<Vec<u8>>),
    U32Vec(Vec<u32>),
    U64Vec(Vec<u64>),
    Stickers(Vec<Sticker>),
}

impl Variant {
    /// The raw bit pattern of a single-precision value.
    pub fn as_f32_bits(&self) -> (r: Option<u32>)
        ensures
            match r {
                Some(v) => *self == Variant::F32(v),
                None => !(self is F32),
            },
    {
        match self {
            Variant::F32(v) => Some(*v),
            _ => None,
        }
    }

    pub fn as_u32(&self) -> (r: Option<u32>)
        ensures
            match r {
                Some(v) => *self == Variant::U32(v),
                None => !(self is U32),
            },
    {
        match self {
            Variant::U32(v) => Some(*v),
            _ => None,
        }
    }

    pub fn as_i32(&self) -> (r: Option<i32>)
        ensures
            match r {
                Some(v) => *self == Variant::I32(v),
                None => !(self is I32),
            },
    {
        match self {
            Variant::I32(v) => Some(*v),
            _ => None,
        }
    }
}

} // verus!
