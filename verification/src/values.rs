//! Raw event values and user identities.

use crate::protowire::GameEventKey;
use vstd::prelude::*;

verus! {

/// An untyped game-event value; floats keep their bit patterns and
/// strings their wire bytes.
#[derive(Debug, Clone, PartialEq, Eq)]
pub enum RawValue {
    String(Vec<u8>),
    F32(u32),
    I32(i32),
    Bool(bool),
    U64(u64),
}

/// A player's slot identity within one match.
#[derive(Debug, PartialEq, Eq, Clone, Copy, Structural)]
pub struct UserId(pub i32);

/// Types one positional event value by its declared type tag (1 to 9).
pub fn raw_of_key(value: &GameEventKey) -> (r: Option<RawValue>) {
    let t = value.key_type;
    if t == 1 {
        match &value.val_string {
            Some(s) => Some(RawValue::String(crate::byteops::copy_bytes(s.as_slice()))),
            None => None,
        }
    } else if t == 2 {
        match value.val_float_bits {
            Some(b) => Some(RawValue::F32(b)),
            None => None,
        }
    } else if t == 3 || t == 8 {
        match value.val_long {
            Some(v) => Some(RawValue::I32(v)),
            None => None,
        }
    } else if t == 4 || t == 9 {
        match value.val_short {
            Some(v) => Some(RawValue::I32(v)),
            None => None,
        }
    } else if t == 5 {
        match value.val_byte {
            Some(v) => Some(RawValue::I32(v)),
            None => None,
        }
    } else if t == 6 {
        match value.val_bool {
            Some(v) => Some(RawValue::Bool(v)),
            None => None,
        }
    } else if t == 7 {
        match value.val_uint64 {
            Some(v) => Some(RawValue::U64(v)),
            None => None,
        }
    } else {
        None
    }
}

impl RawValue {
    /// The signed value, when this is one.
    pub fn to_i32(self) -> (r: Result<i32, ()>)
        ensures
            match r {
                Ok(v) => self == RawValue::I32(v),
                Err(()) => !(self is I32),
            },
    {
        match self {
            RawValue::I32(v) => Ok(v),
            _ => Err(()),
        }
    }

    /// The boolean value, when this is one.
    pub fn to_bool(self) -> (r: Result<bool, ()>)
        ensures
            match r {
                Ok(v) => self == RawValue::Bool(v),
                Err(()) => !(self is Bool),
            },
    {
        match self {
            RawValue::Bool(v) => Ok(v),
            _ => Err(()),
        }
    }

    /// The string value, when this is one.
    pub fn to_string_bytes(self) -> (r: Result<Vec<u8>, ()>)
        ensures
            r is Err ==> !(self is String),
    {
        match self {
            RawValue::String(v) => Ok(v),
            _ => Err(()),
        }
    }

    /// The user identity, when this is a signed value.
    pub fn to_user_id(self) -> (r: Result<UserId, ()>)
        ensures
            match r {
                Ok(v) => self == RawValue::I32(v.0),
                Err(()) => !(self is I32),
            },
    {
        match self {
            RawValue::I32(v) => Ok(UserId(v)),
            _ => Err(()),
        }
    }
}

} // verus!
