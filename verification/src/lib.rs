//! Decoder for the binary demo (replay) container format of a Source-2-era
//! competitive shooter: outer container, frame stream, bit-packed network
//! messages, flattened-serializer schema, field-path delta decoding and a
//! catalogue of primitive value decoders.

mod byteops;

mod varint;
pub use varint::parse_varint;

pub mod bitreader;
pub use bitreader::BitReadError;

mod container;
pub use container::{Container, ParseContainerError};

mod democmd;
pub use democmd::DemoCommand;

mod snappy;

mod frame;
pub use frame::{Frame, FrameDecompressError, FrameIterator, FrameParseError};

pub mod softfloat;

pub mod qfloat;

pub mod variant;
pub use variant::{Sticker, Variant};

pub mod decoder;
pub use decoder::Decoder;

mod netmessages;

pub mod protowire;

pub mod sendtables;

pub mod propcontroller;

pub mod entities;
pub use entities::{Entity, EntityContext, EntityFilter, EntityProp, EntityState};

mod values;
pub use values::{RawValue, UserId};

pub mod gameevent;

mod packet;
pub use packet::DemoEvent;

pub mod parser;
pub use parser::{EntityTickList, EntityTickStates, FirstPassError, FirstPassOutput, Player};

pub mod lazyparser;
pub use lazyparser::{LazyEntityIterator, LazyEventIterator, LazyParser};

pub mod structured;

pub mod huffman;

pub mod fieldpath;
pub use fieldpath::{FieldPath, Paths};
