//! Minimal protocol-buffer wire-format reading for the messages the
//! demo stream embeds.  The schema of these messages is an outside
//! interface of the format; only the fields this library consumes are
//! decoded, and unknown fields are skipped.  Floating-point fields are
//! kept as their raw 32-bit patterns.

use vstd::prelude::*;

verus! {

/// Failure to decode an embedded protocol-buffer message.
#[derive(Debug, PartialEq, Eq)]
pub enum ProtoError {
    /// A varint or field ran past the end of the message.
    Truncated,
    /// A field carried an unknown wire type.
    BadWireType,
}

/// One decoded field value.
pub enum PwVal {
    Varint(u64),
    Fixed32(u32),
    Fixed64(u64),
    Bytes(Vec<u8>),
}

/// The ten bytes a varint could occupy at `pos`, zero past the end.
pub open spec fn pw_varint_bytes(data: Seq<u8>, pos: int) -> Seq<u8> {
    Seq::new(
        10,
        |k: int|
            if 0 <= pos + k < data.len() {
                data[pos + k]
            } else {
                0u8
            },
    )
}

/// Reads one base-128 varint: at most 10 bytes, and the tenth byte may
/// only hold 0 or 1.
pub fn pw_varint(data: &[u8], pos: &mut usize) -> (r: Result<u64, ProtoError>)
    requires
        *old(pos) <= data@.len(),
    ensures
        match r {
            Ok(_) => *old(pos) < *final (pos) <= data@.len(),
            Err(_) => *final (pos) == *old(pos),
        },
        ({
            let s = pw_varint_bytes(data@, *old(pos) as int);
            let len = crate::bitreader::spec_varint64_len(s);
            &&& (r is Err <==> (*old(pos) + len > data@.len() || (len == 10 && s[9] > 1)))
            &&& r matches Ok(v) ==> *final (pos) == *old(pos) + len && v
                == crate::bitreader::spec_varint64_value(s, len)
        }),
{
    let ghost s = pw_varint_bytes(data@, *old(pos) as int);
    let mut result: u64 = 0;
    let mut count: u32 = 0;
    let mut p = *pos;
    loop
        invariant
            count <= 9,
            *old(pos) + count == p,
            p <= data@.len(),
            *pos == *old(pos),
            s == pw_varint_bytes(data@, *old(pos) as int),
            result == crate::bitreader::spec_varint64_value(s, count as int),
            forall|j: int| 0 <= j < count ==> s[j] & 0x80 != 0,
        decreases 9 - count,
    {
        proof {
            crate::bitreader::lemma_varint64_len_unroll(s, count as int);
            crate::bitreader::lemma_varint64_len_from_ge(s, count as int);
        }
        if p >= data.len() {
            return Err(ProtoError::Truncated);
        }
        let b = data[p];
        proof {
            assert(s[count as int] == data@[p as int]);
        }
        p = p + 1;
        if count == 9 {
            proof {
                let x = s[9];
                assert(x <= 1 ==> (x & 0x7f) == x) by (bit_vector);
            }
            if b > 1 {
                return Err(ProtoError::Truncated);
            }
            result = result | ((b as u64) << 63u32);
            *pos = p;
            return Ok(result);
        }
        result = result | (((b & 0x7f) as u64) << (7 * count));
        count = count + 1;
        if b & 0x80 == 0 {
            proof {
                crate::bitreader::lemma_varint64_len_unroll(s, (count - 1) as int);
            }
            *pos = p;
            return Ok(result);
        }
    }
}

/// Value of `n` little-endian bytes at `pos` (zero past the end).
pub open spec fn spec_le(data: Seq<u8>, pos: int, n: int) -> int
    decreases n,
{
    if n <= 0 {
        0
    } else {
        spec_le(data, pos, n - 1) + (if 0 <= pos + n - 1 < data.len() {
            data[pos + n - 1] as int
        } else {
            0
        }) * vstd::arithmetic::power2::pow2((8 * (n - 1)) as nat)
    }
}

proof fn lemma_spec_le_bound(data: Seq<u8>, pos: int, n: int)
    requires
        n >= 0,
    ensures
        0 <= spec_le(data, pos, n) < vstd::arithmetic::power2::pow2((8 * n) as nat),
    decreases n,
{
    vstd::arithmetic::power2::lemma_pow2_pos((8 * n) as nat);
    if n > 0 {
        lemma_spec_le_bound(data, pos, n - 1);
        let b: int = if 0 <= pos + n - 1 < data.len() {
            data[pos + n - 1] as int
        } else {
            0
        };
        let p1 = vstd::arithmetic::power2::pow2((8 * (n - 1)) as nat);
        vstd::arithmetic::power2::lemma_pow2_adds((8 * (n - 1)) as nat, 8);
        vstd::arithmetic::power2::lemma2_to64();
        assert(vstd::arithmetic::power2::pow2((8 * n) as nat) == p1 * 256);
        assert(b * p1 <= 255 * p1) by (nonlinear_arith)
            requires
                b <= 255,
                p1 >= 0,
        ;
        assert(spec_le(data, pos, n - 1) + b * p1 < p1 * 256) by (nonlinear_arith)
            requires
                spec_le(data, pos, n - 1) < p1,
                b * p1 <= 255 * p1,
                p1 >= 1,
        ;
    }
}

/// Reads `n` bytes.
pub fn pw_bytes(data: &[u8], pos: &mut usize, n: usize) -> (r: Result<Vec<u8>, ProtoError>)
    requires
        *old(pos) <= data@.len(),
    ensures
        match r {
            Ok(v) => {
                &&& *final (pos) == *old(pos) + n <= data@.len()
                &&& v@ == data@.subrange(*old(pos) as int, *old(pos) + n)
            },
            Err(_) => *final (pos) == *old(pos),
        },
{
    if n > data.len() - *pos {
        return Err(ProtoError::Truncated);
    }
    let s = vstd::slice::slice_subrange(data, *pos, *pos + n);
    let v = crate::byteops::copy_bytes(s);
    *pos = *pos + n;
    Ok(v)
}

/// Reads the next field of a message that ends at `end`; `None` at the
/// end of the message.  The cursor always advances on a field.
pub fn pw_next(data: &[u8], pos: &mut usize, end: usize) -> (r: Result<
    Option<(u64, PwVal)>,
    ProtoError,
>)
    requires
        *old(pos) <= end,
        end <= data@.len(),
    ensures
        match r {
            Ok(Some(_)) => *old(pos) < *final (pos) <= end,
            Ok(None) => *final (pos) == *old(pos) && *old(pos) == end,
            Err(_) => *old(pos) <= *final (pos) <= data@.len(),
        },
        r matches Ok(Some((field, val))) ==> ({
            let ts = pw_varint_bytes(data@, *old(pos) as int);
            let tlen = crate::bitreader::spec_varint64_len(ts);
            let tag = crate::bitreader::spec_varint64_value(ts, tlen);
            let body = *old(pos) + tlen;
            &&& field == tag >> 3u32
            &&& ((tag & 7) == 0 ==> val == PwVal::Varint(
                crate::bitreader::spec_varint64_value(
                    pw_varint_bytes(data@, body),
                    crate::bitreader::spec_varint64_len(pw_varint_bytes(data@, body)),
                ),
            ))
            &&& ((tag & 7) == 5 ==> (val matches PwVal::Fixed32(v) && v as int == spec_le(
                data@,
                body,
                4,
            )))
            &&& ((tag & 7) == 1 ==> (val matches PwVal::Fixed64(v) && v as int == spec_le(
                data@,
                body,
                8,
            )))
            &&& ((tag & 7) == 2 ==> (val matches PwVal::Bytes(b) && ({
                let ls = pw_varint_bytes(data@, body);
                let llen = crate::bitreader::spec_varint64_len(ls);
                let n = crate::bitreader::spec_varint64_value(ls, llen);
                b@ == data@.subrange(body + llen, body + llen + n)
            })))
        }),
{
    if *pos >= end {
        return Ok(None);
    }
    let start = *pos;
    let tag = match pw_varint(data, pos) {
        Ok(t) => t,
        Err(e) => {
            *pos = start;
            return Err(e);
        },
    };
    if *pos > end {
        *pos = start;
        return Err(ProtoError::Truncated);
    }
    let field = tag >> 3u32;
    let wire = (tag & 7) as u8;
    proof {
        assert(tag & 7 < 8) by (bit_vector);
        assert(((tag & 7) as u8) as u64 == tag & 7) by (bit_vector);
    }
    if wire == 0 {
        let v = match pw_varint(data, pos) {
            Ok(v) => v,
            Err(e) => {
                return Err(e);
            },
        };
        if *pos > end {
            return Err(ProtoError::Truncated);
        }
        Ok(Some((field, PwVal::Varint(v))))
    } else if wire == 1 {
        if end - *pos < 8 {
            return Err(ProtoError::Truncated);
        }
        let ghost body = *pos as int;
        let b = match pw_bytes(data, pos, 8) {
            Ok(b) => b,
            Err(e) => {
                return Err(e);
            },
        };
        let mut v: u64 = 0;
        let mut i: usize = 0;
        while i < 8
            invariant
                b@.len() == 8,
                i <= 8,
                0 <= body,
                body + 8 <= data@.len(),
                forall|j: int| 0 <= j < 8 ==> b@[j] == data@[body + j],
                v as int == spec_le(data@, body, i as int),
            decreases 8 - i,
        {
            let by = b[i];
            let sh: u32 = (8 * i) as u32;
            proof {
                lemma_spec_le_bound(data@, body, i as int);
                vstd::bits::lemma_u64_pow2_no_overflow(sh as nat);
                vstd::bits::lemma_u64_shl_is_mul(1u64, sh as u64);
                assert(1u64 << sh == vstd::arithmetic::power2::pow2(sh as nat));
                assert(v < (1u64 << sh));
                let bb = by as u64;
                assert(v < (1u64 << sh) && sh <= 56 && bb < 256 ==> (v | (bb << sh)) == v + bb * (
                1u64 << sh)) by (bit_vector);
                assert(spec_le(data@, body, i + 1) == spec_le(data@, body, i as int) + (data@[body
                    + i] as int) * vstd::arithmetic::power2::pow2((8 * i) as nat));
            }
            v = v | ((by as u64) << sh);
            i = i + 1;
        }
        Ok(Some((field, PwVal::Fixed64(v))))
    } else if wire == 5 {
        if end - *pos < 4 {
            return Err(ProtoError::Truncated);
        }
        let ghost body = *pos as int;
        let b = match pw_bytes(data, pos, 4) {
            Ok(b) => b,
            Err(e) => {
                return Err(e);
            },
        };
        let v: u32 = (b[0] as u32) | ((b[1] as u32) << 8u32) | ((b[2] as u32) << 16u32) | ((b[3]
            as u32) << 24u32);
        proof {
            let b0 = b@[0];
            let b1 = b@[1];
            let b2 = b@[2];
            let b3 = b@[3];
            assert((b0 as u32) | ((b1 as u32) << 8u32) | ((b2 as u32) << 16u32) | ((b3 as u32)
                << 24u32) == (b0 as u32) + (b1 as u32) * 0x100 + (b2 as u32) * 0x10000 + (b3
                as u32) * 0x1000000) by (bit_vector);
            vstd::arithmetic::power2::lemma2_to64();
            assert(spec_le(data@, body, 0) == 0);
            assert(spec_le(data@, body, 1) == spec_le(data@, body, 0) + (data@[body] as int)
                * vstd::arithmetic::power2::pow2(0));
            assert(spec_le(data@, body, 2) == spec_le(data@, body, 1) + (data@[body + 1] as int)
                * vstd::arithmetic::power2::pow2(8));
            assert(spec_le(data@, body, 3) == spec_le(data@, body, 2) + (data@[body + 2] as int)
                * vstd::arithmetic::power2::pow2(16));
            assert(spec_le(data@, body, 4) == spec_le(data@, body, 3) + (data@[body + 3] as int)
                * vstd::arithmetic::power2::pow2(24));
        }
        Ok(Some((field, PwVal::Fixed32(v))))
    } else if wire == 2 {
        let n = match pw_varint(data, pos) {
            Ok(n) => n,
            Err(e) => {
                return Err(e);
            },
        };
        if *pos > end {
            return Err(ProtoError::Truncated);
        }
        if n > (end - *pos) as u64 {
            return Err(ProtoError::Truncated);
        }
        let b = match pw_bytes(data, pos, n as usize) {
            Ok(b) => b,
            Err(e) => {
                return Err(e);
            },
        };
        Ok(Some((field, PwVal::Bytes(b))))
    } else {
        Err(ProtoError::BadWireType)
    }
}

/// A varint field as a 32-bit signed value, the way the proto codec
/// reads an `int32` field (truncation of the 64-bit varint).
pub fn pw_i32(v: u64) -> (r: i32)
    ensures
        r == v as i32,
{
    v as i32
}

/// Decodes a packed or single repeated varint field into `out`.
fn pw_repeated_varint(val: PwVal, out: &mut Vec<i32>) -> (r: Result<(), ProtoError>)
    ensures
        final (out)@.len() >= old(out)@.len(),
{
    match val {
        PwVal::Varint(v) => {
            out.push(v as i32);
            Ok(())
        },
        PwVal::Bytes(b) => {
            let mut p: usize = 0;
            loop
                invariant
                    p <= b@.len(),
                    out@.len() >= old(out)@.len(),
                decreases b@.len() - p,
            {
                if p >= b.len() {
                    return Ok(());
                }
                let v = pw_varint(b.as_slice(), &mut p)?;
                out.push(v as i32);
            }
        },
        _ => Err(ProtoError::BadWireType),
    }
}

/// The demo file header frame.
#[derive(Debug)]
pub struct CDemoFileHeader {
    pub demo_file_stamp: Vec<u8>,
    pub network_protocol: i32,
    pub server_name: Vec<u8>,
    pub client_name: Vec<u8>,
    pub map_name: Vec<u8>,
    pub game_directory: Vec<u8>,
    pub fullpackets_version: i32,
    pub allow_clientside_entities: bool,
    pub allow_clientside_particles: bool,
    pub addons: Vec<u8>,
    pub demo_version_name: Vec<u8>,
    pub demo_version_guid: Vec<u8>,
    pub build_num: i32,
    pub game: Vec<u8>,
    pub server_start_tick: i32,
}

impl CDemoFileHeader {
    pub fn parse(data: &[u8]) -> (r: Result<CDemoFileHeader, ProtoError>) {
        let mut m = CDemoFileHeader {
            demo_file_stamp: Vec::new(),
            network_protocol: 0,
            server_name: Vec::new(),
            client_name: Vec::new(),
            map_name: Vec::new(),
            game_directory: Vec::new(),
            fullpackets_version: 0,
            allow_clientside_entities: false,
            allow_clientside_particles: false,
            addons: Vec::new(),
            demo_version_name: Vec::new(),
            demo_version_guid: Vec::new(),
            build_num: 0,
            game: Vec::new(),
            server_start_tick: 0,
        };
        let mut pos: usize = 0;
        let end = data.len();
        loop
            invariant
                pos <= end,
                end == data@.len(),
            decreases end - pos,
        {
            match pw_next(data, &mut pos, end)? {
                None => {
                    return Ok(m);
                },
                Some((field, val)) => {
                    match val {
                        PwVal::Varint(v) => {
                            if field == 2 {
                                m.network_protocol = pw_i32(v);
                            } else if field == 7 {
                                m.fullpackets_version = pw_i32(v);
                            } else if field == 8 {
                                m.allow_clientside_entities = v != 0;
                            } else if field == 9 {
                                m.allow_clientside_particles = v != 0;
                            } else if field == 13 {
                                m.build_num = pw_i32(v);
                            } else if field == 15 {
                                m.server_start_tick = pw_i32(v);
                            }
                        },
                        PwVal::Bytes(b) => {
                            if field == 1 {
                                m.demo_file_stamp = b;
                            } else if field == 3 {
                                m.server_name = b;
                            } else if field == 4 {
                                m.client_name = b;
                            } else if field == 5 {
                                m.map_name = b;
                            } else if field == 6 {
                                m.game_directory = b;
                            } else if field == 10 {
                                m.addons = b;
                            } else if field == 11 {
                                m.demo_version_name = b;
                            } else if field == 12 {
                                m.demo_version_guid = b;
                            } else if field == 14 {
                                m.game = b;
                            }
                        },
                        _ => {},
                    }
                },
            }
        }
    }
}

/// The demo file-info frame; the playback time keeps its raw bit
/// pattern.
#[derive(Debug)]
pub struct CDemoFileInfo {
    pub playback_time_bits: u32,
    pub playback_ticks: i32,
    pub playback_frames: i32,
    pub game_info: Vec<u8>,
}

impl CDemoFileInfo {
    pub fn parse(data: &[u8]) -> (r: Result<CDemoFileInfo, ProtoError>) {
        let mut m = CDemoFileInfo {
            playback_time_bits: 0,
            playback_ticks: 0,
            playback_frames: 0,
            game_info: Vec::new(),
        };
        let mut pos: usize = 0;
        let end = data.len();
        loop
            invariant
                pos <= end,
                end == data@.len(),
            decreases end - pos,
        {
            match pw_next(data, &mut pos, end)? {
                None => {
                    return Ok(m);
                },
                Some((field, val)) => {
                    match val {
                        PwVal::Fixed32(v) => {
                            if field == 1 {
                                m.playback_time_bits = v;
                            }
                        },
                        PwVal::Varint(v) => {
                            if field == 2 {
                                m.playback_ticks = pw_i32(v);
                            } else if field == 3 {
                                m.playback_frames = pw_i32(v);
                            }
                        },
                        PwVal::Bytes(b) => {
                            if field == 4 {
                                m.game_info = b;
                            }
                        },
                        _ => {},
                    }
                },
            }
        }
    }
}

/// A packet frame: the raw concatenated network messages.
#[derive(Debug)]
pub struct CDemoPacket {
    pub data: Vec<u8>,
}

impl CDemoPacket {
    pub fn parse(data: &[u8]) -> (r: Result<CDemoPacket, ProtoError>) {
        let mut m = CDemoPacket { data: Vec::new() };
        let mut pos: usize = 0;
        let end = data.len();
        loop
            invariant
                pos <= end,
                end == data@.len(),
            decreases end - pos,
        {
            match pw_next(data, &mut pos, end)? {
                None => {
                    return Ok(m);
                },
                Some((field, val)) => {
                    match val {
                        PwVal::Bytes(b) => {
                            if field == 3 {
                                m.data = b;
                            }
                        },
                        _ => {},
                    }
                },
            }
        }
    }
}

/// One string-table entry of a string-tables frame.
#[derive(Debug)]
pub struct StringTableItem {
    pub str_name: Vec<u8>,
    pub data: Vec<u8>,
}

/// One table of a string-tables frame.
#[derive(Debug)]
pub struct StringTable {
    pub items: Vec<StringTableItem>,
    pub table_name: Vec<u8>,
}

/// A string-tables frame.
#[derive(Debug)]
pub struct CDemoStringTables {
    pub tables: Vec<StringTable>,
}

impl StringTableItem {
    fn parse(data: &[u8]) -> (r: Result<StringTableItem, ProtoError>) {
        let mut m = StringTableItem { str_name: Vec::new(), data: Vec::new() };
        let mut pos: usize = 0;
        let end = data.len();
        loop
            invariant
                pos <= end,
                end == data@.len(),
            decreases end - pos,
        {
            match pw_next(data, &mut pos, end)? {
                None => {
                    return Ok(m);
                },
                Some((field, val)) => {
                    match val {
                        PwVal::Bytes(b) => {
                            if field == 1 {
                                m.str_name = b;
                            } else if field == 2 {
                                m.data = b;
                            }
                        },
                        _ => {},
                    }
                },
            }
        }
    }
}

impl StringTable {
    fn parse(data: &[u8]) -> (r: Result<StringTable, ProtoError>) {
        let mut m = StringTable { items: Vec::new(), table_name: Vec::new() };
        let mut pos: usize = 0;
        let end = data.len();
        loop
            invariant
                pos <= end,
                end == data@.len(),
            decreases end - pos,
        {
            match pw_next(data, &mut pos, end)? {
                None => {
                    return Ok(m);
                },
                Some((field, val)) => {
                    match val {
                        PwVal::Bytes(b) => {
                            if field == 1 {
                                let item = StringTableItem::parse(b.as_slice())?;
                                m.items.push(item);
                            } else if field == 2 {
                                m.table_name = b;
                            }
                        },
                        _ => {},
                    }
                },
            }
        }
    }
}

impl CDemoStringTables {
    pub fn parse(data: &[u8]) -> (r: Result<CDemoStringTables, ProtoError>) {
        let mut m = CDemoStringTables { tables: Vec::new() };
        let mut pos: usize = 0;
        let end = data.len();
        loop
            invariant
                pos <= end,
                end == data@.len(),
            decreases end - pos,
        {
            match pw_next(data, &mut pos, end)? {
                None => {
                    return Ok(m);
                },
                Some((field, val)) => {
                    match val {
                        PwVal::Bytes(b) => {
                            if field == 1 {
                                let t = StringTable::parse(b.as_slice())?;
                                m.tables.push(t);
                            }
                        },
                        _ => {},
                    }
                },
            }
        }
    }
}

/// One class of a class-info frame.
#[derive(Debug)]
pub struct ClassInfoEntry {
    pub class_id: i32,
    pub network_name: Vec<u8>,
}

/// A class-info frame.
#[derive(Debug)]
pub struct CDemoClassInfo {
    pub classes: Vec<ClassInfoEntry>,
}

impl ClassInfoEntry {
    fn parse(data: &[u8]) -> (r: Result<ClassInfoEntry, ProtoError>) {
        let mut m = ClassInfoEntry { class_id: 0, network_name: Vec::new() };
        let mut pos: usize = 0;
        let end = data.len();
        loop
            invariant
                pos <= end,
                end == data@.len(),
            decreases end - pos,
        {
            match pw_next(data, &mut pos, end)? {
                None => {
                    return Ok(m);
                },
                Some((field, val)) => {
                    match val {
                        PwVal::Varint(v) => {
                            if field == 1 {
                                m.class_id = pw_i32(v);
                            }
                        },
                        PwVal::Bytes(b) => {
                            if field == 2 {
                                m.network_name = b;
                            }
                        },
                        _ => {},
                    }
                },
            }
        }
    }
}

impl CDemoClassInfo {
    pub fn parse(data: &[u8]) -> (r: Result<CDemoClassInfo, ProtoError>) {
        let mut m = CDemoClassInfo { classes: Vec::new() };
        let mut pos: usize = 0;
        let end = data.len();
        loop
            invariant
                pos <= end,
                end == data@.len(),
            decreases end - pos,
        {
            match pw_next(data, &mut pos, end)? {
                None => {
                    return Ok(m);
                },
                Some((field, val)) => {
                    match val {
                        PwVal::Bytes(b) => {
                            if field == 1 {
                                let c = ClassInfoEntry::parse(b.as_slice())?;
                                m.classes.push(c);
                            }
                        },
                        _ => {},
                    }
                },
            }
        }
    }
}

/// A send-tables frame: one length-prefixed serializer message.
#[derive(Debug)]
pub struct CDemoSendTables {
    pub data: Vec<u8>,
}

impl CDemoSendTables {
    pub fn parse(data: &[u8]) -> (r: Result<CDemoSendTables, ProtoError>) {
        let mut m = CDemoSendTables { data: Vec::new() };
        let mut pos: usize = 0;
        let end = data.len();
        loop
            invariant
                pos <= end,
                end == data@.len(),
            decreases end - pos,
        {
            match pw_next(data, &mut pos, end)? {
                None => {
                    return Ok(m);
                },
                Some((field, val)) => {
                    match val {
                        PwVal::Bytes(b) => {
                            if field == 1 {
                                m.data = b;
                            }
                        },
                        _ => {},
                    }
                },
            }
        }
    }
}

/// A full-packet frame: a string-table snapshot plus an ordinary packet.
#[derive(Debug)]
pub struct CDemoFullPacket {
    pub string_table: Option<CDemoStringTables>,
    pub packet: Option<CDemoPacket>,
}

impl CDemoFullPacket {
    pub fn parse(data: &[u8]) -> (r: Result<CDemoFullPacket, ProtoError>) {
        let mut m = CDemoFullPacket { string_table: None, packet: None };
        let mut pos: usize = 0;
        let end = data.len();
        loop
            invariant
                pos <= end,
                end == data@.len(),
            decreases end - pos,
        {
            match pw_next(data, &mut pos, end)? {
                None => {
                    return Ok(m);
                },
                Some((field, val)) => {
                    match val {
                        PwVal::Bytes(b) => {
                            if field == 1 {
                                let t = CDemoStringTables::parse(b.as_slice())?;
                                m.string_table = Some(t);
                            } else if field == 2 {
                                let p = CDemoPacket::parse(b.as_slice())?;
                                m.packet = Some(p);
                            }
                        },
                        _ => {},
                    }
                },
            }
        }
    }
}

/// One field descriptor of the flattened-serializer message; the
/// optional symbol references are kept as optional indices, and the
/// float bounds keep their raw bit patterns.
#[derive(Debug, Clone)]
pub struct FlatFieldT {
    pub var_type_sym: i32,
    pub var_name_sym: i32,
    pub bit_count: i32,
    pub low_value_bits: Option<u32>,
    pub high_value_bits: Option<u32>,
    pub encode_flags: i32,
    pub field_serializer_name_sym: Option<i32>,
    pub send_node_sym: i32,
    pub var_encoder_sym: Option<i32>,
}

/// One serializer of the flattened-serializer message.
#[derive(Debug)]
pub struct FlatSerializerT {
    pub serializer_name_sym: i32,
    pub fields_index: Vec<i32>,
}

/// The flattened-serializer message: a symbol pool, a field pool, and
/// the serializers referencing both by index.
#[derive(Debug)]
pub struct FlattenedSerializer {
    pub symbols: Vec<Vec<u8>>,
    pub fields: Vec<FlatFieldT>,
    pub serializers: Vec<FlatSerializerT>,
}

impl FlatFieldT {
    fn parse(data: &[u8]) -> (r: Result<FlatFieldT, ProtoError>) {
        let mut m = FlatFieldT {
            var_type_sym: 0,
            var_name_sym: 0,
            bit_count: 0,
            low_value_bits: None,
            high_value_bits: None,
            encode_flags: 0,
            field_serializer_name_sym: None,
            send_node_sym: 0,
            var_encoder_sym: None,
        };
        let mut pos: usize = 0;
        let end = data.len();
        loop
            invariant
                pos <= end,
                end == data@.len(),
            decreases end - pos,
        {
            match pw_next(data, &mut pos, end)? {
                None => {
                    return Ok(m);
                },
                Some((field, val)) => {
                    match val {
                        PwVal::Varint(v) => {
                            if field == 1 {
                                m.var_type_sym = pw_i32(v);
                            } else if field == 2 {
                                m.var_name_sym = pw_i32(v);
                            } else if field == 3 {
                                m.bit_count = pw_i32(v);
                            } else if field == 6 {
                                m.encode_flags = pw_i32(v);
                            } else if field == 7 {
                                m.field_serializer_name_sym = Some(pw_i32(v));
                            } else if field == 9 {
                                m.send_node_sym = pw_i32(v);
                            } else if field == 10 {
                                m.var_encoder_sym = Some(pw_i32(v));
                            }
                        },
                        PwVal::Fixed32(v) => {
                            if field == 4 {
                                m.low_value_bits = Some(v);
                            } else if field == 5 {
                                m.high_value_bits = Some(v);
                            }
                        },
                        _ => {},
                    }
                },
            }
        }
    }
}

impl FlatSerializerT {
    fn parse(data: &[u8]) -> (r: Result<FlatSerializerT, ProtoError>) {
        let mut m = FlatSerializerT { serializer_name_sym: 0, fields_index: Vec::new() };
        let mut pos: usize = 0;
        let end = data.len();
        loop
            invariant
                pos <= end,
                end == data@.len(),
            decreases end - pos,
        {
            match pw_next(data, &mut pos, end)? {
                None => {
                    return Ok(m);
                },
                Some((field, val)) => {
                    if field == 1 {
                        match val {
                            PwVal::Varint(v) => {
                                m.serializer_name_sym = pw_i32(v);
                            },
                            _ => {},
                        }
                    } else if field == 3 {
                        pw_repeated_varint(val, &mut m.fields_index)?;
                    }
                },
            }
        }
    }
}

impl FlattenedSerializer {
    pub fn parse(data: &[u8]) -> (r: Result<FlattenedSerializer, ProtoError>) {
        let mut m = FlattenedSerializer {
            symbols: Vec::new(),
            fields: Vec::new(),
            serializers: Vec::new(),
        };
        let mut pos: usize = 0;
        let end = data.len();
        loop
            invariant
                pos <= end,
                end == data@.len(),
            decreases end - pos,
        {
            match pw_next(data, &mut pos, end)? {
                None => {
                    return Ok(m);
                },
                Some((field, val)) => {
                    match val {
                        PwVal::Bytes(b) => {
                            if field == 1 {
                                let s = FlatSerializerT::parse(b.as_slice())?;
                                m.serializers.push(s);
                            } else if field == 2 {
                                m.symbols.push(b);
                            } else if field == 3 {
                                let f = FlatFieldT::parse(b.as_slice())?;
                                m.fields.push(f);
                            }
                        },
                        _ => {},
                    }
                },
            }
        }
    }
}

/// One key of a game-event descriptor.
#[derive(Debug, Clone)]
pub struct EventListKey {
    pub key_type: i32,
    pub name: Vec<u8>,
}

/// One game-event descriptor: numeric id, name, and ordered keys.
#[derive(Debug)]
pub struct EventDescriptor {
    pub eventid: i32,
    pub name: Vec<u8>,
    pub keys: Vec<EventListKey>,
}

/// The game-event descriptor list message.
#[derive(Debug)]
pub struct CsvcMsgGameEventList {
    pub descriptors: Vec<EventDescriptor>,
}

impl EventListKey {
    fn parse(data: &[u8]) -> (r: Result<EventListKey, ProtoError>) {
        let mut m = EventListKey { key_type: 0, name: Vec::new() };
        let mut pos: usize = 0;
        let end = data.len();
        loop
            invariant
                pos <= end,
                end == data@.len(),
            decreases end - pos,
        {
            match pw_next(data, &mut pos, end)? {
                None => {
                    return Ok(m);
                },
                Some((field, val)) => {
                    match val {
                        PwVal::Varint(v) => {
                            if field == 1 {
                                m.key_type = pw_i32(v);
                            }
                        },
                        PwVal::Bytes(b) => {
                            if field == 2 {
                                m.name = b;
                            }
                        },
                        _ => {},
                    }
                },
            }
        }
    }
}

impl EventDescriptor {
    fn parse(data: &[u8]) -> (r: Result<EventDescriptor, ProtoError>) {
        let mut m = EventDescriptor { eventid: 0, name: Vec::new(), keys: Vec::new() };
        let mut pos: usize = 0;
        let end = data.len();
        loop
            invariant
                pos <= end,
                end == data@.len(),
            decreases end - pos,
        {
            match pw_next(data, &mut pos, end)? {
                None => {
                    return Ok(m);
                },
                Some((field, val)) => {
                    match val {
                        PwVal::Varint(v) => {
                            if field == 1 {
                                m.eventid = pw_i32(v);
                            }
                        },
                        PwVal::Bytes(b) => {
                            if field == 2 {
                                m.name = b;
                            } else if field == 3 {
                                let k = EventListKey::parse(b.as_slice())?;
                                m.keys.push(k);
                            }
                        },
                        _ => {},
                    }
                },
            }
        }
    }
}

impl CsvcMsgGameEventList {
    pub fn parse(data: &[u8]) -> (r: Result<CsvcMsgGameEventList, ProtoError>) {
        let mut m = CsvcMsgGameEventList { descriptors: Vec::new() };
        let mut pos: usize = 0;
        let end = data.len();
        loop
            invariant
                pos <= end,
                end == data@.len(),
            decreases end - pos,
        {
            match pw_next(data, &mut pos, end)? {
                None => {
                    return Ok(m);
                },
                Some((field, val)) => {
                    match val {
                        PwVal::Bytes(b) => {
                            if field == 1 {
                                let d = EventDescriptor::parse(b.as_slice())?;
                                m.descriptors.push(d);
                            }
                        },
                        _ => {},
                    }
                },
            }
        }
    }
}

/// One positional value of a game-event instance; the float keeps its
/// raw bit pattern.
#[derive(Debug, Clone)]
pub struct GameEventKey {
    pub key_type: i32,
    pub val_string: Option<Vec<u8>>,
    pub val_float_bits: Option<u32>,
    pub val_long: Option<i32>,
    pub val_short: Option<i32>,
    pub val_byte: Option<i32>,
    pub val_bool: Option<bool>,
    pub val_uint64: Option<u64>,
}

/// A game-event instance: the event id and its positional values.
#[derive(Debug)]
pub struct CMsgSource1LegacyGameEvent {
    pub eventid: i32,
    pub keys: Vec<GameEventKey>,
}

impl GameEventKey {
    fn parse(data: &[u8]) -> (r: Result<GameEventKey, ProtoError>) {
        let mut m = GameEventKey {
            key_type: 0,
            val_string: None,
            val_float_bits: None,
            val_long: None,
            val_short: None,
            val_byte: None,
            val_bool: None,
            val_uint64: None,
        };
        let mut pos: usize = 0;
        let end = data.len();
        loop
            invariant
                pos <= end,
                end == data@.len(),
            decreases end - pos,
        {
            match pw_next(data, &mut pos, end)? {
                None => {
                    return Ok(m);
                },
                Some((field, val)) => {
                    match val {
                        PwVal::Varint(v) => {
                            if field == 1 {
                                m.key_type = pw_i32(v);
                            } else if field == 4 {
                                m.val_long = Some(pw_i32(v));
                            } else if field == 5 {
                                m.val_short = Some(pw_i32(v));
                            } else if field == 6 {
                                m.val_byte = Some(pw_i32(v));
                            } else if field == 7 {
                                m.val_bool = Some(v != 0);
                            } else if field == 8 {
                                m.val_uint64 = Some(v);
                            }
                        },
                        PwVal::Fixed32(v) => {
                            if field == 3 {
                                m.val_float_bits = Some(v);
                            }
                        },
                        PwVal::Bytes(b) => {
                            if field == 2 {
                                m.val_string = Some(b);
                            }
                        },
                        _ => {},
                    }
                },
            }
        }
    }
}

impl CMsgSource1LegacyGameEvent {
    pub fn parse(data: &[u8]) -> (r: Result<CMsgSource1LegacyGameEvent, ProtoError>) {
        let mut m = CMsgSource1LegacyGameEvent { eventid: 0, keys: Vec::new() };
        let mut pos: usize = 0;
        let end = data.len();
        loop
            invariant
                pos <= end,
                end == data@.len(),
            decreases end - pos,
        {
            match pw_next(data, &mut pos, end)? {
                None => {
                    return Ok(m);
                },
                Some((field, val)) => {
                    match val {
                        PwVal::Varint(v) => {
                            if field == 2 {
                                m.eventid = pw_i32(v);
                            }
                        },
                        PwVal::Bytes(b) => {
                            if field == 3 {
                                let k = GameEventKey::parse(b.as_slice())?;
                                m.keys.push(k);
                            }
                        },
                        _ => {},
                    }
                },
            }
        }
    }
}

/// The server-info network message; only the leading fields are
/// interpreted, the rest of the message is kept raw.
#[derive(Debug)]
pub struct CsvcMsgServerInfo {
    pub protocol: i32,
    pub server_count: i32,
    pub is_dedicated: bool,
}

impl CsvcMsgServerInfo {
    pub fn parse(data: &[u8]) -> (r: Result<CsvcMsgServerInfo, ProtoError>) {
        let mut m = CsvcMsgServerInfo { protocol: 0, server_count: 0, is_dedicated: false };
        let mut pos: usize = 0;
        let end = data.len();
        loop
            invariant
                pos <= end,
                end == data@.len(),
            decreases end - pos,
        {
            match pw_next(data, &mut pos, end)? {
                None => {
                    return Ok(m);
                },
                Some((field, val)) => {
                    match val {
                        PwVal::Varint(v) => {
                            if field == 1 {
                                m.protocol = pw_i32(v);
                            } else if field == 2 {
                                m.server_count = pw_i32(v);
                            } else if field == 3 {
                                m.is_dedicated = v != 0;
                            }
                        },
                        _ => {},
                    }
                },
            }
        }
    }
}

/// The tick network message.
#[derive(Debug, Clone, PartialEq, Eq, Structural)]
pub struct CnetMsgTick {
    pub tick: u32,
}

impl CnetMsgTick {
    pub fn parse(data: &[u8]) -> (r: Result<CnetMsgTick, ProtoError>) {
        let mut m = CnetMsgTick { tick: 0 };
        let mut pos: usize = 0;
        let end = data.len();
        loop
            invariant
                pos <= end,
                end == data@.len(),
            decreases end - pos,
        {
            match pw_next(data, &mut pos, end)? {
                None => {
                    return Ok(m);
                },
                Some((field, val)) => {
                    match val {
                        PwVal::Varint(v) => {
                            if field == 1 {
                                m.tick = v as u32;
                            }
                        },
                        _ => {},
                    }
                },
            }
        }
    }
}

/// One rank entry of a rank-update message; the rank change keeps its
/// raw bit pattern.
#[derive(Debug)]
pub struct RankUpdateEntry {
    pub account_id: i32,
    pub rank_old: i32,
    pub rank_new: i32,
    pub num_wins: i32,
    pub rank_change_bits: Option<u32>,
    pub rank_type_id: i32,
}

/// The server rank-update user message.
#[derive(Debug)]
pub struct CcsUsrMsgServerRankUpdate {
    pub rank_update: Vec<RankUpdateEntry>,
}

impl RankUpdateEntry {
    fn parse(data: &[u8]) -> (r: Result<RankUpdateEntry, ProtoError>) {
        let mut m = RankUpdateEntry {
            account_id: 0,
            rank_old: 0,
            rank_new: 0,
            num_wins: 0,
            rank_change_bits: None,
            rank_type_id: 0,
        };
        let mut pos: usize = 0;
        let end = data.len();
        loop
            invariant
                pos <= end,
                end == data@.len(),
            decreases end - pos,
        {
            match pw_next(data, &mut pos, end)? {
                None => {
                    return Ok(m);
                },
                Some((field, val)) => {
                    match val {
                        PwVal::Varint(v) => {
                            if field == 1 {
                                m.account_id = pw_i32(v);
                            } else if field == 2 {
                                m.rank_old = pw_i32(v);
                            } else if field == 3 {
                                m.rank_new = pw_i32(v);
                            } else if field == 4 {
                                m.num_wins = pw_i32(v);
                            } else if field == 6 {
                                m.rank_type_id = pw_i32(v);
                            }
                        },
                        PwVal::Fixed32(v) => {
                            if field == 5 {
                                m.rank_change_bits = Some(v);
                            }
                        },
                        _ => {},
                    }
                },
            }
        }
    }
}

impl CcsUsrMsgServerRankUpdate {
    pub fn parse(data: &[u8]) -> (r: Result<CcsUsrMsgServerRankUpdate, ProtoError>) {
        let mut m = CcsUsrMsgServerRankUpdate { rank_update: Vec::new() };
        let mut pos: usize = 0;
        let end = data.len();
        loop
            invariant
                pos <= end,
                end == data@.len(),
            decreases end - pos,
        {
            match pw_next(data, &mut pos, end)? {
                None => {
                    return Ok(m);
                },
                Some((field, val)) => {
                    match val {
                        PwVal::Bytes(b) => {
                            if field == 1 {
                                let e = RankUpdateEntry::parse(b.as_slice())?;
                                m.rank_update.push(e);
                            }
                        },
                        _ => {},
                    }
                },
            }
        }
    }
}

/// The rank-reveal user message; its fields are not interpreted.
#[derive(Debug)]
pub struct CcsUsrMsgServerRankRevealAll {
    pub raw: Vec<u8>,
}

impl CcsUsrMsgServerRankRevealAll {
    pub fn parse(data: &[u8]) -> (r: Result<CcsUsrMsgServerRankRevealAll, ProtoError>)
        ensures
            r matches Ok(m) ==> m.raw@ == data@,
    {
        Ok(CcsUsrMsgServerRankRevealAll { raw: crate::byteops::copy_bytes(data) })
    }
}

/// One player's record in the end-of-match data.
#[derive(Debug)]
pub struct EndOfMatchPlayer {
    pub slot: i32,
    pub teamnumber: Option<i32>,
    pub name: Option<Vec<u8>>,
    pub xuid: Option<u64>,
    pub playercolor: Option<i32>,
}

/// The end-of-match all-players user message.
#[derive(Debug)]
pub struct CcsUsrMsgEndOfMatchAllPlayersData {
    pub allplayerdata: Vec<EndOfMatchPlayer>,
}

impl EndOfMatchPlayer {
    fn parse(data: &[u8]) -> (r: Result<EndOfMatchPlayer, ProtoError>) {
        let mut m = EndOfMatchPlayer {
            slot: 0,
            teamnumber: None,
            name: None,
            xuid: None,
            playercolor: None,
        };
        let mut pos: usize = 0;
        let end = data.len();
        loop
            invariant
                pos <= end,
                end == data@.len(),
            decreases end - pos,
        {
            match pw_next(data, &mut pos, end)? {
                None => {
                    return Ok(m);
                },
                Some((field, val)) => {
                    match val {
                        PwVal::Varint(v) => {
                            if field == 1 {
                                m.slot = pw_i32(v);
                            } else if field == 2 {
                                m.teamnumber = Some(pw_i32(v));
                            } else if field == 4 {
                                m.xuid = Some(v);
                            } else if field == 5 {
                                m.playercolor = Some(pw_i32(v));
                            }
                        },
                        PwVal::Bytes(b) => {
                            if field == 3 {
                                m.name = Some(b);
                            }
                        },
                        _ => {},
                    }
                },
            }
        }
    }
}

impl CcsUsrMsgEndOfMatchAllPlayersData {
    pub fn parse(data: &[u8]) -> (r: Result<CcsUsrMsgEndOfMatchAllPlayersData, ProtoError>) {
        let mut m = CcsUsrMsgEndOfMatchAllPlayersData { allplayerdata: Vec::new() };
        let mut pos: usize = 0;
        let end = data.len();
        loop
            invariant
                pos <= end,
                end == data@.len(),
            decreases end - pos,
        {
            match pw_next(data, &mut pos, end)? {
                None => {
                    return Ok(m);
                },
                Some((field, val)) => {
                    match val {
                        PwVal::Bytes(b) => {
                            if field == 1 {
                                let p = EndOfMatchPlayer::parse(b.as_slice())?;
                                m.allplayerdata.push(p);
                            }
                        },
                        _ => {},
                    }
                },
            }
        }
    }
}

/// The packet-entities network message.
#[derive(Debug)]
pub struct CsvcMsgPacketEntities {
    pub max_entries: i32,
    pub updated_entries: i32,
    pub is_delta: bool,
    pub baseline: i32,
    pub delta_from: i32,
    pub entity_data: Vec<u8>,
    pub has_pvs_vis_bits: i32,
}

impl CsvcMsgPacketEntities {
    pub fn parse(data: &[u8]) -> (r: Result<CsvcMsgPacketEntities, ProtoError>) {
        let mut m = CsvcMsgPacketEntities {
            max_entries: 0,
            updated_entries: 0,
            is_delta: false,
            baseline: 0,
            delta_from: 0,
            entity_data: Vec::new(),
            has_pvs_vis_bits: 0,
        };
        let mut pos: usize = 0;
        let end = data.len();
        loop
            invariant
                pos <= end,
                end == data@.len(),
            decreases end - pos,
        {
            match pw_next(data, &mut pos, end)? {
                None => {
                    return Ok(m);
                },
                Some((field, val)) => {
                    match val {
                        PwVal::Varint(v) => {
                            if field == 1 {
                                m.max_entries = pw_i32(v);
                            } else if field == 2 {
                                m.updated_entries = pw_i32(v);
                            } else if field == 3 {
                                m.is_delta = v != 0;
                            } else if field == 5 {
                                m.baseline = pw_i32(v);
                            } else if field == 6 {
                                m.delta_from = pw_i32(v);
                            } else if field == 14 {
                                m.has_pvs_vis_bits = pw_i32(v);
                            }
                        },
                        PwVal::Bytes(b) => {
                            if field == 7 {
                                m.entity_data = b;
                            }
                        },
                        _ => {},
                    }
                },
            }
        }
    }
}

} // verus!
