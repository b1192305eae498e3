//! One unit of the demo stream: three varints (command, tick, size)
//! followed by `size` payload bytes; bit 6 of the command marks a
//! snappy-compressed payload.

use crate::democmd::{spec_democmd, DemoCommand};
use crate::snappy::{snappy_of, snappy_ok};
use crate::varint::{parse_varint, spec_varint_len, spec_varint_value};
use vstd::prelude::*;
use vstd::slice::slice_subrange;

verus! {

/// A parsed frame; the payload is owned.
#[derive(Debug)]
pub struct Frame {
    pub cmd: DemoCommand,
    pub tick: i32,
    pub compressed: bool,
    pub inner: Vec<u8>,
}

#[derive(Debug, PartialEq, Eq)]
pub enum FrameParseError {
    /// One of the three leading varints ran out of input.
    ParseVarint,
    /// The payload is shorter than the declared size.
    NotEnoughBytes,
    /// The command code is not in the demo-command table.
    ParseDemoCommand(i32),
}

#[derive(Debug)]
pub enum FrameDecompressError {
    GettingDecompressedLength(snap::Error),
    Decompressing(snap::Error),
}

/// The raw pieces of the frame at the head of `input`, when the three
/// varints and the declared payload all fit.
pub struct FrameParts {
    pub raw_cmd: u32,
    pub tick: u32,
    pub size: u32,
    pub payload: Seq<u8>,
    pub rest: Seq<u8>,
}

/// True when one of the three leading varints runs out of input.
pub open spec fn frame_varints_short(input: Seq<u8>) -> bool {
    let n1 = spec_varint_len(input);
    if n1 > input.len() {
        true
    } else {
        let t1 = input.skip(n1);
        let n2 = spec_varint_len(t1);
        if n2 > t1.len() {
            true
        } else {
            let t2 = t1.skip(n2);
            spec_varint_len(t2) > t2.len()
        }
    }
}

/// Splits the head of `input` into frame parts; `None` when a varint or
/// the declared payload runs out of input.
pub open spec fn spec_frame_split(input: Seq<u8>) -> Option<FrameParts> {
    if frame_varints_short(input) {
        None
    } else {
        let n1 = spec_varint_len(input);
        let raw_cmd = spec_varint_value(input, n1);
        let t1 = input.skip(n1);
        let n2 = spec_varint_len(t1);
        let tick = spec_varint_value(t1, n2);
        let t2 = t1.skip(n2);
        let n3 = spec_varint_len(t2);
        let size = spec_varint_value(t2, n3);
        let t3 = t2.skip(n3);
        if size > t3.len() {
            None
        } else {
            Some(
                FrameParts {
                    raw_cmd,
                    tick,
                    size,
                    payload: t3.take(size as int),
                    rest: t3.skip(size as int),
                },
            )
        }
    }
}

impl Frame {
    /// Parses the frame at the head of `input` and returns the remaining
    /// bytes beside it.  The command is `raw_cmd` with bit 6 cleared; a
    /// set bit 6 marks the payload as compressed.
    pub fn parse<'a>(input: &'a [u8]) -> (r: Result<(&'a [u8], Frame), FrameParseError>)
        ensures
            match r {
                Ok((rest, f)) => {
                    &&& spec_frame_split(input@) matches Some(p)
                    &&& spec_frame_split(input@) matches Some(p) ==> {
                        &&& spec_democmd((p.raw_cmd & !64u32) as i32) == Ok::<DemoCommand, i32>(
                            f.cmd,
                        )
                        &&& f.tick == p.tick as i32
                        &&& f.compressed == ((p.raw_cmd & 64) == 64)
                        &&& f.inner@ == p.payload
                        &&& rest@ == p.rest
                    }
                },
                Err(FrameParseError::ParseVarint) => frame_varints_short(input@),
                Err(FrameParseError::NotEnoughBytes) => !frame_varints_short(input@)
                    && spec_frame_split(input@) is None,
                Err(FrameParseError::ParseDemoCommand(c)) => {
                    &&& spec_frame_split(input@) matches Some(p)
                    &&& spec_frame_split(input@) matches Some(p) ==> spec_democmd(
                        (p.raw_cmd & !64u32) as i32,
                    ) == Err::<DemoCommand, i32>(c)
                },
            },
    {
        let (input1, raw_cmd) = match parse_varint(input) {
            Ok(v) => v,
            Err(()) => {
                return Err(FrameParseError::ParseVarint);
            },
        };
        let (input2, tick) = match parse_varint(input1) {
            Ok(v) => v,
            Err(()) => {
                return Err(FrameParseError::ParseVarint);
            },
        };
        let (input3, size) = match parse_varint(input2) {
            Ok(v) => v,
            Err(()) => {
                return Err(FrameParseError::ParseVarint);
            },
        };
        if (size as usize) > input3.len() {
            return Err(FrameParseError::NotEnoughBytes);
        }
        let cmd = match DemoCommand::try_from((raw_cmd & !64u32) as i32) {
            Ok(c) => c,
            Err(code) => {
                return Err(FrameParseError::ParseDemoCommand(code));
            },
        };
        let payload = slice_subrange(input3, 0, size as usize);
        let rest = slice_subrange(input3, size as usize, input3.len());
        Ok(
            (
                rest,
                Frame {
                    cmd,
                    tick: tick as i32,
                    compressed: (raw_cmd & 64) == 64,
                    inner: crate::byteops::copy_bytes(payload),
                },
            ),
        )
    }

    /// The payload when it needs no decompression.
    pub fn data(&self) -> (r: Option<&Vec<u8>>)
        ensures
            self.compressed ==> r is None,
            !self.compressed ==> (r matches Some(v) && v@ == self.inner@),
    {
        if self.compressed {
            return None;
        }
        Some(&self.inner)
    }

    /// Replaces a compressed payload with its snappy decompression; a
    /// plain payload is kept as it is.  On a compressed payload the
    /// outcome is a function of the payload bytes alone.
    pub fn decompress(&mut self) -> (r: Result<(), FrameDecompressError>)
        ensures
            final (self).cmd == old(self).cmd,
            final (self).tick == old(self).tick,
            !old(self).compressed ==> r is Ok && *final (self) == *old(self),
            old(self).compressed ==> (r is Ok <==> snappy_ok(old(self).inner@)),
            match r {
                Ok(()) => {
                    &&& !final (self).compressed
                    &&& if old(self).compressed {
                        final (self).inner@ == snappy_of(old(self).inner@)
                    } else {
                        final (self).inner@ == old(self).inner@
                    }
                },
                Err(_) => *final (self) == *old(self),
            },
    {
        if !self.compressed {
            return Ok(());
        }
        match crate::snappy::snappy_decompress(&self.inner) {
            Ok(decompressed) => {
                self.compressed = false;
                self.inner = decompressed;
                Ok(())
            },
            Err(e) => Err(FrameDecompressError::Decompressing(e)),
        }
    }

    /// Decompresses into a caller-owned scratch buffer, reused across
    /// frames: on success `buf` holds exactly the frame's payload bytes
    /// (the payload itself when uncompressed) and the frame is kept as
    /// it is.
    pub fn decompress_with_buf(&self, buf: &mut Vec<u8>) -> (r: Result<(), FrameDecompressError>)
        ensures
            match r {
                Ok(()) => {
                    &&& if self.compressed {
                        final (buf)@ == snappy_of(self.inner@)
                    } else {
                        final (buf)@ == self.inner@
                    }
                },
                Err(_) => self.compressed && !snappy_ok(self.inner@),
            },
            !self.compressed ==> r is Ok,
            self.compressed ==> (r is Ok <==> snappy_ok(self.inner@)),
    {
        if !self.compressed {
            buf.clear();
            let mut i: usize = 0;
            while i < self.inner.len()
                invariant
                    i <= self.inner@.len(),
                    buf@ == self.inner@.take(i as int),
                decreases self.inner@.len() - i,
            {
                buf.push(self.inner[i]);
                proof {
                    assert(buf@ =~= self.inner@.take(i + 1));
                }
                i = i + 1;
            }
            proof {
                assert(self.inner@.take(self.inner@.len() as int) =~= self.inner@);
            }
            return Ok(());
        }
        let n = match crate::snappy::snappy_decompress_len(&self.inner) {
            Ok(n) => n,
            Err(e) => {
                return Err(FrameDecompressError::GettingDecompressedLength(e));
            },
        };
        // Grow the scratch buffer up to the declared length, keeping its
        // allocation across calls.
        while buf.len() < n
            invariant
                snappy_ok(self.inner@) ==> n == snappy_of(self.inner@).len() && snappy_of(
                    self.inner@,
                ).len() <= usize::MAX,
            decreases n - buf@.len(),
        {
            buf.push(0);
        }
        let written = match crate::snappy::snappy_decompress_into(&self.inner, buf) {
            Ok(w) => w,
            Err(e) => {
                return Err(FrameDecompressError::Decompressing(e));
            },
        };
        while buf.len() > written
            invariant
                written <= buf@.len() ==> buf@ == snappy_of(self.inner@) + buf@.subrange(
                    written as int,
                    buf@.len() as int,
                ),
                snappy_ok(self.inner@),
                written == snappy_of(self.inner@).len(),
                buf@.len() >= written,
            decreases buf@.len() - written,
        {
            buf.pop();
            proof {
                assert(buf@ =~= snappy_of(self.inner@) + buf@.subrange(
                    written as int,
                    buf@.len() as int,
                ));
            }
        }
        proof {
            assert(buf@ =~= snappy_of(self.inner@));
        }
        Ok(())
    }
}

/// Sequential cursor over the frames of a container's inner bytes.  A
/// parse failure empties the cursor, so the stream simply ends there.
pub struct FrameIterator {
    pub data: Vec<u8>,
    pub offset: usize,
}

impl FrameIterator {
    /// What remains to be parsed.
    pub open spec fn remaining(&self) -> Seq<u8> {
        self.data@.skip(self.offset as int)
    }

    pub open spec fn wf(&self) -> bool {
        self.offset <= self.data@.len()
    }

    pub fn parse(input: &[u8]) -> (r: FrameIterator)
        ensures
            r.wf(),
            r.remaining() == input@,
    {
        let it = FrameIterator { data: crate::byteops::copy_bytes(input), offset: 0 };
        proof {
            assert(it.data@.skip(0) == input@);
        }
        it
    }

    /// Parses the next frame and advances past it; yields nothing once
    /// the input is exhausted or a frame fails to parse.
    pub fn next(&mut self) -> (r: Option<Frame>)
        requires
            old(self).wf(),
        ensures
            final (self).wf(),
            final (self).data@ == old(self).data@,
            match r {
                Some(f) => {
                    &&& spec_frame_split(old(self).remaining()) matches Some(p)
                    &&& spec_frame_split(old(self).remaining()) matches Some(p) ==> {
                        &&& spec_democmd((p.raw_cmd & !64u32) as i32) == Ok::<DemoCommand, i32>(
                            f.cmd,
                        )
                        &&& f.tick == p.tick as i32
                        &&& f.compressed == ((p.raw_cmd & 64) == 64)
                        &&& f.inner@ == p.payload
                        &&& final (self).remaining() == p.rest
                    }
                    &&& final (self).remaining().len() < old(self).remaining().len()
                },
                None => {
                    &&& (old(self).remaining().len() == 0 || Frame::parse_fails(
                        old(self).remaining(),
                    ))
                    &&& final (self).remaining().len() == 0
                },
            },
    {
        if self.offset >= self.data.len() {
            proof {
                assert(old(self).remaining().len() == 0);
                assert(final (self).remaining().len() == 0);
            }
            return None;
        }
        let here = slice_subrange(self.data.as_slice(), self.offset, self.data.len());
        match Frame::parse(here) {
            Ok((rest, frame)) => {
                proof {
                    lemma_frame_split_rest(here@);
                    crate::varint::lemma_varint_len_from_ge(here@, 0);
                    let p = spec_frame_split(here@).unwrap();
                    assert(rest@ == p.rest);
                    assert(p.rest.len() <= here@.len());
                    assert(p.rest.len() < here@.len());
                }
                let consumed = here.len() - rest.len();
                self.offset = self.offset + consumed;
                proof {
                    let p = spec_frame_split(here@).unwrap();
                    assert(here@ == old(self).remaining());
                    assert(p.rest =~= here@.skip(here@.len() - p.rest.len()));
                    assert(final (self).remaining() =~= p.rest);
                }
                Some(frame)
            },
            Err(_) => {
                self.offset = self.data.len();
                proof {
                    assert(final (self).remaining().len() == 0);
                }
                None
            },
        }
    }
}

/// The rest of a successful frame split is a strictly shorter suffix
/// of the input.
pub proof fn lemma_frame_split_rest(input: Seq<u8>)
    requires
        spec_frame_split(input) is Some,
    ensures
        ({
            let p = spec_frame_split(input).unwrap();
            &&& p.rest.len() < input.len()
            &&& p.rest =~= input.skip(input.len() - p.rest.len())
        }),
{
    let n1 = spec_varint_len(input);
    let t1 = input.skip(n1);
    let n2 = spec_varint_len(t1);
    let t2 = t1.skip(n2);
    let n3 = spec_varint_len(t2);
    let t3 = t2.skip(n3);
    let p = spec_frame_split(input).unwrap();
    crate::varint::lemma_varint_len_from_ge(input, 0);
    crate::varint::lemma_varint_len_from_ge(t1, 0);
    crate::varint::lemma_varint_len_from_ge(t2, 0);
    assert(1 <= n1 <= input.len());
    assert(1 <= n2 <= t1.len());
    assert(1 <= n3 <= t2.len());
    assert(p.rest == t3.skip(p.size as int));
    assert(p.rest.len() == input.len() - n1 - n2 - n3 - p.size);
    assert(p.rest =~= input.skip(input.len() - p.rest.len()));
}

impl Frame {
    /// True when the bytes at the head of `input` do not form a frame.
    pub open spec fn parse_fails(input: Seq<u8>) -> bool {
        spec_frame_split(input) is None || (spec_frame_split(input) matches Some(p) && spec_democmd(
            (p.raw_cmd & !64u32) as i32,
        ) is Err)
    }
}

} // verus!
