//! The field-path engine: a 7-deep index path into a serializer tree,
//! mutated by 39 Huffman-coded edit operations.  After every successful
//! operation the path stays well formed: `last` is below 7, every entry
//! is non-negative, and only the leading entry may still hold the -1
//! sentinel it starts with until an operation first writes it.

use crate::bitreader::Bitreader;
use crate::huffman::HuffmanTable;
use crate::parser::FirstPassError;
use vstd::prelude::*;

pub mod ops;

verus! {

/// An up-to-7-deep index sequence addressing a node in a serializer
/// tree; `last` is the index of the deepest used entry.
#[derive(Debug, Clone, Copy)]
pub struct FieldPath {
    pub path: [i32; 7],
    pub last: usize,
}

impl FieldPath {
    /// Path well-formedness: the depth is in range, every entry is
    /// non-negative, and the leading entry may alone hold the -1
    /// sentinel.
    pub open spec fn wf(&self) -> bool {
        &&& self.last < 7
        &&& self.path@[0] >= -1
        &&& forall|j: int| 1 <= j < 7 ==> self.path@[j] >= 0
    }
}

/// The ordered buffer of paths one entity update produces.
#[derive(Debug)]
pub struct Paths {
    pub entries: Vec<FieldPath>,
}

impl Paths {
    pub fn new() -> (r: Paths)
        ensures
            r.entries@.len() == 0,
    {
        Paths { entries: Vec::new() }
    }

    /// The initial path: depth 0, a -1 sentinel ahead of the first entry.
    pub fn new_path() -> (r: FieldPath)
        ensures
            r.wf(),
            r.last == 0,
            r.path@ == seq![-1i32, 0i32, 0i32, 0i32, 0i32, 0i32, 0i32],
    {
        let r = FieldPath { path: [-1, 0, 0, 0, 0, 0, 0], last: 0 };
        proof {
            assert(r.path@ =~= seq![-1i32, 0i32, 0i32, 0i32, 0i32, 0i32, 0i32]);
        }
        r
    }

    /// Stores `fp` at position `idx`, growing the buffer with fresh
    /// paths as needed.
    pub fn write(&mut self, fp: &FieldPath, idx: usize)
        requires
            idx < usize::MAX,
        ensures
            final (self).entries@.len() == vstd::math::max(
                old(self).entries@.len() as int,
                idx + 1,
            ),
            final (self).entries@[idx as int] == *fp,
            forall|j: int|
                0 <= j < old(self).entries@.len() && j != idx ==> final (self).entries@[j] == old(
                    self,
                ).entries@[j],
            forall|j: int|
                old(self).entries@.len() <= j < idx ==> (#[trigger] final (self).entries@[j]).last
                    == 0 && final (self).entries@[j].path@ == seq![
                    -1i32,
                    0i32,
                    0i32,
                    0i32,
                    0i32,
                    0i32,
                    0i32,
                ],
    {
        if idx < self.entries.len() {
            self.entries[idx] = *fp;
        } else {
            while self.entries.len() < idx
                invariant
                    idx < usize::MAX,
                    old(self).entries@.len() <= self.entries@.len() <= idx,
                    forall|j: int|
                        0 <= j < old(self).entries@.len() ==> self.entries@[j] == old(
                            self,
                        ).entries@[j],
                    forall|j: int|
                        old(self).entries@.len() <= j < self.entries@.len() ==> (#[trigger] self.entries@[j]).last
                            == 0 && self.entries@[j].path@ == seq![
                            -1i32,
                            0i32,
                            0i32,
                            0i32,
                            0i32,
                            0i32,
                            0i32,
                        ],
                decreases idx - self.entries@.len(),
            {
                let filler = Self::new_path();
                self.entries.push(filler);
            }
            self.entries.push(*fp);
        }
    }

    /// The stored paths, in the order they were written.
    pub fn paths(&self) -> (r: &Vec<FieldPath>)
        ensures
            r@ == self.entries@,
    {
        &self.entries
    }
}

/// Adds `delta` to entry `idx`; the result must stay in `0..=i32::MAX`,
/// else the path is malformed.
pub(crate) fn fp_add(fp: &mut FieldPath, idx: usize, delta: i64) -> (r: Result<(), FirstPassError>)
    requires
        idx < 7,
        -0x1_0000_0000_0000i64 <= delta <= 0x1_0000_0000_0000i64,
    ensures
        final (fp).last == old(fp).last,
        match r {
            Ok(()) => {
                &&& 0 <= old(fp).path@[idx as int] + delta <= i32::MAX
                &&& final (fp).path@ == old(fp).path@.update(
                    idx as int,
                    (old(fp).path@[idx as int] + delta) as i32,
                )
            },
            Err(_) => {
                &&& *final (fp) == *old(fp)
                &&& !(0 <= old(fp).path@[idx as int] + delta <= i32::MAX)
            },
        },
{
    let cur = fp.path[idx] as i64;
    let nv = cur + delta;
    if nv < 0 || nv > i32::MAX as i64 {
        return Err(FirstPassError::MalformedPath);
    }
    fp.path[idx] = nv as i32;
    Ok(())
}

/// Writes `v` into entry `idx`; `v` must be non-negative.
pub(crate) fn fp_set(fp: &mut FieldPath, idx: usize, v: i32) -> (r: Result<(), FirstPassError>)
    requires
        idx < 7,
    ensures
        final (fp).last == old(fp).last,
        match r {
            Ok(()) => {
                &&& v >= 0
                &&& final (fp).path@ == old(fp).path@.update(idx as int, v)
            },
            Err(_) => {
                &&& *final (fp) == *old(fp)
                &&& v < 0
            },
        },
{
    if v < 0 {
        return Err(FirstPassError::MalformedPath);
    }
    fp.path[idx] = v;
    Ok(())
}

/// Grows the path by one entry; fails when the depth cap is reached.
pub(crate) fn fp_push(fp: &mut FieldPath) -> (r: Result<(), FirstPassError>)
    ensures
        final (fp).path@ == old(fp).path@,
        match r {
            Ok(()) => old(fp).last < 6 && final (fp).last == old(fp).last + 1,
            Err(_) => *final (fp) == *old(fp) && old(fp).last >= 6,
        },
{
    if fp.last >= 6 {
        return Err(FirstPassError::MalformedPath);
    }
    fp.last = fp.last + 1;
    Ok(())
}

impl FieldPath {
    /// Entry `idx` of the path; fails past the fixed capacity.
    pub fn get_entry(&self, idx: usize) -> (r: Result<i32, FirstPassError>)
        ensures
            match r {
                Ok(v) => idx < 7 && v == self.path@[idx as int],
                Err(_) => idx >= 7,
            },
    {
        if idx < 7 {
            Ok(self.path[idx])
        } else {
            Err(FirstPassError::MalformedPath)
        }
    }

    /// Shrinks the path by `n` entries, zeroing each popped slot; fails
    /// when more entries would be popped than the path holds.
    pub fn pop_special(&mut self, n: usize) -> (r: Result<(), FirstPassError>)
        requires
            old(self).wf(),
        ensures
            match r {
                Ok(()) => {
                    &&& n <= old(self).last
                    &&& final (self).last == old(self).last - n
                    &&& final (self).wf()
                    &&& forall|j: int|
                        0 <= j <= old(self).last - n ==> final (self).path@[j] == old(
                            self,
                        ).path@[j]
                    &&& forall|j: int|
                        old(self).last - n < j <= old(self).last ==> final (self).path@[j] == 0
                    &&& forall|j: int|
                        old(self).last < j < 7 ==> final (self).path@[j] == old(self).path@[j]
                },
                Err(_) => *final (self) == *old(self) && n > old(self).last,
            },
    {
        if n > self.last {
            return Err(FirstPassError::MalformedPath);
        }
        let mut k: usize = 0;
        while k < n
            invariant
                old(self).wf(),
                k <= n <= old(self).last,
                self.last == old(self).last - k,
                forall|j: int| 0 <= j <= old(self).last - k ==> self.path@[j] == old(self).path@[j],
                forall|j: int|
                    old(self).last - k < j <= old(self).last ==> self.path@[j] == 0,
                forall|j: int| old(self).last < j < 7 ==> self.path@[j] == old(self).path@[j],
            decreases n - k,
        {
            self.path[self.last] = 0;
            self.last = self.last - 1;
            k = k + 1;
        }
        Ok(())
    }

    /// Applies the edit operation named by `symbol` (0 to 38), reading
    /// any operands from the bit stream.  A successful operation leaves
    /// the path well formed.
    pub fn do_op(&mut self, bitreader: &mut Bitreader, symbol: u8) -> (r: Result<
        (),
        FirstPassError,
    >)
        requires
            old(self).wf(),
            old(bitreader).wf(),
        ensures
            final (bitreader).wf(),
            final (bitreader).data@ == old(bitreader).data@,
            final (bitreader).pos >= old(bitreader).pos,
            r is Ok ==> final (self).wf(),
            ({
                let fp0 = *old(self);
                match symbol {
                    0u8 => (r is Ok <==> 0 <= fp0.path@[fp0.last as int] + 1 <= i32::MAX) && (r
                        is Ok ==> final (self).last == fp0.last && final (self).path@
                        == fp0.path@.update(
                        fp0.last as int,
                        (fp0.path@[fp0.last as int] + 1) as i32,
                    )),
                    1u8 => (r is Ok <==> 0 <= fp0.path@[fp0.last as int] + 2 <= i32::MAX) && (r
                        is Ok ==> final (self).last == fp0.last && final (self).path@
                        == fp0.path@.update(
                        fp0.last as int,
                        (fp0.path@[fp0.last as int] + 2) as i32,
                    )),
                    2u8 => (r is Ok <==> 0 <= fp0.path@[fp0.last as int] + 3 <= i32::MAX) && (r
                        is Ok ==> final (self).last == fp0.last && final (self).path@
                        == fp0.path@.update(
                        fp0.last as int,
                        (fp0.path@[fp0.last as int] + 3) as i32,
                    )),
                    3u8 => (r is Ok <==> 0 <= fp0.path@[fp0.last as int] + 4 <= i32::MAX) && (r
                        is Ok ==> final (self).last == fp0.last && final (self).path@
                        == fp0.path@.update(
                        fp0.last as int,
                        (fp0.path@[fp0.last as int] + 4) as i32,
                    )),
                    4u8 => (r is Ok ==> final (self).last == fp0.last && final (self).path@
                        == fp0.path@.update(
                        fp0.last as int,
                        (fp0.path@[fp0.last as int] + crate::bitreader::ubitfp_val(
                            old(bitreader).data@,
                            old(bitreader).pos as int,
                        ) + 5) as i32,
                    )),
                    5u8 => (r is Ok <==> fp0.last < 6) && (r is Ok ==> final (self).last
                        == fp0.last + 1 && final (self).path@ == fp0.path@.update(
                        fp0.last + 1,
                        0i32,
                    )),
                    6u8 => (r is Ok ==> final (self).last == fp0.last + 1) && (r is Ok
                        ==> ({
                        let d = old(bitreader).data@;
                        let p = old(bitreader).pos as int;
                        &&& final (bitreader).pos == p + crate::bitreader::ubitfp_len(d, p)
                        &&& final (self).path@ == fp0.path@.update(
                            fp0.last + 1,
                            (fp0.path@[fp0.last + 1] + crate::bitreader::ubitfp_val(
                                d,
                                p,
                            )) as i32,
                        )
                    })),
                    7u8 => (r is Ok <==> (0 <= fp0.path@[fp0.last as int] + 1 <= i32::MAX
                        && fp0.last < 6)) && (r is Ok ==> final (self).last == fp0.last + 1
                        && final (self).path@ == fp0.path@.update(
                        fp0.last as int,
                        (fp0.path@[fp0.last as int] + 1) as i32,
                    ).update(fp0.last + 1, 0i32)),
                    8u8 => (r is Ok ==> final (self).last == fp0.last + 1) && (r is Ok
                        ==> ({
                        let d = old(bitreader).data@;
                        let p = old(bitreader).pos as int;
                        &&& final (bitreader).pos == p + crate::bitreader::ubitfp_len(d, p)
                        &&& final (self).path@ == fp0.path@.update(
                            fp0.last as int,
                            (fp0.path@[fp0.last as int] + 1) as i32,
                        ).update(fp0.last + 1, crate::bitreader::ubitfp_val(d, p) as i32)
                    })),
                    9u8 => (r is Ok ==> final (self).last == fp0.last + 1) && (r is Ok
                        ==> ({
                        let d = old(bitreader).data@;
                        let p = old(bitreader).pos as int;
                        &&& final (bitreader).pos == p + crate::bitreader::ubitfp_len(d, p)
                        &&& final (self).path@ == fp0.path@.update(
                            fp0.last as int,
                            (fp0.path@[fp0.last as int] + crate::bitreader::ubitfp_val(
                                d,
                                p,
                            )) as i32,
                        ).update(fp0.last + 1, 0i32)
                    })),
                    10u8 => (r is Ok ==> final (self).last == fp0.last + 1) && (r is Ok
                        ==> ({
                        let d = old(bitreader).data@;
                        let p = old(bitreader).pos as int;
                        let l1 = crate::bitreader::ubitfp_len(d, p);
                        &&& final (bitreader).pos == p + l1 + crate::bitreader::ubitfp_len(d, p + l1)
                        &&& final (self).path@ == fp0.path@.update(
                            fp0.last as int,
                            (fp0.path@[fp0.last as int] + crate::bitreader::ubitfp_val(
                                d,
                                p,
                            ) + 2) as i32,
                        ).update(
                            fp0.last + 1,
                            (fp0.path@[fp0.last + 1] + crate::bitreader::ubitfp_val(
                                d,
                                p + l1,
                            ) + 1) as i32,
                        )
                    })),
                    11u8 => (r is Ok ==> final (self).last == fp0.last + 1) && (r is Ok
                        ==> ({
                        let d0 = old(bitreader).data@;
                        let p0 = old(bitreader).pos as int;
                        &&& final (bitreader).pos == p0 + 6
                        &&& final (self).path@ == fp0.path@.update(
                            fp0.last as int,
                            (fp0.path@[fp0.last as int] + crate::bitreader::bits_val(
                                d0,
                                p0,
                                3,
                            ) + 2) as i32,
                        ).update(
                            fp0.last + 1,
                            (crate::bitreader::bits_val(d0, p0 + 3, 3) + 1) as i32,
                        )
                    })),
                    12u8 => (r is Ok ==> final (self).last == fp0.last + 1) && (r is Ok
                        ==> ({
                        let d0 = old(bitreader).data@;
                        let p0 = old(bitreader).pos as int;
                        &&& final (bitreader).pos == p0 + 8
                        &&& final (self).path@ == fp0.path@.update(
                            fp0.last as int,
                            (fp0.path@[fp0.last as int] + crate::bitreader::bits_val(
                                d0,
                                p0,
                                4,
                            ) + 2) as i32,
                        ).update(
                            fp0.last + 1,
                            (crate::bitreader::bits_val(d0, p0 + 4, 4) + 1) as i32,
                        )
                    })),
                    13u8 => (r is Ok ==> final (self).last == fp0.last + 2) && (r is Ok
                        ==> ({
                        let d = old(bitreader).data@;
                        let p = old(bitreader).pos as int;
                        let l1 = crate::bitreader::ubitfp_len(d, p);
                        &&& final (bitreader).pos == p + l1 + crate::bitreader::ubitfp_len(d, p + l1)
                        &&& final (self).path@ == fp0.path@.update(
                            fp0.last + 1,
                            (fp0.path@[fp0.last + 1] + crate::bitreader::ubitfp_val(d, p)) as i32,
                        ).update(
                            fp0.last + 2,
                            (fp0.path@[fp0.last + 2] + crate::bitreader::ubitfp_val(d, p + l1)) as i32,
                        )
                    })),
                    14u8 => (r is Ok ==> final (self).last == fp0.last + 2) && (r is Ok
                        ==> ({
                        let d = old(bitreader).data@;
                        let p = old(bitreader).pos as int;
                        &&& final (bitreader).pos == p + 10
                        &&& final (self).path@ == fp0.path@.update(
                            fp0.last + 1,
                            crate::bitreader::bits_val(d, p, 5) as i32,
                        ).update(
                            fp0.last + 2,
                            crate::bitreader::bits_val(d, p + 5, 5) as i32,
                        )
                    })),
                    15u8 => (r is Ok ==> final (self).last == fp0.last + 3) && (r is Ok
                        ==> ({
                        let d = old(bitreader).data@;
                        let p = old(bitreader).pos as int;
                        let l1 = crate::bitreader::ubitfp_len(d, p);
                        let l2 = crate::bitreader::ubitfp_len(d, p + l1);
                        &&& final (bitreader).pos == p + l1 + l2 + crate::bitreader::ubitfp_len(d, p + l1 + l2)
                        &&& final (self).path@ == fp0.path@.update(
                            fp0.last + 1,
                            (fp0.path@[fp0.last + 1] + crate::bitreader::ubitfp_val(d, p)) as i32,
                        ).update(
                            fp0.last + 2,
                            (fp0.path@[fp0.last + 2] + crate::bitreader::ubitfp_val(d, p + l1)) as i32,
                        ).update(
                            fp0.last + 3,
                            (fp0.path@[fp0.last + 3] + crate::bitreader::ubitfp_val(d, p + l1 + l2)) as i32,
                        )
                    })),
                    16u8 => (r is Ok ==> final (self).last == fp0.last + 3) && (r is Ok
                        ==> ({
                        let d = old(bitreader).data@;
                        let p = old(bitreader).pos as int;
                        &&& final (bitreader).pos == p + 15
                        &&& final (self).path@ == fp0.path@.update(
                            fp0.last + 1,
                            crate::bitreader::bits_val(d, p, 5) as i32,
                        ).update(
                            fp0.last + 2,
                            crate::bitreader::bits_val(d, p + 5, 5) as i32,
                        ).update(
                            fp0.last + 3,
                            crate::bitreader::bits_val(d, p + 10, 5) as i32,
                        )
                    })),
                    17u8 => (r is Ok ==> final (self).last == fp0.last + 2) && (r is Ok
                        ==> ({
                        let d = old(bitreader).data@;
                        let p = old(bitreader).pos as int;
                        let l1 = crate::bitreader::ubitfp_len(d, p);
                        &&& final (bitreader).pos == p + l1 + crate::bitreader::ubitfp_len(d, p + l1)
                        &&& final (self).path@ == fp0.path@.update(
                            fp0.last as int,
                            (fp0.path@[fp0.last as int] + 1) as i32,
                        ).update(
                            fp0.last + 1,
                            (fp0.path@[fp0.last + 1] + crate::bitreader::ubitfp_val(d, p)) as i32,
                        ).update(
                            fp0.last + 2,
                            (fp0.path@[fp0.last + 2] + crate::bitreader::ubitfp_val(d, p + l1)) as i32,
                        )
                    })),
                    18u8 => (r is Ok ==> final (self).last == fp0.last + 2) && (r is Ok
                        ==> ({
                        let d = old(bitreader).data@;
                        let p = old(bitreader).pos as int;
                        &&& final (bitreader).pos == p + 10
                        &&& final (self).path@ == fp0.path@.update(
                            fp0.last as int,
                            (fp0.path@[fp0.last as int] + 1) as i32,
                        ).update(
                            fp0.last + 1,
                            (fp0.path@[fp0.last + 1] + crate::bitreader::bits_val(d, p, 5)) as i32,
                        ).update(
                            fp0.last + 2,
                            (fp0.path@[fp0.last + 2] + crate::bitreader::bits_val(d, p + 5, 5)) as i32,
                        )
                    })),
                    19u8 => (r is Ok ==> final (self).last == fp0.last + 3) && (r is Ok
                        ==> ({
                        let d = old(bitreader).data@;
                        let p = old(bitreader).pos as int;
                        let l1 = crate::bitreader::ubitfp_len(d, p);
                        let l2 = crate::bitreader::ubitfp_len(d, p + l1);
                        &&& final (bitreader).pos == p + l1 + l2 + crate::bitreader::ubitfp_len(d, p + l1 + l2)
                        &&& final (self).path@ == fp0.path@.update(
                            fp0.last as int,
                            (fp0.path@[fp0.last as int] + 1) as i32,
                        ).update(
                            fp0.last + 1,
                            (fp0.path@[fp0.last + 1] + crate::bitreader::ubitfp_val(d, p)) as i32,
                        ).update(
                            fp0.last + 2,
                            (fp0.path@[fp0.last + 2] + crate::bitreader::ubitfp_val(d, p + l1)) as i32,
                        ).update(
                            fp0.last + 3,
                            (fp0.path@[fp0.last + 3] + crate::bitreader::ubitfp_val(d, p + l1 + l2)) as i32,
                        )
                    })),
                    20u8 => (r is Ok ==> final (self).last == fp0.last + 3) && (r is Ok
                        ==> ({
                        let d = old(bitreader).data@;
                        let p = old(bitreader).pos as int;
                        &&& final (bitreader).pos == p + 15
                        &&& final (self).path@ == fp0.path@.update(
                            fp0.last as int,
                            (fp0.path@[fp0.last as int] + 1) as i32,
                        ).update(
                            fp0.last + 1,
                            (fp0.path@[fp0.last + 1] + crate::bitreader::bits_val(d, p, 5)) as i32,
                        ).update(
                            fp0.last + 2,
                            (fp0.path@[fp0.last + 2] + crate::bitreader::bits_val(d, p + 5, 5)) as i32,
                        ).update(
                            fp0.last + 3,
                            (fp0.path@[fp0.last + 3] + crate::bitreader::bits_val(d, p + 10, 5)) as i32,
                        )
                    })),
                    21u8 => (r is Ok ==> final (self).last == fp0.last + 2) && (r is Ok
                        ==> ({
                        let d = old(bitreader).data@;
                        let p = old(bitreader).pos as int;
                        let l0 = crate::bitreader::ubitvar_len(d, p);
                        let l1 = crate::bitreader::ubitfp_len(d, p + l0);
                        &&& final (bitreader).pos == p + l0 + l1 + crate::bitreader::ubitfp_len(d, p + l0 + l1)
                        &&& final (self).path@ == fp0.path@.update(
                            fp0.last as int,
                            (fp0.path@[fp0.last as int] + crate::bitreader::ubitvar_val(d, p) + 2) as i32,
                        ).update(
                            fp0.last + 1,
                            (fp0.path@[fp0.last + 1] + crate::bitreader::ubitfp_val(d, p + l0)) as i32,
                        ).update(
                            fp0.last + 2,
                            (fp0.path@[fp0.last + 2] + crate::bitreader::ubitfp_val(d, p + l0 + l1)) as i32,
                        )
                    })),
                    22u8 => (r is Ok ==> final (self).last == fp0.last + 2) && (r is Ok
                        ==> ({
                        let d = old(bitreader).data@;
                        let p = old(bitreader).pos as int;
                        let l0 = crate::bitreader::ubitvar_len(d, p);
                        &&& final (bitreader).pos == p + l0 + 10
                        &&& final (self).path@ == fp0.path@.update(
                            fp0.last as int,
                            (fp0.path@[fp0.last as int] + crate::bitreader::ubitvar_val(d, p) + 2) as i32,
                        ).update(
                            fp0.last + 1,
                            (fp0.path@[fp0.last + 1] + crate::bitreader::bits_val(d, p + l0, 5)) as i32,
                        ).update(
                            fp0.last + 2,
                            (fp0.path@[fp0.last + 2] + crate::bitreader::bits_val(d, p + l0 + 5, 5)) as i32,
                        )
                    })),
                    23u8 => (r is Ok ==> final (self).last == fp0.last + 3) && (r is Ok
                        ==> ({
                        let d = old(bitreader).data@;
                        let p = old(bitreader).pos as int;
                        let l0 = crate::bitreader::ubitvar_len(d, p);
                        let l1 = crate::bitreader::ubitfp_len(d, p + l0);
                        let l2 = crate::bitreader::ubitfp_len(d, p + l0 + l1);
                        &&& final (bitreader).pos == p + l0 + l1 + l2 + crate::bitreader::ubitfp_len(d, p + l0 + l1 + l2)
                        &&& final (self).path@ == fp0.path@.update(
                            fp0.last as int,
                            (fp0.path@[fp0.last as int] + crate::bitreader::ubitvar_val(d, p) + 2) as i32,
                        ).update(
                            fp0.last + 1,
                            (fp0.path@[fp0.last + 1] + crate::bitreader::ubitfp_val(d, p + l0)) as i32,
                        ).update(
                            fp0.last + 2,
                            (fp0.path@[fp0.last + 2] + crate::bitreader::ubitfp_val(d, p + l0 + l1)) as i32,
                        ).update(
                            fp0.last + 3,
                            (fp0.path@[fp0.last + 3] + crate::bitreader::ubitfp_val(d, p + l0 + l1 + l2)) as i32,
                        )
                    })),
                    24u8 => (r is Ok ==> final (self).last == fp0.last + 3) && (r is Ok
                        ==> ({
                        let d = old(bitreader).data@;
                        let p = old(bitreader).pos as int;
                        let l0 = crate::bitreader::ubitvar_len(d, p);
                        &&& final (bitreader).pos == p + l0 + 15
                        &&& final (self).path@ == fp0.path@.update(
                            fp0.last as int,
                            (fp0.path@[fp0.last as int] + crate::bitreader::ubitvar_val(d, p) + 2) as i32,
                        ).update(
                            fp0.last + 1,
                            (fp0.path@[fp0.last + 1] + crate::bitreader::bits_val(d, p + l0, 5)) as i32,
                        ).update(
                            fp0.last + 2,
                            (fp0.path@[fp0.last + 2] + crate::bitreader::bits_val(d, p + l0 + 5, 5)) as i32,
                        ).update(
                            fp0.last + 3,
                            (fp0.path@[fp0.last + 3] + crate::bitreader::bits_val(d, p + l0 + 10, 5)) as i32,
                        )
                    })),
                    27u8 => (r is Ok <==> (fp0.last >= 1 && 0 <= fp0.path@[fp0.last - 1] + 1
                        <= i32::MAX)) && (r is Ok ==> final (self).last == fp0.last - 1 && final (
                    self).path@ == fp0.path@.update(fp0.last as int, 0i32).update(
                        fp0.last - 1,
                        (fp0.path@[fp0.last - 1] + 1) as i32,
                    )),
                    28u8 => (r is Ok ==> final (self).last == fp0.last - 1) && (r is Ok
                        ==> ({
                        let d = old(bitreader).data@;
                        let p = old(bitreader).pos as int;
                        &&& fp0.last >= 1
                        &&& final (bitreader).pos == p + crate::bitreader::ubitfp_len(d, p)
                        &&& final (self).path@ == fp0.path@.update(
                            fp0.last as int,
                            0i32,
                        ).update(
                            fp0.last - 1,
                            (fp0.path@[fp0.last - 1] + crate::bitreader::ubitfp_val(
                                d,
                                p,
                            ) + 1) as i32,
                        )
                    })),
                    29u8 => (r is Ok <==> 0 <= fp0.path@[0] + 1 <= i32::MAX) && (r is Ok
                        ==> final (self).last == 0 && final (self).path@[0] == fp0.path@[0] + 1),
                    30u8 => (r is Ok ==> final (self).last == 0) && (r is Ok
                        ==> ({
                        let d = old(bitreader).data@;
                        let p = old(bitreader).pos as int;
                        &&& final (bitreader).pos == p + crate::bitreader::ubitfp_len(d, p)
                        &&& final (self).path@[0] == (fp0.path@[0] + crate::bitreader::ubitfp_val(d, p)
                            + 1) as i32
                        &&& forall|j: int| 1 <= j <= fp0.last ==> final (self).path@[j] == 0
                        &&& forall|j: int|
                            fp0.last < j < 7 ==> final (self).path@[j] == fp0.path@[j]
                    })),
                    31u8 => (r is Ok ==> final (self).last == 0) && (r is Ok
                        ==> ({
                        let d = old(bitreader).data@;
                        let p = old(bitreader).pos as int;
                        &&& final (bitreader).pos == p + 3
                        &&& final (self).path@[0] == (fp0.path@[0] + crate::bitreader::bits_val(d, p, 3)
                            + 1) as i32
                        &&& forall|j: int| 1 <= j <= fp0.last ==> final (self).path@[j] == 0
                        &&& forall|j: int|
                            fp0.last < j < 7 ==> final (self).path@[j] == fp0.path@[j]
                    })),
                    32u8 => (r is Ok ==> final (self).last == 0) && (r is Ok
                        ==> ({
                        let d = old(bitreader).data@;
                        let p = old(bitreader).pos as int;
                        &&& final (bitreader).pos == p + 6
                        &&& final (self).path@[0] == (fp0.path@[0] + crate::bitreader::bits_val(d, p, 6)
                            + 1) as i32
                        &&& forall|j: int| 1 <= j <= fp0.last ==> final (self).path@[j] == 0
                        &&& forall|j: int|
                            fp0.last < j < 7 ==> final (self).path@[j] == fp0.path@[j]
                    })),
                    33u8 => (r is Ok ==> ({
                        let d = old(bitreader).data@;
                        let p = old(bitreader).pos as int;
                        let n = crate::bitreader::ubitfp_val(d, p) as int;
                        &&& n <= 6
                        &&& n <= fp0.last
                        &&& final (bitreader).pos == p + crate::bitreader::ubitfp_len(d, p)
                        &&& final (self).last == fp0.last - n
                        &&& forall|j: int|
                            0 <= j < fp0.last - n ==> final (self).path@[j] == fp0.path@[j]
                        &&& final (self).path@[fp0.last - n] == (fp0.path@[fp0.last - n] + 1) as i32
                        &&& forall|j: int|
                            fp0.last - n < j <= fp0.last ==> final (self).path@[j]
                                == 0
                        &&& forall|j: int|
                            fp0.last < j < 7 ==> final (self).path@[j] == fp0.path@[j]
                    })),
                    34u8 => (r is Ok ==> ({
                        let d = old(bitreader).data@;
                        let p = old(bitreader).pos as int;
                        let n = crate::bitreader::ubitfp_val(d, p) as int;
                        let l1 = crate::bitreader::ubitfp_len(d, p);
                        let vb = crate::bitreader::varint_bytes(d, p + l1);
                        let z = crate::bitreader::spec_zigzag(
                            crate::varint::spec_varint_value(vb, crate::varint::spec_varint_len(vb)),
                        );
                        &&& n <= 6
                        &&& n <= fp0.last
                        &&& final (bitreader).pos == p + l1 + 8 * crate::varint::spec_varint_len(vb)
                        &&& final (self).last == fp0.last - n
                        &&& forall|j: int|
                            0 <= j < fp0.last - n ==> final (self).path@[j] == fp0.path@[j]
                        &&& final (self).path@[fp0.last - n] == (fp0.path@[fp0.last - n] + z) as i32
                        &&& forall|j: int|
                            fp0.last - n < j <= fp0.last ==> final (self).path@[j]
                                == 0
                        &&& forall|j: int|
                            fp0.last < j < 7 ==> final (self).path@[j] == fp0.path@[j]
                    })),
                    37u8 => (r is Ok <==> (fp0.last >= 1 && 0 <= fp0.path@[fp0.last - 1] + 1
                        <= i32::MAX)) && (r is Ok ==> final (self).last == fp0.last && final (
                    self).path@ == fp0.path@.update(
                        fp0.last - 1,
                        (fp0.path@[fp0.last - 1] + 1) as i32,
                    )),
                    39u8 => r is Err,
                    _ => true,
                }
            }),
    {
        match symbol {
            0 => ops::plus_one(bitreader, self),
            1 => ops::plus_two(bitreader, self),
            2 => ops::plus_three(bitreader, self),
            3 => ops::plus_four(bitreader, self),
            4 => ops::plus_n(bitreader, self),
            5 => ops::push_one_left_delta_zero_right_zero(bitreader, self),
            6 => ops::push_one_left_delta_zero_right_non_zero(bitreader, self),
            7 => ops::push_one_left_delta_one_right_zero(bitreader, self),
            8 => ops::push_one_left_delta_one_right_non_zero(bitreader, self),
            9 => ops::push_one_left_delta_n_right_zero(bitreader, self),
            10 => ops::push_one_left_delta_n_right_non_zero(bitreader, self),
            11 => ops::push_one_left_delta_n_right_non_zero_pack6_bits(bitreader, self),
            12 => ops::push_one_left_delta_n_right_non_zero_pack8_bits(bitreader, self),
            13 => ops::push_two_left_delta_zero(bitreader, self),
            14 => ops::push_two_pack5_left_delta_zero(bitreader, self),
            15 => ops::push_three_left_delta_zero(bitreader, self),
            16 => ops::push_three_pack5_left_delta_zero(bitreader, self),
            17 => ops::push_two_left_delta_one(bitreader, self),
            18 => ops::push_two_pack5_left_delta_one(bitreader, self),
            19 => ops::push_three_left_delta_one(bitreader, self),
            20 => ops::push_three_pack5_left_delta_one(bitreader, self),
            21 => ops::push_two_left_delta_n(bitreader, self),
            22 => ops::push_two_pack5_left_delta_n(bitreader, self),
            23 => ops::push_three_left_delta_n(bitreader, self),
            24 => ops::push_three_pack5_left_delta_n(bitreader, self),
            25 => ops::push_n(bitreader, self),
            26 => ops::push_n_and_non_topological(bitreader, self),
            27 => ops::pop_one_plus_one(bitreader, self),
            28 => ops::pop_one_plus_n(bitreader, self),
            29 => ops::pop_all_but_one_plus_one(bitreader, self),
            30 => ops::pop_all_but_one_plus_n(bitreader, self),
            31 => ops::pop_all_but_one_plus_n_pack3_bits(bitreader, self),
            32 => ops::pop_all_but_one_plus_n_pack6_bits(bitreader, self),
            33 => ops::pop_n_plus_one(bitreader, self),
            34 => ops::pop_n_plus_n(bitreader, self),
            35 => ops::pop_n_and_non_topographical(bitreader, self),
            36 => ops::non_topo_complex(bitreader, self),
            37 => ops::non_topo_penultimate_plus_one(bitreader, self),
            38 => ops::non_topo_complex_pack4_bits(bitreader, self),
            _ => Err(FirstPassError::MalformedPath),
        }
    }
}

/// Decodes one run of Huffman-coded path edits: operations are applied
/// and each intermediate path stored, until the terminator symbol; the
/// count of stored paths is returned.
pub fn parse_paths(
    table: &HuffmanTable,
    bitreader: &mut Bitreader,
    paths: &mut Paths,
) -> (r: Result<usize, FirstPassError>)
    requires
        table.wf(),
        old(bitreader).wf(),
    ensures
        final (bitreader).wf(),
        final (bitreader).data@ == old(bitreader).data@,
        final (bitreader).pos >= old(bitreader).pos,
        match r {
            Ok(n) => {
                &&& n <= final (paths).entries@.len()
                &&& forall|j: int| 0 <= j < n ==> (#[trigger] final (paths).entries@[j]).wf()
                &&& exists|p: int|
                    old(bitreader).pos <= p && #[trigger] crate::huffman::spec_walk(
                        table.nodes@,
                        table.root as int,
                        old(bitreader).data@,
                        p,
                    ) == Some((39u8, final (bitreader).pos as int))
            },
            Err(_) => true,
        },
{
    let mut path = Paths::new_path();
    let mut idx: usize = 0;
    loop
        invariant
            table.wf(),
            bitreader.wf(),
            bitreader.data@ == old(bitreader).data@,
            bitreader.pos >= old(bitreader).pos,
            path.wf(),
            idx <= paths.entries@.len(),
            forall|j: int| 0 <= j < idx ==> (#[trigger] paths.entries@[j]).wf(),
        decreases bitreader.total_bits() - bitreader.pos,
    {
        let ghost sym_start = bitreader.pos as int;
        let symbol = table.decode_symbol(bitreader)?;
        if symbol == crate::huffman::TERMINATOR_SYMBOL {
            proof {
                assert(crate::huffman::spec_walk(
                    table.nodes@,
                    table.root as int,
                    old(bitreader).data@,
                    sym_start,
                ) == Some((39u8, bitreader.pos as int)));
            }
            return Ok(idx);
        }
        if idx == usize::MAX {
            return Err(FirstPassError::MalformedPath);
        }
        path.do_op(bitreader, symbol)?;
        paths.write(&path, idx);
        idx = idx + 1;
    }
}

} // verus!

