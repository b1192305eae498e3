//! The 39 path-edit operations.  Each mirrors one Huffman symbol; a
//! "push" grows the path, a "pop" shrinks it, "non-topological" forms
//! adjust entries across the whole current depth.

use crate::fieldpath::{fp_add, fp_push, fp_set, FieldPath};
use crate::bitreader::Bitreader;
use crate::parser::FirstPassError;
use vstd::prelude::*;

verus! {


/// Shared shape of every operation's effect on the reader.
pub open spec fn reader_ok(old_r: Bitreader, new_r: Bitreader) -> bool {
    &&& new_r.wf()
    &&& new_r.data@ == old_r.data@
    &&& new_r.pos >= old_r.pos
}

pub fn plus_one(_bitreader: &mut Bitreader, field_path: &mut FieldPath) -> (r: Result<
    (),
    FirstPassError,
>)
    requires
        old(field_path).wf(),
        old(_bitreader).wf(),
    ensures
        reader_ok(*old(_bitreader), *final (_bitreader)),
        *final (_bitreader) == *old(_bitreader),
        r is Ok <==> 0 <= old(field_path).path@[old(field_path).last as int] + 1 <= i32::MAX,
        r is Ok ==> final (field_path).wf() && final (field_path).last == old(field_path).last
            && final (field_path).path@ == old(field_path).path@.update(
            old(field_path).last as int,
            (old(field_path).path@[old(field_path).last as int] + 1) as i32,
        ),
{
    fp_add(field_path, field_path.last, 1)
}

pub fn plus_two(_bitreader: &mut Bitreader, field_path: &mut FieldPath) -> (r: Result<
    (),
    FirstPassError,
>)
    requires
        old(field_path).wf(),
        old(_bitreader).wf(),
    ensures
        reader_ok(*old(_bitreader), *final (_bitreader)),
        *final (_bitreader) == *old(_bitreader),
        r is Ok <==> 0 <= old(field_path).path@[old(field_path).last as int] + 2 <= i32::MAX,
        r is Ok ==> final (field_path).wf() && final (field_path).last == old(field_path).last
            && final (field_path).path@ == old(field_path).path@.update(
            old(field_path).last as int,
            (old(field_path).path@[old(field_path).last as int] + 2) as i32,
        ),
{
    fp_add(field_path, field_path.last, 2)
}

pub fn plus_three(_bitreader: &mut Bitreader, field_path: &mut FieldPath) -> (r: Result<
    (),
    FirstPassError,
>)
    requires
        old(field_path).wf(),
        old(_bitreader).wf(),
    ensures
        reader_ok(*old(_bitreader), *final (_bitreader)),
        *final (_bitreader) == *old(_bitreader),
        r is Ok <==> 0 <= old(field_path).path@[old(field_path).last as int] + 3 <= i32::MAX,
        r is Ok ==> final (field_path).wf() && final (field_path).last == old(field_path).last
            && final (field_path).path@ == old(field_path).path@.update(
            old(field_path).last as int,
            (old(field_path).path@[old(field_path).last as int] + 3) as i32,
        ),
{
    fp_add(field_path, field_path.last, 3)
}

pub fn plus_four(_bitreader: &mut Bitreader, field_path: &mut FieldPath) -> (r: Result<
    (),
    FirstPassError,
>)
    requires
        old(field_path).wf(),
        old(_bitreader).wf(),
    ensures
        reader_ok(*old(_bitreader), *final (_bitreader)),
        *final (_bitreader) == *old(_bitreader),
        r is Ok <==> 0 <= old(field_path).path@[old(field_path).last as int] + 4 <= i32::MAX,
        r is Ok ==> final (field_path).wf() && final (field_path).last == old(field_path).last
            && final (field_path).path@ == old(field_path).path@.update(
            old(field_path).last as int,
            (old(field_path).path@[old(field_path).last as int] + 4) as i32,
        ),
{
    fp_add(field_path, field_path.last, 4)
}

/// Tail += (unary-prefixed operand) + 5.
pub fn plus_n(bitreader: &mut Bitreader, field_path: &mut FieldPath) -> (r: Result<
    (),
    FirstPassError,
>)
    requires
        old(field_path).wf(),
        old(bitreader).wf(),
    ensures
        reader_ok(*old(bitreader), *final (bitreader)),
        r is Ok ==> final (field_path).wf() && final (field_path).last == old(field_path).last
            && final (field_path).path@ == old(field_path).path@.update(
            old(field_path).last as int,
            (old(field_path).path@[old(field_path).last as int] + crate::bitreader::ubitfp_val(
                old(bitreader).data@,
                old(bitreader).pos as int,
            ) + 5) as i32,
        ),
{
    let v = bitreader.read_ubit_var_fp().map_err(|e| FirstPassError::Bitreader(e))?;
    fp_add(field_path, field_path.last, v as i64 + 5)
}

pub fn push_one_left_delta_zero_right_zero(
    _bitreader: &mut Bitreader,
    field_path: &mut FieldPath,
) -> (r: Result<(), FirstPassError>)
    requires
        old(field_path).wf(),
        old(_bitreader).wf(),
    ensures
        reader_ok(*old(_bitreader), *final (_bitreader)),
        *final (_bitreader) == *old(_bitreader),
        r is Ok <==> old(field_path).last < 6,
        r is Ok ==> final (field_path).wf() && final (field_path).last == old(field_path).last
            + 1 && final (field_path).path@ == old(field_path).path@.update(
            old(field_path).last + 1,
            0i32,
        ),
{
    fp_push(field_path)?;
    fp_set(field_path, field_path.last, 0)
}

pub fn push_one_left_delta_zero_right_non_zero(
    bitreader: &mut Bitreader,
    field_path: &mut FieldPath,
) -> (r: Result<(), FirstPassError>)
    requires
        old(field_path).wf(),
        old(bitreader).wf(),
    ensures
        reader_ok(*old(bitreader), *final (bitreader)),
        r is Ok ==> final (field_path).wf() && final (field_path).last == old(field_path).last
            + 1,
        r is Ok ==> ({
            let d = old(bitreader).data@;
            let p = old(bitreader).pos as int;
            &&& final (bitreader).pos == p + crate::bitreader::ubitfp_len(d, p)
            &&& final (field_path).path@ == old(field_path).path@.update(
                old(field_path).last + 1,
                (old(field_path).path@[old(field_path).last + 1] + crate::bitreader::ubitfp_val(
                    d,
                    p,
                )) as i32,
            )
        }),
{
    fp_push(field_path)?;
    let v = bitreader.read_ubit_var_fp().map_err(|e| FirstPassError::Bitreader(e))?;
    fp_add(field_path, field_path.last, v as i64)
}

pub fn push_one_left_delta_one_right_zero(
    _bitreader: &mut Bitreader,
    field_path: &mut FieldPath,
) -> (r: Result<(), FirstPassError>)
    requires
        old(field_path).wf(),
        old(_bitreader).wf(),
    ensures
        reader_ok(*old(_bitreader), *final (_bitreader)),
        *final (_bitreader) == *old(_bitreader),
        r is Ok <==> (0 <= old(field_path).path@[old(field_path).last as int] + 1 <= i32::MAX
            && old(field_path).last < 6),
        r is Ok ==> final (field_path).wf() && final (field_path).last == old(field_path).last
            + 1 && final (field_path).path@ == old(field_path).path@.update(
            old(field_path).last as int,
            (old(field_path).path@[old(field_path).last as int] + 1) as i32,
        ).update(old(field_path).last + 1, 0i32),
{
    fp_add(field_path, field_path.last, 1)?;
    fp_push(field_path)?;
    fp_set(field_path, field_path.last, 0)
}

pub fn push_one_left_delta_one_right_non_zero(
    bitreader: &mut Bitreader,
    field_path: &mut FieldPath,
) -> (r: Result<(), FirstPassError>)
    requires
        old(field_path).wf(),
        old(bitreader).wf(),
    ensures
        reader_ok(*old(bitreader), *final (bitreader)),
        r is Ok ==> final (field_path).wf() && final (field_path).last == old(field_path).last
            + 1,
        r is Ok ==> ({
            let d = old(bitreader).data@;
            let p = old(bitreader).pos as int;
            &&& final (bitreader).pos == p + crate::bitreader::ubitfp_len(d, p)
            &&& final (field_path).path@ == old(field_path).path@.update(
                old(field_path).last as int,
                (old(field_path).path@[old(field_path).last as int] + 1) as i32,
            ).update(old(field_path).last + 1, crate::bitreader::ubitfp_val(d, p) as i32)
        }),
{
    fp_add(field_path, field_path.last, 1)?;
    fp_push(field_path)?;
    let v = bitreader.read_ubit_var_fp().map_err(|e| FirstPassError::Bitreader(e))?;
    fp_set(field_path, field_path.last, v as i32)
}

pub fn push_one_left_delta_n_right_zero(
    bitreader: &mut Bitreader,
    field_path: &mut FieldPath,
) -> (r: Result<(), FirstPassError>)
    requires
        old(field_path).wf(),
        old(bitreader).wf(),
    ensures
        reader_ok(*old(bitreader), *final (bitreader)),
        r is Ok ==> final (field_path).wf() && final (field_path).last == old(field_path).last
            + 1,
        r is Ok ==> ({
            let d = old(bitreader).data@;
            let p = old(bitreader).pos as int;
            &&& final (bitreader).pos == p + crate::bitreader::ubitfp_len(d, p)
            &&& final (field_path).path@ == old(field_path).path@.update(
                old(field_path).last as int,
                (old(field_path).path@[old(field_path).last as int] + crate::bitreader::ubitfp_val(
                    d,
                    p,
                )) as i32,
            ).update(old(field_path).last + 1, 0i32)
        }),
{
    let v = bitreader.read_ubit_var_fp().map_err(|e| FirstPassError::Bitreader(e))?;
    fp_add(field_path, field_path.last, v as i64)?;
    fp_push(field_path)?;
    fp_set(field_path, field_path.last, 0)
}

pub fn push_one_left_delta_n_right_non_zero(
    bitreader: &mut Bitreader,
    field_path: &mut FieldPath,
) -> (r: Result<(), FirstPassError>)
    requires
        old(field_path).wf(),
        old(bitreader).wf(),
    ensures
        reader_ok(*old(bitreader), *final (bitreader)),
        r is Ok ==> final (field_path).wf() && final (field_path).last == old(field_path).last
            + 1,
        r is Ok ==> ({
            let d = old(bitreader).data@;
            let p = old(bitreader).pos as int;
            let l1 = crate::bitreader::ubitfp_len(d, p);
            &&& final (bitreader).pos == p + l1 + crate::bitreader::ubitfp_len(d, p + l1)
            &&& final (field_path).path@ == old(field_path).path@.update(
                old(field_path).last as int,
                (old(field_path).path@[old(field_path).last as int] + crate::bitreader::ubitfp_val(
                    d,
                    p,
                ) + 2) as i32,
            ).update(
                old(field_path).last + 1,
                (old(field_path).path@[old(field_path).last + 1] + crate::bitreader::ubitfp_val(
                    d,
                    p + l1,
                ) + 1) as i32,
            )
        }),
{
    let v = bitreader.read_ubit_var_fp().map_err(|e| FirstPassError::Bitreader(e))?;
    fp_add(field_path, field_path.last, v as i64 + 2)?;
    fp_push(field_path)?;
    let w = bitreader.read_ubit_var_fp().map_err(|e| FirstPassError::Bitreader(e))?;
    fp_add(field_path, field_path.last, w as i64 + 1)
}

pub fn push_one_left_delta_n_right_non_zero_pack6_bits(
    bitreader: &mut Bitreader,
    field_path: &mut FieldPath,
) -> (r: Result<(), FirstPassError>)
    requires
        old(field_path).wf(),
        old(bitreader).wf(),
    ensures
        reader_ok(*old(bitreader), *final (bitreader)),
        r is Ok ==> final (field_path).wf() && final (field_path).last == old(field_path).last
            + 1,
        r is Ok ==> ({
            let d0 = old(bitreader).data@;
            let p0 = old(bitreader).pos as int;
            &&& final (bitreader).pos == p0 + 6
            &&& final (field_path).path@ == old(field_path).path@.update(
                old(field_path).last as int,
                (old(field_path).path@[old(field_path).last as int] + crate::bitreader::bits_val(
                    d0,
                    p0,
                    3,
                ) + 2) as i32,
            ).update(
                old(field_path).last + 1,
                (crate::bitreader::bits_val(d0, p0 + 3, 3) + 1) as i32,
            )
        }),
{
    let v = bitreader.read_nbits(3).map_err(|e| FirstPassError::Bitreader(e))?;
    fp_add(field_path, field_path.last, v as i64 + 2)?;
    fp_push(field_path)?;
    let ghost d = bitreader.data@;
    let ghost p = bitreader.pos as int;
    let w = bitreader.read_nbits(3).map_err(|e| FirstPassError::Bitreader(e))?;
    proof {
        crate::bitreader::lemma_bits_val_bound(d, p, 3);
        vstd::arithmetic::power2::lemma2_to64();
    }
    fp_set(field_path, field_path.last, w as i32 + 1)
}

pub fn push_one_left_delta_n_right_non_zero_pack8_bits(
    bitreader: &mut Bitreader,
    field_path: &mut FieldPath,
) -> (r: Result<(), FirstPassError>)
    requires
        old(field_path).wf(),
        old(bitreader).wf(),
    ensures
        reader_ok(*old(bitreader), *final (bitreader)),
        r is Ok ==> final (field_path).wf() && final (field_path).last == old(field_path).last
            + 1,
        r is Ok ==> ({
            let d0 = old(bitreader).data@;
            let p0 = old(bitreader).pos as int;
            &&& final (bitreader).pos == p0 + 8
            &&& final (field_path).path@ == old(field_path).path@.update(
                old(field_path).last as int,
                (old(field_path).path@[old(field_path).last as int] + crate::bitreader::bits_val(
                    d0,
                    p0,
                    4,
                ) + 2) as i32,
            ).update(
                old(field_path).last + 1,
                (crate::bitreader::bits_val(d0, p0 + 4, 4) + 1) as i32,
            )
        }),
{
    let v = bitreader.read_nbits(4).map_err(|e| FirstPassError::Bitreader(e))?;
    fp_add(field_path, field_path.last, v as i64 + 2)?;
    fp_push(field_path)?;
    let ghost d = bitreader.data@;
    let ghost p = bitreader.pos as int;
    let w = bitreader.read_nbits(4).map_err(|e| FirstPassError::Bitreader(e))?;
    proof {
        crate::bitreader::lemma_bits_val_bound(d, p, 4);
        vstd::arithmetic::power2::lemma2_to64();
    }
    fp_set(field_path, field_path.last, w as i32 + 1)
}

pub fn push_two_left_delta_zero(bitreader: &mut Bitreader, field_path: &mut FieldPath) -> (r:
    Result<(), FirstPassError>)
    requires
        old(field_path).wf(),
        old(bitreader).wf(),
    ensures
        reader_ok(*old(bitreader), *final (bitreader)),
        r is Ok ==> final (field_path).wf() && final (field_path).last == old(field_path).last
            + 2,
        r is Ok ==> ({
            let d = old(bitreader).data@;
            let p = old(bitreader).pos as int;
            let l1 = crate::bitreader::ubitfp_len(d, p);
            &&& final (bitreader).pos == p + l1 + crate::bitreader::ubitfp_len(d, p + l1)
            &&& final (field_path).path@ == old(field_path).path@.update(
                old(field_path).last + 1,
                (old(field_path).path@[old(field_path).last + 1] + crate::bitreader::ubitfp_val(d, p)) as i32,
            ).update(
                old(field_path).last + 2,
                (old(field_path).path@[old(field_path).last + 2] + crate::bitreader::ubitfp_val(d, p + l1)) as i32,
            )
        }),
{
    fp_push(field_path)?;
    let v = bitreader.read_ubit_var_fp().map_err(|e| FirstPassError::Bitreader(e))?;
    fp_add(field_path, field_path.last, v as i64)?;
    fp_push(field_path)?;
    let w = bitreader.read_ubit_var_fp().map_err(|e| FirstPassError::Bitreader(e))?;
    fp_add(field_path, field_path.last, w as i64)
}

pub fn push_two_pack5_left_delta_zero(
    bitreader: &mut Bitreader,
    field_path: &mut FieldPath,
) -> (r: Result<(), FirstPassError>)
    requires
        old(field_path).wf(),
        old(bitreader).wf(),
    ensures
        reader_ok(*old(bitreader), *final (bitreader)),
        r is Ok ==> final (field_path).wf() && final (field_path).last == old(field_path).last
            + 2,
        r is Ok ==> ({
            let d = old(bitreader).data@;
            let p = old(bitreader).pos as int;
            &&& final (bitreader).pos == p + 10
            &&& final (field_path).path@ == old(field_path).path@.update(
                old(field_path).last + 1,
                crate::bitreader::bits_val(d, p, 5) as i32,
            ).update(
                old(field_path).last + 2,
                crate::bitreader::bits_val(d, p + 5, 5) as i32,
            )
        }),
{
    fp_push(field_path)?;
    let v = bitreader.read_nbits(5).map_err(|e| FirstPassError::Bitreader(e))?;
    fp_set(field_path, field_path.last, v as i32)?;
    fp_push(field_path)?;
    let w = bitreader.read_nbits(5).map_err(|e| FirstPassError::Bitreader(e))?;
    fp_set(field_path, field_path.last, w as i32)
}

pub fn push_three_left_delta_zero(bitreader: &mut Bitreader, field_path: &mut FieldPath) -> (r:
    Result<(), FirstPassError>)
    requires
        old(field_path).wf(),
        old(bitreader).wf(),
    ensures
        reader_ok(*old(bitreader), *final (bitreader)),
        r is Ok ==> final (field_path).wf() && final (field_path).last == old(field_path).last
            + 3,
        r is Ok ==> ({
            let d = old(bitreader).data@;
            let p = old(bitreader).pos as int;
            let l1 = crate::bitreader::ubitfp_len(d, p);
            let l2 = crate::bitreader::ubitfp_len(d, p + l1);
            &&& final (bitreader).pos == p + l1 + l2 + crate::bitreader::ubitfp_len(d, p + l1 + l2)
            &&& final (field_path).path@ == old(field_path).path@.update(
                old(field_path).last + 1,
                (old(field_path).path@[old(field_path).last + 1] + crate::bitreader::ubitfp_val(d, p)) as i32,
            ).update(
                old(field_path).last + 2,
                (old(field_path).path@[old(field_path).last + 2] + crate::bitreader::ubitfp_val(d, p + l1)) as i32,
            ).update(
                old(field_path).last + 3,
                (old(field_path).path@[old(field_path).last + 3] + crate::bitreader::ubitfp_val(d, p + l1 + l2)) as i32,
            )
        }),
{
    fp_push(field_path)?;
    let v = bitreader.read_ubit_var_fp().map_err(|e| FirstPassError::Bitreader(e))?;
    fp_add(field_path, field_path.last, v as i64)?;
    fp_push(field_path)?;
    let w = bitreader.read_ubit_var_fp().map_err(|e| FirstPassError::Bitreader(e))?;
    fp_add(field_path, field_path.last, w as i64)?;
    fp_push(field_path)?;
    let x = bitreader.read_ubit_var_fp().map_err(|e| FirstPassError::Bitreader(e))?;
    fp_add(field_path, field_path.last, x as i64)
}

pub fn push_three_pack5_left_delta_zero(
    bitreader: &mut Bitreader,
    field_path: &mut FieldPath,
) -> (r: Result<(), FirstPassError>)
    requires
        old(field_path).wf(),
        old(bitreader).wf(),
    ensures
        reader_ok(*old(bitreader), *final (bitreader)),
        r is Ok ==> final (field_path).wf() && final (field_path).last == old(field_path).last
            + 3,
        r is Ok ==> ({
            let d = old(bitreader).data@;
            let p = old(bitreader).pos as int;
            &&& final (bitreader).pos == p + 15
            &&& final (field_path).path@ == old(field_path).path@.update(
                old(field_path).last + 1,
                crate::bitreader::bits_val(d, p, 5) as i32,
            ).update(
                old(field_path).last + 2,
                crate::bitreader::bits_val(d, p + 5, 5) as i32,
            ).update(
                old(field_path).last + 3,
                crate::bitreader::bits_val(d, p + 10, 5) as i32,
            )
        }),
{
    fp_push(field_path)?;
    let v = bitreader.read_nbits(5).map_err(|e| FirstPassError::Bitreader(e))?;
    fp_set(field_path, field_path.last, v as i32)?;
    fp_push(field_path)?;
    let w = bitreader.read_nbits(5).map_err(|e| FirstPassError::Bitreader(e))?;
    fp_set(field_path, field_path.last, w as i32)?;
    fp_push(field_path)?;
    let x = bitreader.read_nbits(5).map_err(|e| FirstPassError::Bitreader(e))?;
    fp_set(field_path, field_path.last, x as i32)
}

pub fn push_two_left_delta_one(bitreader: &mut Bitreader, field_path: &mut FieldPath) -> (r:
    Result<(), FirstPassError>)
    requires
        old(field_path).wf(),
        old(bitreader).wf(),
    ensures
        reader_ok(*old(bitreader), *final (bitreader)),
        r is Ok ==> final (field_path).wf() && final (field_path).last == old(field_path).last
            + 2,
        r is Ok ==> ({
            let d = old(bitreader).data@;
            let p = old(bitreader).pos as int;
            let l1 = crate::bitreader::ubitfp_len(d, p);
            &&& final (bitreader).pos == p + l1 + crate::bitreader::ubitfp_len(d, p + l1)
            &&& final (field_path).path@ == old(field_path).path@.update(
                old(field_path).last as int,
                (old(field_path).path@[old(field_path).last as int] + 1) as i32,
            ).update(
                old(field_path).last + 1,
                (old(field_path).path@[old(field_path).last + 1] + crate::bitreader::ubitfp_val(d, p)) as i32,
            ).update(
                old(field_path).last + 2,
                (old(field_path).path@[old(field_path).last + 2] + crate::bitreader::ubitfp_val(d, p + l1)) as i32,
            )
        }),
{
    fp_add(field_path, field_path.last, 1)?;
    fp_push(field_path)?;
    let v = bitreader.read_ubit_var_fp().map_err(|e| FirstPassError::Bitreader(e))?;
    fp_add(field_path, field_path.last, v as i64)?;
    fp_push(field_path)?;
    let w = bitreader.read_ubit_var_fp().map_err(|e| FirstPassError::Bitreader(e))?;
    fp_add(field_path, field_path.last, w as i64)
}

pub fn push_two_pack5_left_delta_one(
    bitreader: &mut Bitreader,
    field_path: &mut FieldPath,
) -> (r: Result<(), FirstPassError>)
    requires
        old(field_path).wf(),
        old(bitreader).wf(),
    ensures
        reader_ok(*old(bitreader), *final (bitreader)),
        r is Ok ==> final (field_path).wf() && final (field_path).last == old(field_path).last
            + 2,
        r is Ok ==> ({
            let d = old(bitreader).data@;
            let p = old(bitreader).pos as int;
            &&& final (bitreader).pos == p + 10
            &&& final (field_path).path@ == old(field_path).path@.update(
                old(field_path).last as int,
                (old(field_path).path@[old(field_path).last as int] + 1) as i32,
            ).update(
                old(field_path).last + 1,
                (old(field_path).path@[old(field_path).last + 1] + crate::bitreader::bits_val(d, p, 5)) as i32,
            ).update(
                old(field_path).last + 2,
                (old(field_path).path@[old(field_path).last + 2] + crate::bitreader::bits_val(d, p + 5, 5)) as i32,
            )
        }),
{
    fp_add(field_path, field_path.last, 1)?;
    fp_push(field_path)?;
    let v = bitreader.read_nbits(5).map_err(|e| FirstPassError::Bitreader(e))?;
    fp_add(field_path, field_path.last, v as i64)?;
    fp_push(field_path)?;
    let w = bitreader.read_nbits(5).map_err(|e| FirstPassError::Bitreader(e))?;
    fp_add(field_path, field_path.last, w as i64)
}

pub fn push_three_left_delta_one(bitreader: &mut Bitreader, field_path: &mut FieldPath) -> (r:
    Result<(), FirstPassError>)
    requires
        old(field_path).wf(),
        old(bitreader).wf(),
    ensures
        reader_ok(*old(bitreader), *final (bitreader)),
        r is Ok ==> final (field_path).wf() && final (field_path).last == old(field_path).last
            + 3,
        r is Ok ==> ({
            let d = old(bitreader).data@;
            let p = old(bitreader).pos as int;
            let l1 = crate::bitreader::ubitfp_len(d, p);
            let l2 = crate::bitreader::ubitfp_len(d, p + l1);
            &&& final (bitreader).pos == p + l1 + l2 + crate::bitreader::ubitfp_len(d, p + l1 + l2)
            &&& final (field_path).path@ == old(field_path).path@.update(
                old(field_path).last as int,
                (old(field_path).path@[old(field_path).last as int] + 1) as i32,
            ).update(
                old(field_path).last + 1,
                (old(field_path).path@[old(field_path).last + 1] + crate::bitreader::ubitfp_val(d, p)) as i32,
            ).update(
                old(field_path).last + 2,
                (old(field_path).path@[old(field_path).last + 2] + crate::bitreader::ubitfp_val(d, p + l1)) as i32,
            ).update(
                old(field_path).last + 3,
                (old(field_path).path@[old(field_path).last + 3] + crate::bitreader::ubitfp_val(d, p + l1 + l2)) as i32,
            )
        }),
{
    fp_add(field_path, field_path.last, 1)?;
    fp_push(field_path)?;
    let v = bitreader.read_ubit_var_fp().map_err(|e| FirstPassError::Bitreader(e))?;
    fp_add(field_path, field_path.last, v as i64)?;
    fp_push(field_path)?;
    let w = bitreader.read_ubit_var_fp().map_err(|e| FirstPassError::Bitreader(e))?;
    fp_add(field_path, field_path.last, w as i64)?;
    fp_push(field_path)?;
    let x = bitreader.read_ubit_var_fp().map_err(|e| FirstPassError::Bitreader(e))?;
    fp_add(field_path, field_path.last, x as i64)
}

pub fn push_three_pack5_left_delta_one(
    bitreader: &mut Bitreader,
    field_path: &mut FieldPath,
) -> (r: Result<(), FirstPassError>)
    requires
        old(field_path).wf(),
        old(bitreader).wf(),
    ensures
        reader_ok(*old(bitreader), *final (bitreader)),
        r is Ok ==> final (field_path).wf() && final (field_path).last == old(field_path).last
            + 3,
        r is Ok ==> ({
            let d = old(bitreader).data@;
            let p = old(bitreader).pos as int;
            &&& final (bitreader).pos == p + 15
            &&& final (field_path).path@ == old(field_path).path@.update(
                old(field_path).last as int,
                (old(field_path).path@[old(field_path).last as int] + 1) as i32,
            ).update(
                old(field_path).last + 1,
                (old(field_path).path@[old(field_path).last + 1] + crate::bitreader::bits_val(d, p, 5)) as i32,
            ).update(
                old(field_path).last + 2,
                (old(field_path).path@[old(field_path).last + 2] + crate::bitreader::bits_val(d, p + 5, 5)) as i32,
            ).update(
                old(field_path).last + 3,
                (old(field_path).path@[old(field_path).last + 3] + crate::bitreader::bits_val(d, p + 10, 5)) as i32,
            )
        }),
{
    fp_add(field_path, field_path.last, 1)?;
    fp_push(field_path)?;
    let v = bitreader.read_nbits(5).map_err(|e| FirstPassError::Bitreader(e))?;
    fp_add(field_path, field_path.last, v as i64)?;
    fp_push(field_path)?;
    let w = bitreader.read_nbits(5).map_err(|e| FirstPassError::Bitreader(e))?;
    fp_add(field_path, field_path.last, w as i64)?;
    fp_push(field_path)?;
    let x = bitreader.read_nbits(5).map_err(|e| FirstPassError::Bitreader(e))?;
    fp_add(field_path, field_path.last, x as i64)
}

pub fn push_two_left_delta_n(bitreader: &mut Bitreader, field_path: &mut FieldPath) -> (r:
    Result<(), FirstPassError>)
    requires
        old(field_path).wf(),
        old(bitreader).wf(),
    ensures
        reader_ok(*old(bitreader), *final (bitreader)),
        r is Ok ==> final (field_path).wf() && final (field_path).last == old(field_path).last
            + 2,
        r is Ok ==> ({
            let d = old(bitreader).data@;
            let p = old(bitreader).pos as int;
            let l0 = crate::bitreader::ubitvar_len(d, p);
            let l1 = crate::bitreader::ubitfp_len(d, p + l0);
            &&& final (bitreader).pos == p + l0 + l1 + crate::bitreader::ubitfp_len(d, p + l0 + l1)
            &&& final (field_path).path@ == old(field_path).path@.update(
                old(field_path).last as int,
                (old(field_path).path@[old(field_path).last as int] + crate::bitreader::ubitvar_val(d, p) + 2) as i32,
            ).update(
                old(field_path).last + 1,
                (old(field_path).path@[old(field_path).last + 1] + crate::bitreader::ubitfp_val(d, p + l0)) as i32,
            ).update(
                old(field_path).last + 2,
                (old(field_path).path@[old(field_path).last + 2] + crate::bitreader::ubitfp_val(d, p + l0 + l1)) as i32,
            )
        }),
{
    let n = bitreader.read_u_bit_var().map_err(|e| FirstPassError::Bitreader(e))?;
    fp_add(field_path, field_path.last, n as i64 + 2)?;
    fp_push(field_path)?;
    let v = bitreader.read_ubit_var_fp().map_err(|e| FirstPassError::Bitreader(e))?;
    fp_add(field_path, field_path.last, v as i64)?;
    fp_push(field_path)?;
    let w = bitreader.read_ubit_var_fp().map_err(|e| FirstPassError::Bitreader(e))?;
    fp_add(field_path, field_path.last, w as i64)
}

pub fn push_two_pack5_left_delta_n(
    bitreader: &mut Bitreader,
    field_path: &mut FieldPath,
) -> (r: Result<(), FirstPassError>)
    requires
        old(field_path).wf(),
        old(bitreader).wf(),
    ensures
        reader_ok(*old(bitreader), *final (bitreader)),
        r is Ok ==> final (field_path).wf() && final (field_path).last == old(field_path).last
            + 2,
        r is Ok ==> ({
            let d = old(bitreader).data@;
            let p = old(bitreader).pos as int;
            let l0 = crate::bitreader::ubitvar_len(d, p);
            &&& final (bitreader).pos == p + l0 + 10
            &&& final (field_path).path@ == old(field_path).path@.update(
                old(field_path).last as int,
                (old(field_path).path@[old(field_path).last as int] + crate::bitreader::ubitvar_val(d, p) + 2) as i32,
            ).update(
                old(field_path).last + 1,
                (old(field_path).path@[old(field_path).last + 1] + crate::bitreader::bits_val(d, p + l0, 5)) as i32,
            ).update(
                old(field_path).last + 2,
                (old(field_path).path@[old(field_path).last + 2] + crate::bitreader::bits_val(d, p + l0 + 5, 5)) as i32,
            )
        }),
{
    let n = bitreader.read_u_bit_var().map_err(|e| FirstPassError::Bitreader(e))?;
    fp_add(field_path, field_path.last, n as i64 + 2)?;
    fp_push(field_path)?;
    let v = bitreader.read_nbits(5).map_err(|e| FirstPassError::Bitreader(e))?;
    fp_add(field_path, field_path.last, v as i64)?;
    fp_push(field_path)?;
    let w = bitreader.read_nbits(5).map_err(|e| FirstPassError::Bitreader(e))?;
    fp_add(field_path, field_path.last, w as i64)
}

pub fn push_three_left_delta_n(bitreader: &mut Bitreader, field_path: &mut FieldPath) -> (r:
    Result<(), FirstPassError>)
    requires
        old(field_path).wf(),
        old(bitreader).wf(),
    ensures
        reader_ok(*old(bitreader), *final (bitreader)),
        r is Ok ==> final (field_path).wf() && final (field_path).last == old(field_path).last
            + 3,
        r is Ok ==> ({
            let d = old(bitreader).data@;
            let p = old(bitreader).pos as int;
            let l0 = crate::bitreader::ubitvar_len(d, p);
            let l1 = crate::bitreader::ubitfp_len(d, p + l0);
            let l2 = crate::bitreader::ubitfp_len(d, p + l0 + l1);
            &&& final (bitreader).pos == p + l0 + l1 + l2 + crate::bitreader::ubitfp_len(d, p + l0 + l1 + l2)
            &&& final (field_path).path@ == old(field_path).path@.update(
                old(field_path).last as int,
                (old(field_path).path@[old(field_path).last as int] + crate::bitreader::ubitvar_val(d, p) + 2) as i32,
            ).update(
                old(field_path).last + 1,
                (old(field_path).path@[old(field_path).last + 1] + crate::bitreader::ubitfp_val(d, p + l0)) as i32,
            ).update(
                old(field_path).last + 2,
                (old(field_path).path@[old(field_path).last + 2] + crate::bitreader::ubitfp_val(d, p + l0 + l1)) as i32,
            ).update(
                old(field_path).last + 3,
                (old(field_path).path@[old(field_path).last + 3] + crate::bitreader::ubitfp_val(d, p + l0 + l1 + l2)) as i32,
            )
        }),
{
    let n = bitreader.read_u_bit_var().map_err(|e| FirstPassError::Bitreader(e))?;
    fp_add(field_path, field_path.last, n as i64 + 2)?;
    fp_push(field_path)?;
    let v = bitreader.read_ubit_var_fp().map_err(|e| FirstPassError::Bitreader(e))?;
    fp_add(field_path, field_path.last, v as i64)?;
    fp_push(field_path)?;
    let w = bitreader.read_ubit_var_fp().map_err(|e| FirstPassError::Bitreader(e))?;
    fp_add(field_path, field_path.last, w as i64)?;
    fp_push(field_path)?;
    let x = bitreader.read_ubit_var_fp().map_err(|e| FirstPassError::Bitreader(e))?;
    fp_add(field_path, field_path.last, x as i64)
}

pub fn push_three_pack5_left_delta_n(
    bitreader: &mut Bitreader,
    field_path: &mut FieldPath,
) -> (r: Result<(), FirstPassError>)
    requires
        old(field_path).wf(),
        old(bitreader).wf(),
    ensures
        reader_ok(*old(bitreader), *final (bitreader)),
        r is Ok ==> final (field_path).wf() && final (field_path).last == old(field_path).last
            + 3,
        r is Ok ==> ({
            let d = old(bitreader).data@;
            let p = old(bitreader).pos as int;
            let l0 = crate::bitreader::ubitvar_len(d, p);
            &&& final (bitreader).pos == p + l0 + 15
            &&& final (field_path).path@ == old(field_path).path@.update(
                old(field_path).last as int,
                (old(field_path).path@[old(field_path).last as int] + crate::bitreader::ubitvar_val(d, p) + 2) as i32,
            ).update(
                old(field_path).last + 1,
                (old(field_path).path@[old(field_path).last + 1] + crate::bitreader::bits_val(d, p + l0, 5)) as i32,
            ).update(
                old(field_path).last + 2,
                (old(field_path).path@[old(field_path).last + 2] + crate::bitreader::bits_val(d, p + l0 + 5, 5)) as i32,
            ).update(
                old(field_path).last + 3,
                (old(field_path).path@[old(field_path).last + 3] + crate::bitreader::bits_val(d, p + l0 + 10, 5)) as i32,
            )
        }),
{
    let n = bitreader.read_u_bit_var().map_err(|e| FirstPassError::Bitreader(e))?;
    fp_add(field_path, field_path.last, n as i64 + 2)?;
    fp_push(field_path)?;
    let v = bitreader.read_nbits(5).map_err(|e| FirstPassError::Bitreader(e))?;
    fp_add(field_path, field_path.last, v as i64)?;
    fp_push(field_path)?;
    let w = bitreader.read_nbits(5).map_err(|e| FirstPassError::Bitreader(e))?;
    fp_add(field_path, field_path.last, w as i64)?;
    fp_push(field_path)?;
    let x = bitreader.read_nbits(5).map_err(|e| FirstPassError::Bitreader(e))?;
    fp_add(field_path, field_path.last, x as i64)
}

/// Tail += operand, then push a read entry `n` times.
pub fn push_n(bitreader: &mut Bitreader, field_path: &mut FieldPath) -> (r: Result<
    (),
    FirstPassError,
>)
    requires
        old(field_path).wf(),
        old(bitreader).wf(),
    ensures
        reader_ok(*old(bitreader), *final (bitreader)),
        r is Ok ==> final (field_path).wf(),
{
    let n = bitreader.read_u_bit_var().map_err(|e| FirstPassError::Bitreader(e))?;
    let m = bitreader.read_u_bit_var().map_err(|e| FirstPassError::Bitreader(e))?;
    fp_add(field_path, field_path.last, m as i64)?;
    let mut k: u32 = 0;
    while k < n
        invariant
            field_path.wf(),
            bitreader.wf(),
            bitreader.data@ == old(bitreader).data@,
            bitreader.pos >= old(bitreader).pos,
        decreases n - k,
    {
        fp_push(field_path)?;
        let v = bitreader.read_ubit_var_fp().map_err(|e| FirstPassError::Bitreader(e))?;
        fp_add(field_path, field_path.last, v as i64)?;
        k = k + 1;
    }
    Ok(())
}

/// Zig-zag adjust every current entry, then push a read count of
/// fresh entries.
pub fn push_n_and_non_topological(
    bitreader: &mut Bitreader,
    field_path: &mut FieldPath,
) -> (r: Result<(), FirstPassError>)
    requires
        old(field_path).wf(),
        old(bitreader).wf(),
    ensures
        reader_ok(*old(bitreader), *final (bitreader)),
        r is Ok ==> final (field_path).wf(),
{
    let mut i: usize = 0;
    let depth = field_path.last + 1;
    while i < depth
        invariant
            field_path.wf(),
            bitreader.wf(),
            bitreader.data@ == old(bitreader).data@,
            bitreader.pos >= old(bitreader).pos,
            depth <= 7,
            field_path.last + 1 == depth,
        decreases depth - i,
    {
        let flagged = bitreader.read_boolean().map_err(|e| FirstPassError::Bitreader(e))?;
        if flagged {
            let d = bitreader.read_varint32().map_err(|e| FirstPassError::Bitreader(e))?;
            fp_add(field_path, i, d as i64 + 1)?;
        }
        i = i + 1;
    }
    let count = bitreader.read_u_bit_var().map_err(|e| FirstPassError::Bitreader(e))?;
    let mut k: u32 = 0;
    while k < count
        invariant
            field_path.wf(),
            bitreader.wf(),
            bitreader.data@ == old(bitreader).data@,
            bitreader.pos >= old(bitreader).pos,
        decreases count - k,
    {
        fp_push(field_path)?;
        let v = bitreader.read_ubit_var_fp().map_err(|e| FirstPassError::Bitreader(e))?;
        fp_set(field_path, field_path.last, v as i32)?;
        k = k + 1;
    }
    Ok(())
}

pub fn pop_one_plus_one(_bitreader: &mut Bitreader, field_path: &mut FieldPath) -> (r: Result<
    (),
    FirstPassError,
>)
    requires
        old(field_path).wf(),
        old(_bitreader).wf(),
    ensures
        reader_ok(*old(_bitreader), *final (_bitreader)),
        *final (_bitreader) == *old(_bitreader),
        r is Ok <==> (old(field_path).last >= 1 && 0 <= old(field_path).path@[old(field_path).last
            - 1] + 1 <= i32::MAX),
        r is Ok ==> ({
            &&& final (field_path).wf()
            &&& old(field_path).last >= 1
            &&& final (field_path).last == old(field_path).last - 1
            &&& final (field_path).path@ == old(field_path).path@.update(
                old(field_path).last as int,
                0i32,
            ).update(
                old(field_path).last - 1,
                (old(field_path).path@[old(field_path).last - 1] + 1) as i32,
            )
        }),
{
    field_path.pop_special(1)?;
    fp_add(field_path, field_path.last, 1)
}

pub fn pop_one_plus_n(bitreader: &mut Bitreader, field_path: &mut FieldPath) -> (r: Result<
    (),
    FirstPassError,
>)
    requires
        old(field_path).wf(),
        old(bitreader).wf(),
    ensures
        reader_ok(*old(bitreader), *final (bitreader)),
        r is Ok ==> final (field_path).wf() && final (field_path).last == old(field_path).last
            - 1,
        r is Ok ==> ({
            let d = old(bitreader).data@;
            let p = old(bitreader).pos as int;
            &&& old(field_path).last >= 1
            &&& final (bitreader).pos == p + crate::bitreader::ubitfp_len(d, p)
            &&& final (field_path).path@ == old(field_path).path@.update(
                old(field_path).last as int,
                0i32,
            ).update(
                old(field_path).last - 1,
                (old(field_path).path@[old(field_path).last - 1] + crate::bitreader::ubitfp_val(
                    d,
                    p,
                ) + 1) as i32,
            )
        }),
{
    field_path.pop_special(1)?;
    let v = bitreader.read_ubit_var_fp().map_err(|e| FirstPassError::Bitreader(e))?;
    fp_add(field_path, field_path.last, v as i64 + 1)
}

pub fn pop_all_but_one_plus_one(
    _bitreader: &mut Bitreader,
    field_path: &mut FieldPath,
) -> (r: Result<(), FirstPassError>)
    requires
        old(field_path).wf(),
        old(_bitreader).wf(),
    ensures
        reader_ok(*old(_bitreader), *final (_bitreader)),
        *final (_bitreader) == *old(_bitreader),
        r is Ok <==> 0 <= old(field_path).path@[0] + 1 <= i32::MAX,
        r is Ok ==> final (field_path).wf() && final (field_path).last == 0 && final (field_path).path@[0]
            == old(field_path).path@[0] + 1,
{
    let n = field_path.last;
    field_path.pop_special(n)?;
    fp_add(field_path, 0, 1)
}

pub fn pop_all_but_one_plus_n(bitreader: &mut Bitreader, field_path: &mut FieldPath) -> (r:
    Result<(), FirstPassError>)
    requires
        old(field_path).wf(),
        old(bitreader).wf(),
    ensures
        reader_ok(*old(bitreader), *final (bitreader)),
        r is Ok ==> final (field_path).wf() && final (field_path).last == 0,
        r is Ok ==> ({
            let d = old(bitreader).data@;
            let p = old(bitreader).pos as int;
            &&& final (bitreader).pos == p + crate::bitreader::ubitfp_len(d, p)
            &&& final (field_path).path@[0] == (old(field_path).path@[0] + crate::bitreader::ubitfp_val(d, p)
                + 1) as i32
            &&& forall|j: int| 1 <= j <= old(field_path).last ==> final (field_path).path@[j] == 0
            &&& forall|j: int|
                old(field_path).last < j < 7 ==> final (field_path).path@[j] == old(
                    field_path,
                ).path@[j]
        }),
{
    let n = field_path.last;
    field_path.pop_special(n)?;
    let v = bitreader.read_ubit_var_fp().map_err(|e| FirstPassError::Bitreader(e))?;
    fp_add(field_path, 0, v as i64 + 1)
}

pub fn pop_all_but_one_plus_n_pack3_bits(
    bitreader: &mut Bitreader,
    field_path: &mut FieldPath,
) -> (r: Result<(), FirstPassError>)
    requires
        old(field_path).wf(),
        old(bitreader).wf(),
    ensures
        reader_ok(*old(bitreader), *final (bitreader)),
        r is Ok ==> final (field_path).wf() && final (field_path).last == 0,
        r is Ok ==> ({
            let d = old(bitreader).data@;
            let p = old(bitreader).pos as int;
            &&& final (bitreader).pos == p + 3
            &&& final (field_path).path@[0] == (old(field_path).path@[0] + crate::bitreader::bits_val(d, p, 3)
                + 1) as i32
            &&& forall|j: int| 1 <= j <= old(field_path).last ==> final (field_path).path@[j] == 0
            &&& forall|j: int|
                old(field_path).last < j < 7 ==> final (field_path).path@[j] == old(
                    field_path,
                ).path@[j]
        }),
{
    let n = field_path.last;
    field_path.pop_special(n)?;
    let v = bitreader.read_nbits(3).map_err(|e| FirstPassError::Bitreader(e))?;
    fp_add(field_path, 0, v as i64 + 1)
}

pub fn pop_all_but_one_plus_n_pack6_bits(
    bitreader: &mut Bitreader,
    field_path: &mut FieldPath,
) -> (r: Result<(), FirstPassError>)
    requires
        old(field_path).wf(),
        old(bitreader).wf(),
    ensures
        reader_ok(*old(bitreader), *final (bitreader)),
        r is Ok ==> final (field_path).wf() && final (field_path).last == 0,
        r is Ok ==> ({
            let d = old(bitreader).data@;
            let p = old(bitreader).pos as int;
            &&& final (bitreader).pos == p + 6
            &&& final (field_path).path@[0] == (old(field_path).path@[0] + crate::bitreader::bits_val(d, p, 6)
                + 1) as i32
            &&& forall|j: int| 1 <= j <= old(field_path).last ==> final (field_path).path@[j] == 0
            &&& forall|j: int|
                old(field_path).last < j < 7 ==> final (field_path).path@[j] == old(
                    field_path,
                ).path@[j]
        }),
{
    let n = field_path.last;
    field_path.pop_special(n)?;
    let v = bitreader.read_nbits(6).map_err(|e| FirstPassError::Bitreader(e))?;
    fp_add(field_path, 0, v as i64 + 1)
}

pub fn pop_n_plus_one(bitreader: &mut Bitreader, field_path: &mut FieldPath) -> (r: Result<
    (),
    FirstPassError,
>)
    requires
        old(field_path).wf(),
        old(bitreader).wf(),
    ensures
        reader_ok(*old(bitreader), *final (bitreader)),
        r is Ok ==> final (field_path).wf(),
        r is Ok ==> ({
            let d = old(bitreader).data@;
            let p = old(bitreader).pos as int;
            let n = crate::bitreader::ubitfp_val(d, p) as int;
            &&& n <= 6
            &&& n <= old(field_path).last
            &&& final (bitreader).pos == p + crate::bitreader::ubitfp_len(d, p)
            &&& final (field_path).last == old(field_path).last - n
            &&& forall|j: int|
                0 <= j < old(field_path).last - n ==> final (field_path).path@[j] == old(
                    field_path,
                ).path@[j]
            &&& final (field_path).path@[old(field_path).last - n] == (old(
                field_path,
            ).path@[old(field_path).last - n] + 1) as i32
            &&& forall|j: int|
                old(field_path).last - n < j <= old(field_path).last ==> final (field_path).path@[j]
                    == 0
            &&& forall|j: int|
                old(field_path).last < j < 7 ==> final (field_path).path@[j] == old(
                    field_path,
                ).path@[j]
        }),
{
    let n = bitreader.read_ubit_var_fp().map_err(|e| FirstPassError::Bitreader(e))?;
    if n > 6 {
        return Err(FirstPassError::MalformedPath);
    }
    field_path.pop_special(n as usize)?;
    fp_add(field_path, field_path.last, 1)
}

pub fn pop_n_plus_n(bitreader: &mut Bitreader, field_path: &mut FieldPath) -> (r: Result<
    (),
    FirstPassError,
>)
    requires
        old(field_path).wf(),
        old(bitreader).wf(),
    ensures
        reader_ok(*old(bitreader), *final (bitreader)),
        r is Ok ==> final (field_path).wf(),
        r is Ok ==> ({
            let d = old(bitreader).data@;
            let p = old(bitreader).pos as int;
            let n = crate::bitreader::ubitfp_val(d, p) as int;
            let l1 = crate::bitreader::ubitfp_len(d, p);
            let vb = crate::bitreader::varint_bytes(d, p + l1);
            let z = crate::bitreader::spec_zigzag(
                crate::varint::spec_varint_value(vb, crate::varint::spec_varint_len(vb)),
            );
            &&& n <= 6
            &&& n <= old(field_path).last
            &&& final (bitreader).pos == p + l1 + 8 * crate::varint::spec_varint_len(vb)
            &&& final (field_path).last == old(field_path).last - n
            &&& forall|j: int|
                0 <= j < old(field_path).last - n ==> final (field_path).path@[j] == old(
                    field_path,
                ).path@[j]
            &&& final (field_path).path@[old(field_path).last - n] == (old(
                field_path,
            ).path@[old(field_path).last - n] + z) as i32
            &&& forall|j: int|
                old(field_path).last - n < j <= old(field_path).last ==> final (field_path).path@[j]
                    == 0
            &&& forall|j: int|
                old(field_path).last < j < 7 ==> final (field_path).path@[j] == old(
                    field_path,
                ).path@[j]
        }),
{
    let n = bitreader.read_ubit_var_fp().map_err(|e| FirstPassError::Bitreader(e))?;
    if n > 6 {
        return Err(FirstPassError::MalformedPath);
    }
    field_path.pop_special(n as usize)?;
    let d = bitreader.read_varint32().map_err(|e| FirstPassError::Bitreader(e))?;
    fp_add(field_path, field_path.last, d as i64)
}

pub fn pop_n_and_non_topographical(
    bitreader: &mut Bitreader,
    field_path: &mut FieldPath,
) -> (r: Result<(), FirstPassError>)
    requires
        old(field_path).wf(),
        old(bitreader).wf(),
    ensures
        reader_ok(*old(bitreader), *final (bitreader)),
        r is Ok ==> final (field_path).wf(),
{
    let n = bitreader.read_ubit_var_fp().map_err(|e| FirstPassError::Bitreader(e))?;
    if n > 6 {
        return Err(FirstPassError::MalformedPath);
    }
    field_path.pop_special(n as usize)?;
    let mut i: usize = 0;
    let depth = field_path.last + 1;
    while i < depth
        invariant
            field_path.wf(),
            bitreader.wf(),
            bitreader.data@ == old(bitreader).data@,
            bitreader.pos >= old(bitreader).pos,
            depth <= 7,
            field_path.last + 1 == depth,
        decreases depth - i,
    {
        let flagged = bitreader.read_boolean().map_err(|e| FirstPassError::Bitreader(e))?;
        if flagged {
            let d = bitreader.read_varint32().map_err(|e| FirstPassError::Bitreader(e))?;
            fp_add(field_path, i, d as i64)?;
        }
        i = i + 1;
    }
    Ok(())
}

pub fn non_topo_complex(bitreader: &mut Bitreader, field_path: &mut FieldPath) -> (r: Result<
    (),
    FirstPassError,
>)
    requires
        old(field_path).wf(),
        old(bitreader).wf(),
    ensures
        reader_ok(*old(bitreader), *final (bitreader)),
        r is Ok ==> final (field_path).wf() && final (field_path).last == old(field_path).last,
{
    let mut i: usize = 0;
    let depth = field_path.last + 1;
    while i < depth
        invariant
            field_path.wf(),
            bitreader.wf(),
            bitreader.data@ == old(bitreader).data@,
            bitreader.pos >= old(bitreader).pos,
            depth <= 7,
            field_path.last + 1 == depth,
        decreases depth - i,
    {
        let flagged = bitreader.read_boolean().map_err(|e| FirstPassError::Bitreader(e))?;
        if flagged {
            let d = bitreader.read_varint32().map_err(|e| FirstPassError::Bitreader(e))?;
            fp_add(field_path, i, d as i64)?;
        }
        i = i + 1;
    }
    Ok(())
}

pub fn non_topo_penultimate_plus_one(
    _bitreader: &mut Bitreader,
    field_path: &mut FieldPath,
) -> (r: Result<(), FirstPassError>)
    requires
        old(field_path).wf(),
        old(_bitreader).wf(),
    ensures
        reader_ok(*old(_bitreader), *final (_bitreader)),
        *final (_bitreader) == *old(_bitreader),
        r is Ok <==> (old(field_path).last >= 1 && 0 <= old(field_path).path@[old(field_path).last
            - 1] + 1 <= i32::MAX),
        r is Ok ==> ({
            &&& final (field_path).wf()
            &&& old(field_path).last >= 1
            &&& final (field_path).last == old(field_path).last
            &&& final (field_path).path@ == old(field_path).path@.update(
                old(field_path).last - 1,
                (old(field_path).path@[old(field_path).last - 1] + 1) as i32,
            )
        }),
{
    if field_path.last == 0 {
        return Err(FirstPassError::MalformedPath);
    }
    let idx = field_path.last - 1;
    fp_add(field_path, idx, 1)
}

pub fn non_topo_complex_pack4_bits(
    bitreader: &mut Bitreader,
    field_path: &mut FieldPath,
) -> (r: Result<(), FirstPassError>)
    requires
        old(field_path).wf(),
        old(bitreader).wf(),
    ensures
        reader_ok(*old(bitreader), *final (bitreader)),
        r is Ok ==> final (field_path).wf() && final (field_path).last == old(field_path).last,
{
    let mut i: usize = 0;
    let depth = field_path.last + 1;
    while i < depth
        invariant
            field_path.wf(),
            bitreader.wf(),
            bitreader.data@ == old(bitreader).data@,
            bitreader.pos >= old(bitreader).pos,
            depth <= 7,
            field_path.last + 1 == depth,
        decreases depth - i,
    {
        let flagged = bitreader.read_boolean().map_err(|e| FirstPassError::Bitreader(e))?;
        if flagged {
            let d = bitreader.read_nbits(4).map_err(|e| FirstPassError::Bitreader(e))?;
            fp_add(field_path, i, d as i64 - 7)?;
        }
        i = i + 1;
    }
    Ok(())
}

} // verus!
