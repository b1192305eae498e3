//! Frame payload decompression through the snappy raw format.  Raw
//! snappy decompression is a deterministic function of the compressed
//! bytes alone: whether it succeeds, and what it yields.

use vstd::prelude::*;

verus! {

#[verifier::external_type_specification]
#[verifier::external_body]
pub struct ExSnapError(snap::Error);

/// What snappy decompression of a raw-format block yields.
pub uninterp spec fn snappy_of(compressed: Seq<u8>) -> Seq<u8>;

/// Whether a raw-format block decompresses at all.
pub uninterp spec fn snappy_ok(compressed: Seq<u8>) -> bool;

/// Relies on snap::raw::Decoder::decompress_vec: decompresses one
/// raw-format block; both the outcome and the bytes depend on the
/// input alone.
#[verifier::external_body]
pub(crate) fn snappy_decompress(data: &Vec<u8>) -> (r: Result<Vec<u8>, snap::Error>)
    ensures
        r is Ok <==> snappy_ok(data@),
        r matches Ok(v) ==> v@ == snappy_of(data@),
{
    snap::raw::Decoder::new().decompress_vec(data.as_slice())
}

/// Relies on snap::raw::decompress_len: reads the block's declared
/// decompressed length; on a block that decompresses, that length is
/// the decompression's length (the format caps it below 2^32).
#[verifier::external_body]
pub(crate) fn snappy_decompress_len(data: &Vec<u8>) -> (r: Result<usize, snap::Error>)
    ensures
        r is Ok || !snappy_ok(data@),
        r matches Ok(n) ==> (!snappy_ok(data@) || (n == snappy_of(data@).len() && snappy_of(
            data@,
        ).len() <= usize::MAX)),
{
    snap::raw::decompress_len(data.as_slice())
}

/// Relies on snap::raw::Decoder::decompress: decompresses one block
/// into the front of `out`, which must be large enough; only the
/// written prefix of `out` changes.
#[verifier::external_body]
pub(crate) fn snappy_decompress_into(data: &Vec<u8>, out: &mut Vec<u8>) -> (r: Result<
    usize,
    snap::Error,
>)
    ensures
        final (out)@.len() == old(out)@.len(),
        r matches Ok(n) ==> ({
            &&& snappy_ok(data@)
            &&& n == snappy_of(data@).len()
            &&& n <= old(out)@.len()
            &&& final (out)@ == snappy_of(data@) + old(out)@.skip(n as int)
        }),
        r is Ok || !(snappy_ok(data@) && old(out)@.len() >= snappy_of(data@).len()),
{
    snap::raw::Decoder::new().decompress(data.as_slice(), out.as_mut_slice())
}

} // verus!
