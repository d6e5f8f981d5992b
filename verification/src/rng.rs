use vstd::prelude::*;

use rand::Rng;

verus! {

/// Relies on `rand::Rng::gen_range` over the inclusive range `lo..=hi`,
/// called on `rand::thread_rng()`: the result lies within the range. The
/// call panics only on an empty range, which the precondition rules out.
#[verifier::external_body]
pub(crate) fn draw_inclusive(lo: i32, hi: i32) -> (r: i32)
    requires
        lo <= hi,
    ensures
        lo <= r <= hi,
{
    rand::thread_rng().gen_range(lo..=hi)
}

/// Relies on `rand::Rng::gen_range` over the half-open range `0..len`,
/// called on `rand::thread_rng()`: the result is a valid index below `len`.
/// The call panics only on an empty range, which the precondition rules out.
#[verifier::external_body]
pub(crate) fn draw_index(len: usize) -> (r: usize)
    requires
        0 < len,
    ensures
        r < len,
{
    rand::thread_rng().gen_range(0..len)
}

} // verus!
