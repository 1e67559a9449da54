//! Draws of uniform random integers, backing terrain generation, the
//! star field and particle bursts. The library's logic is verified for
//! every value these draws can return.

use vstd::prelude::*;
use rand::Rng;

verus! {

/// Relies on rand::Rng::gen_range over the inclusive range `lo..=hi`: the
/// sample always lies within the range, which is non-empty when
/// `lo <= hi`.
#[verifier::external_body]
pub(crate) fn rand_range_i64(lo: i64, hi: i64) -> (r: i64)
    requires
        lo <= hi,
    ensures
        lo <= r <= hi,
{
    rand::thread_rng().gen_range(lo..=hi)
}

/// Relies on rand::Rng::gen_range over the inclusive range `lo..=hi`: the
/// sample always lies within the range, which is non-empty when
/// `lo <= hi`.
#[verifier::external_body]
pub(crate) fn rand_range_usize(lo: usize, hi: usize) -> (r: usize)
    requires
        lo <= hi,
    ensures
        lo <= r <= hi,
{
    rand::thread_rng().gen_range(lo..=hi)
}

} // verus!
