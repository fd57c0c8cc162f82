//! The only randomness the simulation consumes, behind trusted wrappers.
//! Every decision taken on a drawn value is made by verified code that
//! receives the value as an argument.

use rand::Rng;
use rand::seq::SliceRandom;
use vstd::prelude::*;

verus! {

/// Relies on rand's `Rng::gen_range` over a half-open `u32` range: it
/// panics only on an empty range and returns a value inside the range.
#[verifier::external_body]
pub fn rng_range_u32(lo: u32, hi: u32) -> (r: u32)
    requires
        lo < hi,
    ensures
        lo <= r < hi,
{
    rand::thread_rng().gen_range(lo..hi)
}

/// Relies on rand's `Rng::gen_range` over a half-open `i64` range: it
/// panics only on an empty range and returns a value inside the range.
#[verifier::external_body]
pub fn rng_range_i64(lo: i64, hi: i64) -> (r: i64)
    requires
        lo < hi,
    ensures
        lo <= r < hi,
{
    rand::thread_rng().gen_range(lo..hi)
}

/// Relies on rand's `SliceRandom::shuffle`: a Fisher-Yates pass only swaps
/// elements in place, so what comes out is a permutation of what went in.
#[verifier::external_body]
pub fn rng_shuffle_usize(v: &mut Vec<usize>)
    ensures
        final(v)@.len() == old(v)@.len(),
        final(v)@.to_multiset() == old(v)@.to_multiset(),
{
    v.shuffle(&mut rand::thread_rng());
}

} // verus!
