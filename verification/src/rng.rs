//! The library's only sources of randomness: thin trusted wrappers over
//! the thread-local generator of the rand crate. Every caller states what
//! holds of every possible outcome, never which outcome comes back.

use vstd::prelude::*;

verus! {

/// Relies on rand::Rng::gen_range over `i64`: returns a uniformly random
/// value in the half-open range `[lo, hi)`. gen_range panics on an empty
/// range, which the precondition excludes.
#[verifier::external_body]
pub(crate) fn rand_range_i64(lo: i64, hi: i64) -> (r: i64)
    requires
        lo < hi,
    ensures
        lo <= r < hi,
{
    rand::Rng::gen_range(&mut rand::thread_rng(), lo..hi)
}

/// Relies on rand::Rng::gen_range over `usize`: returns a uniformly random
/// index in `[0, n)`. gen_range panics on an empty range, which the
/// precondition excludes.
#[verifier::external_body]
pub(crate) fn rand_index(n: usize) -> (r: usize)
    requires
        0 < n,
    ensures
        r < n,
{
    rand::Rng::gen_range(&mut rand::thread_rng(), 0..n)
}

/// Relies on rand::Rng::gen_ratio: returns true with probability
/// `num / den`; its documentation guarantees the result is true when
/// `num == den` and false when `num == 0`. gen_ratio panics when `den == 0`
/// or `num > den`, which the precondition excludes.
#[verifier::external_body]
pub(crate) fn rand_ratio(num: u32, den: u32) -> (r: bool)
    requires
        0 < den,
        num <= den,
    ensures
        num == den ==> r,
        num == 0 ==> !r,
{
    rand::Rng::gen_ratio(&mut rand::thread_rng(), num, den)
}

} // verus!
