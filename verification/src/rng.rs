//! Randomness for tier picks and spin jitter, drawn from the `rand` crate
//! through a single trusted wrapper.

use vstd::prelude::*;
use rand::Rng;

verus! {

/// Relies on rand's `Rng::gen_range` over the half-open range `lo..hi`: the
/// result lies in `[lo, hi)`. `gen_range` panics on an empty range, which the
/// precondition rules out. Nothing more is assumed of which value comes back.
#[verifier::external_body]
pub(crate) fn pick_in_range(lo: i32, hi: i32) -> (r: i32)
    requires
        lo < hi,
    ensures
        lo <= r < hi,
{
    rand::thread_rng().gen_range(lo..hi)
}

} // verus!
