//! Randomness for the per-tick probability rolls, through the `rand` crate.

use rand::Rng;
use vstd::prelude::*;

verus! {

/// Relies on `rand::thread_rng` and `Rng::gen_range` over `0..n`: the draw
/// is some number below `n`.  `gen_range` panics only on an empty range,
/// which `n > 0` rules out.  Nothing more is assumed of the draw — callers
/// state what holds of every outcome.
#[verifier::external_body]
pub(crate) fn roll_below(n: u32) -> (r: u32)
    requires
        n > 0,
    ensures
        r < n,
{
    rand::thread_rng().gen_range(0..n)
}

} // verus!
