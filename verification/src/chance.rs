//! The one source of randomness of the engine.

use vstd::prelude::*;

verus! {

/// Draws a number from `0` up to, but not including, `n`, with
/// `rand::Rng::gen_range` on the generator of the current thread
/// (`rand::thread_rng`). The contract claims only what holds of every draw:
/// the result lies below `n`. An empty range, which `gen_range` refuses with
/// a panic, is left out. Where the system's source of entropy fails, when
/// the generator is first seeded or when it is seeded anew after a long run
/// of draws, `rand` gives up with a panic that no contract can rule out.
#[verifier::external_body]
pub(crate) fn random_below(n: u32) -> (r: u32)
    requires
        n > 0,
    ensures
        r < n,
{
    rand::Rng::gen_range(&mut rand::thread_rng(), 0..n)
}

} // verus!
