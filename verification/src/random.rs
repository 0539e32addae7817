use rand::Rng;
use vstd::prelude::*;

verus! {

/// Draws an index below `bound`: takes the thread-local generator of the
/// `rand` crate from `rand::thread_rng` and calls `Rng::gen_range` on it
/// with the half-open range `0..bound`.
///
/// Trusted, not proved: `gen_range` panics on an empty range, which
/// `requires` rules out, and otherwise returns a value of the range. Which
/// value comes back is left open, so nothing follows from two draws being
/// alike or different. The generator seeds itself from the operating
/// system and panics if that source fails.
#[verifier::external_body]
pub(crate) fn random_below(bound: usize) -> (res: usize)
    requires
        bound > 0,
    ensures
        res < bound,
{
    rand::thread_rng().gen_range(0..bound)
}

} // verus!
