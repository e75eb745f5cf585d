//! Random draws, made by the `rand` crate's thread-local generator.

use rand::Rng;
use vstd::prelude::*;

verus! {

/// `Rng::gen_range` of rand on the thread-local generator, over the
/// half-open range from zero to `bound`: the draw lies in that range. An
/// empty range makes the call panic, so `bound` must be positive.
#[verifier::external_body]
pub(crate) fn random_below(bound: u32) -> (r: u32)
    requires
        bound > 0,
    ensures
        r < bound,
{
    rand::thread_rng().gen_range(0..bound)
}

/// `Rng::gen` of rand on the thread-local generator, for a `u32`: any value
/// may come back.
#[verifier::external_body]
pub(crate) fn random_u32() -> (r: u32) {
    rand::thread_rng().gen()
}

} // verus!
