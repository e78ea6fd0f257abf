//! The two things asked of the random number generator.

use rand::seq::SliceRandom;
use rand::Rng;
use vstd::prelude::*;

verus! {

/// `Rng::random_range` on the generator of the current thread, which
/// `rand::rng` hands out: a number of the range from 0 up to, and without,
/// `bound`. The range must not be empty. Which number comes is left open.
/// The generator seeds itself from the operating system, and ends the
/// program where it cannot.
#[verifier::external_body]
pub(crate) fn random_below(bound: usize) -> (draw: usize)
    requires
        bound > 0,
    ensures
        draw < bound,
{
    rand::rng().random_range(0..bound)
}

/// `SliceRandom::shuffle` with the generator of the current thread: the
/// characters are swapped among themselves in place, so the same characters
/// are there afterwards, each as often as before. Their order is left open.
#[verifier::external_body]
pub(crate) fn shuffle(chars: &mut Vec<char>)
    ensures
        final(chars)@.to_multiset() == old(chars)@.to_multiset(),
{
    chars.shuffle(&mut rand::rng());
}

} // verus!
