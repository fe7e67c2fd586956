//! The source of randomness.
//!
//! Nothing in this module is proved: its one function hands the question to
//! the `rand` crate. Everything that is decided from the number drawn is
//! decided, and proved, by the callers.

use rand::Rng;
use vstd::prelude::*;

verus! {

/// Draws a number below `bound` from the thread-local generator of `rand`
/// (`rand::rng()`, then `Rng::random_range` on the range `0..bound`).
///
/// Trusted: `random_range` returns a value inside the range it is given. It
/// panics on an empty range, which `bound > 0` rules out; beyond that the
/// generator panics only where the operating system fails to supply
/// randomness for seeding, which no caller can prevent. Which value comes
/// back is left open, so callers are proved for every possible draw.
#[verifier::external_body]
pub(crate) fn random_below(bound: usize) -> (drawn: usize)
    requires
        bound > 0,
    ensures
        drawn < bound,
{
    rand::rng().random_range(0..bound)
}

} // verus!
