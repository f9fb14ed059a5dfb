//! The thread's random number generator, as far as seeding needs it.
//!
//! Nothing in this file is proved: these are the statements about the `rand`
//! crate on which the proofs of the seeding constructor rest.

use vstd::prelude::*;
use rand::Rng;

verus! {

/// `rand::rngs::ThreadRng`, the handle to the generator that `rand` keeps for
/// each thread. Nothing is known of what it holds.
#[verifier::external_type_specification]
#[verifier::external_body]
pub struct ExThreadRng(rand::rngs::ThreadRng);

/// `rand::thread_rng` returns the handle to the calling thread's generator.
/// Nothing is claimed of the handle.
pub assume_specification[ rand::thread_rng ]() -> (rng: rand::rngs::ThreadRng)
;

/// `rand::Rng::gen_range` on the thread's generator, for `u32` bounds. It
/// panics unless `low < high`, and returns some value that is at least `low`
/// and less than `high`. Which one is left open: two calls may differ.
#[verifier::external_body]
pub(crate) fn gen_range(rng: &mut rand::rngs::ThreadRng, low: u32, high: u32) -> (drawn: u32)
    requires
        low < high,
    ensures
        low <= drawn < high,
{
    rng.gen_range(low, high)
}

} // verus!
