//! The calls into the `rand` crate. Nothing in this file is proved: each
//! contract is what the crate's source and documentation say of the call.

use vstd::prelude::*;

use rand::rngs::ThreadRng;
use rand::Rng;

verus! {

/// `rand::rngs::ThreadRng`, the handle to the calling thread's generator.
/// Nothing is known of a value of it.
#[verifier::external_type_specification]
#[verifier::external_body]
pub struct ExThreadRng(rand::rngs::ThreadRng);

/// `rand::thread_rng` hands out the handle to the calling thread's
/// generator, which the system seeds when the thread first asks for it.
/// Nothing is claimed of the handle. The call takes no argument; it fails
/// only where the system has no seed to give.
pub assume_specification[ rand::thread_rng ]() -> (rng: ThreadRng);

/// Calls `rand::Rng::gen_range` on the thread's generator with the half-open
/// range `low..high`. The method panics on an empty range, so `low < high` is
/// asked. Of the number drawn only its documented bounds are claimed: it lies
/// in the range, the lower bound included and the upper one excluded. Two
/// calls with the same bounds may give different numbers.
#[verifier::external_body]
pub(crate) fn gen_range(rng: &mut ThreadRng, low: i32, high: i32) -> (n: i32)
    requires
        low < high,
    ensures
        low <= n < high,
{
    rng.gen_range(low..high)
}

} // verus!
