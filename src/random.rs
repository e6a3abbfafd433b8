use vstd::prelude::*;

use rand::Rng;

verus! {

/// The thread-local generator of the `rand` crate, carried through unchanged.
#[verifier::external_type_specification]
#[verifier::external_body]
pub struct ExThreadRng(rand::rngs::ThreadRng);

/// Relies on rand::thread_rng, which hands out the generator of the calling thread.
pub assume_specification[ rand::thread_rng ]() -> rand::rngs::ThreadRng;

/// Relies on rand::Rng::gen_range over a half-open range: it returns a value of
/// that range and panics only when the range is empty.
#[verifier::external_body]
pub(crate) fn uniform_below(rng: &mut rand::rngs::ThreadRng, bound: u32) -> (r: u32)
    requires
        0 < bound,
    ensures
        r < bound,
{
    rng.gen_range(0..bound)
}

} // verus!
