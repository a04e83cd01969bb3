//! Random sampling for food placement, through the `rand` crate.

use vstd::prelude::*;

verus! {

#[verifier::external_type_specification]
#[verifier::external_body]
pub struct ExThreadRng(rand::rngs::ThreadRng);

/// Relies on rand's `ThreadRng::default`: a handle to the thread-local
/// generator. Nothing is promised of it.
#[verifier::external_body]
pub(crate) fn new_rng() -> rand::rngs::ThreadRng {
    rand::rngs::ThreadRng::default()
}

/// Relies on rand's `Rng::gen_range` over a half-open `i32` range: it panics
/// only when the range is empty and otherwise returns a sample inside it.
/// Nothing is promised of which sample comes back.
#[verifier::external_body]
pub(crate) fn sample_range(rng: &mut rand::rngs::ThreadRng, lo: i32, hi: i32) -> (r: i32)
    requires
        lo < hi,
    ensures
        lo <= r < hi,
{
    rand::Rng::gen_range(rng, lo..hi)
}

} // verus!
