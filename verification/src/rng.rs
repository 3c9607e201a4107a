//! Random sampling, through `rand`'s thread-local generator.
//!
//! The noise field wants a small uniform perturbation per cell. The
//! generator itself is outside code: these declarations give it to the
//! verified logic as an opaque handle plus one bounded sampling call.

use vstd::prelude::*;

verus! {

#[verifier::external_type_specification]
#[verifier::external_body]
pub struct ExThreadRng(rand::rngs::ThreadRng);

/// Relies on `rand::thread_rng`: hands back the lazily-initialized
/// thread-local generator. Nothing is promised of its state.
#[verifier::external_body]
pub(crate) fn fresh_rng() -> rand::rngs::ThreadRng {
    rand::thread_rng()
}

/// Relies on `rand::Rng::gen_range` over the half-open integer range
/// `lo..hi`: the sample is uniform in that range, so it lies in
/// `[lo, hi)`. The call panics on an empty range, which the
/// precondition rules out.
#[verifier::external_body]
pub(crate) fn sample_range(rng: &mut rand::rngs::ThreadRng, lo: i32, hi: i32) -> (r: i32)
    requires
        lo < hi,
    ensures
        lo <= r < hi,
{
    rand::Rng::gen_range(rng, lo..hi)
}

} // verus!
