use rand::rngs::ThreadRng;
use rand::Rng;
use vstd::prelude::*;

verus! {

#[verifier::external_type_specification]
#[verifier::external_body]
pub struct ExThreadRng(rand::rngs::ThreadRng);

/// `rand::rng` returns a handle to the generator of the calling thread.
/// Nothing is claimed of the handle: what it yields is left to chance. The
/// call panics where the operating system cannot seed the generator, which
/// no argument decides.
pub assume_specification[ rand::rng ]() -> (rng: ThreadRng)
;

/// Calls `rand::Rng::random_range` on the half-open range `0..bound`.
/// The one thing claimed is what holds of every draw: the value lies in that
/// range. An empty range makes the outside call panic, so `bound` is
/// positive. The call also panics where the generator is due to be seeded
/// anew and the operating system fails to do so.
#[verifier::external_body]
pub(crate) fn random_below(rng: &mut ThreadRng, bound: u32) -> (roll: u32)
    requires
        bound > 0,
    ensures
        roll < bound,
{
    rng.random_range(0..bound)
}

} // verus!
