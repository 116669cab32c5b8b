//! The random source that seeding and relaxation draw from.

use vstd::prelude::*;
use rand::rngs::StdRng;
use rand::Rng;

verus! {

/// The generator of the `rand` crate that every draw is taken from. Its
/// state is opaque here: nothing is known of a draw but its range.
#[verifier::external_type_specification]
#[verifier::external_body]
pub struct ExStdRng(StdRng);

/// Draws an integer from `0..bound` with `Rng::gen_range` of the `rand`
/// crate. The call panics on an empty range, so `bound` must be positive;
/// the value that comes back lies below `bound`. Which one it is depends on
/// the generator's state, and nothing more is claimed of it.
#[verifier::external_body]
pub(crate) fn draw_below(rng: &mut StdRng, bound: u32) -> (draw: u32)
    requires
        bound > 0,
    ensures
        draw < bound,
{
    rng.gen_range(0..bound)
}

} // verus!
