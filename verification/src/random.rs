//! The random draws that decide a wave's composition.

use rand::Rng;
use vstd::prelude::*;

verus! {

/// Draws are whole percents: every draw is below this.
pub const DRAW_RANGE: u32 = 100;

/// The most draws one wave can read: two for each of its ten slots.
pub const DRAWS_PER_WAVE: usize = 20;

/// Whether every draw is a percent below [`DRAW_RANGE`].
pub open spec fn in_range(draws: Seq<u32>) -> bool {
    forall|i: int| 0 <= i < draws.len() ==> draws[i] < DRAW_RANGE
}

/// One uniform draw from `0..bound`.
///
/// Calls `rand::Rng::gen_range` with the range `0..bound` on the generator
/// that `rand::thread_rng` hands out. Trusted, not proved: the result lies in
/// the range. `gen_range` panics on an empty range, which `bound > 0` rules
/// out. Nothing is claimed about which value comes back.
///
/// The generator seeds itself from the operating system when a thread first
/// uses it, and panics if the system gives it no entropy; no argument can
/// rule that out.
#[verifier::external_body]
fn draw_below(bound: u32) -> (draw: u32)
    requires
        bound > 0,
    ensures
        draw < bound,
{
    rand::thread_rng().gen_range(0..bound)
}

/// A fresh set of draws for one wave, each a percent below [`DRAW_RANGE`].
pub fn roll_draws() -> (draws: [u32; DRAWS_PER_WAVE])
    ensures
        in_range(draws@),
{
    let mut draws: [u32; DRAWS_PER_WAVE] = [0u32; DRAWS_PER_WAVE];
    let mut i: usize = 0;
    while i < DRAWS_PER_WAVE
        invariant
            i <= DRAWS_PER_WAVE,
            forall|j: int| 0 <= j < DRAWS_PER_WAVE ==> draws@[j] < DRAW_RANGE,
        decreases DRAWS_PER_WAVE - i,
    {
        draws[i] = draw_below(DRAW_RANGE);
        i = i + 1;
    }
    draws
}

} // verus!
