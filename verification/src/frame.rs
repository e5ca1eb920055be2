//! One whole frame: the click, the simulation step, and the draw list.

use vstd::prelude::*;
use crate::draw::{scene, DrawRequest};
use crate::game::{unread_draws, Game};
use crate::input::InputSnapshot;
use crate::random::{in_range, DRAWS_PER_WAVE};

verus! {

impl Game {
    /// Plays one whole frame and emits its draw list: the frame's click, if
    /// there is one, is dispatched, the simulation advances by `dt_ms`
    /// milliseconds, and the state that results is drawn. `click_draws`
    /// compose wave 0 if the click starts a new game, `wave_draws` the next
    /// wave if the frame empties the active one.
    pub fn frame_with(
        &mut self,
        input: &InputSnapshot,
        dt_ms: u32,
        click_draws: &[u32; DRAWS_PER_WAVE],
        wave_draws: &[u32; DRAWS_PER_WAVE],
    ) -> (requests: Vec<DrawRequest>)
        requires
            old(self).wf(),
        ensures
            final(self)@ == old(self)@.stepped(*input, dt_ms, click_draws@, wave_draws@),
            final(self).wf(),
            requests@ == scene(final(self)@, *input),
    {
        match input.click {
            Some(at) => {
                self.handle_click_with(at, click_draws);
            },
            None => {},
        }
        self.update_with(input, dt_ms, wave_draws);
        self.draw_list(input)
    }

    /// Plays one whole frame and emits its draw list, composing at random
    /// whatever wave the frame has to spawn.
    pub fn frame(&mut self, input: &InputSnapshot, dt_ms: u32) -> (requests: Vec<DrawRequest>)
        requires
            old(self).wf(),
        ensures
            final(self).wf(),
            requests@ == scene(final(self)@, *input),
            exists|click_draws: [u32; DRAWS_PER_WAVE], wave_draws: [u32; DRAWS_PER_WAVE]|
                in_range(click_draws@) && in_range(wave_draws@) && final(self)@
                    == #[trigger] old(self)@.stepped(*input, dt_ms, click_draws@, wave_draws@),
    {
        match input.click {
            Some(at) => {
                self.handle_click(at);
            },
            None => {},
        }
        let ghost dispatched = self@;
        self.update(input, dt_ms);
        proof {
            let click_draws = match input.click {
                Some(at) => choose|draws: [u32; DRAWS_PER_WAVE]|
                    in_range(draws@) && dispatched == #[trigger] old(self)@.clicked(at, draws@),
                None => unread_draws(),
            };
            let wave_draws = choose|draws: [u32; DRAWS_PER_WAVE]|
                in_range(draws@) && self@ == #[trigger] dispatched.updated(*input, dt_ms, draws@);
            assert(self@ == old(self)@.stepped(*input, dt_ms, click_draws@, wave_draws@));
        }
        self.draw_list(input)
    }
}

} // verus!
