//! The whole simulation: every subsystem's state in one aggregate, and the
//! frame that advances it.

use vstd::prelude::*;
use crate::ammo::{AmmoPool, BULLETS_COUNT};
use crate::collision::{
    resolve_hits, ship_collides, ship_struck, struck_enemies, worn_projectiles, Hitboxes,
};
use crate::enemy::Enemy;
use crate::geometry::Point;
use crate::input::InputSnapshot;
use crate::projectile::{
    advance_projectiles, all_in_flight, are_in_flight, fire_from, moved_projectiles,
    retire_projectiles, still_flying, Projectile,
};
use crate::random::{in_range, roll_draws, DRAWS_PER_WAVE};
use crate::score::{credited, kill_points, ScoreTracker};
use crate::ship::Ship;
use crate::state::{GameState, Layout, Transition};
use crate::wave::{
    all_in_play, moved_enemies, next_wave_number, spawn_wave_with, spawned, survivors, Wave,
};

verus! {

/// The simulation's state.
#[derive(Clone, Debug, PartialEq, Eq)]
pub struct Game {
    pub state: GameState,
    pub layout: Layout,
    pub hitboxes: Hitboxes,
    pub ship: Ship,
    pub ammo: AmmoPool,
    pub projectiles: Vec<Projectile>,
    pub wave: Wave,
    pub score: ScoreTracker,
}

/// The simulation's state as plain mathematical data.
#[verifier::ext_equal]
pub struct GameView {
    pub state: GameState,
    pub layout: Layout,
    pub hitboxes: Hitboxes,
    pub ship: Ship,
    pub ammo: AmmoPool,
    pub projectiles: Seq<Projectile>,
    pub enemies: Seq<Enemy>,
    pub wave_number: u32,
    pub score: u64,
}

impl View for Game {
    type V = GameView;

    open spec fn view(&self) -> GameView {
        GameView {
            state: self.state,
            layout: self.layout,
            hitboxes: self.hitboxes,
            ship: self.ship,
            ammo: self.ammo,
            projectiles: self.projectiles@,
            enemies: self.wave.enemies@,
            wave_number: self.wave.wave_number,
            score: self.score.score,
        }
    }
}

impl GameView {
    /// The ship is inside its boundaries, the ammo within its pool, every
    /// enemy in play and every projectile in flight.
    pub open spec fn wf(self) -> bool {
        &&& self.ship.in_bounds()
        &&& self.ammo.wf()
        &&& all_in_play(self.enemies)
        &&& all_in_flight(self.projectiles)
    }

    /// The state a program starts in: the menu, with a first wave already
    /// spawned behind it.
    pub open spec fn initial(layout: Layout, hitboxes: Hitboxes, draws: Seq<u32>) -> GameView {
        GameView {
            state: GameState::Menu,
            layout,
            hitboxes,
            ship: Ship::spawn(),
            ammo: AmmoPool::full(),
            projectiles: Seq::empty(),
            enemies: spawned(0, draws),
            wave_number: 0,
            score: 0,
        }
    }

    /// The state with a new game set up: wave 0 spawned from `draws`, the
    /// ammo full, the ship at its spawn position.
    ///
    /// The score carries over from game to game; so do the projectiles still
    /// in flight, the refill timer and the fire latch.
    pub open spec fn restarted(self, draws: Seq<u32>) -> GameView {
        GameView {
            state: GameState::Playing,
            ship: Ship::spawn(),
            ammo: AmmoPool { ammo: BULLETS_COUNT, ..self.ammo },
            enemies: spawned(0, draws),
            wave_number: 0,
            ..self
        }
    }

    /// The state after a click at `at`; `draws` compose wave 0 if the click
    /// starts a new game.
    pub open spec fn clicked(self, at: Point, draws: Seq<u32>) -> GameView {
        let transition = self.state.after_click(self.layout, at);
        if transition.reset {
            self.restarted(draws)
        } else {
            GameView { state: transition.state, ..self }
        }
    }

    /// The projectiles once the fire button has been handled: a shot adds
    /// one at the muzzle of the ship where it now stands.
    pub open spec fn with_shot(self, input: InputSnapshot, dt_ms: u32) -> Seq<Projectile> {
        if self.ammo.ticked(dt_ms).fires(input.fire_held) {
            self.projectiles.push(fire_from(&self.ship.steered(input)))
        } else {
            self.projectiles
        }
    }

    /// One frame of play, up to the point where an emptied wave would be
    /// replaced.
    ///
    /// In order: the ammo timer ticks, the ship moves, the fire button is
    /// handled, projectiles and then enemies move, the ship is tested
    /// against the enemies and the projectiles' hits are applied, deaths are
    /// scored, and what is dead, escaped, spent or out of the arena is
    /// removed. A ship that touches an enemy ends the game, but the frame is
    /// still carried through.
    pub open spec fn simulated(self, input: InputSnapshot, dt_ms: u32) -> GameView {
        let ship = self.ship.steered(input);
        let projectiles = moved_projectiles(self.with_shot(input, dt_ms));
        let enemies = moved_enemies(self.enemies);
        let struck = struck_enemies(self.hitboxes, enemies, projectiles);
        GameView {
            state: if ship_struck(self.hitboxes, ship, enemies) {
                GameState::GameOver
            } else {
                GameState::Playing
            },
            ship,
            ammo: self.ammo.ticked(dt_ms).triggered(input.fire_held),
            projectiles: still_flying(worn_projectiles(self.hitboxes, projectiles, enemies)),
            enemies: survivors(struck),
            score: credited(self.score, kill_points(struck)),
            ..self
        }
    }

    /// The state with an emptied wave replaced: the wave number goes up by
    /// one and the next wave is spawned from `draws`, at once. A wave that
    /// still has enemies is left alone.
    pub open spec fn replenished(self, draws: Seq<u32>) -> GameView {
        if self.enemies.len() == 0 {
            GameView {
                enemies: spawned(next_wave_number(self.wave_number), draws),
                wave_number: next_wave_number(self.wave_number),
                ..self
            }
        } else {
            self
        }
    }

    /// The state one frame later. Only the `Playing` screen simulates; on
    /// the others nothing moves.
    pub open spec fn updated(self, input: InputSnapshot, dt_ms: u32, draws: Seq<u32>) -> GameView {
        if self.state == GameState::Playing {
            self.simulated(input, dt_ms).replenished(draws)
        } else {
            self
        }
    }

    /// The state after a whole frame: the frame's click, if there is one, is
    /// dispatched first, then the frame is simulated.
    pub open spec fn stepped(
        self,
        input: InputSnapshot,
        dt_ms: u32,
        click_draws: Seq<u32>,
        wave_draws: Seq<u32>,
    ) -> GameView {
        let dispatched = match input.click {
            Some(at) => self.clicked(at, click_draws),
            None => self,
        };
        dispatched.updated(input, dt_ms, wave_draws)
    }
}

/// Some draws in range, to stand for the draws of a frame that reads none.
pub(crate) proof fn unread_draws() -> (draws: [u32; DRAWS_PER_WAVE])
    ensures
        in_range(draws@),
{
    vstd::array::spec_array_fill_for_copy_type::<u32, DRAWS_PER_WAVE>(0u32)
}

impl Game {
    /// See [`GameView::wf`].
    pub open spec fn wf(&self) -> bool {
        self@.wf()
    }

    /// Tests [`Game::wf`].
    pub fn is_well_formed(&self) -> (ok: bool)
        ensures
            ok == self.wf(),
    {
        self.ship.is_in_bounds() && self.ammo.ammo <= BULLETS_COUNT && self.wave.is_well_formed()
            && are_in_flight(&self.projectiles)
    }

    /// The state a program starts in, its first wave composed from `draws`.
    pub fn new_with(layout: Layout, hitboxes: Hitboxes, draws: &[u32; DRAWS_PER_WAVE]) -> (game:
        Game)
        ensures
            game@ == GameView::initial(layout, hitboxes, draws@),
            game.wf(),
    {
        Game {
            state: GameState::Menu,
            layout,
            hitboxes,
            ship: Ship::spawn(),
            ammo: AmmoPool::full(),
            projectiles: Vec::new(),
            wave: spawn_wave_with(0, draws),
            score: ScoreTracker { score: 0 },
        }
    }

    /// The state a program starts in, its first wave composed at random.
    pub fn new(layout: Layout, hitboxes: Hitboxes) -> (game: Game)
        ensures
            game.wf(),
            exists|draws: [u32; DRAWS_PER_WAVE]|
                in_range(draws@) && game@ == #[trigger] GameView::initial(
                    layout,
                    hitboxes,
                    draws@,
                ),
    {
        let draws = roll_draws();
        Game::new_with(layout, hitboxes, &draws)
    }

    /// The screen that is showing.
    pub fn current_state(&self) -> (state: GameState)
        ensures
            state == self@.state,
    {
        self.state
    }

    /// Dispatches a click at `at`; `draws` compose wave 0 if the click
    /// starts a new game.
    pub fn handle_click_with(&mut self, at: Point, draws: &[u32; DRAWS_PER_WAVE]) -> (transition:
        Transition)
        ensures
            transition == old(self)@.state.after_click(old(self)@.layout, at),
            final(self)@ == old(self)@.clicked(at, draws@),
            old(self).wf() ==> final(self).wf(),
    {
        let transition = self.state.handle_click(&self.layout, at);
        if transition.reset {
            self.wave = spawn_wave_with(0, draws);
            self.ammo.ammo = BULLETS_COUNT;
            self.ship = Ship::spawn();
        }
        self.state = transition.state;
        transition
    }

    /// Dispatches a click at `at`, composing wave 0 at random if the click
    /// starts a new game.
    pub fn handle_click(&mut self, at: Point) -> (transition: Transition)
        ensures
            transition == old(self)@.state.after_click(old(self)@.layout, at),
            old(self).wf() ==> final(self).wf(),
            exists|draws: [u32; DRAWS_PER_WAVE]|
                in_range(draws@) && final(self)@ == #[trigger] old(self)@.clicked(at, draws@),
    {
        let transition = self.state.handle_click(&self.layout, at);
        if transition.reset {
            let draws = roll_draws();
            self.handle_click_with(at, &draws)
        } else {
            self.state = transition.state;
            proof {
                let unread = unread_draws();
                assert(self@ == old(self)@.clicked(at, unread@));
            }
            transition
        }
    }

    /// Plays one frame up to the point where an emptied wave would be replaced.
    fn simulate(&mut self, input: &InputSnapshot, dt_ms: u32)
        requires
            old(self).wf(),
        ensures
            final(self)@ == old(self)@.simulated(*input, dt_ms),
            final(self).wf(),
    {
        let hitboxes = self.hitboxes;
        self.ammo.tick(dt_ms);
        self.ship.steer(input);
        if self.ammo.pull_trigger(input.fire_held) {
            self.projectiles.push(fire_from(&self.ship));
        }
        assert(self.projectiles@ == old(self)@.with_shot(*input, dt_ms));
        advance_projectiles(&mut self.projectiles);
        self.wave.advance();
        let over = ship_collides(&hitboxes, &self.ship, &self.wave.enemies);
        resolve_hits(&hitboxes, &mut self.wave.enemies, &mut self.projectiles);
        self.wave.settle(&mut self.score);
        retire_projectiles(&mut self.projectiles);
        if over {
            self.state = GameState::GameOver;
        } else {
            self.state = GameState::Playing;
        }
    }

    /// Replaces an emptied wave by the next one, composed from `draws`.
    fn replenish(&mut self, draws: &[u32; DRAWS_PER_WAVE])
        ensures
            final(self)@ == old(self)@.replenished(draws@),
            old(self).wf() ==> final(self).wf(),
    {
        if self.wave.is_cleared() {
            self.wave = spawn_wave_with(next_wave_number(self.wave.wave_number), draws);
        }
    }

    /// Advances the simulation by one frame of `dt_ms` milliseconds;
    /// `draws` compose the next wave if this frame empties the active one.
    pub fn update_with(&mut self, input: &InputSnapshot, dt_ms: u32, draws: &[u32; DRAWS_PER_WAVE])
        requires
            old(self).wf(),
        ensures
            final(self)@ == old(self)@.updated(*input, dt_ms, draws@),
            final(self).wf(),
    {
        if self.state == GameState::Playing {
            self.simulate(input, dt_ms);
            self.replenish(draws);
        }
    }

    /// Advances the simulation by one frame of `dt_ms` milliseconds,
    /// composing the next wave at random if this frame empties the active one.
    pub fn update(&mut self, input: &InputSnapshot, dt_ms: u32)
        requires
            old(self).wf(),
        ensures
            final(self).wf(),
            exists|draws: [u32; DRAWS_PER_WAVE]|
                in_range(draws@) && final(self)@ == #[trigger] old(self)@.updated(
                    *input,
                    dt_ms,
                    draws@,
                ),
    {
        if self.state == GameState::Playing {
            self.simulate(input, dt_ms);
            if self.wave.is_cleared() {
                let draws = roll_draws();
                self.replenish(&draws);
                assert(self@ == old(self)@.updated(*input, dt_ms, draws@));
            } else {
                proof {
                    let unread = unread_draws();
                    assert(self@ == old(self)@.updated(*input, dt_ms, unread@));
                }
            }
        } else {
            proof {
                let unread = unread_draws();
                assert(self@ == old(self)@.updated(*input, dt_ms, unread@));
            }
        }
    }
}

} // verus!
