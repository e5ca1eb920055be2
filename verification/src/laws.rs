//! What holds of every frame, proved over the mathematical state
//! [`GameView`] that the frame functions' contracts speak of.

use vstd::prelude::*;
use crate::ammo::BULLETS_COUNT;
use crate::collision::{ship_struck, struck_enemies, worn_projectiles, Hitboxes};
use crate::draw::{scene, EntityKind};
use crate::game::GameView;
use crate::geometry::{Point, WIDTH};
use crate::input::InputSnapshot;
use crate::projectile;
use crate::projectile::{
    all_in_flight, lemma_still_flying_in_flight, moved_projectiles, still_flying,
};
use crate::score::{kill_points, lemma_no_points_without_deaths};
use crate::ship::Ship;
use crate::state::{GameState, Layout};
use crate::wave;
use crate::wave::{
    lemma_spawned_in_play, lemma_survivors_in_play, moved_enemies, spawned, survivors,
};

verus! {

/// Every state a program starts in is well formed.
pub proof fn lemma_initial_wf(layout: Layout, hitboxes: Hitboxes, draws: Seq<u32>)
    ensures
        GameView::initial(layout, hitboxes, draws).wf(),
{
    lemma_spawned_in_play(0, draws);
}

/// A click keeps a well-formed state well formed.
pub proof fn lemma_clicked_wf(game: GameView, at: Point, draws: Seq<u32>)
    requires
        game.wf(),
    ensures
        game.clicked(at, draws).wf(),
{
    lemma_spawned_in_play(0, draws);
}

/// A frame keeps a well-formed state well formed: the ship inside its
/// boundaries, the ammo within its pool, every enemy in play and every
/// projectile in flight.
pub proof fn lemma_updated_wf(game: GameView, input: InputSnapshot, dt_ms: u32, draws: Seq<u32>)
    requires
        game.wf(),
    ensures
        game.updated(input, dt_ms, draws).wf(),
{
    if game.state == GameState::Playing {
        let shot = game.with_shot(input, dt_ms);
        assert(all_in_flight(shot));
        let projectiles = moved_projectiles(shot);
        assert(projectile::all_on_course(projectiles)) by {
            assert forall|i: int| 0 <= i < projectiles.len() implies (#[trigger] projectiles[i]).on_course() by {
                assert(shot[i].wf());
            }
        }
        let enemies = moved_enemies(game.enemies);
        assert(wave::all_on_course(enemies)) by {
            assert forall|i: int| 0 <= i < enemies.len() implies (#[trigger] enemies[i]).on_course() by {
                assert(game.enemies[i].wf());
            }
        }
        let struck = struck_enemies(game.hitboxes, enemies, projectiles);
        assert(wave::all_on_course(struck)) by {
            assert forall|i: int| 0 <= i < struck.len() implies (#[trigger] struck[i]).on_course() by {
                assert(enemies[i].on_course());
            }
        }
        let worn = worn_projectiles(game.hitboxes, projectiles, enemies);
        assert(projectile::all_on_course(worn)) by {
            assert forall|i: int| 0 <= i < worn.len() implies (#[trigger] worn[i]).on_course() by {
                assert(projectiles[i].on_course());
            }
        }
        lemma_survivors_in_play(struck);
        lemma_still_flying_in_flight(worn);
        lemma_spawned_in_play(wave::next_wave_number(game.wave_number), draws);
    }
}

/// A whole frame, click and all, keeps a well-formed state well formed.
pub proof fn lemma_stepped_wf(
    game: GameView,
    input: InputSnapshot,
    dt_ms: u32,
    click_draws: Seq<u32>,
    wave_draws: Seq<u32>,
)
    requires
        game.wf(),
    ensures
        game.stepped(input, dt_ms, click_draws, wave_draws).wf(),
{
    match input.click {
        Some(at) => {
            lemma_clicked_wf(game, at, click_draws);
            lemma_updated_wf(game.clicked(at, click_draws), input, dt_ms, wave_draws);
        },
        None => {
            lemma_updated_wf(game, input, dt_ms, wave_draws);
        },
    }
}

/// The ammo never leaves `0..=5`: a pool within its bounds is within them
/// after any whole frame, whatever else the state holds.
pub proof fn lemma_ammo_stays_in_pool(
    game: GameView,
    input: InputSnapshot,
    dt_ms: u32,
    click_draws: Seq<u32>,
    wave_draws: Seq<u32>,
)
    requires
        game.ammo.ammo <= BULLETS_COUNT,
    ensures
        0 <= game.stepped(input, dt_ms, click_draws, wave_draws).ammo.ammo <= BULLETS_COUNT,
{
}

/// The ship never leaves its boundaries: a frame of play puts it inside
/// them wherever it was, a new game puts it on its spawn position, and
/// nothing else moves it.
pub proof fn lemma_ship_stays_in_bounds(
    game: GameView,
    input: InputSnapshot,
    dt_ms: u32,
    click_draws: Seq<u32>,
    wave_draws: Seq<u32>,
)
    ensures
        game.state == GameState::Playing ==> game.updated(
            input,
            dt_ms,
            wave_draws,
        ).ship.in_bounds(),
        game.ship.in_bounds() ==> game.stepped(
            input,
            dt_ms,
            click_draws,
            wave_draws,
        ).ship.in_bounds(),
{
}

/// The wave number moves only when a frame of play empties the active
/// wave, and then by exactly one, with the next wave spawned in the same
/// frame at its full size of `min(3 + wave_number, 10)`.
///
/// A wave number that has reached the largest value it can carry stays
/// there; the law leaves that one number out.
pub proof fn lemma_wave_number_steps_by_one(
    game: GameView,
    input: InputSnapshot,
    dt_ms: u32,
    draws: Seq<u32>,
)
    requires
        game.wave_number < u32::MAX,
    ensures
        ({
            let next = game.updated(input, dt_ms, draws);
            let emptied = game.state == GameState::Playing && game.simulated(
                input,
                dt_ms,
            ).enemies.len() == 0;
            &&& emptied ==> next.wave_number == game.wave_number + 1
            &&& emptied ==> next.enemies == spawned(next.wave_number, draws)
            &&& emptied ==> next.enemies.len() == if next.wave_number + 3 < 10 {
                next.wave_number + 3
            } else {
                10
            }
            &&& !emptied ==> next.wave_number == game.wave_number
        }),
{
    lemma_spawned_in_play(wave::next_wave_number(game.wave_number), draws);
}

/// The wave number never goes down within a game: a frame leaves it where
/// it is or raises it.
pub proof fn lemma_wave_number_never_falls(
    game: GameView,
    input: InputSnapshot,
    dt_ms: u32,
    draws: Seq<u32>,
)
    ensures
        game.updated(input, dt_ms, draws).wave_number >= game.wave_number,
{
}

/// The score only goes up, and a frame of play raises it by exactly the
/// points of the enemies that died in it; an enemy that stays in the wave
/// has no death left to score, so no death is counted in a later frame again.
///
/// A score that would pass the largest value it can show stops there; the
/// exact sum is stated for the frames that stay below it.
pub proof fn lemma_score_counts_each_death_once(
    game: GameView,
    input: InputSnapshot,
    dt_ms: u32,
    draws: Seq<u32>,
)
    ensures
        ({
            let next = game.updated(input, dt_ms, draws);
            let struck = struck_enemies(
                game.hitboxes,
                moved_enemies(game.enemies),
                moved_projectiles(game.with_shot(input, dt_ms)),
            );
            &&& next.score >= game.score
            &&& game.state != GameState::Playing ==> next.score == game.score
            &&& game.state == GameState::Playing && game.score + kill_points(struck) <= u64::MAX
                ==> next.score == game.score + kill_points(struck)
            &&& game.state == GameState::Playing ==> kill_points(next.enemies) == 0
        }),
{
    if game.state == GameState::Playing {
        let struck = struck_enemies(
            game.hitboxes,
            moved_enemies(game.enemies),
            moved_projectiles(game.with_shot(input, dt_ms)),
        );
        lemma_survivors_in_play(struck);
        lemma_no_points_without_deaths(survivors(struck));
        let next_number = wave::next_wave_number(game.wave_number);
        lemma_spawned_in_play(next_number, draws);
        lemma_no_points_without_deaths(spawned(next_number, draws));
    }
}

/// A projectile whose x has left `0..=WIDTH` is not drawn: after a frame,
/// every projectile request of the draw list, under whatever input the list
/// is made, lies within the arena's width. Only the playing screen draws
/// projectiles, and a frame of play retires the departed before it ends.
pub proof fn lemma_departed_projectiles_not_drawn(
    game: GameView,
    input: InputSnapshot,
    dt_ms: u32,
    draws: Seq<u32>,
    shown_under: InputSnapshot,
)
    ensures
        ({
            let requests = scene(game.updated(input, dt_ms, draws), shown_under);
            forall|i: int|
                0 <= i < requests.len() && (#[trigger] requests[i]).kind == EntityKind::Projectile
                    ==> 0 <= requests[i].position.x <= WIDTH
        }),
{
    let next = game.updated(input, dt_ms, draws);
    let worn = worn_projectiles(
        game.hitboxes,
        moved_projectiles(game.with_shot(input, dt_ms)),
        moved_enemies(game.enemies),
    );
    lemma_still_flying_in_flight(worn);
    let requests = scene(next, shown_under);
    assert forall|i: int|
        0 <= i < requests.len() && (#[trigger] requests[i]).kind
            == EntityKind::Projectile implies 0 <= requests[i].position.x <= WIDTH by {
        if next.state == GameState::Playing {
            assert(game.state == GameState::Playing);
            assert(next.projectiles == still_flying(worn));
            let first = 5 + next.enemies.len();
            if i < 5 {
            } else if i < first {
            } else if i < first + next.projectiles.len() {
                assert(next.projectiles[i - first].in_flight());
            } else {
            }
        }
    }
}

/// A ship that touches an enemy ends the game in that very frame, whatever
/// the ammo and the score are.
pub proof fn lemma_contact_ends_game(
    game: GameView,
    input: InputSnapshot,
    dt_ms: u32,
    draws: Seq<u32>,
)
    requires
        game.state == GameState::Playing,
    ensures
        game.updated(input, dt_ms, draws).state == (if ship_struck(
            game.hitboxes,
            game.ship.steered(input),
            moved_enemies(game.enemies),
        ) {
            GameState::GameOver
        } else {
            GameState::Playing
        }),
{
}

/// A click that starts a new game puts the wave number at 0, fills the
/// ammo and puts the ship on its spawn position; the score is kept.
pub proof fn lemma_new_game_resets(game: GameView, at: Point, draws: Seq<u32>)
    requires
        game.state.after_click(game.layout, at).reset,
    ensures
        ({
            let next = game.clicked(at, draws);
            &&& next.state == GameState::Playing
            &&& next.wave_number == 0
            &&& next.enemies == spawned(0, draws)
            &&& next.ammo.ammo == BULLETS_COUNT
            &&& next.ship == Ship::spawn()
            &&& next.score == game.score
        }),
{
}

} // verus!
