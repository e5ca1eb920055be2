//! The draw list: what the renderer is asked to show for a frame, as
//! entity kinds, positions and visual-state tags.

use vstd::prelude::*;
use crate::ammo::AmmoPool;
use crate::enemy::{Enemy, EnemyType};
use crate::game::{Game, GameView};
use crate::geometry::{Point, UNIT};
use crate::input::{InputSnapshot, Stick};
use crate::projectile::Projectile;
use crate::ship::{Ship, ShipFacing};
use crate::state::{GameState, Layout};

verus! {

/// How far the stick's ball is shown from its rest position when a
/// direction flag is set.
pub const BALL_INDENT: i32 = 15 * UNIT;

/// Where the stick's ball rests.
pub const BALL_REST_X: i32 = 630 * UNIT;

/// Where the stick's ball rests.
pub const BALL_REST_Y: i32 = 495 * UNIT;

/// What a draw request shows.
#[derive(Clone, Copy, Debug, PartialEq, Eq, Structural)]
pub enum EntityKind {
    Background,
    Title,
    PlayButton,
    SettingsButton,
    Ship,
    Stand,
    Ball,
    FireButton,
    Enemy,
    Projectile,
    AmmoIndicator,
    GameOverText,
    PlayAgainButton,
    MenuButton,
}

/// The visual state in which an entity is to be shown.
#[derive(Clone, Copy, Debug, PartialEq, Eq, Structural)]
pub enum VisualTag {
    /// The entity has one look only.
    Plain,
    /// Whether the pointer is over the element.
    Hovered(bool),
    /// Which way the ship leans, and where the stick is that steers it.
    Steering(ShipFacing, Stick),
    /// Whether the fire button is held down.
    Pressed(bool),
    /// The enemy's variant.
    Variant(EnemyType),
    /// The ammo left, within `0..=5`.
    Level(u8),
}

/// One request to the renderer.
#[derive(Clone, Copy, Debug, PartialEq, Eq, Structural)]
pub struct DrawRequest {
    pub kind: EntityKind,
    pub position: Point,
    pub tag: VisualTag,
}

/// A point given in arena units.
pub open spec fn spec_at(x: i32, y: i32) -> Point {
    Point { x: (x * UNIT) as i32, y: (y * UNIT) as i32 }
}

/// See [`spec_at`].
#[verifier::when_used_as_spec(spec_at)]
pub fn at(x: i32, y: i32) -> (point: Point)
    requires
        i32::MIN <= x * UNIT <= i32::MAX,
        i32::MIN <= y * UNIT <= i32::MAX,
    ensures
        point == spec_at(x, y),
{
    Point { x: x * UNIT, y: y * UNIT }
}

/// Where the stick's ball is shown: one indent away from its rest position,
/// the way the stick points.
pub open spec fn spec_ball_position(stick: Stick) -> Point {
    match stick {
        Stick::Down => Point { x: BALL_REST_X, y: (BALL_REST_Y + BALL_INDENT) as i32 },
        Stick::Up => Point { x: BALL_REST_X, y: (BALL_REST_Y - BALL_INDENT) as i32 },
        Stick::Left => Point { x: (BALL_REST_X - BALL_INDENT) as i32, y: BALL_REST_Y },
        Stick::Right => Point { x: (BALL_REST_X + BALL_INDENT) as i32, y: BALL_REST_Y },
        Stick::Rest => Point { x: BALL_REST_X, y: BALL_REST_Y },
    }
}

/// See [`spec_ball_position`].
#[verifier::when_used_as_spec(spec_ball_position)]
pub fn ball_position(stick: Stick) -> (position: Point)
    ensures
        position == spec_ball_position(stick),
{
    match stick {
        Stick::Down => Point { x: BALL_REST_X, y: BALL_REST_Y + BALL_INDENT },
        Stick::Up => Point { x: BALL_REST_X, y: BALL_REST_Y - BALL_INDENT },
        Stick::Left => Point { x: BALL_REST_X - BALL_INDENT, y: BALL_REST_Y },
        Stick::Right => Point { x: BALL_REST_X + BALL_INDENT, y: BALL_REST_Y },
        Stick::Rest => Point { x: BALL_REST_X, y: BALL_REST_Y },
    }
}

/// The request for a fixed element with one look.
pub open spec fn fixture(kind: EntityKind, position: Point) -> DrawRequest {
    DrawRequest { kind, position, tag: VisualTag::Plain }
}

/// The request for an element that reacts to the pointer.
pub open spec fn hoverable(kind: EntityKind, position: Point, hovered: bool) -> DrawRequest {
    DrawRequest { kind, position, tag: VisualTag::Hovered(hovered) }
}

/// The request for an enemy: at its position, tagged with its variant.
pub open spec fn enemy_request(enemy: Enemy) -> DrawRequest {
    DrawRequest {
        kind: EntityKind::Enemy,
        position: enemy.position,
        tag: VisualTag::Variant(enemy.enemy_type),
    }
}

/// The request for a projectile, at its position.
pub open spec fn projectile_request(projectile: Projectile) -> DrawRequest {
    DrawRequest { kind: EntityKind::Projectile, position: projectile.position, tag: VisualTag::Plain }
}

/// The request for the ammo indicator, tagged with the ammo held to `0..=5`.
pub open spec fn ammo_request(ammo: AmmoPool) -> DrawRequest {
    DrawRequest {
        kind: EntityKind::AmmoIndicator,
        position: at(704, 528),
        tag: VisualTag::Level(ammo.indicator_level()),
    }
}

/// What the menu shows: the background, the title, the play button and the gear.
pub open spec fn menu_scene(layout: Layout, pointer: Point) -> Seq<DrawRequest> {
    seq![
        fixture(EntityKind::Background, at(0, 0)),
        hoverable(EntityKind::Title, at(400, 260), layout.title.holds(pointer)),
        hoverable(EntityKind::PlayButton, at(400, 425), layout.play_button.holds(pointer)),
        hoverable(EntityKind::SettingsButton, at(752, 48), layout.settings_button.holds(pointer)),
    ]
}

/// What the settings screen shows: the background alone.
pub open spec fn settings_scene() -> Seq<DrawRequest> {
    seq![fixture(EntityKind::Background, at(0, 0))]
}

/// What the game-over screen shows: the background, the banner and the two buttons.
pub open spec fn game_over_scene(layout: Layout, pointer: Point) -> Seq<DrawRequest> {
    seq![
        fixture(EntityKind::Background, at(0, 0)),
        hoverable(EntityKind::GameOverText, at(400, 150), layout.game_over_text.holds(pointer)),
        hoverable(
            EntityKind::PlayAgainButton,
            at(400, 350),
            layout.play_again_button.holds(pointer),
        ),
        hoverable(EntityKind::MenuButton, at(400, 480), layout.menu_button.holds(pointer)),
    ]
}

/// The fixed part of the playing screen: the background, the ship, and the
/// stick and fire button that mirror the input.
pub open spec fn cockpit(ship: Ship, input: InputSnapshot) -> Seq<DrawRequest> {
    seq![
        fixture(EntityKind::Background, at(0, 0)),
        DrawRequest {
            kind: EntityKind::Ship,
            position: ship.position,
            tag: VisualTag::Steering(ship.facing, input.stick()),
        },
        fixture(EntityKind::Stand, at(600, 485)),
        fixture(EntityKind::Ball, ball_position(input.stick())),
        DrawRequest {
            kind: EntityKind::FireButton,
            position: at(715, 515),
            tag: VisualTag::Pressed(input.fire_held),
        },
    ]
}

/// One request for each enemy, in the wave's order.
pub open spec fn enemy_requests(enemies: Seq<Enemy>) -> Seq<DrawRequest> {
    Seq::new(enemies.len(), |i: int| enemy_request(enemies[i]))
}

/// One request for each projectile, in their order.
pub open spec fn projectile_requests(projectiles: Seq<Projectile>) -> Seq<DrawRequest> {
    Seq::new(projectiles.len(), |i: int| projectile_request(projectiles[i]))
}

/// What the playing screen shows: the cockpit, then the enemies, then the
/// projectiles, then the ammo indicator.
pub open spec fn play_scene(game: GameView, input: InputSnapshot) -> Seq<DrawRequest> {
    cockpit(game.ship, input) + enemy_requests(game.enemies) + projectile_requests(
        game.projectiles,
    ) + seq![ammo_request(game.ammo)]
}

/// The draw list for the state as it is, under the frame's input.
pub open spec fn scene(game: GameView, input: InputSnapshot) -> Seq<DrawRequest> {
    match game.state {
        GameState::Menu => menu_scene(game.layout, input.pointer),
        GameState::Settings => settings_scene(),
        GameState::Playing => play_scene(game, input),
        GameState::GameOver => game_over_scene(game.layout, input.pointer),
    }
}

impl Game {
    /// Emits the draw list for the state as it is, under the frame's input.
    pub fn draw_list(&self, input: &InputSnapshot) -> (requests: Vec<DrawRequest>)
        ensures
            requests@ == scene(self@, *input),
    {
        let mut requests: Vec<DrawRequest> = Vec::new();
        let pointer = input.pointer;
        requests.push(
            DrawRequest { kind: EntityKind::Background, position: at(0, 0), tag: VisualTag::Plain },
        );
        match self.state {
            GameState::Settings => {
                assert(requests@ =~= settings_scene());
            },
            GameState::Menu => {
                requests.push(
                    DrawRequest {
                        kind: EntityKind::Title,
                        position: at(400, 260),
                        tag: VisualTag::Hovered(self.layout.title.contains(pointer)),
                    },
                );
                requests.push(
                    DrawRequest {
                        kind: EntityKind::PlayButton,
                        position: at(400, 425),
                        tag: VisualTag::Hovered(self.layout.play_button.contains(pointer)),
                    },
                );
                requests.push(
                    DrawRequest {
                        kind: EntityKind::SettingsButton,
                        position: at(752, 48),
                        tag: VisualTag::Hovered(self.layout.settings_button.contains(pointer)),
                    },
                );
                assert(requests@ =~= menu_scene(self.layout, pointer));
            },
            GameState::GameOver => {
                requests.push(
                    DrawRequest {
                        kind: EntityKind::GameOverText,
                        position: at(400, 150),
                        tag: VisualTag::Hovered(self.layout.game_over_text.contains(pointer)),
                    },
                );
                requests.push(
                    DrawRequest {
                        kind: EntityKind::PlayAgainButton,
                        position: at(400, 350),
                        tag: VisualTag::Hovered(self.layout.play_again_button.contains(pointer)),
                    },
                );
                requests.push(
                    DrawRequest {
                        kind: EntityKind::MenuButton,
                        position: at(400, 480),
                        tag: VisualTag::Hovered(self.layout.menu_button.contains(pointer)),
                    },
                );
                assert(requests@ =~= game_over_scene(self.layout, pointer));
            },
            GameState::Playing => {
                requests.push(
                    DrawRequest {
                        kind: EntityKind::Ship,
                        position: self.ship.position,
                        tag: VisualTag::Steering(self.ship.facing, input.stick()),
                    },
                );
                requests.push(
                    DrawRequest {
                        kind: EntityKind::Stand,
                        position: at(600, 485),
                        tag: VisualTag::Plain,
                    },
                );
                requests.push(
                    DrawRequest {
                        kind: EntityKind::Ball,
                        position: ball_position(input.stick()),
                        tag: VisualTag::Plain,
                    },
                );
                requests.push(
                    DrawRequest {
                        kind: EntityKind::FireButton,
                        position: at(715, 515),
                        tag: VisualTag::Pressed(input.fire_held),
                    },
                );
                assert(requests@ =~= cockpit(self.ship, *input));
                let mut i: usize = 0;
                while i < self.wave.enemies.len()
                    invariant
                        i <= self.wave.enemies.len(),
                        requests@ == cockpit(self.ship, *input) + enemy_requests(
                            self.wave.enemies@.take(i as int),
                        ),
                    decreases self.wave.enemies.len() - i,
                {
                    let enemy = self.wave.enemies[i];
                    requests.push(
                        DrawRequest {
                            kind: EntityKind::Enemy,
                            position: enemy.position,
                            tag: VisualTag::Variant(enemy.enemy_type),
                        },
                    );
                    i = i + 1;
                }
                assert(self.wave.enemies@.take(i as int) =~= self.wave.enemies@);
                let mut j: usize = 0;
                while j < self.projectiles.len()
                    invariant
                        j <= self.projectiles.len(),
                        requests@ == cockpit(self.ship, *input) + enemy_requests(
                            self.wave.enemies@,
                        ) + projectile_requests(self.projectiles@.take(j as int)),
                    decreases self.projectiles.len() - j,
                {
                    let projectile = self.projectiles[j];
                    requests.push(
                        DrawRequest {
                            kind: EntityKind::Projectile,
                            position: projectile.position,
                            tag: VisualTag::Plain,
                        },
                    );
                    j = j + 1;
                }
                assert(self.projectiles@.take(j as int) =~= self.projectiles@);
                requests.push(
                    DrawRequest {
                        kind: EntityKind::AmmoIndicator,
                        position: at(704, 528),
                        tag: VisualTag::Level(self.ammo.indicator_level()),
                    },
                );
            },
        }
        requests
    }
}

} // verus!
