//! Enemy variants, their fixed stats, and a single enemy's descent.

use vstd::prelude::*;
use crate::geometry::{Point, HALF_UNIT, HEIGHT, UNIT, WIDTH};

verus! {

/// Steps a `Default` enemy moves per frame along each axis: one unit.
pub const DEFAULT_SPEED: i32 = UNIT;

/// Steps an `Armored` enemy moves per frame along each axis: half a unit.
pub const ARMORED_SPEED: i32 = HALF_UNIT;

/// Steps a `Fast` enemy moves per frame along each axis: two units.
pub const FAST_SPEED: i32 = 2 * UNIT;

/// The fastest any enemy moves.
pub const MAX_ENEMY_SPEED: i32 = FAST_SPEED;

/// The three enemy variants.
#[derive(Clone, Copy, Debug, PartialEq, Eq, Hash, Structural)]
pub enum EnemyType {
    Default,
    Armored,
    Fast,
}

impl EnemyType {
    pub open spec fn spec_default_speed(&self) -> i32 {
        match *self {
            EnemyType::Default => DEFAULT_SPEED,
            EnemyType::Armored => ARMORED_SPEED,
            EnemyType::Fast => FAST_SPEED,
        }
    }

    pub open spec fn spec_default_health(&self) -> u32 {
        match *self {
            EnemyType::Default => 2,
            EnemyType::Armored => 4,
            EnemyType::Fast => 1,
        }
    }

    pub open spec fn spec_points_gained(&self) -> u32 {
        match *self {
            EnemyType::Default => 200,
            EnemyType::Armored => 400,
            EnemyType::Fast => 150,
        }
    }

    /// Steps per frame, along each axis, that an enemy of this variant moves.
    #[verifier::when_used_as_spec(spec_default_speed)]
    pub fn default_speed(&self) -> (speed: i32)
        ensures
            speed == self.spec_default_speed(),
            0 < speed <= MAX_ENEMY_SPEED,
    {
        match *self {
            EnemyType::Default => DEFAULT_SPEED,
            EnemyType::Armored => ARMORED_SPEED,
            EnemyType::Fast => FAST_SPEED,
        }
    }

    /// Hits an enemy of this variant takes before it dies.
    #[verifier::when_used_as_spec(spec_default_health)]
    pub fn default_health(&self) -> (health: u32)
        ensures
            health == self.spec_default_health(),
            health > 0,
    {
        match *self {
            EnemyType::Default => 2,
            EnemyType::Armored => 4,
            EnemyType::Fast => 1,
        }
    }

    /// Score awarded for killing an enemy of this variant.
    #[verifier::when_used_as_spec(spec_points_gained)]
    pub fn points_gained(&self) -> (points: u32)
        ensures
            points == self.spec_points_gained(),
    {
        match *self {
            EnemyType::Default => 200,
            EnemyType::Armored => 400,
            EnemyType::Fast => 150,
        }
    }
}

/// One enemy of the active wave.
#[derive(Clone, Copy, Debug, PartialEq, Eq, Structural)]
pub struct Enemy {
    pub position: Point,
    /// Where the enemy entered the arena.
    pub spawn_point: Point,
    pub enemy_type: EnemyType,
    /// Cleared once, when the enemy's death has been scored.
    pub alive: bool,
    /// Steps per frame along each axis; always the variant's speed.
    pub speed: i32,
    /// Hits left before the enemy dies.
    pub health: u32,
}

impl Enemy {
    pub open spec fn spec_fresh(enemy_type: EnemyType, at: Point) -> Enemy {
        Enemy {
            position: at,
            spawn_point: at,
            enemy_type,
            alive: true,
            speed: enemy_type.default_speed(),
            health: enemy_type.default_health(),
        }
    }

    /// An enemy that has just entered the arena at `at`.
    #[verifier::when_used_as_spec(spec_fresh)]
    pub fn fresh(enemy_type: EnemyType, at: Point) -> (enemy: Enemy)
        ensures
            enemy == Enemy::spec_fresh(enemy_type, at),
    {
        Enemy {
            position: at,
            spawn_point: at,
            enemy_type,
            alive: true,
            speed: enemy_type.default_speed(),
            health: enemy_type.default_health(),
        }
    }

    /// The enemy moves at its variant's speed along a diagonal that crosses
    /// the arena, and has gone at most one frame's move past the bottom.
    ///
    /// This is what a frame's move and hits keep; it bounds both coordinates.
    pub open spec fn on_course(self) -> bool {
        &&& self.speed == self.enemy_type.default_speed()
        &&& 0 <= self.position.y < HEIGHT + MAX_ENEMY_SPEED
        &&& 0 <= self.position.x + self.position.y <= WIDTH + HEIGHT
    }

    /// The enemy is in play: on course, above the arena's bottom, with
    /// health left and its death not yet scored.
    pub open spec fn wf(self) -> bool {
        &&& self.on_course()
        &&& self.position.y < HEIGHT
        &&& self.health > 0
        &&& self.alive
    }

    /// The enemy one frame later: down and to the left by its speed.
    pub open spec fn moved(self) -> Enemy {
        Enemy {
            position: Point {
                x: (self.position.x - self.speed) as i32,
                y: (self.position.y + self.speed) as i32,
            },
            ..self
        }
    }

    /// The enemy after `hits` projectile hits: one health each, never below zero.
    pub open spec fn struck(self, hits: nat) -> Enemy {
        Enemy { health: if hits >= self.health { 0u32 } else { (self.health - hits) as u32 }, ..self }
    }

    /// Whether the enemy stays in the wave at the end of a frame: it has
    /// health left and has not passed the arena's bottom.
    pub open spec fn spec_survives(&self) -> bool {
        self.health > 0 && self.alive && self.position.y < HEIGHT
    }

    /// Tests [`Enemy::wf`].
    pub fn is_well_formed(&self) -> (ok: bool)
        ensures
            ok == self.wf(),
    {
        let diagonal: i64 = self.position.x as i64 + self.position.y as i64;
        self.speed == self.enemy_type.default_speed() && 0 <= self.position.y && self.position.y
            < HEIGHT && 0 <= diagonal && diagonal <= (WIDTH + HEIGHT) as i64 && self.health > 0
            && self.alive
    }

    /// Moves the enemy one frame along its diagonal descent.
    pub fn advance(&mut self)
        requires
            old(self).on_course(),
            old(self).position.y < HEIGHT,
        ensures
            *final(self) == old(self).moved(),
            final(self).position.x == old(self).position.x - old(self).speed,
            final(self).position.y == old(self).position.y + old(self).speed,
            final(self).on_course(),
    {
        self.position.x = self.position.x - self.speed;
        self.position.y = self.position.y + self.speed;
    }

    /// Takes one projectile hit.
    pub fn take_hit(&mut self)
        ensures
            *final(self) == old(self).struck(1),
    {
        if self.health > 0 {
            self.health = self.health - 1;
        }
    }

    /// See [`Enemy::spec_survives`].
    #[verifier::when_used_as_spec(spec_survives)]
    pub fn survives(&self) -> (stays: bool)
        ensures
            stays == self.spec_survives(),
    {
        self.health > 0 && self.alive && self.position.y < HEIGHT
    }
}

} // verus!
