//! The player's ship: movement from the four direction flags, clamped to
//! its part of the arena.

use vstd::prelude::*;
use crate::geometry::{Point, HALF_UNIT, UNIT};
use crate::input::{InputSnapshot, Stick};

verus! {

/// Topmost row the ship can reach.
pub const BOUNDARY_TOP: i32 = 200 * UNIT;

/// Bottommost row the ship can reach.
pub const BOUNDARY_BOTTOM: i32 = 550 * UNIT;

/// Rightmost column the ship can reach.
pub const BOUNDARY_RIGHT: i32 = 350 * UNIT;

/// Leftmost column the ship can reach.
pub const BOUNDARY_LEFT: i32 = 50 * UNIT;

/// Steps each set direction flag moves the ship along each axis: two and a half units.
pub const MOVE_SPEED: i32 = 5 * HALF_UNIT;

/// Where the ship starts a game.
pub const SHIP_SPAWN_X: i32 = 200 * UNIT;

/// Where the ship starts a game.
pub const SHIP_SPAWN_Y: i32 = 400 * UNIT;

/// Which way the ship is shown leaning.
#[derive(Clone, Copy, Debug, PartialEq, Eq, Structural)]
pub enum ShipFacing {
    Neutral,
    Left,
    Right,
}

/// The ship.
#[derive(Clone, Copy, Debug, PartialEq, Eq, Structural)]
pub struct Ship {
    pub position: Point,
    pub facing: ShipFacing,
}

/// `MOVE_SPEED` if the flag is set, else nothing.
pub open spec fn push(flag: bool) -> int {
    if flag {
        MOVE_SPEED as int
    } else {
        0
    }
}

/// Sum of the flags' moves along x: right and up push right, left and down push left.
pub open spec fn delta_x(input: InputSnapshot) -> int {
    push(input.right) - push(input.left) + push(input.up) - push(input.down)
}

/// Sum of the flags' moves along y: right and down push down, left and up push up.
pub open spec fn delta_y(input: InputSnapshot) -> int {
    push(input.right) - push(input.left) - push(input.up) + push(input.down)
}

/// `value` brought into `low..=high`.
pub open spec fn clamped(value: int, low: int, high: int) -> int {
    if value < low {
        low
    } else if value > high {
        high
    } else {
        value
    }
}

/// The facing that goes with the stick: the ship leans right or left with
/// it, and is level when the stick rests or points up or down.
pub open spec fn spec_facing_for(stick: Stick) -> ShipFacing {
    match stick {
        Stick::Right => ShipFacing::Right,
        Stick::Left => ShipFacing::Left,
        _ => ShipFacing::Neutral,
    }
}

/// See [`spec_facing_for`].
#[verifier::when_used_as_spec(spec_facing_for)]
pub fn facing_for(stick: Stick) -> (facing: ShipFacing)
    ensures
        facing == spec_facing_for(stick),
{
    match stick {
        Stick::Right => ShipFacing::Right,
        Stick::Left => ShipFacing::Left,
        _ => ShipFacing::Neutral,
    }
}

impl Ship {
    pub open spec fn spec_spawn() -> Ship {
        Ship { position: Point { x: SHIP_SPAWN_X, y: SHIP_SPAWN_Y }, facing: ShipFacing::Neutral }
    }

    /// The ship as it starts a game: level, at its spawn position.
    #[verifier::when_used_as_spec(spec_spawn)]
    pub fn spawn() -> (ship: Ship)
        ensures
            ship == Ship::spec_spawn(),
            ship.in_bounds(),
    {
        Ship { position: Point { x: SHIP_SPAWN_X, y: SHIP_SPAWN_Y }, facing: ShipFacing::Neutral }
    }

    /// The ship is inside its part of the arena.
    pub open spec fn in_bounds(self) -> bool {
        &&& BOUNDARY_LEFT <= self.position.x <= BOUNDARY_RIGHT
        &&& BOUNDARY_TOP <= self.position.y <= BOUNDARY_BOTTOM
    }

    /// Tests [`Ship::in_bounds`].
    pub fn is_in_bounds(&self) -> (ok: bool)
        ensures
            ok == self.in_bounds(),
    {
        BOUNDARY_LEFT <= self.position.x && self.position.x <= BOUNDARY_RIGHT && BOUNDARY_TOP
            <= self.position.y && self.position.y <= BOUNDARY_BOTTOM
    }

    /// The ship after one frame under `input`: every set flag's move added
    /// up, then the position clamped to the boundaries.
    pub open spec fn steered(self, input: InputSnapshot) -> Ship {
        Ship {
            position: Point {
                x: clamped(
                    self.position.x + delta_x(input),
                    BOUNDARY_LEFT as int,
                    BOUNDARY_RIGHT as int,
                ) as i32,
                y: clamped(
                    self.position.y + delta_y(input),
                    BOUNDARY_TOP as int,
                    BOUNDARY_BOTTOM as int,
                ) as i32,
            },
            facing: facing_for(input.stick()),
        }
    }

    /// Moves the ship one frame under `input`.
    ///
    /// Wherever the ship was, it ends inside its boundaries.
    pub fn steer(&mut self, input: &InputSnapshot)
        ensures
            *final(self) == old(self).steered(*input),
            final(self).in_bounds(),
    {
        let mut dx: i64 = 0;
        let mut dy: i64 = 0;
        let step: i64 = MOVE_SPEED as i64;
        if input.right {
            dx = dx + step;
            dy = dy + step;
        }
        if input.left {
            dx = dx - step;
            dy = dy - step;
        }
        if input.up {
            dx = dx + step;
            dy = dy - step;
        }
        if input.down {
            dx = dx - step;
            dy = dy + step;
        }
        let mut x: i64 = self.position.x as i64 + dx;
        let mut y: i64 = self.position.y as i64 + dy;
        if x < BOUNDARY_LEFT as i64 {
            x = BOUNDARY_LEFT as i64;
        }
        if x > BOUNDARY_RIGHT as i64 {
            x = BOUNDARY_RIGHT as i64;
        }
        if y < BOUNDARY_TOP as i64 {
            y = BOUNDARY_TOP as i64;
        }
        if y > BOUNDARY_BOTTOM as i64 {
            y = BOUNDARY_BOTTOM as i64;
        }
        self.position = Point { x: x as i32, y: y as i32 };
        self.facing = facing_for(input.stick());
    }
}

/// Opposite flags cancel: with right and left both set, and likewise up and
/// down, the flags move the ship nowhere.
pub proof fn lemma_opposite_flags_cancel(input: InputSnapshot)
    requires
        input.right == input.left,
        input.up == input.down,
    ensures
        delta_x(input) == 0,
        delta_y(input) == 0,
{
}

} // verus!
