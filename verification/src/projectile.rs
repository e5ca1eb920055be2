//! Projectiles: spawned at the ship's muzzle, flying diagonally, retired
//! when they leave the arena sideways or have used their pierce budget.

use vstd::prelude::*;
use crate::geometry::{Point, HEIGHT, UNIT, WIDTH};
use crate::ship::Ship;

verus! {

/// Steps per frame a fired projectile moves along each axis: eight units.
pub const PROJECTILE_SPEED: i32 = 8 * UNIT;

/// The fastest a projectile may be for its flight to be tracked: one arena
/// width per frame.
pub const MAX_PROJECTILE_SPEED: i32 = WIDTH;

/// Hits after which a projectile is spent.
pub const PIERCE_BUDGET: u32 = 2;

/// How far right of the ship's position a projectile starts.
pub const MUZZLE_OFFSET_X: i32 = 85 * UNIT;

/// How far below the ship's position a projectile starts.
pub const MUZZLE_OFFSET_Y: i32 = 0;

/// The vertical sense of a projectile's diagonal flight.
#[derive(Clone, Copy, Debug, PartialEq, Eq, Structural)]
pub enum Direction {
    /// Towards the top of the arena, where the enemies enter.
    Up,
    /// Towards the bottom of the arena.
    Down,
}

impl Direction {
    /// The sign that the vertical move is multiplied by: 1 for `Up`, -1 for `Down`.
    pub open spec fn sign(self) -> int {
        match self {
            Direction::Up => 1,
            Direction::Down => -1,
        }
    }
}

/// One projectile in flight.
#[derive(Clone, Copy, Debug, PartialEq, Eq, Structural)]
pub struct Projectile {
    pub position: Point,
    /// Steps per frame along each axis.
    pub speed: i32,
    pub direction: Direction,
    /// Hits dealt so far, counted up to [`PIERCE_BUDGET`].
    pub damage: u32,
}

/// A new projectile at `start_pos` that has dealt no damage.
pub fn shoot(start_pos: Point, speed: i32, direction: Direction) -> (projectile: Projectile)
    ensures
        projectile == (Projectile { position: start_pos, speed, direction, damage: 0 }),
{
    Projectile { position: start_pos, speed, direction, damage: 0 }
}

/// Where a projectile fired by `ship` starts.
pub open spec fn spec_muzzle(ship: &Ship) -> Point {
    Point {
        x: (ship.position.x + MUZZLE_OFFSET_X) as i32,
        y: (ship.position.y + MUZZLE_OFFSET_Y) as i32,
    }
}

/// See [`spec_muzzle`].
#[verifier::when_used_as_spec(spec_muzzle)]
pub fn muzzle(ship: &Ship) -> (at: Point)
    requires
        ship.in_bounds(),
    ensures
        at == spec_muzzle(ship),
        at.x == ship.position.x + MUZZLE_OFFSET_X,
        at.y == ship.position.y + MUZZLE_OFFSET_Y,
{
    Point { x: ship.position.x + MUZZLE_OFFSET_X, y: ship.position.y + MUZZLE_OFFSET_Y }
}

/// The projectile that `ship` fires: at its muzzle, at the standard speed,
/// flying upwards, with no damage dealt.
pub open spec fn spec_fire_from(ship: &Ship) -> Projectile {
    Projectile {
        position: muzzle(ship),
        speed: PROJECTILE_SPEED,
        direction: Direction::Up,
        damage: 0,
    }
}

/// See [`spec_fire_from`]. Fired from inside the ship's boundaries, the
/// projectile is in flight.
#[verifier::when_used_as_spec(spec_fire_from)]
pub fn fire_from(ship: &Ship) -> (projectile: Projectile)
    requires
        ship.in_bounds(),
    ensures
        projectile == spec_fire_from(ship),
        projectile.wf(),
{
    shoot(muzzle(ship), PROJECTILE_SPEED, Direction::Up)
}

impl Projectile {
    /// The projectile's speed is trackable, it has moved at most one frame
    /// past the arena's right edge, and it flies on a diagonal that crosses
    /// the arena.
    ///
    /// This is what a frame's move and hits keep; it bounds both coordinates.
    pub open spec fn on_course(self) -> bool {
        &&& 0 <= self.speed <= MAX_PROJECTILE_SPEED
        &&& 0 <= self.position.x <= WIDTH + MAX_PROJECTILE_SPEED
        &&& -(WIDTH + HEIGHT) <= self.diagonal() <= WIDTH + HEIGHT
        &&& self.damage <= PIERCE_BUDGET
    }

    /// The projectile is in flight: on course, between the arena's left and
    /// right edges, with pierce budget left.
    pub open spec fn wf(self) -> bool {
        &&& self.on_course()
        &&& self.spec_in_flight()
    }

    /// How far up the projectile climbs in a frame: its speed times its
    /// direction's sign.
    pub open spec fn climb(self) -> int {
        match self.direction {
            Direction::Up => self.speed as int,
            Direction::Down => -self.speed,
        }
    }

    /// What a projectile's flight keeps constant: `x + sign * y`.
    pub open spec fn diagonal(self) -> int {
        match self.direction {
            Direction::Up => self.position.x + self.position.y,
            Direction::Down => self.position.x - self.position.y,
        }
    }

    /// The projectile one frame later: right by its speed, and up or down
    /// by its speed as its direction says.
    pub open spec fn moved(self) -> Projectile {
        Projectile {
            position: Point {
                x: (self.position.x + self.speed) as i32,
                y: (self.position.y - self.climb()) as i32,
            },
            ..self
        }
    }

    /// The projectile after dealing `hits` more hits; the count stops at
    /// [`PIERCE_BUDGET`].
    pub open spec fn worn(self, hits: nat) -> Projectile {
        Projectile {
            damage: if self.damage >= PIERCE_BUDGET {
                self.damage
            } else if self.damage + hits >= PIERCE_BUDGET {
                PIERCE_BUDGET
            } else {
                (self.damage + hits) as u32
            },
            ..self
        }
    }

    /// Whether the projectile stays at the end of a frame: its x is within
    /// `0..=WIDTH` and it has pierce budget left.
    pub open spec fn spec_in_flight(&self) -> bool {
        0 <= self.position.x <= WIDTH && self.damage < PIERCE_BUDGET
    }

    /// Tests [`Projectile::wf`].
    pub fn is_well_formed(&self) -> (ok: bool)
        ensures
            ok == self.wf(),
    {
        let diagonal: i64 = match self.direction {
            Direction::Up => self.position.x as i64 + self.position.y as i64,
            Direction::Down => self.position.x as i64 - self.position.y as i64,
        };
        let reach: i64 = (WIDTH + HEIGHT) as i64;
        0 <= self.speed && self.speed <= MAX_PROJECTILE_SPEED && -reach <= diagonal && diagonal
            <= reach && self.in_flight()
    }

    /// Moves the projectile one frame along its diagonal.
    pub fn advance(&mut self)
        requires
            old(self).wf(),
        ensures
            *final(self) == old(self).moved(),
            final(self).position.x == old(self).position.x + old(self).speed,
            final(self).position.y == old(self).position.y - old(self).climb(),
            final(self).on_course(),
    {
        self.position.x = self.position.x + self.speed;
        match self.direction {
            Direction::Up => {
                self.position.y = self.position.y - self.speed;
            },
            Direction::Down => {
                self.position.y = self.position.y + self.speed;
            },
        }
    }

    /// Records one hit dealt.
    pub fn record_hit(&mut self)
        ensures
            *final(self) == old(self).worn(1),
    {
        if self.damage < PIERCE_BUDGET {
            self.damage = self.damage + 1;
        }
    }

    /// See [`Projectile::spec_in_flight`].
    #[verifier::when_used_as_spec(spec_in_flight)]
    pub fn in_flight(&self) -> (stays: bool)
        ensures
            stays == self.spec_in_flight(),
    {
        0 <= self.position.x && self.position.x <= WIDTH && self.damage < PIERCE_BUDGET
    }
}

/// `climb` and `diagonal` are the signed forms they stand for: a frame's
/// move is `y -= speed * sign`, and it keeps `x + sign * y`.
pub proof fn lemma_signed_forms(projectile: Projectile)
    ensures
        projectile.climb() == projectile.speed * projectile.direction.sign(),
        projectile.diagonal() == projectile.position.x + projectile.direction.sign()
            * projectile.position.y,
        projectile.on_course() && projectile.position.x <= WIDTH
            ==> projectile.moved().diagonal() == projectile.diagonal(),
{
    match projectile.direction {
        Direction::Up => {},
        Direction::Down => {},
    }
}

/// The projectiles one frame later, each moved along its diagonal.
pub open spec fn moved_projectiles(projectiles: Seq<Projectile>) -> Seq<Projectile> {
    Seq::new(projectiles.len(), |i: int| projectiles[i].moved())
}

/// The projectiles that stay at the end of a frame, in their order.
pub open spec fn still_flying(projectiles: Seq<Projectile>) -> Seq<Projectile> {
    projectiles.filter(|projectile: Projectile| projectile.in_flight())
}

/// Whether every projectile is in flight.
pub open spec fn all_in_flight(projectiles: Seq<Projectile>) -> bool {
    forall|i: int| 0 <= i < projectiles.len() ==> (#[trigger] projectiles[i]).wf()
}

/// Whether every projectile is on course.
pub open spec fn all_on_course(projectiles: Seq<Projectile>) -> bool {
    forall|i: int| 0 <= i < projectiles.len() ==> (#[trigger] projectiles[i]).on_course()
}

/// Tests [`all_in_flight`].
pub fn are_in_flight(projectiles: &Vec<Projectile>) -> (ok: bool)
    ensures
        ok == all_in_flight(projectiles@),
{
    let mut i: usize = 0;
    while i < projectiles.len()
        invariant
            i <= projectiles.len(),
            forall|j: int| 0 <= j < i ==> (#[trigger] projectiles@[j]).wf(),
        decreases projectiles.len() - i,
    {
        if !projectiles[i].is_well_formed() {
            return false;
        }
        i = i + 1;
    }
    true
}

/// Moves every projectile one frame.
pub fn advance_projectiles(projectiles: &mut Vec<Projectile>)
    requires
        all_in_flight(old(projectiles)@),
    ensures
        final(projectiles)@ == moved_projectiles(old(projectiles)@),
        all_on_course(final(projectiles)@),
{
    let ghost before = projectiles@;
    let mut i: usize = 0;
    while i < projectiles.len()
        invariant
            i <= projectiles.len(),
            projectiles@.len() == before.len(),
            all_in_flight(before),
            forall|j: int| 0 <= j < i ==> #[trigger] projectiles@[j] == before[j].moved(),
            forall|j: int| 0 <= j < i ==> (#[trigger] projectiles@[j]).on_course(),
            forall|j: int| i <= j < projectiles@.len() ==> projectiles@[j] == before[j],
        decreases projectiles.len() - i,
    {
        let mut projectile = projectiles[i];
        assert(before[i as int].wf());
        projectile.advance();
        projectiles.set(i, projectile);
        i = i + 1;
    }
    assert(projectiles@ =~= moved_projectiles(before));
}

/// Retires the projectiles that have left the arena sideways or used up
/// their pierce budget; the others keep their order.
pub fn retire_projectiles(projectiles: &mut Vec<Projectile>)
    ensures
        final(projectiles)@ == still_flying(old(projectiles)@),
        forall|i: int|
            0 <= i < final(projectiles)@.len() ==> (#[trigger] final(projectiles)@[i]).in_flight(),
        all_on_course(old(projectiles)@) ==> all_in_flight(final(projectiles)@),
{
    let ghost before = projectiles@;
    let mut kept: Vec<Projectile> = Vec::new();
    let mut i: usize = 0;
    while i < projectiles.len()
        invariant
            i <= projectiles.len(),
            projectiles@ == before,
            kept@ == still_flying(before.take(i as int)),
            forall|j: int| 0 <= j < kept@.len() ==> (#[trigger] kept@[j]).in_flight(),
            all_on_course(before) ==> all_on_course(kept@),
        decreases projectiles.len() - i,
    {
        let projectile = projectiles[i];
        proof {
            reveal(Seq::filter);
            assert(before.take(i as int + 1).drop_last() =~= before.take(i as int));
        }
        if projectile.in_flight() {
            kept.push(projectile);
        }
        i = i + 1;
    }
    proof {
        assert(before.take(before.len() as int) =~= before);
    }
    *projectiles = kept;
}

/// The projectiles that stay after a frame all have their x within
/// `0..=WIDTH` and pierce budget left, and, if the frame's projectiles were
/// on course, all of them are in flight.
pub proof fn lemma_still_flying_in_flight(projectiles: Seq<Projectile>)
    ensures
        forall|i: int|
            0 <= i < still_flying(projectiles).len() ==> (#[trigger] still_flying(
                projectiles,
            )[i]).in_flight(),
        all_on_course(projectiles) ==> all_in_flight(still_flying(projectiles)),
{
    let stays = |projectile: Projectile| projectile.in_flight();
    assert forall|i: int| 0 <= i < still_flying(projectiles).len() implies {
        &&& (#[trigger] still_flying(projectiles)[i]).in_flight()
        &&& all_on_course(projectiles) ==> still_flying(projectiles)[i].wf()
    } by {
        let flying = still_flying(projectiles)[i];
        projectiles.lemma_filter_pred(stays, i);
        assert(projectiles.filter(stays).contains(flying));
        projectiles.lemma_filter_contains_rev(stays, flying);
        let j = choose|j: int| 0 <= j < projectiles.len() && projectiles[j] == flying;
        assert(all_on_course(projectiles) ==> projectiles[j].on_course());
    }
}

} // verus!
