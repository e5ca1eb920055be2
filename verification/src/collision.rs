//! Collisions: brute-force box tests between the ship and every enemy, and
//! between every projectile and every enemy.

use vstd::prelude::*;
use crate::enemy::{Enemy, EnemyType};
use crate::geometry::Rect;
use crate::projectile;
use crate::projectile::Projectile;
use crate::ship::Ship;
use crate::wave;

verus! {

/// The collision box of each kind of entity, relative to the entity's position.
#[derive(Clone, Copy, Debug, PartialEq, Eq, Structural)]
pub struct Hitboxes {
    pub ship: Rect,
    pub enemy_default: Rect,
    pub enemy_armored: Rect,
    pub enemy_fast: Rect,
    pub projectile: Rect,
}

impl Hitboxes {
    pub open spec fn spec_enemy(&self, enemy_type: EnemyType) -> Rect {
        match enemy_type {
            EnemyType::Default => self.enemy_default,
            EnemyType::Armored => self.enemy_armored,
            EnemyType::Fast => self.enemy_fast,
        }
    }

    /// The collision box of an enemy of the given variant.
    #[verifier::when_used_as_spec(spec_enemy)]
    pub fn enemy(&self, enemy_type: EnemyType) -> (hitbox: Rect)
        ensures
            hitbox == self.spec_enemy(enemy_type),
    {
        match enemy_type {
            EnemyType::Default => self.enemy_default,
            EnemyType::Armored => self.enemy_armored,
            EnemyType::Fast => self.enemy_fast,
        }
    }

    /// Whether the projectile's box overlaps the enemy's.
    pub open spec fn spec_projectile_hits(&self, projectile: &Projectile, enemy: &Enemy) -> bool {
        self.projectile.meets(projectile.position, self.enemy(enemy.enemy_type), enemy.position)
    }

    /// Whether the ship's box overlaps the enemy's.
    pub open spec fn spec_ship_touches(&self, ship: &Ship, enemy: &Enemy) -> bool {
        self.ship.meets(ship.position, self.enemy(enemy.enemy_type), enemy.position)
    }

    /// See [`Hitboxes::spec_projectile_hits`].
    #[verifier::when_used_as_spec(spec_projectile_hits)]
    pub fn projectile_hits(&self, projectile: &Projectile, enemy: &Enemy) -> (hit: bool)
        ensures
            hit == self.spec_projectile_hits(projectile, enemy),
    {
        let enemy_box = self.enemy(enemy.enemy_type);
        self.projectile.intersects(projectile.position, &enemy_box, enemy.position)
    }

    /// See [`Hitboxes::spec_ship_touches`].
    #[verifier::when_used_as_spec(spec_ship_touches)]
    pub fn ship_touches(&self, ship: &Ship, enemy: &Enemy) -> (hit: bool)
        ensures
            hit == self.spec_ship_touches(ship, enemy),
    {
        let enemy_box = self.enemy(enemy.enemy_type);
        self.ship.intersects(ship.position, &enemy_box, enemy.position)
    }
}

/// Whether the ship's box overlaps the box of any of the enemies.
pub open spec fn ship_struck(hitboxes: Hitboxes, ship: Ship, enemies: Seq<Enemy>) -> bool {
    exists|i: int| 0 <= i < enemies.len() && #[trigger] hitboxes.ship_touches(&ship, &enemies[i])
}

/// How many of the projectiles overlap the enemy.
pub open spec fn hits_on(hitboxes: Hitboxes, enemy: Enemy, projectiles: Seq<Projectile>) -> nat
    decreases projectiles.len(),
{
    if projectiles.len() == 0 {
        0
    } else {
        hits_on(hitboxes, enemy, projectiles.drop_last()) + if hitboxes.projectile_hits(
            &projectiles.last(),
            &enemy,
        ) {
            1nat
        } else {
            0nat
        }
    }
}

/// How many of the enemies the projectile overlaps.
pub open spec fn hits_by(hitboxes: Hitboxes, projectile: Projectile, enemies: Seq<Enemy>) -> nat
    decreases enemies.len(),
{
    if enemies.len() == 0 {
        0
    } else {
        hits_by(hitboxes, projectile, enemies.drop_last()) + if hitboxes.projectile_hits(
            &projectile,
            &enemies.last(),
        ) {
            1nat
        } else {
            0nat
        }
    }
}

/// The enemies after one frame's hits: each loses one health for every
/// projectile that overlaps it.
pub open spec fn struck_enemies(
    hitboxes: Hitboxes,
    enemies: Seq<Enemy>,
    projectiles: Seq<Projectile>,
) -> Seq<Enemy> {
    Seq::new(enemies.len(), |i: int| enemies[i].struck(hits_on(hitboxes, enemies[i], projectiles)))
}

/// The projectiles after one frame's hits: each counts one hit for every
/// enemy that it overlaps.
pub open spec fn worn_projectiles(
    hitboxes: Hitboxes,
    projectiles: Seq<Projectile>,
    enemies: Seq<Enemy>,
) -> Seq<Projectile> {
    Seq::new(
        projectiles.len(),
        |i: int| projectiles[i].worn(hits_by(hitboxes, projectiles[i], enemies)),
    )
}

/// Tests the ship against every enemy.
pub fn ship_collides(hitboxes: &Hitboxes, ship: &Ship, enemies: &Vec<Enemy>) -> (struck: bool)
    ensures
        struck == ship_struck(*hitboxes, *ship, enemies@),
{
    let mut i: usize = 0;
    while i < enemies.len()
        invariant
            i <= enemies.len(),
            forall|j: int| 0 <= j < i ==> !#[trigger] hitboxes.ship_touches(ship, &enemies@[j]),
        decreases enemies.len() - i,
    {
        if hitboxes.ship_touches(ship, &enemies[i]) {
            return true;
        }
        i = i + 1;
    }
    false
}

/// Applies one frame's projectile hits.
///
/// Every overlapping pair counts, in every frame in which it overlaps: a
/// projectile that overlaps several enemies damages each of them, and an
/// enemy overlapped by several projectiles is damaged by each. A projectile
/// keeps hitting within the frame after its budget is used up; it is retired
/// afterwards.
pub fn resolve_hits(
    hitboxes: &Hitboxes,
    enemies: &mut Vec<Enemy>,
    projectiles: &mut Vec<Projectile>,
)
    ensures
        final(enemies)@ == struck_enemies(*hitboxes, old(enemies)@, old(projectiles)@),
        final(projectiles)@ == worn_projectiles(*hitboxes, old(projectiles)@, old(enemies)@),
        wave::all_on_course(old(enemies)@) ==> wave::all_on_course(final(enemies)@),
        projectile::all_on_course(old(projectiles)@) ==> projectile::all_on_course(
            final(projectiles)@,
        ),
{
    let ghost enemies_before = enemies@;
    let ghost projectiles_before = projectiles@;
    let mut i: usize = 0;
    while i < projectiles.len()
        invariant
            i <= projectiles.len(),
            projectiles@.len() == projectiles_before.len(),
            enemies@.len() == enemies_before.len(),
            forall|k: int|
                0 <= k < i ==> #[trigger] projectiles@[k] == projectiles_before[k].worn(
                    hits_by(*hitboxes, projectiles_before[k], enemies_before),
                ),
            forall|k: int| i <= k < projectiles@.len() ==> projectiles@[k] == projectiles_before[k],
            forall|j: int|
                0 <= j < enemies@.len() ==> #[trigger] enemies@[j] == enemies_before[j].struck(
                    hits_on(*hitboxes, enemies_before[j], projectiles_before.take(i as int)),
                ),
        decreases projectiles.len() - i,
    {
        let mut projectile = projectiles[i];
        let ghost fired = projectiles_before[i as int];
        let mut j: usize = 0;
        while j < enemies.len()
            invariant
                j <= enemies.len(),
                i < projectiles_before.len(),
                fired == projectiles_before[i as int],
                enemies@.len() == enemies_before.len(),
                projectile == fired.worn(
                    hits_by(*hitboxes, fired, enemies_before.take(j as int)),
                ),
                forall|m: int|
                    0 <= m < j ==> #[trigger] enemies@[m] == enemies_before[m].struck(
                        hits_on(
                            *hitboxes,
                            enemies_before[m],
                            projectiles_before.take(i as int + 1),
                        ),
                    ),
                forall|m: int|
                    j <= m < enemies@.len() ==> #[trigger] enemies@[m] == enemies_before[m].struck(
                        hits_on(*hitboxes, enemies_before[m], projectiles_before.take(i as int)),
                    ),
            decreases enemies.len() - j,
        {
            let mut enemy = enemies[j];
            let ghost entered = enemies_before[j as int];
            proof {
                assert(projectiles_before.take(i as int + 1).drop_last()
                    =~= projectiles_before.take(i as int));
                assert(enemies_before.take(j as int + 1).drop_last() =~= enemies_before.take(
                    j as int,
                ));
                assert(hitboxes.projectile_hits(&projectile, &enemy) == hitboxes.projectile_hits(
                    &fired,
                    &entered,
                ));
            }
            if hitboxes.projectile_hits(&projectile, &enemy) {
                enemy.take_hit();
                projectile.record_hit();
                enemies.set(j, enemy);
            }
            j = j + 1;
        }
        proof {
            assert(enemies_before.take(enemies_before.len() as int) =~= enemies_before);
        }
        projectiles.set(i, projectile);
        i = i + 1;
    }
    proof {
        assert(projectiles_before.take(projectiles_before.len() as int) =~= projectiles_before);
        assert(enemies@ =~= struck_enemies(*hitboxes, enemies_before, projectiles_before));
        assert(projectiles@ =~= worn_projectiles(*hitboxes, projectiles_before, enemies_before));
    }
}

} // verus!
