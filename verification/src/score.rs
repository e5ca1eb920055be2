//! The score: points for each enemy killed, awarded once.

use vstd::prelude::*;
use crate::enemy::Enemy;

verus! {

/// The running score.
#[derive(Clone, Copy, Debug, PartialEq, Eq, Structural)]
pub struct ScoreTracker {
    pub score: u64,
}

/// `score + points`, held at the largest score that can be shown.
pub open spec fn credited(score: u64, points: nat) -> u64 {
    if score + points > u64::MAX {
        u64::MAX
    } else {
        (score + points) as u64
    }
}

/// Whether the enemy has just died: its health is gone and its death has
/// not been scored yet.
pub open spec fn just_killed(enemy: Enemy) -> bool {
    enemy.alive && enemy.health == 0
}

/// The enemy with its death, if it has died, marked as scored.
pub open spec fn laid_to_rest(enemy: Enemy) -> Enemy {
    Enemy { alive: enemy.alive && enemy.health > 0, ..enemy }
}

/// Points due for the enemies among `enemies` that have just died.
pub open spec fn kill_points(enemies: Seq<Enemy>) -> nat
    decreases enemies.len(),
{
    if enemies.len() == 0 {
        0
    } else {
        kill_points(enemies.drop_last()) + if just_killed(enemies.last()) {
            enemies.last().enemy_type.points_gained() as nat
        } else {
            0nat
        }
    }
}

impl ScoreTracker {
    /// The score after looking at `enemy`: its variant's points are added if
    /// it has just died.
    pub open spec fn scored(self, enemy: Enemy) -> ScoreTracker {
        if just_killed(enemy) {
            ScoreTracker { score: credited(self.score, enemy.enemy_type.points_gained() as nat) }
        } else {
            self
        }
    }

    /// Scores the enemy's death, if it has just died, and marks it as scored.
    ///
    /// The mark is what makes a death count once: the points are added on
    /// the call that clears `alive`, and on no later call.
    pub fn on_kill(&mut self, enemy: &mut Enemy)
        ensures
            *final(self) == old(self).scored(*old(enemy)),
            *final(enemy) == laid_to_rest(*old(enemy)),
            final(self).score >= old(self).score,
    {
        if enemy.alive && enemy.health == 0 {
            enemy.alive = false;
            let points: u64 = enemy.enemy_type.points_gained() as u64;
            if self.score > u64::MAX - points {
                self.score = u64::MAX;
            } else {
                self.score = self.score + points;
            }
        }
    }
}

/// A death is scored exactly once: the call that finds an enemy just killed
/// adds exactly its variant's points (short of the score's ceiling), and a
/// second call on the enemy as the first one left it changes nothing.
pub proof fn lemma_death_scored_once(tracker: ScoreTracker, enemy: Enemy)
    ensures
        tracker.scored(enemy).score >= tracker.score,
        just_killed(enemy) && tracker.score + enemy.enemy_type.points_gained() <= u64::MAX
            ==> tracker.scored(enemy).score == tracker.score + enemy.enemy_type.points_gained(),
        !just_killed(enemy) ==> tracker.scored(enemy) == tracker,
        !just_killed(laid_to_rest(enemy)),
        tracker.scored(enemy).scored(laid_to_rest(enemy)) == tracker.scored(enemy),
{
}

/// Enemies none of which has just died are worth no points.
pub proof fn lemma_no_points_without_deaths(enemies: Seq<Enemy>)
    requires
        forall|i: int| 0 <= i < enemies.len() ==> !just_killed(#[trigger] enemies[i]),
    ensures
        kill_points(enemies) == 0,
    decreases enemies.len(),
{
    if enemies.len() > 0 {
        assert(!just_killed(enemies[enemies.len() - 1]));
        lemma_no_points_without_deaths(enemies.drop_last());
    }
}

} // verus!
