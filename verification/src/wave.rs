//! Waves of enemies: the ten spawn slots, the rule that picks each slot's
//! variant from random draws, and a wave's life from spawn to empty.

use vstd::prelude::*;
use crate::enemy::{Enemy, EnemyType};
use crate::geometry::{Point, UNIT, WIDTH};
use crate::random::{in_range, roll_draws, DRAWS_PER_WAVE, DRAW_RANGE};
use crate::score::{credited, just_killed, kill_points, ScoreTracker};

verus! {

/// Number of spawn slots, and so the size of the largest wave.
pub const SLOT_COUNT: usize = 10;

/// The spawn slots: columns A to D from the right edge, rows 1 to 4 from the top.
#[derive(Clone, Copy, Debug, PartialEq, Eq, Structural)]
pub enum EnemyPositions {
    A1,
    B1,
    C1,
    D1,
    A2,
    B2,
    C2,
    A3,
    B3,
    A4,
}

/// The slots in the order in which a wave fills them.
pub open spec fn slot_order() -> Seq<EnemyPositions> {
    seq![
        EnemyPositions::A1,
        EnemyPositions::B1,
        EnemyPositions::C1,
        EnemyPositions::D1,
        EnemyPositions::A2,
        EnemyPositions::B2,
        EnemyPositions::C2,
        EnemyPositions::A3,
        EnemyPositions::B3,
        EnemyPositions::A4,
    ]
}

impl EnemyPositions {
    pub open spec fn spec_value(&self) -> Point {
        match *self {
            EnemyPositions::A1 => Point { x: (WIDTH - 65 * UNIT) as i32, y: UNIT },
            EnemyPositions::B1 => Point { x: (WIDTH - 135 * UNIT) as i32, y: UNIT },
            EnemyPositions::C1 => Point { x: (WIDTH - 205 * UNIT) as i32, y: UNIT },
            EnemyPositions::D1 => Point { x: (WIDTH - 275 * UNIT) as i32, y: UNIT },
            EnemyPositions::A2 => Point { x: (WIDTH - 65 * UNIT) as i32, y: (71 * UNIT) as i32 },
            EnemyPositions::B2 => Point { x: (WIDTH - 135 * UNIT) as i32, y: (71 * UNIT) as i32 },
            EnemyPositions::C2 => Point { x: (WIDTH - 205 * UNIT) as i32, y: (71 * UNIT) as i32 },
            EnemyPositions::A3 => Point { x: (WIDTH - 65 * UNIT) as i32, y: (141 * UNIT) as i32 },
            EnemyPositions::B3 => Point { x: (WIDTH - 135 * UNIT) as i32, y: (141 * UNIT) as i32 },
            EnemyPositions::A4 => Point { x: (WIDTH - 65 * UNIT) as i32, y: (211 * UNIT) as i32 },
        }
    }

    /// All slots, in filling order.
    pub fn return_in_order() -> (slots: [EnemyPositions; SLOT_COUNT])
        ensures
            slots@ == slot_order(),
    {
        let slots = [
            EnemyPositions::A1,
            EnemyPositions::B1,
            EnemyPositions::C1,
            EnemyPositions::D1,
            EnemyPositions::A2,
            EnemyPositions::B2,
            EnemyPositions::C2,
            EnemyPositions::A3,
            EnemyPositions::B3,
            EnemyPositions::A4,
        ];
        assert(slots@ =~= slot_order());
        slots
    }

    /// The slot's position in the arena.
    #[verifier::when_used_as_spec(spec_value)]
    pub fn value(&self) -> (at: Point)
        ensures
            at == self.spec_value(),
    {
        match *self {
            EnemyPositions::A1 => Point { x: WIDTH - 65 * UNIT, y: UNIT },
            EnemyPositions::B1 => Point { x: WIDTH - 135 * UNIT, y: UNIT },
            EnemyPositions::C1 => Point { x: WIDTH - 205 * UNIT, y: UNIT },
            EnemyPositions::D1 => Point { x: WIDTH - 275 * UNIT, y: UNIT },
            EnemyPositions::A2 => Point { x: WIDTH - 65 * UNIT, y: 71 * UNIT },
            EnemyPositions::B2 => Point { x: WIDTH - 135 * UNIT, y: 71 * UNIT },
            EnemyPositions::C2 => Point { x: WIDTH - 205 * UNIT, y: 71 * UNIT },
            EnemyPositions::A3 => Point { x: WIDTH - 65 * UNIT, y: 141 * UNIT },
            EnemyPositions::B3 => Point { x: WIDTH - 135 * UNIT, y: 141 * UNIT },
            EnemyPositions::A4 => Point { x: WIDTH - 65 * UNIT, y: 211 * UNIT },
        }
    }
}

/// Enemies in wave `wave_number`: three more than the number, at most ten.
pub open spec fn spec_enemy_count(wave_number: u32) -> usize {
    if wave_number + 3 < SLOT_COUNT {
        (wave_number + 3) as usize
    } else {
        SLOT_COUNT
    }
}

/// See [`spec_enemy_count`].
#[verifier::when_used_as_spec(spec_enemy_count)]
pub fn enemy_count(wave_number: u32) -> (count: usize)
    ensures
        count == spec_enemy_count(wave_number),
        3 <= count <= SLOT_COUNT,
{
    if wave_number < 7 {
        wave_number as usize + 3
    } else {
        SLOT_COUNT
    }
}

/// Percent chance of a `Fast` enemy in wave 0.
pub const FAST_BASE_PERCENT: u32 = 20;

/// Percent by which the chance of a `Fast` enemy grows with each wave.
pub const FAST_STEP_PERCENT: u32 = 10;

/// Percent chance of an `Armored` enemy in wave 0, once `Fast` has missed.
pub const ARMORED_BASE_PERCENT: u32 = 10;

/// Percent by which the chance of an `Armored` enemy grows with each wave.
pub const ARMORED_STEP_PERCENT: u32 = 5;

/// The percent that a slot's first draw must stay below to make the enemy
/// `Fast`: 20, and 10 more for each wave. From wave 8 on every percent is
/// below it.
pub open spec fn fast_percent(wave_number: u32) -> int {
    FAST_BASE_PERCENT + FAST_STEP_PERCENT * wave_number
}

/// The percent that a slot's second draw must stay below to make the enemy
/// `Armored`: 10, and 5 more for each wave.
pub open spec fn armored_percent(wave_number: u32) -> int {
    ARMORED_BASE_PERCENT + ARMORED_STEP_PERCENT * wave_number
}

/// The variant of one slot, from the slot's two draws.
///
/// The checks run in this order and are not normalised against each other:
/// the first draw against [`fast_percent`], then, only if that missed, the
/// second draw against [`armored_percent`].
pub open spec fn spec_pick_variant(wave_number: u32, fast_draw: u32, armored_draw: u32) -> EnemyType {
    if fast_draw < fast_percent(wave_number) {
        EnemyType::Fast
    } else if armored_draw < armored_percent(wave_number) {
        EnemyType::Armored
    } else {
        EnemyType::Default
    }
}

/// See [`spec_pick_variant`].
#[verifier::when_used_as_spec(spec_pick_variant)]
pub fn pick_variant(wave_number: u32, fast_draw: u32, armored_draw: u32) -> (variant: EnemyType)
    ensures
        variant == spec_pick_variant(wave_number, fast_draw, armored_draw),
{
    let wave: u64 = wave_number as u64;
    let fast_limit: u64 = FAST_BASE_PERCENT as u64 + FAST_STEP_PERCENT as u64 * wave;
    let armored_limit: u64 = ARMORED_BASE_PERCENT as u64 + ARMORED_STEP_PERCENT as u64 * wave;
    if (fast_draw as u64) < fast_limit {
        EnemyType::Fast
    } else if (armored_draw as u64) < armored_limit {
        EnemyType::Armored
    } else {
        EnemyType::Default
    }
}

/// How many draws the first `slots` slots of wave `wave_number` read.
///
/// The draws are one sequence, read in order: a slot reads one draw if it
/// makes the enemy `Fast`, and otherwise a second one for the `Armored` check.
pub open spec fn draws_read(wave_number: u32, draws: Seq<u32>, slots: int) -> int
    decreases slots,
{
    if slots <= 0 {
        0
    } else {
        let before = draws_read(wave_number, draws, slots - 1);
        if draws[before] < fast_percent(wave_number) {
            before + 1
        } else {
            before + 2
        }
    }
}

/// The enemy that fills slot `slot` of wave `wave_number` under `draws`:
/// placed on the slot, its variant picked from the next draws that the
/// slots before it have left unread.
pub open spec fn spawned_enemy(wave_number: u32, draws: Seq<u32>, slot: int) -> Enemy {
    let next = draws_read(wave_number, draws, slot);
    Enemy::fresh(
        pick_variant(wave_number, draws[next], draws[next + 1]),
        slot_order()[slot].value(),
    )
}

/// The enemies of wave `wave_number` under `draws`, in slot order.
pub open spec fn spawned(wave_number: u32, draws: Seq<u32>) -> Seq<Enemy> {
    Seq::new(enemy_count(wave_number) as nat, |slot: int| spawned_enemy(wave_number, draws, slot))
}

/// The active wave: its enemies in slot order, and its number.
#[derive(Clone, Debug, PartialEq, Eq)]
pub struct Wave {
    pub enemies: Vec<Enemy>,
    pub wave_number: u32,
}

/// Whether every enemy is in play.
pub open spec fn all_in_play(enemies: Seq<Enemy>) -> bool {
    forall|i: int| 0 <= i < enemies.len() ==> (#[trigger] enemies[i]).wf()
}

/// Whether every enemy is on course.
pub open spec fn all_on_course(enemies: Seq<Enemy>) -> bool {
    forall|i: int| 0 <= i < enemies.len() ==> (#[trigger] enemies[i]).on_course()
}

/// The enemies one frame later, each moved along its descent.
pub open spec fn moved_enemies(enemies: Seq<Enemy>) -> Seq<Enemy> {
    Seq::new(enemies.len(), |i: int| enemies[i].moved())
}

/// The enemies that stay in the wave at the end of a frame, in their order.
pub open spec fn survivors(enemies: Seq<Enemy>) -> Seq<Enemy> {
    enemies.filter(|enemy: Enemy| enemy.survives())
}

/// The number of the wave that follows wave `wave_number`: one more, held
/// at the largest number a wave can carry.
pub open spec fn spec_next_wave_number(wave_number: u32) -> u32 {
    if wave_number < u32::MAX {
        (wave_number + 1) as u32
    } else {
        wave_number
    }
}

/// See [`spec_next_wave_number`].
#[verifier::when_used_as_spec(spec_next_wave_number)]
pub fn next_wave_number(wave_number: u32) -> (next: u32)
    ensures
        next == spec_next_wave_number(wave_number),
{
    if wave_number < u32::MAX {
        wave_number + 1
    } else {
        wave_number
    }
}

impl Wave {
    /// Every enemy of the wave is in play.
    pub open spec fn wf(&self) -> bool {
        all_in_play(self.enemies@)
    }

    /// Tests [`Wave::wf`].
    pub fn is_well_formed(&self) -> (ok: bool)
        ensures
            ok == self.wf(),
    {
        let mut i: usize = 0;
        while i < self.enemies.len()
            invariant
                i <= self.enemies.len(),
                forall|j: int| 0 <= j < i ==> (#[trigger] self.enemies@[j]).wf(),
            decreases self.enemies.len() - i,
        {
            if !self.enemies[i].is_well_formed() {
                return false;
            }
            i = i + 1;
        }
        true
    }

    /// Whether no enemy is left.
    pub fn is_cleared(&self) -> (cleared: bool)
        ensures
            cleared == (self.enemies@.len() == 0),
    {
        self.enemies.len() == 0
    }

    /// Moves every enemy one frame.
    pub fn advance(&mut self)
        requires
            old(self).wf(),
        ensures
            final(self).enemies@ == moved_enemies(old(self).enemies@),
            final(self).wave_number == old(self).wave_number,
            all_on_course(final(self).enemies@),
    {
        let ghost before = self.enemies@;
        let mut i: usize = 0;
        while i < self.enemies.len()
            invariant
                i <= self.enemies.len(),
                self.enemies@.len() == before.len(),
                self.wave_number == old(self).wave_number,
                all_in_play(before),
                forall|j: int| 0 <= j < i ==> #[trigger] self.enemies@[j] == before[j].moved(),
                forall|j: int| 0 <= j < i ==> (#[trigger] self.enemies@[j]).on_course(),
                forall|j: int| i <= j < self.enemies@.len() ==> self.enemies@[j] == before[j],
            decreases self.enemies.len() - i,
        {
            let mut enemy = self.enemies[i];
            assert(before[i as int].wf());
            enemy.advance();
            self.enemies.set(i, enemy);
            i = i + 1;
        }
        assert(self.enemies@ =~= moved_enemies(before));
    }

    /// Ends the frame for the wave: scores the enemies that have just died,
    /// then removes them along with those that have passed the arena's
    /// bottom, which score nothing. The others keep their order.
    pub fn settle(&mut self, score: &mut ScoreTracker)
        ensures
            final(self).enemies@ == survivors(old(self).enemies@),
            final(self).wave_number == old(self).wave_number,
            final(score).score == credited(old(score).score, kill_points(old(self).enemies@)),
            final(score).score >= old(score).score,
            forall|i: int|
                0 <= i < final(self).enemies@.len()
                    ==> (#[trigger] final(self).enemies@[i]).survives(),
            all_on_course(old(self).enemies@) ==> final(self).wf(),
    {
        let ghost before = self.enemies@;
        let ghost score_before = score.score;
        let mut kept: Vec<Enemy> = Vec::new();
        let mut i: usize = 0;
        while i < self.enemies.len()
            invariant
                i <= self.enemies.len(),
                self.enemies@ == before,
                self.wave_number == old(self).wave_number,
                kept@ == survivors(before.take(i as int)),
                score.score == credited(score_before, kill_points(before.take(i as int))),
                forall|j: int| 0 <= j < kept@.len() ==> (#[trigger] kept@[j]).survives(),
                all_on_course(before) ==> all_on_course(kept@),
            decreases self.enemies.len() - i,
        {
            let mut enemy = self.enemies[i];
            proof {
                reveal(Seq::filter);
                assert(before.take(i as int + 1).drop_last() =~= before.take(i as int));
            }
            score.on_kill(&mut enemy);
            if enemy.survives() {
                kept.push(enemy);
            }
            i = i + 1;
        }
        proof {
            assert(before.take(before.len() as int) =~= before);
        }
        self.enemies = kept;
    }
}

/// Builds wave `wave_number` from the given draws.
pub fn spawn_wave_with(wave_number: u32, draws: &[u32; DRAWS_PER_WAVE]) -> (wave: Wave)
    ensures
        wave.wave_number == wave_number,
        wave.enemies@ == spawned(wave_number, draws@),
        wave.enemies@.len() == enemy_count(wave_number),
        wave.wf(),
{
    let positions = EnemyPositions::return_in_order();
    let count = enemy_count(wave_number);
    let mut enemies: Vec<Enemy> = Vec::new();
    let mut next: usize = 0;
    let mut i: usize = 0;
    while i < count
        invariant
            i <= count,
            count == enemy_count(wave_number),
            count <= SLOT_COUNT,
            positions@ == slot_order(),
            enemies@.len() == i,
            next == draws_read(wave_number, draws@, i as int),
            next <= 2 * i,
            forall|j: int| 0 <= j < i ==> enemies@[j] == spawned_enemy(wave_number, draws@, j),
        decreases count - i,
    {
        let variant = pick_variant(wave_number, draws[next], draws[next + 1]);
        enemies.push(Enemy::fresh(variant, positions[i].value()));
        next = match variant {
            EnemyType::Fast => next + 1,
            _ => next + 2,
        };
        i = i + 1;
    }
    assert(enemies@ =~= spawned(wave_number, draws@));
    proof {
        lemma_spawned_in_play(wave_number, draws@);
    }
    Wave { enemies, wave_number }
}

/// Builds wave `wave_number` from fresh random draws.
///
/// Whatever the draws were, the wave is the one [`spawned`] gives for some
/// draws below [`DRAW_RANGE`].
pub fn spawn_wave(wave_number: u32) -> (wave: Wave)
    ensures
        wave.wave_number == wave_number,
        wave.enemies@.len() == enemy_count(wave_number),
        wave.wf(),
        exists|draws: [u32; DRAWS_PER_WAVE]|
            in_range(draws@) && wave.enemies@ == #[trigger] spawned(wave_number, draws@),
{
    let draws = roll_draws();
    spawn_wave_with(wave_number, &draws)
}

/// A spawned wave has `min(3 + wave_number, 10)` enemies, each fresh on its
/// own slot and in play.
pub proof fn lemma_spawned_in_play(wave_number: u32, draws: Seq<u32>)
    ensures
        spawned(wave_number, draws).len() == (if wave_number + 3 < 10 {
            wave_number + 3
        } else {
            10
        }),
        forall|i: int|
            0 <= i < spawned(wave_number, draws).len() ==> ({
                let enemy = #[trigger] spawned(wave_number, draws)[i];
                &&& enemy == Enemy::fresh(enemy.enemy_type, slot_order()[i].value())
                &&& enemy.wf()
            }),
{
    assert forall|i: int| 0 <= i < spawned(wave_number, draws).len() implies {
        let enemy = #[trigger] spawned(wave_number, draws)[i];
        &&& enemy == Enemy::fresh(enemy.enemy_type, slot_order()[i].value())
        &&& enemy.wf()
    } by {
        assert(0 <= i < 10);
        let at = slot_order()[i].value();
        assert(0 <= at.y <= 211 * UNIT);
    }
}

/// The enemies that stay after a frame all pass the test for staying, none
/// of them has a death waiting to be scored, and, if the frame's enemies
/// were on course, all of them are in play.
pub proof fn lemma_survivors_in_play(enemies: Seq<Enemy>)
    ensures
        forall|i: int|
            0 <= i < survivors(enemies).len() ==> ({
                &&& (#[trigger] survivors(enemies)[i]).survives()
                &&& !just_killed(survivors(enemies)[i])
            }),
        all_on_course(enemies) ==> all_in_play(survivors(enemies)),
{
    let stays = |enemy: Enemy| enemy.survives();
    assert forall|i: int| 0 <= i < survivors(enemies).len() implies {
        &&& (#[trigger] survivors(enemies)[i]).survives()
        &&& !just_killed(survivors(enemies)[i])
        &&& all_on_course(enemies) ==> survivors(enemies)[i].wf()
    } by {
        let enemy = survivors(enemies)[i];
        enemies.lemma_filter_pred(stays, i);
        assert(enemies.filter(stays).contains(enemy));
        enemies.lemma_filter_contains_rev(stays, enemy);
        let j = choose|j: int| 0 <= j < enemies.len() && enemies[j] == enemy;
        assert(all_on_course(enemies) ==> enemies[j].on_course());
    }
}

/// The first `slots` slots read at least one draw each and at most two, so
/// a wave never reads past [`DRAWS_PER_WAVE`] draws.
pub proof fn lemma_draws_read_bounds(wave_number: u32, draws: Seq<u32>, slots: int)
    requires
        0 <= slots,
    ensures
        slots <= draws_read(wave_number, draws, slots) <= 2 * slots,
    decreases slots,
{
    if slots > 0 {
        lemma_draws_read_bounds(wave_number, draws, slots - 1);
    }
}

/// From wave 8 on, draws below [`DRAW_RANGE`] make every enemy `Fast`.
pub proof fn lemma_late_waves_all_fast(wave_number: u32, draws: Seq<u32>)
    requires
        wave_number >= 8,
        draws.len() == DRAWS_PER_WAVE,
        in_range(draws),
    ensures
        forall|i: int|
            0 <= i < spawned(wave_number, draws).len() ==> (#[trigger] spawned(
                wave_number,
                draws,
            )[i]).enemy_type == EnemyType::Fast,
{
    assert forall|i: int| 0 <= i < spawned(wave_number, draws).len() implies (#[trigger] spawned(
        wave_number,
        draws,
    )[i]).enemy_type == EnemyType::Fast by {
        lemma_draws_read_bounds(wave_number, draws, i);
        assert(draws[draws_read(wave_number, draws, i)] < DRAW_RANGE);
    }
}

} // verus!
