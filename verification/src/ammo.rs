//! The ammo pool: a bounded count of shots, a fixed-interval refill timer,
//! and the latch that makes firing edge-triggered.

use vstd::prelude::*;

verus! {

/// Shots the pool holds when full.
pub const BULLETS_COUNT: u8 = 5;

/// Milliseconds between refills: one second.
pub const RELOAD_INTERVAL_MS: u64 = 1000;

/// The ammo pool.
#[derive(Clone, Copy, Debug, PartialEq, Eq, Structural)]
pub struct AmmoPool {
    /// Shots available.
    pub ammo: u8,
    /// Milliseconds accumulated since the last refill, frame by frame.
    pub elapsed_ms: u64,
    /// Set by a shot and cleared when the fire button is released: while it
    /// is set, holding the button fires nothing more.
    pub latched: bool,
}

/// `elapsed_ms + dt_ms`, held at the largest value the timer can show.
pub open spec fn accumulated(elapsed_ms: u64, dt_ms: u32) -> u64 {
    if elapsed_ms + dt_ms > u64::MAX {
        u64::MAX
    } else {
        (elapsed_ms + dt_ms) as u64
    }
}

impl AmmoPool {
    pub open spec fn spec_full() -> AmmoPool {
        AmmoPool { ammo: BULLETS_COUNT, elapsed_ms: 0, latched: false }
    }

    /// A full pool with the timer at zero and the latch open.
    #[verifier::when_used_as_spec(spec_full)]
    pub fn full() -> (pool: AmmoPool)
        ensures
            pool == AmmoPool::spec_full(),
            pool.wf(),
    {
        AmmoPool { ammo: BULLETS_COUNT, elapsed_ms: 0, latched: false }
    }

    /// The pool holds no more than [`BULLETS_COUNT`] shots.
    pub open spec fn wf(self) -> bool {
        self.ammo <= BULLETS_COUNT
    }

    /// The pool after `dt_ms` more milliseconds: once a full interval has
    /// accumulated and the pool is not full, one shot is added and the timer
    /// starts over; otherwise the timer keeps what it has accumulated.
    pub open spec fn ticked(self, dt_ms: u32) -> AmmoPool {
        let elapsed = accumulated(self.elapsed_ms, dt_ms);
        if elapsed >= RELOAD_INTERVAL_MS && self.ammo < BULLETS_COUNT {
            AmmoPool { ammo: (self.ammo + 1) as u8, elapsed_ms: 0, ..self }
        } else {
            AmmoPool { elapsed_ms: elapsed, ..self }
        }
    }

    /// Whether a frame with the fire button in state `held` fires a shot:
    /// the button is held, no shot was fired since it was last released, and
    /// there is ammo.
    pub open spec fn fires(self, held: bool) -> bool {
        held && !self.latched && self.ammo > 0
    }

    /// The pool after a frame with the fire button in state `held`: a shot
    /// costs one ammo and sets the latch, a released button clears the latch.
    pub open spec fn triggered(self, held: bool) -> AmmoPool {
        if self.fires(held) {
            AmmoPool { ammo: (self.ammo - 1) as u8, latched: true, ..self }
        } else if held {
            self
        } else {
            AmmoPool { latched: false, ..self }
        }
    }

    /// The level shown by the ammo indicator: the ammo, held to `0..=5`
    /// whatever the field says.
    pub open spec fn spec_indicator_level(&self) -> u8 {
        if self.ammo > BULLETS_COUNT {
            BULLETS_COUNT
        } else {
            self.ammo
        }
    }

    /// Advances the refill timer by one frame of `dt_ms` milliseconds.
    pub fn tick(&mut self, dt_ms: u32)
        ensures
            *final(self) == old(self).ticked(dt_ms),
            old(self).wf() ==> final(self).wf(),
            final(self).ammo >= old(self).ammo,
    {
        let elapsed: u64 = if self.elapsed_ms > u64::MAX - dt_ms as u64 {
            u64::MAX
        } else {
            self.elapsed_ms + dt_ms as u64
        };
        if elapsed >= RELOAD_INTERVAL_MS && self.ammo < BULLETS_COUNT {
            self.ammo = self.ammo + 1;
            self.elapsed_ms = 0;
        } else {
            self.elapsed_ms = elapsed;
        }
    }

    /// Handles the fire button for one frame and says whether a shot is fired.
    pub fn pull_trigger(&mut self, held: bool) -> (fired: bool)
        ensures
            fired == old(self).fires(held),
            *final(self) == old(self).triggered(held),
            old(self).wf() ==> final(self).wf(),
            final(self).ammo <= old(self).ammo,
    {
        if held {
            if !self.latched && self.ammo > 0 {
                self.ammo = self.ammo - 1;
                self.latched = true;
                true
            } else {
                false
            }
        } else {
            self.latched = false;
            false
        }
    }

    /// See [`AmmoPool::spec_indicator_level`].
    #[verifier::when_used_as_spec(spec_indicator_level)]
    pub fn indicator_level(&self) -> (level: u8)
        ensures
            level == self.spec_indicator_level(),
            level <= BULLETS_COUNT,
    {
        if self.ammo > BULLETS_COUNT {
            BULLETS_COUNT
        } else {
            self.ammo
        }
    }
}

/// A shot costs exactly one ammo and sets the latch.
pub proof fn lemma_shot_sets_latch(pool: AmmoPool, held: bool)
    requires
        pool.fires(held),
    ensures
        held,
        pool.triggered(held).latched,
        pool.triggered(held).ammo == pool.ammo - 1,
{
}

/// A held button fires at most once: while the latch is set and the button
/// stays held, a frame fires nothing, spends nothing, and leaves the latch set.
pub proof fn lemma_latch_blocks_while_held(pool: AmmoPool, dt_ms: u32)
    requires
        pool.latched,
    ensures
        !pool.ticked(dt_ms).fires(true),
        pool.ticked(dt_ms).triggered(true) == pool.ticked(dt_ms),
        pool.ticked(dt_ms).triggered(true).latched,
{
}

/// After a release, the next press fires again if there is ammo.
pub proof fn lemma_release_rearms(pool: AmmoPool)
    ensures
        pool.triggered(false).fires(true) == (pool.ammo > 0),
{
}

} // verus!
