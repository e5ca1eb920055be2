use invaders::ammo::{AmmoPool, BULLETS_COUNT, RELOAD_INTERVAL_MS};

#[test]
fn full_pool_holds_five_shots() {
    let pool = AmmoPool::full();
    assert_eq!(pool, AmmoPool { ammo: 5, elapsed_ms: 0, latched: false });
    assert_eq!(BULLETS_COUNT, 5);
    assert_eq!(RELOAD_INTERVAL_MS, 1000);
}

#[test]
fn refill_comes_after_one_second() {
    let mut pool = AmmoPool { ammo: 2, elapsed_ms: 0, latched: false };
    pool.tick(999);
    assert_eq!(pool, AmmoPool { ammo: 2, elapsed_ms: 999, latched: false });
    pool.tick(1);
    assert_eq!(pool, AmmoPool { ammo: 3, elapsed_ms: 0, latched: false });
}

#[test]
fn refill_resets_the_timer_and_drops_the_excess() {
    let mut pool = AmmoPool { ammo: 0, elapsed_ms: 990, latched: false };
    pool.tick(16);
    assert_eq!(pool, AmmoPool { ammo: 1, elapsed_ms: 0, latched: false });
    pool.tick(16);
    assert_eq!(pool, AmmoPool { ammo: 1, elapsed_ms: 16, latched: false });
}

#[test]
fn one_refill_per_frame_however_long_the_frame() {
    let mut pool = AmmoPool { ammo: 0, elapsed_ms: 0, latched: false };
    pool.tick(5000);
    assert_eq!(pool.ammo, 1);
    assert_eq!(pool.elapsed_ms, 0);
}

#[test]
fn a_full_pool_is_not_refilled_and_its_timer_runs_on() {
    let mut pool = AmmoPool::full();
    pool.tick(600);
    pool.tick(600);
    assert_eq!(pool, AmmoPool { ammo: 5, elapsed_ms: 1200, latched: false });
    // The second is already over when a shot makes room.
    assert!(pool.pull_trigger(true));
    assert_eq!(pool.ammo, 4);
    pool.tick(0);
    assert_eq!(pool, AmmoPool { ammo: 5, elapsed_ms: 0, latched: true });
}

#[test]
fn timer_stops_at_its_ceiling() {
    let mut pool = AmmoPool { ammo: 5, elapsed_ms: u64::MAX - 10, latched: false };
    pool.tick(4);
    assert_eq!(pool.elapsed_ms, u64::MAX - 6);
    pool.tick(100);
    assert_eq!(pool.elapsed_ms, u64::MAX);
    pool.tick(u32::MAX);
    assert_eq!(pool.elapsed_ms, u64::MAX);
    assert_eq!(pool.ammo, 5);
}

#[test]
fn ammo_never_passes_five_over_many_ticks() {
    let mut pool = AmmoPool { ammo: 0, elapsed_ms: 0, latched: false };
    for _ in 0..20 {
        pool.tick(1000);
        assert!(pool.ammo <= 5);
    }
    assert_eq!(pool.ammo, 5);
}

#[test]
fn a_press_fires_once_and_costs_one_ammo() {
    let mut pool = AmmoPool::full();
    assert!(pool.pull_trigger(true));
    assert_eq!(pool, AmmoPool { ammo: 4, elapsed_ms: 0, latched: true });
}

#[test]
fn holding_fires_nothing_more() {
    let mut pool = AmmoPool::full();
    let mut shots = 0;
    for _ in 0..100 {
        if pool.pull_trigger(true) {
            shots += 1;
        }
    }
    assert_eq!(shots, 1);
    assert_eq!(pool.ammo, 4);
}

#[test]
fn release_and_press_fires_again() {
    let mut pool = AmmoPool::full();
    assert!(pool.pull_trigger(true));
    assert!(!pool.pull_trigger(false));
    assert!(!pool.latched);
    assert!(pool.pull_trigger(true));
    assert!(!pool.pull_trigger(true));
    assert_eq!(pool.ammo, 3);
}

#[test]
fn five_presses_empty_the_pool_and_a_sixth_fires_nothing() {
    let mut pool = AmmoPool::full();
    for _ in 0..5 {
        assert!(pool.pull_trigger(true));
        assert!(!pool.pull_trigger(false));
    }
    assert_eq!(pool.ammo, 0);
    assert!(!pool.pull_trigger(true));
    assert_eq!(pool.ammo, 0);
    assert!(!pool.latched);
}

#[test]
fn empty_pool_fires_on_the_frame_its_refill_arrives() {
    let mut pool = AmmoPool { ammo: 0, elapsed_ms: 0, latched: false };
    assert!(!pool.pull_trigger(true));
    pool.tick(1000);
    assert_eq!(pool.ammo, 1);
    assert!(pool.pull_trigger(true));
    assert_eq!(pool.ammo, 0);
    assert!(!pool.pull_trigger(true));
}

#[test]
fn indicator_level_is_held_to_the_pool_size() {
    assert_eq!(AmmoPool { ammo: 0, elapsed_ms: 0, latched: false }.indicator_level(), 0);
    assert_eq!(AmmoPool { ammo: 3, elapsed_ms: 0, latched: false }.indicator_level(), 3);
    assert_eq!(AmmoPool { ammo: 5, elapsed_ms: 0, latched: false }.indicator_level(), 5);
    assert_eq!(AmmoPool { ammo: 6, elapsed_ms: 0, latched: false }.indicator_level(), 5);
    assert_eq!(AmmoPool { ammo: 32, elapsed_ms: 0, latched: false }.indicator_level(), 5);
    assert_eq!(AmmoPool { ammo: 255, elapsed_ms: 0, latched: false }.indicator_level(), 5);
}
