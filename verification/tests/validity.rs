use invaders::collision::Hitboxes;
use invaders::enemy::{Enemy, EnemyType};
use invaders::game::Game;
use invaders::geometry::{Point, Rect, HEIGHT, WIDTH};
use invaders::projectile::{are_in_flight, shoot, Direction, PROJECTILE_SPEED};
use invaders::random::DRAWS_PER_WAVE;
use invaders::ship::{Ship, ShipFacing, BOUNDARY_LEFT, BOUNDARY_TOP};
use invaders::state::Layout;
use invaders::wave::{
    spawn_wave_with, Wave, ARMORED_BASE_PERCENT, ARMORED_STEP_PERCENT, FAST_BASE_PERCENT,
    FAST_STEP_PERCENT,
};

fn valid_game() -> Game {
    let nothing = Rect { left: 0, top: 0, right: 0, bottom: 0 };
    let layout = Layout {
        title: nothing,
        play_button: nothing,
        settings_button: nothing,
        game_over_text: nothing,
        play_again_button: nothing,
        menu_button: nothing,
    };
    let hitboxes = Hitboxes {
        ship: nothing,
        enemy_default: nothing,
        enemy_armored: nothing,
        enemy_fast: nothing,
        projectile: nothing,
    };
    Game::new_with(layout, hitboxes, &[50; DRAWS_PER_WAVE])
}

#[test]
fn percent_constants() {
    assert_eq!(FAST_BASE_PERCENT, 20);
    assert_eq!(FAST_STEP_PERCENT, 10);
    assert_eq!(ARMORED_BASE_PERCENT, 10);
    assert_eq!(ARMORED_STEP_PERCENT, 5);
}

#[test]
fn a_fresh_enemy_on_a_slot_is_well_formed() {
    for wave_number in [0u32, 3, 9] {
        let wave = spawn_wave_with(wave_number, &[0; DRAWS_PER_WAVE]);
        assert!(wave.is_well_formed());
        for enemy in wave.enemies.iter() {
            assert!(enemy.is_well_formed());
        }
    }
}

#[test]
fn an_enemy_out_of_play_is_not_well_formed() {
    let good = Enemy::fresh(EnemyType::Default, Point { x: 500, y: 100 });
    assert!(good.is_well_formed());
    let mut dead = good;
    dead.health = 0;
    assert!(!dead.is_well_formed());
    let mut scored = good;
    scored.alive = false;
    assert!(!scored.is_well_formed());
    let mut escaped = good;
    escaped.position.y = HEIGHT;
    assert!(!escaped.is_well_formed());
    let mut above = good;
    above.position.y = -1;
    assert!(!above.is_well_formed());
    let mut wrong_speed = good;
    wrong_speed.speed = 3;
    assert!(!wrong_speed.is_well_formed());
    let mut far_left = good;
    far_left.position.x = -101;
    assert!(!far_left.is_well_formed());
    let mut far_right = good;
    far_right.position.x = WIDTH + HEIGHT - 99;
    assert!(!far_right.is_well_formed());
    far_right.position.x = WIDTH + HEIGHT - 100;
    assert!(far_right.is_well_formed());
    let mut extreme = good;
    extreme.position = Point { x: i32::MAX, y: i32::MAX };
    assert!(!extreme.is_well_formed());
}

#[test]
fn a_wave_with_one_bad_enemy_is_not_well_formed() {
    let mut wave = spawn_wave_with(2, &[0; DRAWS_PER_WAVE]);
    assert!(wave.is_well_formed());
    wave.enemies[4].health = 0;
    assert!(!wave.is_well_formed());
    assert!(Wave { enemies: vec![], wave_number: 0 }.is_well_formed());
}

#[test]
fn a_projectile_in_the_arena_is_well_formed() {
    let good = shoot(Point { x: 570, y: 800 }, PROJECTILE_SPEED, Direction::Up);
    assert!(good.is_well_formed());
    let mut spent = good;
    spent.damage = 2;
    assert!(!spent.is_well_formed());
    let mut gone = good;
    gone.position.x = WIDTH + 1;
    assert!(!gone.is_well_formed());
    let mut backwards = good;
    backwards.speed = -1;
    assert!(!backwards.is_well_formed());
    let mut too_fast = good;
    too_fast.speed = WIDTH + 1;
    assert!(!too_fast.is_well_formed());
    let mut off_diagonal = good;
    off_diagonal.position.y = WIDTH + HEIGHT;
    assert!(!off_diagonal.is_well_formed());
    let down = shoot(Point { x: 100, y: 2900 }, 4, Direction::Down);
    assert!(down.is_well_formed());
    let down_far = shoot(Point { x: 100, y: 2901 }, 4, Direction::Down);
    assert!(!down_far.is_well_formed());
    assert!(are_in_flight(&vec![good, down]));
    assert!(!are_in_flight(&vec![good, spent]));
    assert!(are_in_flight(&vec![]));
}

#[test]
fn ship_bounds_test() {
    assert!(Ship::spawn().is_in_bounds());
    let edge = Ship {
        position: Point { x: BOUNDARY_LEFT, y: BOUNDARY_TOP },
        facing: ShipFacing::Neutral,
    };
    assert!(edge.is_in_bounds());
    let out = Ship {
        position: Point { x: BOUNDARY_LEFT - 1, y: BOUNDARY_TOP },
        facing: ShipFacing::Neutral,
    };
    assert!(!out.is_in_bounds());
}

#[test]
fn a_new_game_is_well_formed_and_stays_so() {
    let mut game = valid_game();
    assert!(game.is_well_formed());
    game.state = invaders::state::GameState::Playing;
    for _ in 0..2000 {
        let mut input = invaders::input::InputSnapshot::idle();
        input.fire_held = game.ammo.ammo > 2;
        input.up = true;
        game.update(&input, 40);
        assert!(game.is_well_formed());
    }
    assert!(game.wave.wave_number > 0);
}

#[test]
fn a_game_with_a_bad_part_is_not_well_formed() {
    let mut game = valid_game();
    game.ammo.ammo = 6;
    assert!(!game.is_well_formed());
    let mut game = valid_game();
    game.ship.position.x = 0;
    assert!(!game.is_well_formed());
    let mut game = valid_game();
    game.wave.enemies[0].alive = false;
    assert!(!game.is_well_formed());
    let mut game = valid_game();
    game.projectiles.push(shoot(Point { x: -4, y: 0 }, PROJECTILE_SPEED, Direction::Up));
    assert!(!game.is_well_formed());
}
