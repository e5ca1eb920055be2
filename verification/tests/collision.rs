use invaders::collision::{resolve_hits, ship_collides, Hitboxes};
use invaders::enemy::{Enemy, EnemyType};
use invaders::geometry::{Point, Rect};
use invaders::projectile::{shoot, Direction, Projectile, PROJECTILE_SPEED};
use invaders::ship::{Ship, ShipFacing};

fn square(side: i32) -> Rect {
    Rect { left: 0, top: 0, right: side, bottom: side }
}

fn test_hitboxes() -> Hitboxes {
    Hitboxes {
        ship: square(40),
        enemy_default: square(20),
        enemy_armored: square(30),
        enemy_fast: square(10),
        projectile: square(4),
    }
}

fn origin() -> Point {
    Point { x: 0, y: 0 }
}

fn shot(x: i32, y: i32) -> Projectile {
    shoot(Point { x, y }, PROJECTILE_SPEED, Direction::Up)
}

#[test]
fn point_in_box_is_half_open() {
    let rect = Rect { left: 10, top: 20, right: 30, bottom: 40 };
    assert!(rect.contains(Point { x: 10, y: 20 }));
    assert!(rect.contains(Point { x: 29, y: 39 }));
    assert!(!rect.contains(Point { x: 30, y: 30 }));
    assert!(!rect.contains(Point { x: 20, y: 40 }));
    assert!(!rect.contains(Point { x: 9, y: 30 }));
    assert!(!rect.contains(Point { x: 20, y: 19 }));
}

#[test]
fn empty_box_contains_nothing() {
    let rect = Rect { left: 10, top: 10, right: 10, bottom: 20 };
    assert!(!rect.contains(Point { x: 10, y: 15 }));
    let inverted = Rect { left: 10, top: 10, right: 0, bottom: 20 };
    assert!(!inverted.contains(Point { x: 5, y: 15 }));
}

#[test]
fn overlapping_boxes_intersect() {
    let a = Rect { left: 0, top: 0, right: 2, bottom: 2 };
    let b = Rect { left: 1, top: 1, right: 3, bottom: 3 };
    assert!(a.intersects(origin(), &b, origin()));
    assert!(b.intersects(origin(), &a, origin()));
}

#[test]
fn touching_boxes_do_not_intersect() {
    let a = Rect { left: 0, top: 0, right: 2, bottom: 2 };
    let b = Rect { left: 2, top: 2, right: 4, bottom: 4 };
    assert!(!a.intersects(origin(), &b, origin()));
    let beside = Rect { left: 2, top: 0, right: 4, bottom: 2 };
    assert!(!a.intersects(origin(), &beside, origin()));
    let below = Rect { left: 0, top: 2, right: 2, bottom: 4 };
    assert!(!a.intersects(origin(), &below, origin()));
}

#[test]
fn boxes_are_tested_where_they_are_anchored() {
    let a = square(10);
    let b = square(10);
    assert!(a.intersects(Point { x: 100, y: 100 }, &b, Point { x: 109, y: 109 }));
    assert!(!a.intersects(Point { x: 100, y: 100 }, &b, Point { x: 110, y: 100 }));
    assert!(!a.intersects(Point { x: 100, y: 100 }, &b, Point { x: 100, y: 90 }));
    assert!(a.intersects(Point { x: 100, y: 100 }, &b, Point { x: 100, y: 91 }));
    assert!(a.intersects(Point { x: -5, y: -5 }, &b, Point { x: -14, y: 4 }));
}

#[test]
fn one_box_inside_the_other_intersects() {
    let outer = square(100);
    let inner = Rect { left: 40, top: 40, right: 41, bottom: 41 };
    assert!(outer.intersects(origin(), &inner, origin()));
    assert!(inner.intersects(origin(), &outer, origin()));
}

#[test]
fn an_empty_box_intersects_nothing() {
    let empty = Rect { left: 5, top: 5, right: 5, bottom: 9 };
    let inverted = Rect { left: 9, top: 0, right: 0, bottom: 9 };
    let big = square(100);
    assert!(!empty.intersects(origin(), &big, origin()));
    assert!(!big.intersects(origin(), &empty, origin()));
    assert!(!inverted.intersects(origin(), &big, origin()));
}

#[test]
fn intersection_does_not_overflow_at_the_far_corners() {
    let a = Rect { left: i32::MAX - 1, top: i32::MAX - 1, right: i32::MAX, bottom: i32::MAX };
    let far = Point { x: i32::MAX, y: i32::MAX };
    assert!(a.intersects(far, &a, far));
    let near = Point { x: i32::MIN, y: i32::MIN };
    assert!(!a.intersects(far, &a, near));
}

#[test]
fn hitbox_is_chosen_by_variant() {
    let hitboxes = test_hitboxes();
    assert_eq!(hitboxes.enemy(EnemyType::Default), square(20));
    assert_eq!(hitboxes.enemy(EnemyType::Armored), square(30));
    assert_eq!(hitboxes.enemy(EnemyType::Fast), square(10));
}

#[test]
fn projectile_hit_depends_on_the_enemys_box() {
    let hitboxes = test_hitboxes();
    let projectile = shot(115, 100);
    let fast = Enemy::fresh(EnemyType::Fast, Point { x: 100, y: 100 });
    let plain = Enemy::fresh(EnemyType::Default, Point { x: 100, y: 100 });
    assert!(!hitboxes.projectile_hits(&projectile, &fast));
    assert!(hitboxes.projectile_hits(&projectile, &plain));
}

#[test]
fn ship_collides_with_any_overlapping_enemy() {
    let hitboxes = test_hitboxes();
    let ship = Ship { position: Point { x: 400, y: 800 }, facing: ShipFacing::Neutral };
    let far = Enemy::fresh(EnemyType::Default, Point { x: 1000, y: 100 });
    let near = Enemy::fresh(EnemyType::Fast, Point { x: 439, y: 839 });
    let touching = Enemy::fresh(EnemyType::Fast, Point { x: 440, y: 800 });
    assert!(!ship_collides(&hitboxes, &ship, &vec![]));
    assert!(!ship_collides(&hitboxes, &ship, &vec![far]));
    assert!(!ship_collides(&hitboxes, &ship, &vec![far, touching]));
    assert!(ship_collides(&hitboxes, &ship, &vec![far, touching, near]));
    assert!(ship_collides(&hitboxes, &ship, &vec![near, far]));
}

#[test]
fn a_hit_takes_one_health_and_counts_one_pierce() {
    let hitboxes = test_hitboxes();
    let mut enemies = vec![Enemy::fresh(EnemyType::Default, Point { x: 100, y: 100 })];
    let mut projectiles = vec![shot(105, 105)];
    resolve_hits(&hitboxes, &mut enemies, &mut projectiles);
    assert_eq!(enemies[0].health, 1);
    assert_eq!(projectiles[0].damage, 1);
    assert_eq!(enemies[0].position, Point { x: 100, y: 100 });
    assert_eq!(projectiles[0].position, Point { x: 105, y: 105 });
}

#[test]
fn a_miss_changes_nothing() {
    let hitboxes = test_hitboxes();
    let enemy = Enemy::fresh(EnemyType::Default, Point { x: 100, y: 100 });
    let projectile = shot(300, 300);
    let mut enemies = vec![enemy];
    let mut projectiles = vec![projectile];
    resolve_hits(&hitboxes, &mut enemies, &mut projectiles);
    assert_eq!(enemies, vec![enemy]);
    assert_eq!(projectiles, vec![projectile]);
}

#[test]
fn sustained_overlap_hits_again_every_frame() {
    let hitboxes = test_hitboxes();
    let mut enemies = vec![Enemy::fresh(EnemyType::Armored, Point { x: 100, y: 100 })];
    let mut projectiles = vec![shot(105, 105)];
    resolve_hits(&hitboxes, &mut enemies, &mut projectiles);
    resolve_hits(&hitboxes, &mut enemies, &mut projectiles);
    assert_eq!(enemies[0].health, 2);
    assert_eq!(projectiles[0].damage, 2);
}

#[test]
fn one_projectile_damages_every_enemy_it_overlaps() {
    let hitboxes = test_hitboxes();
    let mut enemies = vec![
        Enemy::fresh(EnemyType::Armored, Point { x: 100, y: 100 }),
        Enemy::fresh(EnemyType::Armored, Point { x: 102, y: 102 }),
        Enemy::fresh(EnemyType::Armored, Point { x: 104, y: 104 }),
        Enemy::fresh(EnemyType::Armored, Point { x: 900, y: 104 }),
    ];
    let mut projectiles = vec![shot(110, 110)];
    resolve_hits(&hitboxes, &mut enemies, &mut projectiles);
    assert_eq!(enemies[0].health, 3);
    assert_eq!(enemies[1].health, 3);
    assert_eq!(enemies[2].health, 3);
    assert_eq!(enemies[3].health, 4);
    // Three hits dealt; the counter stops at the budget of two.
    assert_eq!(projectiles[0].damage, 2);
}

#[test]
fn several_projectiles_damage_one_enemy_down_to_zero() {
    let hitboxes = test_hitboxes();
    let mut enemies = vec![Enemy::fresh(EnemyType::Default, Point { x: 100, y: 100 })];
    let mut projectiles = vec![shot(101, 101), shot(105, 105), shot(110, 110), shot(500, 500)];
    resolve_hits(&hitboxes, &mut enemies, &mut projectiles);
    assert_eq!(enemies[0].health, 0);
    assert!(enemies[0].alive);
    assert_eq!(projectiles[0].damage, 1);
    assert_eq!(projectiles[1].damage, 1);
    assert_eq!(projectiles[2].damage, 1);
    assert_eq!(projectiles[3].damage, 0);
}

#[test]
fn every_overlapping_pair_counts() {
    let hitboxes = test_hitboxes();
    let mut enemies = vec![
        Enemy::fresh(EnemyType::Armored, Point { x: 100, y: 100 }),
        Enemy::fresh(EnemyType::Armored, Point { x: 120, y: 100 }),
    ];
    // The first projectile overlaps both enemies, the second the right one only.
    let mut projectiles = vec![shot(125, 110), shot(140, 110)];
    resolve_hits(&hitboxes, &mut enemies, &mut projectiles);
    assert_eq!(enemies[0].health, 3);
    assert_eq!(enemies[1].health, 2);
    assert_eq!(projectiles[0].damage, 2);
    assert_eq!(projectiles[1].damage, 1);
}

#[test]
fn no_projectiles_or_no_enemies_is_no_hit() {
    let hitboxes = test_hitboxes();
    let enemy = Enemy::fresh(EnemyType::Fast, Point { x: 1, y: 1 });
    let mut enemies = vec![enemy];
    let mut projectiles: Vec<Projectile> = vec![];
    resolve_hits(&hitboxes, &mut enemies, &mut projectiles);
    assert_eq!(enemies, vec![enemy]);
    let mut none: Vec<Enemy> = vec![];
    let mut projectiles = vec![shot(1, 1)];
    resolve_hits(&hitboxes, &mut none, &mut projectiles);
    assert_eq!(projectiles, vec![shot(1, 1)]);
}
