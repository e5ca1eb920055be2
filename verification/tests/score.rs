use invaders::enemy::{Enemy, EnemyType};
use invaders::geometry::Point;
use invaders::score::ScoreTracker;

fn dead(enemy_type: EnemyType) -> Enemy {
    let mut enemy = Enemy::fresh(enemy_type, Point { x: 10, y: 10 });
    enemy.health = 0;
    enemy
}

#[test]
fn a_kill_awards_the_variants_points() {
    let mut score = ScoreTracker { score: 0 };
    let mut enemy = dead(EnemyType::Default);
    score.on_kill(&mut enemy);
    assert_eq!(score.score, 200);
    assert!(!enemy.alive);

    let mut enemy = dead(EnemyType::Armored);
    score.on_kill(&mut enemy);
    assert_eq!(score.score, 600);

    let mut enemy = dead(EnemyType::Fast);
    score.on_kill(&mut enemy);
    assert_eq!(score.score, 750);
}

#[test]
fn a_kill_is_awarded_once() {
    let mut score = ScoreTracker { score: 50 };
    let mut enemy = dead(EnemyType::Armored);
    score.on_kill(&mut enemy);
    score.on_kill(&mut enemy);
    score.on_kill(&mut enemy);
    assert_eq!(score.score, 450);
    assert!(!enemy.alive);
    assert_eq!(enemy.health, 0);
}

#[test]
fn a_living_enemy_awards_nothing() {
    let mut score = ScoreTracker { score: 7 };
    let mut enemy = Enemy::fresh(EnemyType::Fast, Point { x: 0, y: 0 });
    let before = enemy;
    score.on_kill(&mut enemy);
    assert_eq!(score.score, 7);
    assert_eq!(enemy, before);
}

#[test]
fn score_stops_at_its_ceiling() {
    let mut score = ScoreTracker { score: u64::MAX - 100 };
    let mut enemy = dead(EnemyType::Default);
    score.on_kill(&mut enemy);
    assert_eq!(score.score, u64::MAX);
    let mut exact = ScoreTracker { score: u64::MAX - 150 };
    let mut enemy = dead(EnemyType::Fast);
    exact.on_kill(&mut enemy);
    assert_eq!(exact.score, u64::MAX);
}
