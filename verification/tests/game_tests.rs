use simpletowerdefense::bullet::Bullet;
use simpletowerdefense::enemy::Enemy;
use simpletowerdefense::game::{spawn_point, Game};
use simpletowerdefense::geom::Vec2;
use simpletowerdefense::save_data::SaveData;
use simpletowerdefense::tower::Tower;

fn v(x: i64, y: i64) -> Vec2 {
    Vec2 { x, y }
}

#[test]
fn fresh_game_carries_loaded_currency() {
    let save = SaveData { satoshis: 42, high_score: 9, damage_level: 1, fire_rate_level: 1 };
    let g = Game::new(save);
    assert_eq!(g.get_currency(), 42);
    assert_eq!(g.get_score(), 0);
    assert_eq!(g.get_high_score(), 9);
    assert_eq!(g.get_time(), 0);
    assert!(g.get_enemies().is_empty());
    assert!(g.get_bullets().is_empty());
}

#[test]
fn shot_bullet_heads_toward_target() {
    let mut t = Tower::new(20, 100, v(0, 0));
    // a fresh tower fires immediately, at time zero
    let b = t.shoot(v(50_000, 0), 0);
    assert!(b.is_some());
    let mut b = b.unwrap();
    assert_eq!(b.get_damage(), 20);
    b.update();
    assert_eq!(b.get_position(), v(10_000, 0));
    for _ in 0..3 {
        b.update();
    }
    assert_eq!(b.get_position(), v(40_000, 0));
    assert!(b.check_collision(v(50_000, 0)));
}

#[test]
fn kill_awards_score_currency_and_persists() {
    let mut g = Game::new(SaveData::new());
    let mut t = Tower::new(20, 100, v(0, 0));
    g.add_enemy(Enemy::new(20, 2_000, v(50_000, 0)));
    let mut saved_any = false;
    for _ in 0..40 {
        if g.update(&mut t) {
            saved_any = true;
        }
    }
    assert!(saved_any);
    assert_eq!(g.get_score(), 10);
    assert_eq!(g.get_currency(), 5);
    assert_eq!(g.get_high_score(), 10);
    assert!(g.get_enemies().is_empty());
    assert!(g.get_bullets().is_empty());
    assert_eq!(g.get_time(), 40);
}

#[test]
fn corpse_struck_twice_is_one_kill() {
    // two coincident zero-velocity bullets already stand on a weak enemy:
    // the first hit kills it, the second strikes the corpse and must not
    // be awarded again
    let b = Bullet::new(v(50_000, 0), v(50_000, 0), 0, 5);
    let mut g = Game {
        enemies: vec![Enemy::new(5, 0, v(50_000, 0))],
        bullets: vec![b, b],
        score: 0,
        currency: 0,
        save_data: SaveData::new(),
        time: 0,
    };
    // a tower far away with no reach, so no new bullet appears
    let mut t = Tower::new(0, 0, v(500_000_000, 500_000_000));
    let saved = g.update(&mut t);
    assert!(saved);
    assert_eq!(g.get_score(), 10);
    assert_eq!(g.get_currency(), 5);
    assert!(g.get_enemies().is_empty());
    assert!(g.get_bullets().is_empty());
}

#[test]
fn update_without_events_changes_nothing_persistent() {
    let mut g = Game::new(SaveData { satoshis: 3, high_score: 7, damage_level: 1, fire_rate_level: 1 });
    let mut t = Tower::new(10, 200, v(0, 0));
    for _ in 0..10 {
        assert!(!g.update(&mut t));
    }
    assert_eq!(g.get_score(), 0);
    assert_eq!(g.get_currency(), 3);
    assert_eq!(g.get_high_score(), 7);
    assert_eq!(g.get_time(), 10);
}

#[test]
fn upgrade_purchases_deduct_and_mirror() {
    let save = SaveData { satoshis: 100, high_score: 0, damage_level: 1, fire_rate_level: 1 };
    let mut g = Game::new(save);
    let mut t = Tower::new(10, 200, v(0, 0));
    assert!(g.try_upgrade_tower_damage(&mut t));
    assert_eq!(g.get_currency(), 80);
    assert_eq!(t.get_damage(), 15);
    assert_eq!(t.get_damage_level(), 2);
    assert!(g.try_upgrade_tower_fire_rate(&mut t));
    assert_eq!(g.get_currency(), 55);
    assert_eq!(t.get_fire_rate_level(), 2);
    // the next damage upgrade costs forty: affordable once more
    assert!(g.try_upgrade_tower_damage(&mut t));
    assert_eq!(g.get_currency(), 15);
    assert_eq!(t.get_damage(), 20);
    assert!(!g.try_upgrade_tower_damage(&mut t));
    assert_eq!(g.get_currency(), 15);
}

#[test]
fn upgrade_without_funds_is_a_no_op() {
    let mut g = Game::new(SaveData::new());
    let mut t = Tower::new(10, 200, v(0, 0));
    assert!(!g.try_upgrade_tower_damage(&mut t));
    assert_eq!(g.get_currency(), 0);
    assert_eq!(t.get_damage(), 10);
    assert_eq!(t.get_damage_level(), 1);
    assert!(!g.try_upgrade_tower_fire_rate(&mut t));
    assert_eq!(t.get_fire_rate_level(), 1);
}

#[test]
fn spawn_appears_every_spawn_period() {
    let mut g = Game::new(SaveData::new());
    let mut t = Tower::new(0, 0, v(500_000_000, 500_000_000));
    for _ in 0..179 {
        g.update(&mut t);
    }
    assert!(g.get_enemies().is_empty());
    g.update(&mut t);
    assert_eq!(g.get_enemies().len(), 1);
    let p = g.get_enemies()[0].get_position();
    // spawned on an edge of the 800 by 600 canvas, then stepped at most
    // two pixels toward the tower
    assert!(p.x >= -2_000 && p.x <= 802_000);
    assert!(p.y >= -2_000 && p.y <= 602_000);
    assert_eq!(g.get_enemies()[0].get_health(), 100);
    assert_eq!(g.get_enemies()[0].get_max_health(), 100);
}

#[test]
fn spawn_point_lands_on_each_edge() {
    assert_eq!(spawn_point(0, 12_345), v(0, 12_345));
    assert_eq!(spawn_point(1, 12_345), v(800_000, 12_345));
    assert_eq!(spawn_point(2, 12_345), v(12_345, 0));
    assert_eq!(spawn_point(3, 12_345), v(12_345, 600_000));
    assert_eq!(spawn_point(4, 700_001), v(0, 100_001));
    assert_eq!(spawn_point(7, 900_000), v(100_000, 600_000));
}

#[test]
fn score_increment_saturates() {
    let mut g = Game::new(SaveData::new());
    g.increment_score(u32::MAX);
    g.increment_score(10);
    assert_eq!(g.get_score(), u32::MAX);
}

#[test]
fn add_enemy_appends_in_order() {
    let mut g = Game::new(SaveData::new());
    g.add_enemy(Enemy::new(5, 1_000, v(1_000, 2_000)));
    g.add_enemy(Enemy::new(6, 1_000, v(3_000, 4_000)));
    assert_eq!(g.get_enemies().len(), 2);
    assert_eq!(g.get_enemies()[0].get_health(), 5);
    assert_eq!(g.get_enemies()[1].get_health(), 6);
}
