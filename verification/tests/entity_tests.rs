use simpletowerdefense::bullet::Bullet;
use simpletowerdefense::enemy::Enemy;
use simpletowerdefense::geom::{dist_sq_val, isqrt, Vec2};
use simpletowerdefense::save_data::SaveData;
use simpletowerdefense::tower::Tower;

fn v(x: i64, y: i64) -> Vec2 {
    Vec2 { x, y }
}

#[test]
fn isqrt_exact_values() {
    assert_eq!(isqrt(0), 0);
    assert_eq!(isqrt(1), 1);
    assert_eq!(isqrt(2), 1);
    assert_eq!(isqrt(3), 1);
    assert_eq!(isqrt(4), 2);
    assert_eq!(isqrt(999_999), 999);
    assert_eq!(isqrt(2_500_000_000), 50_000);
    assert_eq!(isqrt(0x3FFF_FFFF_FFFF_FFFF), 2_147_483_647);
}

#[test]
fn squared_distance_is_exact() {
    assert_eq!(dist_sq_val(v(0, 0), v(3, 4)), 25);
    assert_eq!(dist_sq_val(v(-3, 0), v(0, -4)), 25);
    assert_eq!(dist_sq_val(v(7, 7), v(7, 7)), 0);
}

#[test]
fn enemy_health_never_negative_nor_above_max() {
    let mut e = Enemy::new(100, 2_000, v(10_000, 0));
    assert_eq!(e.get_health(), 100);
    assert_eq!(e.get_max_health(), 100);
    e.take_damage(30);
    assert_eq!(e.get_health(), 70);
    e.take_damage(30);
    assert_eq!(e.get_health(), 40);
    e.take_damage(50);
    assert_eq!(e.get_health(), 0);
    e.take_damage(1_000);
    assert_eq!(e.get_health(), 0);
    assert_eq!(e.get_max_health(), 100);
}

#[test]
fn enemy_homing_step() {
    let mut e = Enemy::new(100, 2_000, v(50_000, 0));
    e.update_position(v(0, 0));
    assert_eq!(e.get_position(), v(48_000, 0));

    let mut f = Enemy::new(100, 2_000, v(0, 0));
    f.update_position(v(0, 0));
    assert_eq!(f.get_position(), v(0, 0));
}

#[test]
fn enemy_overshoots_close_target() {
    let mut e = Enemy::new(100, 2_000, v(1_000, 0));
    e.update_position(v(0, 0));
    assert_eq!(e.get_position(), v(-1_000, 0));
}

#[test]
fn tower_cooldown_blocks_second_shot() {
    let mut t = Tower::new(10, 200, v(0, 0));
    let target = v(50_000, 0);
    // a tower that has never fired is off cooldown: the first shot is free
    assert!(t.shoot(target, 0).is_some());
    // the same instant, and anything within the half-unit cooldown, is refused
    assert!(t.shoot(target, 0).is_none());
    assert!(t.shoot(target, 29).is_none());
    assert!(t.shoot(target, 30).is_some());
    assert!(t.shoot(target, 59).is_none());
    assert!(t.shoot(target, 60).is_some());
}

#[test]
fn tower_range_boundary_inclusive() {
    let mut t = Tower::new(10, 100, v(0, 0));
    assert!(t.shoot(v(100_000, 0), 0).is_some());

    let mut t2 = Tower::new(10, 100, v(0, 0));
    assert!(t2.shoot(v(100_001, 0), 0).is_none());
    // the refused shot did not spend the free first shot
    assert!(t2.shoot(v(100_000, 0), 0).is_some());
}

#[test]
fn upgrade_costs_scale_with_level() {
    let mut t = Tower::new(10, 200, v(0, 0));
    assert_eq!(t.get_damage_upgrade_cost(), 20);
    assert_eq!(t.get_fire_rate_upgrade_cost(), 25);
    t.upgrade_damage();
    assert_eq!(t.get_damage(), 15);
    assert_eq!(t.get_damage_level(), 2);
    assert_eq!(t.get_damage_upgrade_cost(), 40);
    t.upgrade_damage();
    assert_eq!(t.get_damage_upgrade_cost(), 60);
    t.upgrade_fire_rate();
    assert_eq!(t.get_fire_rate_level(), 2);
    assert_eq!(t.get_fire_rate_upgrade_cost(), 50);
}

#[test]
fn fire_rate_upgrade_shrinks_cooldown() {
    let mut t = Tower::new(10, 200, v(0, 0));
    t.upgrade_fire_rate();
    assert!(t.shoot(v(0, 0), 0).is_some());
    // four fifths of the starting half-unit cooldown is 24 ticks
    assert!(t.shoot(v(0, 0), 23).is_none());
    assert!(t.shoot(v(0, 0), 24).is_some());
}

#[test]
fn stationary_bullet_never_moves() {
    let p = v(123_000, 45_000);
    let mut b = Bullet::new(p, p, 10_000, 7);
    assert_eq!(b.get_position(), p);
    b.update();
    b.update();
    assert_eq!(b.get_position(), p);
    assert_eq!(b.get_distance_traveled(), 0);
    assert!(b.check_collision(p));
    assert_eq!(b.get_damage(), 7);
}

#[test]
fn bullet_flies_straight_and_expires() {
    let mut b = Bullet::new(v(0, 0), v(600_000, 0), 10_000, 3);
    b.update();
    assert_eq!(b.get_position(), v(10_000, 0));
    for _ in 0..50 {
        b.update();
    }
    assert_eq!(b.get_position(), v(510_000, 0));
    assert!(b.get_distance_traveled() > 500_000);
}

#[test]
fn bullet_collision_radius_is_twenty_pixels() {
    let b = Bullet::new(v(0, 0), v(0, 0), 10_000, 1);
    assert!(b.check_collision(v(19_999, 0)));
    assert!(!b.check_collision(v(20_000, 0)));
}

#[test]
fn bullet_velocity_splits_across_axes() {
    let b = Bullet::new(v(0, 0), v(30_000, 40_000), 10_000, 1);
    // the aim line has length fifty thousand; the ten-pixel speed splits 3:4
    assert_eq!(b.get_position(), v(0, 0));
    let mut b = b;
    b.update();
    assert_eq!(b.get_position(), v(6_000, 8_000));
}

#[test]
fn save_data_recover_keeps_loaded_values() {
    let s = SaveData { satoshis: 5, high_score: 10, damage_level: 2, fire_rate_level: 3 };
    let r = SaveData::recover(Some(s));
    assert_eq!(r, s);
    assert_eq!(r.satoshis, 5);
    assert_eq!(r.high_score, 10);
    assert_eq!(r.damage_level, 2);
    assert_eq!(r.fire_rate_level, 3);
}

#[test]
fn save_data_recover_defaults_to_zero() {
    let r = SaveData::recover(None);
    assert_eq!(r, SaveData::new());
    assert_eq!(r.satoshis, 0);
    assert_eq!(r.high_score, 0);
    assert_eq!(r.damage_level, 0);
    assert_eq!(r.fire_rate_level, 0);
    assert_eq!(SaveData::default(), SaveData::new());
}
