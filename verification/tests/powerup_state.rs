use asteroid_core::powerups::{plan_player_volley, PlayerPowerUps, PowerUpEffect, PowerUpType};
use asteroid_core::timer::Timer;

#[test]
fn baseline_state() {
    let p = PlayerPowerUps::new();
    assert_eq!(p.rapid_fire_multiplier_permille, 1000);
    assert_eq!(p.multi_shot_count, 1);
    assert!(!p.has_piercing);
    assert!(!p.has_explosive);
    assert!(!p.has_laser);
    assert_eq!(p.active_effects.len(), 0);
}

#[test]
fn double_pickup_single_expiry_keeps_flag() {
    // collecting the same effect twice, then one expiry: still active
    let mut p = PlayerPowerUps::new();
    p.add_effect(PowerUpType::PiercingBullets);
    p.add_effect(PowerUpType::PiercingBullets);
    assert_eq!(p.piercing_count, 2);
    assert!(p.has_piercing);
    assert_eq!(p.active_effects.len(), 1);
    p.remove_effect(PowerUpType::PiercingBullets);
    assert!(p.has_piercing);
    assert_eq!(p.piercing_count, 1);
    assert_eq!(p.active_effects.len(), 1);
    // the second expiry clears it
    p.remove_effect(PowerUpType::PiercingBullets);
    assert!(!p.has_piercing);
    assert_eq!(p.piercing_count, 0);
    assert_eq!(p.active_effects.len(), 0);
}

#[test]
fn multi_shot_pickups_do_not_stack_magnitude() {
    // two multi-shot pickups collected sequentially: the count stays 5
    // throughout (flag-style), and returns to 1 after both expire
    let mut p = PlayerPowerUps::new();
    let mut effect1 = PowerUpEffect::new(PowerUpType::MultiShot, 15000);
    p.add_effect(PowerUpType::MultiShot);
    assert_eq!(p.multi_shot_count, 5);
    let mut effect2 = PowerUpEffect::new(PowerUpType::MultiShot, 15000);
    p.add_effect(PowerUpType::MultiShot);
    assert_eq!(p.multi_shot_count, 5);
    assert_eq!(p.multi_shot_count_effects, 2);

    // both 15 s effect timers run out
    effect1.timer.tick(15000);
    assert!(effect1.timer.finished());
    p.remove_effect(PowerUpType::MultiShot);
    assert_eq!(p.multi_shot_count, 5);
    effect2.timer.tick(15000);
    assert!(effect2.timer.finished());
    p.remove_effect(PowerUpType::MultiShot);
    assert_eq!(p.multi_shot_count, 1);
}

#[test]
fn rapid_fire_multiplier_tracks_references() {
    let mut p = PlayerPowerUps::new();
    p.add_effect(PowerUpType::RapidFire);
    assert_eq!(p.rapid_fire_multiplier_permille, 3000);
    p.remove_effect(PowerUpType::RapidFire);
    assert_eq!(p.rapid_fire_multiplier_permille, 1000);
    // removing with no reference is a no-op
    p.remove_effect(PowerUpType::RapidFire);
    assert_eq!(p.rapid_fire_multiplier_permille, 1000);
    assert_eq!(p.rapid_fire_count, 0);
}

#[test]
fn effect_list_tracks_distinct_kinds() {
    let mut p = PlayerPowerUps::new();
    p.add_effect(PowerUpType::LaserBeam);
    p.add_effect(PowerUpType::ExplosiveBullets);
    p.add_effect(PowerUpType::LaserBeam);
    assert_eq!(p.active_effects.len(), 2);
    assert!(p.is_effect_listed(PowerUpType::LaserBeam));
    assert!(p.is_effect_listed(PowerUpType::ExplosiveBullets));
    assert!(!p.is_effect_listed(PowerUpType::MultiShot));
    p.remove_effect(PowerUpType::LaserBeam);
    assert!(p.is_effect_listed(PowerUpType::LaserBeam));
    p.remove_effect(PowerUpType::LaserBeam);
    assert!(!p.is_effect_listed(PowerUpType::LaserBeam));
    assert_eq!(p.active_effects.len(), 1);
}

#[test]
fn clear_all_resets_everything() {
    let mut p = PlayerPowerUps::new();
    p.add_effect(PowerUpType::MultiShot);
    p.add_effect(PowerUpType::RapidFire);
    p.add_effect(PowerUpType::PiercingBullets);
    p.clear_all();
    assert_eq!(p.multi_shot_count, 1);
    assert_eq!(p.rapid_fire_multiplier_permille, 1000);
    assert!(!p.has_piercing);
    assert_eq!(p.active_effects.len(), 0);
}

#[test]
fn volley_plan_reflects_powerups() {
    let mut p = PlayerPowerUps::new();
    let plan = plan_player_volley(&p);
    assert_eq!(plan.bullet_count, 1);
    assert_eq!(plan.piercing_max, None);
    assert_eq!(plan.explosive, None);
    assert!(!plan.fire_laser);

    p.add_effect(PowerUpType::MultiShot);
    p.add_effect(PowerUpType::PiercingBullets);
    p.add_effect(PowerUpType::ExplosiveBullets);
    p.add_effect(PowerUpType::LaserBeam);
    let plan = plan_player_volley(&p);
    assert_eq!(plan.bullet_count, 5);
    assert_eq!(plan.piercing_max, Some(10));
    assert_eq!(plan.explosive, Some((50, 3)));
    assert!(plan.fire_laser);
}

#[test]
fn effect_timer_remaining() {
    let mut e = PowerUpEffect::new(PowerUpType::RapidFire, 15000);
    assert_eq!(e.time_remaining_ms(), 15000);
    e.timer.tick(6000);
    assert_eq!(e.time_remaining_ms(), 9000);
    let t = Timer::new(15000, false);
    assert_eq!(t.duration_ms, e.duration_ms);
}
