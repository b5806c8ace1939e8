use asteroid_core::boss::{
    boss_attack_command, AttackPattern, Boss, BossAttackCommand, BossAttackPattern, BossType,
};

#[test]
fn new_boss_stats() {
    let giant = Boss::new(BossType::GiantAsteroid);
    assert_eq!(giant.phase, 1);
    assert_eq!(giant.max_phases, 4);
    assert_eq!(giant.phase_health, 30);
    assert_eq!(giant.max_phase_health, 30);
    assert_eq!(giant.size_multiplier_permille, 3500);
    assert_eq!(giant.attack_timer.duration_ms, 1500);
    let ship = Boss::new(BossType::AlienMothership);
    assert_eq!(ship.max_phases, 5);
    assert_eq!(ship.phase_health, 25);
    assert_eq!(ship.size_multiplier_permille, 3000);
}

#[test]
fn difficulty_scales_phase_health() {
    // 30 * 1.4 = 42, 25 * 1.8 = 45, rounding half up
    let giant = Boss::new_with_difficulty(BossType::GiantAsteroid, 1400);
    assert_eq!(giant.phase_health, 42);
    let ship = Boss::new_with_difficulty(BossType::AlienMothership, 1800);
    assert_eq!(ship.phase_health, 45);
    let easy = Boss::new_with_difficulty(BossType::GiantAsteroid, 700);
    assert_eq!(easy.phase_health, 21);
}

#[test]
fn advance_phase_below_max() {
    // phase advance bumps the phase by one and raises the pool
    let mut boss = Boss::new(BossType::GiantAsteroid);
    let before_health = boss.phase_health;
    assert!(boss.advance_phase());
    assert_eq!(boss.phase, 2);
    assert_eq!(boss.phase_health, boss.max_phase_health + 10);
    assert!(boss.phase_health > before_health);
    assert!(boss.is_in_transition());
    // 1.5s / (0.8*2 + 1) = 576 ms
    assert_eq!(boss.attack_timer.duration_ms, 576);
}

#[test]
fn advance_phase_at_max_refuses() {
    let mut boss = Boss::new(BossType::GiantAsteroid);
    assert!(boss.advance_phase());
    assert!(boss.advance_phase());
    assert!(boss.advance_phase());
    assert_eq!(boss.phase, 4);
    let health_at_max = boss.phase_health;
    // at the last phase the call reports false and changes nothing
    assert!(!boss.advance_phase());
    assert_eq!(boss.phase, 4);
    assert_eq!(boss.phase_health, health_at_max);
}

#[test]
fn attack_interval_floors_at_300() {
    let mut ship = Boss::new(BossType::AlienMothership);
    for _ in 0..4 {
        ship.advance_phase();
    }
    assert_eq!(ship.phase, 5);
    // 1.5s / (0.8*5 + 1) = 300 ms exactly
    assert_eq!(ship.attack_timer.duration_ms, 300);
}

#[test]
fn phase_one_scaled_scenario() {
    // giant asteroid at phase 1 with scaled pool; a lethal sequence empties
    // it, the boss advances and the pool resets to max + 2*5
    let mut boss = Boss::new_with_difficulty(BossType::GiantAsteroid, 1000);
    assert_eq!(boss.phase_health, 30);
    let mut pool = asteroid_core::health::Health::new(boss.phase_health);
    for _ in 0..29 {
        assert!(!pool.take_damage(1));
    }
    assert!(pool.take_damage(1));
    assert!(boss.advance_phase());
    assert_eq!(boss.phase, 2);
    assert_eq!(boss.phase_health, boss.max_phase_health + 10);
}

#[test]
fn attack_pattern_tables_differ_by_boss() {
    let mut giant = Boss::new(BossType::GiantAsteroid);
    assert_eq!(giant.get_current_attack_pattern(), AttackPattern::AsteroidRain);
    giant.advance_phase();
    assert_eq!(giant.get_current_attack_pattern(), AttackPattern::CircularShot);
    giant.advance_phase();
    assert_eq!(giant.get_current_attack_pattern(), AttackPattern::SpawnMinions);
    giant.advance_phase();
    assert_eq!(giant.get_current_attack_pattern(), AttackPattern::TargetedBarrage);

    let mut ship = Boss::new(BossType::AlienMothership);
    assert_eq!(ship.get_current_attack_pattern(), AttackPattern::TargetedBarrage);
    ship.advance_phase();
    assert_eq!(ship.get_current_attack_pattern(), AttackPattern::SpawnMinions);
    ship.advance_phase();
    assert_eq!(ship.get_current_attack_pattern(), AttackPattern::CircularShot);
    ship.advance_phase();
    assert_eq!(ship.get_current_attack_pattern(), AttackPattern::AsteroidRain);
    ship.advance_phase();
    assert_eq!(ship.get_current_attack_pattern(), AttackPattern::TargetedBarrage);
}

#[test]
fn swap_table_is_phase_indexed_only() {
    assert_eq!(BossAttackPattern::swap_pattern_for_phase(1), AttackPattern::CircularShot);
    assert_eq!(BossAttackPattern::swap_pattern_for_phase(2), AttackPattern::TargetedBarrage);
    assert_eq!(BossAttackPattern::swap_pattern_for_phase(3), AttackPattern::SpawnMinions);
    assert_eq!(BossAttackPattern::swap_pattern_for_phase(4), AttackPattern::AsteroidRain);
    assert_eq!(BossAttackPattern::swap_pattern_for_phase(5), AttackPattern::AsteroidRain);
}

#[test]
fn pattern_durations() {
    assert_eq!(BossAttackPattern::new(AttackPattern::CircularShot).pattern_timer.duration_ms, 1000);
    assert_eq!(
        BossAttackPattern::new(AttackPattern::TargetedBarrage).pattern_timer.duration_ms,
        3000
    );
    assert_eq!(BossAttackPattern::new(AttackPattern::SpawnMinions).pattern_timer.duration_ms, 2000);
    assert_eq!(BossAttackPattern::new(AttackPattern::AsteroidRain).pattern_timer.duration_ms, 4000);
}

#[test]
fn points_scale_with_phase() {
    let mut giant = Boss::new(BossType::GiantAsteroid);
    assert_eq!(giant.points_value(), 1500);
    giant.advance_phase();
    assert_eq!(giant.points_value(), 3000);
    let ship = Boss::new(BossType::AlienMothership);
    assert_eq!(ship.points_value(), 2000);
}

#[test]
fn movement_speed_by_phase() {
    let mut giant = Boss::new(BossType::GiantAsteroid);
    assert_eq!(giant.get_movement_speed(), 25);
    giant.advance_phase();
    assert_eq!(giant.get_movement_speed(), 30);
    let ship = Boss::new(BossType::AlienMothership);
    assert_eq!(ship.get_movement_speed(), 38);
}

#[test]
fn transition_pause_elapses() {
    let mut boss = Boss::new(BossType::GiantAsteroid);
    boss.advance_phase();
    assert!(boss.is_in_transition());
    boss.tick_timers(2499);
    assert!(boss.is_in_transition());
    boss.tick_timers(1);
    assert!(!boss.is_in_transition());
}

#[test]
fn circular_shot_command_by_phase() {
    match boss_attack_command(AttackPattern::CircularShot, 3) {
        BossAttackCommand::CircularShot { bullet_count, damage, is_explosive, speed_permille } => {
            assert_eq!(bullet_count, 12);
            assert_eq!(damage, 3);
            assert!(is_explosive);
            assert_eq!(speed_permille, 900);
        }
        _ => panic!("wrong command"),
    }
    match boss_attack_command(AttackPattern::CircularShot, 1) {
        BossAttackCommand::CircularShot { bullet_count, damage, is_explosive, .. } => {
            assert_eq!(bullet_count, 8);
            assert_eq!(damage, 2);
            assert!(!is_explosive);
        }
        _ => panic!("wrong command"),
    }
}

#[test]
fn barrage_and_spawn_commands() {
    match boss_attack_command(AttackPattern::TargetedBarrage, 2) {
        BossAttackCommand::TargetedBarrage {
            bullet_count,
            damage,
            is_explosive,
            speed_permille,
            spread_millirad,
        } => {
            assert_eq!(bullet_count, 5);
            assert_eq!(damage, 4);
            assert!(is_explosive);
            assert_eq!(speed_permille, 1000);
            assert_eq!(spread_millirad, 600);
        }
        _ => panic!("wrong command"),
    }
    match boss_attack_command(AttackPattern::SpawnMinions, 4) {
        BossAttackCommand::SpawnMinions { minion_health } => assert_eq!(minion_health, 1),
        _ => panic!("wrong command"),
    }
    match boss_attack_command(AttackPattern::AsteroidRain, 4) {
        BossAttackCommand::AsteroidRain { asteroid_size, asteroid_health, launch_speed } => {
            assert_eq!(asteroid_size, 2);
            assert_eq!(asteroid_health, 1);
            assert_eq!(launch_speed, 80);
        }
        _ => panic!("wrong command"),
    }
}
