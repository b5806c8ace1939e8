use asteroid_core::asteroid::AsteroidType;
use asteroid_core::boss::BossType;
use asteroid_core::difficulty::DifficultySettings;
use asteroid_core::enemy::{AIBehavior, AIState, Enemy, EnemyType};
use asteroid_core::geom::Vec2i;
use asteroid_core::combat::destruction_effects;
use asteroid_core::phase::{sync_with_boss_count, toggle_pause, GamePhase, GamePhaseManager, GameState};
use asteroid_core::physics::RotationVelocity;
use asteroid_core::physics::{apply_velocity, asteroid_off_screen, bullet_off_screen, wrap_around};
use asteroid_core::powerups::PowerUpType;
use asteroid_core::savedata::SaveData;
use asteroid_core::spawn::{
    choose_enemy_type, pick_edge, pick_powerup, plan_fragments, AsteroidSpawnTimer,
    BossSpawnManager, EnemySpawnTimer, SpawnEdge,
};

#[test]
fn boss_gates_by_score_and_uniqueness() {
    let mut manager = BossSpawnManager::new();
    assert_eq!(manager.should_spawn_boss(1999), None);
    assert_eq!(manager.should_spawn_boss(2000), Some(BossType::GiantAsteroid));
    manager.mark_boss_spawned(BossType::GiantAsteroid, 7);
    // the first boss is active: nothing new spawns even past 5000
    assert_eq!(manager.should_spawn_boss(6000), None);
    manager.clear_active_boss();
    // the giant asteroid was used up; the mothership is owed at 5000
    assert_eq!(manager.should_spawn_boss(4999), None);
    assert_eq!(manager.should_spawn_boss(5000), Some(BossType::AlienMothership));
    manager.mark_boss_spawned(BossType::AlienMothership, 8);
    manager.clear_active_boss();
    assert_eq!(manager.should_spawn_boss(100000), None);
}

#[test]
fn enemy_brackets_by_score() {
    // below 1000: hunters only, whatever the rolls
    assert_eq!(choose_enemy_type(999, 999, 2), EnemyType::Hunter);
    // below 3000: 70/30 hunter/bomber on the per-mille roll
    assert_eq!(choose_enemy_type(1000, 699, 2), EnemyType::Hunter);
    assert_eq!(choose_enemy_type(1000, 700, 2), EnemyType::Bomber);
    // above: uniform three-way on the second roll
    assert_eq!(choose_enemy_type(3000, 0, 0), EnemyType::Hunter);
    assert_eq!(choose_enemy_type(3000, 0, 1), EnemyType::Bomber);
    assert_eq!(choose_enemy_type(3000, 0, 2), EnemyType::Interceptor);
}

#[test]
fn enemy_spawn_triggers() {
    let mut t = EnemySpawnTimer::new();
    // neither trigger yet
    assert!(!t.spawn_due(5000, 100));
    assert_eq!(t.last_spawn_score, 0);
    // the score trigger fires at the watermark plus interval
    assert!(t.spawn_due(100, 300));
    assert_eq!(t.last_spawn_score, 300);
    // the watermark moved: the same score does not fire again
    assert!(!t.spawn_due(100, 400));
    // the time trigger alone fires too, and also moves the watermark
    assert!(t.spawn_due(10000, 450));
    assert_eq!(t.last_spawn_score, 450);
}

#[test]
fn asteroid_cadence_damped_by_phase() {
    let mut t = AsteroidSpawnTimer::new(1000);
    // at the boss-encounter multiplier the effective tick is 30%
    assert!(!t.spawn_due(1000, 300));
    assert_eq!(t.timer.elapsed_ms, 300);
    assert!(!t.spawn_due(1000, 300));
    assert!(!t.spawn_due(1000, 300));
    assert!(t.spawn_due(1000, 300));
    // at full rate one interval is one spawn
    let mut t = AsteroidSpawnTimer::new(1000);
    assert!(t.spawn_due(1000, 1000));
}

#[test]
fn edges_and_powerup_kinds() {
    assert_eq!(pick_edge(0), SpawnEdge::Top);
    assert_eq!(pick_edge(1), SpawnEdge::Right);
    assert_eq!(pick_edge(2), SpawnEdge::Bottom);
    assert_eq!(pick_edge(3), SpawnEdge::Left);
    assert_eq!(pick_powerup(0), PowerUpType::MultiShot);
    assert_eq!(pick_powerup(1), PowerUpType::RapidFire);
    assert_eq!(pick_powerup(2), PowerUpType::PiercingBullets);
    assert_eq!(pick_powerup(3), PowerUpType::ExplosiveBullets);
    assert_eq!(pick_powerup(4), PowerUpType::LaserBeam);
}

#[test]
fn fragments_stop_at_size_one() {
    // a size-1 wreck leaves nothing: fragmentation bottoms out
    let fragments = plan_fragments(1, AsteroidType::Ice);
    assert!(fragments.is_empty());
    // a size-2 metal asteroid leaves one size-1 metal fragment
    let fragments = plan_fragments(2, AsteroidType::Metal);
    assert_eq!(fragments.len(), 1);
    assert_eq!(fragments[0].size, 1);
    assert_eq!(fragments[0].asteroid_type, AsteroidType::Metal);
    assert_eq!(fragments[0].health, 3);
}

#[test]
fn ice_fragments_may_degrade() {
    // each ice fragment inherits ice or degrades to plain rock; over many
    // draws both outcomes appear
    let mut saw_ice = false;
    let mut saw_normal = false;
    for _ in 0..300 {
        for f in plan_fragments(7, AsteroidType::Ice) {
            assert_eq!(f.size, 6);
            match f.asteroid_type {
                AsteroidType::Ice => saw_ice = true,
                AsteroidType::Normal => saw_normal = true,
                _ => panic!("unexpected fragment type"),
            }
        }
    }
    assert!(saw_ice && saw_normal);
}

#[test]
fn ai_decision_trees() {
    let mut b = AIBehavior::new();
    assert_eq!(b.state, AIState::Hunting);
    // hunter: far hunts, mid attacks, close splits on player speed
    b.update_behavior(451, &EnemyType::Hunter, 0);
    assert_eq!(b.state, AIState::Hunting);
    b.update_behavior(241, &EnemyType::Hunter, 0);
    assert_eq!(b.state, AIState::Attacking);
    b.update_behavior(240, &EnemyType::Hunter, 101);
    assert_eq!(b.state, AIState::Evading);
    b.update_behavior(240, &EnemyType::Hunter, 100);
    assert_eq!(b.state, AIState::Circling);
    // bomber: prefers long range, retreats when crowded
    b.update_behavior(401, &EnemyType::Bomber, 0);
    assert_eq!(b.state, AIState::Hunting);
    b.update_behavior(241, &EnemyType::Bomber, 0);
    assert_eq!(b.state, AIState::Attacking);
    b.update_behavior(240, &EnemyType::Bomber, 0);
    assert_eq!(b.state, AIState::Retreating);
    // interceptor: ambushes far out, rams midrange, backs off point-blank
    b.update_behavior(301, &EnemyType::Interceptor, 0);
    assert_eq!(b.state, AIState::Ambushing);
    b.update_behavior(151, &EnemyType::Interceptor, 0);
    assert_eq!(b.state, AIState::Hunting);
    b.update_behavior(74, &EnemyType::Interceptor, 0);
    assert_eq!(b.state, AIState::Retreating);
    b.update_behavior(100, &EnemyType::Interceptor, 0);
    assert_eq!(b.state, AIState::Attacking);
}

#[test]
fn enemy_stats_and_shooting() {
    let e = Enemy::new(EnemyType::Hunter);
    assert_eq!(e.speed, 80);
    assert_eq!(e.shot_cooldown_ms, 1500);
    assert_eq!(e.points_value(), 150);
    assert_eq!(e.max_health(), 2);
    assert_eq!(e.get_engagement_range(), 300);
    assert_eq!(e.get_evasion_factor_permille(), 300);

    // difficulty scales speed up, cooldown down (divisor floored at 0.5)
    let fast = Enemy::new_with_difficulty(EnemyType::Interceptor, 1500);
    assert_eq!(fast.speed, 225);
    assert_eq!(fast.shot_cooldown_ms, 4000 * 1000 / 1500);
    let slow = Enemy::new_with_difficulty(EnemyType::Hunter, 200);
    assert_eq!(slow.shot_cooldown_ms, 3000);

    // health scaling rounds half up: 4 * 1.3 = 5.2 -> 5
    let b = Enemy::new(EnemyType::Bomber);
    assert_eq!(b.max_health_with_difficulty(1300), 5);

    let mut e = Enemy::new(EnemyType::Hunter);
    assert!(!e.ready_to_shoot(1000, 100));
    assert!(e.ready_to_shoot(1500, 100));
    // out of the 600-unit range the shot is held
    assert!(!e.ready_to_shoot(1500, 600));
    e.record_shot(1500);
    assert!(!e.ready_to_shoot(2000, 100));
    assert!(e.ready_to_shoot(3000, 100));
}

#[test]
fn phase_follows_boss_count() {
    let mut m = GamePhaseManager::new();
    let mut bosses = BossSpawnManager::new();
    bosses.mark_boss_spawned(BossType::GiantAsteroid, 7);
    assert_eq!(m.asteroid_spawn_multiplier_permille, 1000);
    sync_with_boss_count(&mut m, &mut bosses, 1);
    assert_eq!(m.current_phase, GamePhase::BossEncounter);
    assert_eq!(m.asteroid_spawn_multiplier_permille, 300);
    assert!(bosses.active_boss.is_some());
    assert!(m.is_transitioning());
    m.update(1000);
    assert!(!m.is_transitioning());
    // the zero-boss sync also clears the active-boss handle, so a boss
    // lost by any means never blocks future spawns
    sync_with_boss_count(&mut m, &mut bosses, 0);
    assert_eq!(m.current_phase, GamePhase::Normal);
    assert_eq!(m.asteroid_spawn_multiplier_permille, 1000);
    assert!(bosses.active_boss.is_none());
}

#[test]
fn wraparound_and_integration() {
    let wrapped = wrap_around(Vec2i::new(401, -301), 400, 300);
    assert_eq!(wrapped.x, -400);
    assert_eq!(wrapped.y, 300);
    let kept = wrap_around(Vec2i::new(100, -200), 400, 300);
    assert_eq!(kept.x, 100);
    assert_eq!(kept.y, -200);

    let moved = apply_velocity(Vec2i::new(10, 10), Vec2i::new(100, -50), 500);
    assert_eq!(moved.x, 60);
    assert_eq!(moved.y, -15);

    assert!(asteroid_off_screen(Vec2i::new(0, -351), 300));
    assert!(!asteroid_off_screen(Vec2i::new(0, -350), 300));
    assert!(bullet_off_screen(Vec2i::new(0, 351), 300));
    assert!(!bullet_off_screen(Vec2i::new(0, 350), 300));
}

#[test]
fn difficulty_presets() {
    let easy = DifficultySettings::easy();
    assert_eq!(easy.asteroid_spawn_interval_ms, 2000);
    assert_eq!(easy.boss_health_multiplier_permille, 700);
    let normal = DifficultySettings::normal();
    assert_eq!(normal.asteroid_spawn_interval_ms, 750);
    assert_eq!(normal.asteroid_speed_multiplier_permille, 2000);
    let hard = DifficultySettings::hard();
    assert_eq!(hard.enemy_health_multiplier_permille, 1300);
    let insane = DifficultySettings::insane();
    assert_eq!(insane.asteroid_spawn_interval_ms, 200);
    assert_eq!(insane.boss_health_multiplier_permille, 1800);
    assert_eq!(insane.get_name(), "Insane");
}

#[test]
fn save_data_counters() {
    let mut s = SaveData::new();
    s.update_high_score(500);
    assert_eq!(s.high_score, 500);
    s.update_high_score(400);
    assert_eq!(s.high_score, 500);
    s.increment_games_played();
    s.add_asteroids_destroyed(12);
    s.increment_power_ups_collected();
    s.add_play_time_ms(90000);
    assert_eq!(s.games_played, 1);
    assert_eq!(s.asteroids_destroyed, 12);
    assert_eq!(s.power_ups_collected, 1);
    assert_eq!(s.total_play_time_ms, 90000);
}

#[test]
fn destruction_effects_by_type() {
    let ice = destruction_effects(AsteroidType::Ice);
    assert!(ice.ice_shatter && !ice.crystal_burst);
    assert_eq!(ice.powerup_chance_permille, 0);
    let crystal = destruction_effects(AsteroidType::Crystal);
    assert!(crystal.crystal_burst && !crystal.ice_shatter);
    assert_eq!(crystal.powerup_chance_permille, 900);
    let plain = destruction_effects(AsteroidType::Normal);
    assert!(!plain.ice_shatter && !plain.crystal_burst);
    assert_eq!(plain.powerup_chance_permille, 0);
}

#[test]
fn pause_toggles_only_in_play() {
    assert_eq!(toggle_pause(GameState::Playing), GameState::Paused);
    assert_eq!(toggle_pause(GameState::Paused), GameState::Playing);
    assert_eq!(toggle_pause(GameState::MainMenu), GameState::MainMenu);
    assert_eq!(toggle_pause(GameState::GameOver), GameState::GameOver);
}

#[test]
fn rotation_spin_stays_slow() {
    assert_eq!(RotationVelocity::new(500).angular_velocity_millirad, 500);
    for _ in 0..200 {
        let spin = RotationVelocity::random_slow();
        assert!((-1000..=1000).contains(&spin.angular_velocity_millirad));
    }
}

#[test]
fn settings_defaults() {
    let s = asteroid_core::settings::GameSettings::new();
    assert!(s.graphics.bloom_enabled);
    assert!(s.graphics.vsync_enabled);
    assert!(!s.graphics.fullscreen);
    assert_eq!(s.audio.master_volume_permille, 1000);
    assert_eq!(s.audio.sfx_volume_permille, 1000);
    assert_eq!(s.audio.music_volume_permille, 1000);
}
