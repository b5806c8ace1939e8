use asteroid_core::asteroid::{Asteroid, AsteroidType};
use asteroid_core::health::Health;
use asteroid_core::lives::PlayerLives;
use asteroid_core::timer::Timer;

#[test]
fn health_saturating_damage() {
    let mut h = Health::new(5);
    assert_eq!(h.current, 5);
    assert_eq!(h.max, 5);
    assert!(!h.take_damage(3));
    assert_eq!(h.current, 2);
    // damage beyond the pool saturates at zero and signals destruction
    assert!(h.take_damage(10));
    assert_eq!(h.current, 0);
    assert!(h.is_dead());
    // hitting an already-dead entity signals nothing
    assert!(!h.take_damage(1));
    assert_eq!(h.current, 0);
}

#[test]
fn health_exact_boundary() {
    let mut h = Health::new(1);
    assert!(h.take_damage(1));
    let mut h2 = Health::new(4);
    assert!(!h2.take_damage(0));
    assert_eq!(h2.current, 4);
}

#[test]
fn asteroid_points_values() {
    assert_eq!(Asteroid::new(5, AsteroidType::Normal).points_value(), 60);
    assert_eq!(Asteroid::new(5, AsteroidType::Ice).points_value(), 60);
    assert_eq!(Asteroid::new(5, AsteroidType::Metal).points_value(), 120);
    assert_eq!(Asteroid::new(5, AsteroidType::Crystal).points_value(), 180);
    assert_eq!(Asteroid::new(10, AsteroidType::Normal).points_value(), 10);
    assert_eq!(Asteroid::new(1, AsteroidType::Normal).points_value(), 100);
}

#[test]
fn asteroid_max_health() {
    assert_eq!(Asteroid::new(5, AsteroidType::Normal).max_health(), 5);
    assert_eq!(Asteroid::new(5, AsteroidType::Ice).max_health(), 5);
    assert_eq!(Asteroid::new(5, AsteroidType::Metal).max_health(), 15);
    assert_eq!(Asteroid::new(5, AsteroidType::Crystal).max_health(), 10);
}

#[test]
fn asteroid_fragment_counts() {
    assert_eq!(Asteroid::new(5, AsteroidType::Normal).fragment_count(), 3);
    assert_eq!(Asteroid::new(4, AsteroidType::Normal).fragment_count(), 2);
    assert_eq!(Asteroid::new(7, AsteroidType::Ice).fragment_count(), 6);
    assert_eq!(Asteroid::new(4, AsteroidType::Ice).fragment_count(), 5);
    assert_eq!(Asteroid::new(3, AsteroidType::Ice).fragment_count(), 4);
    assert_eq!(Asteroid::new(6, AsteroidType::Metal).fragment_count(), 2);
    assert_eq!(Asteroid::new(5, AsteroidType::Metal).fragment_count(), 1);
    assert_eq!(Asteroid::new(5, AsteroidType::Crystal).fragment_count(), 3);
    assert_eq!(Asteroid::new(4, AsteroidType::Crystal).fragment_count(), 2);
}

#[test]
fn asteroid_modifiers_and_special() {
    assert_eq!(Asteroid::new(3, AsteroidType::Normal).behavior_modifier_permille(), 1000);
    assert_eq!(Asteroid::new(3, AsteroidType::Ice).behavior_modifier_permille(), 800);
    assert_eq!(Asteroid::new(3, AsteroidType::Metal).behavior_modifier_permille(), 600);
    assert_eq!(Asteroid::new(3, AsteroidType::Crystal).behavior_modifier_permille(), 1200);
    assert!(Asteroid::new(3, AsteroidType::Ice).has_special_destruction());
    assert!(Asteroid::new(3, AsteroidType::Crystal).has_special_destruction());
    assert!(!Asteroid::new(3, AsteroidType::Normal).has_special_destruction());
    assert!(!Asteroid::new(3, AsteroidType::Metal).has_special_destruction());
}

#[test]
fn lives_drain_and_game_over() {
    let mut lives = PlayerLives::new(3);
    assert!(!lives.lose_life());
    assert_eq!(lives.lives, 2);
    assert!(!lives.lose_life());
    assert!(lives.lose_life());
    assert!(lives.is_game_over());
    // draining at zero stays at zero
    assert!(lives.lose_life());
    assert_eq!(lives.lives, 0);
    assert_eq!(lives.max_lives, 3);
}

#[test]
fn one_shot_timer_caps_and_finishes() {
    let mut t = Timer::new(1000, false);
    t.tick(400);
    assert!(!t.finished());
    assert!(!t.just_finished);
    t.tick(600);
    assert!(t.finished());
    assert!(t.just_finished);
    assert_eq!(t.elapsed_ms, 1000);
    // further ticking keeps it finished but not freshly so
    t.tick(100);
    assert!(t.finished());
    assert!(!t.just_finished);
}

#[test]
fn repeating_timer_wraps() {
    let mut t = Timer::new(500, true);
    t.tick(499);
    assert!(!t.finished());
    t.tick(2);
    assert!(t.finished());
    assert_eq!(t.elapsed_ms, 1);
    t.tick(999);
    assert!(t.finished());
    assert_eq!(t.elapsed_ms, 0);
    t.tick(100);
    assert!(!t.finished());
}

#[test]
fn timer_reset_and_remaining() {
    let mut t = Timer::new(300, false);
    t.tick(120);
    assert_eq!(t.remaining_ms(), 180);
    t.reset();
    assert_eq!(t.elapsed_ms, 0);
    assert_eq!(t.remaining_ms(), 300);
}
