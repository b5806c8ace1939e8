use asteroid_core::bullet_lifecycle::BulletLifecycle;
use asteroid_core::enemy::{EnemyBullet, EnemyType};
use asteroid_core::score::GameScore;

#[test]
fn score_accumulates_and_saturates() {
    let mut s = GameScore::new();
    s.add(60);
    s.add(5);
    assert_eq!(s.score, 65);
    s.add(u32::MAX);
    assert_eq!(s.score, u32::MAX);
}

#[test]
fn enemy_bullets_by_shooter() {
    let hunter = EnemyBullet::new(&EnemyType::Hunter);
    assert_eq!(hunter.damage, 1);
    assert!(!hunter.is_explosive);
    let bomber = EnemyBullet::new(&EnemyType::Bomber);
    assert_eq!(bomber.damage, 2);
    assert!(bomber.is_explosive);
    let interceptor = EnemyBullet::new(&EnemyType::Interceptor);
    assert_eq!(interceptor.damage, 1);
    assert!(!interceptor.is_explosive);
}

#[test]
fn bullet_glow_fades_linearly() {
    let mut b = BulletLifecycle::new(1000, 8000);
    assert!(!b.is_expired());
    assert_eq!(b.current_intensity_permille(), 8000);
    b.lifetime.tick(500);
    // halfway: 8000 * (1000 - 475) / 1000
    assert_eq!(b.current_intensity_permille(), 4200);
    b.lifetime.tick(500);
    assert!(b.is_expired());
    // at expiry 5% of the initial glow remains
    assert_eq!(b.current_intensity_permille(), 400);
}
