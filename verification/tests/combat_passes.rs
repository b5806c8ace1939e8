use asteroid_core::asteroid::{Asteroid, AsteroidType};
use asteroid_core::boss::{Boss, BossType};
use asteroid_core::combat::{
    apply_explosion, bullet_asteroid_pass, bullet_boss_pass, bullet_bullet_pass,
    bullet_enemy_pass, laser_asteroid_pass, laser_tick_damage, player_asteroid_collision,
    player_enemy_bullet_collision, AsteroidEntity, BossDepletion, BulletEntity,
    EnemyBulletEntity, EnemyEntity, ExplosionRequest,
};
use asteroid_core::enemy::{Enemy, EnemyBullet, EnemyType};
use asteroid_core::geom::Vec2i;
use asteroid_core::health::Health;
use asteroid_core::lives::{Invincibility, PlayerHitOutcome, PlayerLives};
use asteroid_core::powerups::{ExplosiveBullet, PiercingBullet};
use asteroid_core::spawn::{plan_fragments, BossSpawnManager};

fn plain_bullet(id: u64, x: i64, y: i64) -> BulletEntity {
    BulletEntity { id, pos: Vec2i::new(x, y), piercing: None, explosive: None }
}

fn asteroid_at(id: u64, x: i64, y: i64, size: u32, t: AsteroidType) -> AsteroidEntity {
    let a = Asteroid::new(size, t);
    let hp = a.max_health();
    AsteroidEntity { id, pos: Vec2i::new(x, y), asteroid: a, health: Health::new(hp) }
}

#[test]
fn five_hits_destroy_size_five_asteroid() {
    // size-5 plain asteroid: 5 health, four 1-damage hits award 5 points
    // each, the fifth destroys it for (11-5)*10 = 60: total 80, and the
    // wreck leaves 3 fragments of size 4
    let mut asteroids = vec![asteroid_at(1, 0, 0, 5, AsteroidType::Normal)];
    let mut score: u32 = 0;
    for hit in 1..=5u32 {
        let mut bullets = vec![plain_bullet(hit as u64, 0, 0)];
        let outcome = bullet_asteroid_pass(&mut bullets, &mut asteroids);
        score += outcome.score_delta;
        if hit < 5 {
            assert_eq!(outcome.score_delta, 5);
            assert!(outcome.destroyed.is_empty());
            assert_eq!(asteroids[0].health.current, 5 - hit);
        } else {
            assert_eq!(outcome.score_delta, 60);
            assert_eq!(outcome.destroyed.len(), 1);
            assert_eq!(outcome.destroyed[0].points, 60);
            assert_eq!(outcome.destroyed[0].size, 5);
        }
        // the plain bullet is spent on its hit
        assert_eq!(outcome.removed_bullets, vec![0]);
    }
    assert_eq!(score, 80);
    let fragments = plan_fragments(5, AsteroidType::Normal);
    assert_eq!(fragments.len(), 3);
    for f in &fragments {
        assert_eq!(f.size, 4);
        assert_eq!(f.asteroid_type, AsteroidType::Normal);
        assert_eq!(f.health, 4);
    }
}

#[test]
fn miss_changes_nothing() {
    let mut asteroids = vec![asteroid_at(1, 500, 500, 5, AsteroidType::Normal)];
    let mut bullets = vec![plain_bullet(9, 0, 0)];
    let outcome = bullet_asteroid_pass(&mut bullets, &mut asteroids);
    assert_eq!(outcome.score_delta, 0);
    assert!(outcome.removed_bullets.is_empty());
    assert!(outcome.destroyed.is_empty());
    assert!(outcome.explosions.is_empty());
    assert_eq!(asteroids[0].health.current, 5);
}

#[test]
fn piercing_bullet_flies_on() {
    // three size-1 asteroids in a row; a piercing bullet with headroom
    // destroys all three in one pass and survives
    let mut asteroids = vec![
        asteroid_at(1, 0, 0, 1, AsteroidType::Normal),
        asteroid_at(2, 5, 0, 1, AsteroidType::Normal),
        asteroid_at(3, -5, 0, 1, AsteroidType::Normal),
    ];
    let mut bullets = vec![BulletEntity {
        id: 7,
        pos: Vec2i::new(0, 0),
        piercing: Some(PiercingBullet::new(10)),
        explosive: None,
    }];
    let outcome = bullet_asteroid_pass(&mut bullets, &mut asteroids);
    assert_eq!(outcome.destroyed.len(), 3);
    assert_eq!(outcome.score_delta, 300);
    assert!(outcome.removed_bullets.is_empty());
    assert_eq!(bullets[0].piercing.unwrap().pierced_count, 3);

    // at its cap the bullet is spent on the first hit
    let mut asteroids = vec![
        asteroid_at(1, 0, 0, 1, AsteroidType::Normal),
        asteroid_at(2, 5, 0, 1, AsteroidType::Normal),
    ];
    let mut bullets = vec![BulletEntity {
        id: 8,
        pos: Vec2i::new(0, 0),
        piercing: Some(PiercingBullet { pierced_count: 9, max_pierces: 10 }),
        explosive: None,
    }];
    let outcome = bullet_asteroid_pass(&mut bullets, &mut asteroids);
    assert_eq!(outcome.destroyed.len(), 1);
    assert_eq!(outcome.removed_bullets, vec![0]);
}

#[test]
fn explosive_bullet_queues_blast() {
    let mut asteroids = vec![asteroid_at(1, 0, 0, 5, AsteroidType::Normal)];
    let mut bullets = vec![BulletEntity {
        id: 5,
        pos: Vec2i::new(0, 0),
        piercing: None,
        explosive: Some(ExplosiveBullet::new(50, 3)),
    }];
    let outcome = bullet_asteroid_pass(&mut bullets, &mut asteroids);
    assert_eq!(outcome.explosions.len(), 1);
    assert_eq!(outcome.explosions[0].radius, 50);
    assert_eq!(outcome.explosions[0].damage, 3);
}

#[test]
fn explosion_damages_everything_in_radius() {
    let mut asteroids = vec![
        asteroid_at(1, 0, 0, 5, AsteroidType::Normal),
        asteroid_at(2, 40, 0, 5, AsteroidType::Normal),
        asteroid_at(3, 200, 0, 5, AsteroidType::Normal),
    ];
    let blast = ExplosionRequest { pos: Vec2i::new(0, 0), radius: 50, damage: 3 };
    let score = apply_explosion(&mut asteroids, &blast);
    // two asteroids inside the radius, 5 points each
    assert_eq!(score, 10);
    assert_eq!(asteroids[0].health.current, 2);
    assert_eq!(asteroids[1].health.current, 2);
    assert_eq!(asteroids[2].health.current, 5);
}

#[test]
fn laser_tick_and_pass() {
    // 50 dps over 100 ms truncates to 5; tiny frames floor at 1
    assert_eq!(laser_tick_damage(50, 100), 5);
    assert_eq!(laser_tick_damage(50, 10), 1);

    // a vertical beam through two of three asteroids
    let mut asteroids = vec![
        asteroid_at(1, 0, 50, 2, AsteroidType::Normal),
        asteroid_at(2, 0, 150, 2, AsteroidType::Normal),
        asteroid_at(3, 300, 0, 2, AsteroidType::Normal),
    ];
    let outcome =
        laser_asteroid_pass(Vec2i::new(0, 0), Vec2i::new(0, 400), 1, &mut asteroids);
    // both touched asteroids lose one of two health; one point each
    assert_eq!(outcome.nonlethal_ticks, 2);
    assert_eq!(outcome.score_delta, 2);
    assert_eq!(asteroids[0].health.current, 1);
    assert_eq!(asteroids[1].health.current, 1);
    assert_eq!(asteroids[2].health.current, 2);

    // a stronger tick destroys both at once: (11-2)*10 = 90 each
    let outcome =
        laser_asteroid_pass(Vec2i::new(0, 0), Vec2i::new(0, 400), 5, &mut asteroids);
    assert_eq!(outcome.destroyed.len(), 2);
    assert_eq!(outcome.score_delta, 180);
}

#[test]
fn player_hit_and_invincibility_window() {
    // a hit with no window up drains a life; a second hit inside the
    // fresh window is ignored; after the window elapses a hit drains again
    let asteroids = vec![asteroid_at(1, 0, 0, 3, AsteroidType::Normal)];
    let mut lives = PlayerLives::new(3);

    let contact = player_asteroid_collision(Vec2i::new(0, 0), &asteroids, &mut lives, &None);
    let contact = contact.expect("contact expected");
    assert_eq!(contact.outcome, PlayerHitOutcome::LifeLost);
    assert_eq!(lives.lives, 2);

    let window = Invincibility::new_default();
    assert!(window.is_active());
    let shielded =
        player_asteroid_collision(Vec2i::new(0, 0), &asteroids, &mut lives, &Some(window));
    assert!(shielded.is_none());
    assert_eq!(lives.lives, 2);

    let mut expired = Invincibility::new_default();
    expired.timer.tick(2000);
    assert!(!expired.is_active());
    let contact =
        player_asteroid_collision(Vec2i::new(0, 0), &asteroids, &mut lives, &Some(expired));
    assert!(contact.is_some());
    assert_eq!(lives.lives, 1);
}

#[test]
fn last_life_is_game_over() {
    let bullets = vec![EnemyBulletEntity {
        id: 1,
        pos: Vec2i::new(5, 5),
        bullet: EnemyBullet::new(&EnemyType::Hunter),
    }];
    let mut lives = PlayerLives::new(1);
    let contact = player_enemy_bullet_collision(Vec2i::new(0, 0), &bullets, &mut lives, &None);
    assert_eq!(contact.expect("contact").outcome, PlayerHitOutcome::GameOver);
    assert_eq!(lives.lives, 0);
}

#[test]
fn bullets_destroy_enemies() {
    let mut enemies = vec![
        EnemyEntity {
            id: 1,
            pos: Vec2i::new(0, 0),
            enemy: Enemy::new(EnemyType::Interceptor),
            health: Health::new(1),
        },
        EnemyEntity {
            id: 2,
            pos: Vec2i::new(200, 0),
            enemy: Enemy::new(EnemyType::Bomber),
            health: Health::new(4),
        },
    ];
    let bullets = vec![plain_bullet(1, 0, 0), plain_bullet(2, 205, 0)];
    let outcome = bullet_enemy_pass(&bullets, &mut enemies);
    // the interceptor dies (200 points); the bomber is only dented
    assert_eq!(outcome.destroyed.len(), 1);
    assert_eq!(outcome.destroyed[0].id, 1);
    assert_eq!(outcome.destroyed[0].points, 200);
    assert_eq!(outcome.score_delta, 200);
    assert_eq!(outcome.removed_bullets, vec![0, 1]);
    assert_eq!(enemies[1].health.current, 3);
}

#[test]
fn boss_pass_advances_phase() {
    let mut boss = Boss::new(BossType::GiantAsteroid);
    let mut health = Health::new(1);
    let mut manager = BossSpawnManager::new();
    manager.mark_boss_spawned(BossType::GiantAsteroid, 42);
    let bullets = vec![plain_bullet(1, 0, 0)];
    let (removed, events) =
        bullet_boss_pass(&bullets, &mut boss, &mut health, Vec2i::new(0, 0), &mut manager);
    assert_eq!(removed, vec![0]);
    assert_eq!(events, vec![BossDepletion::Advanced { score: 1500 }]);
    assert_eq!(boss.phase, 2);
    assert_eq!(health.current, boss.phase_health);
    assert!(manager.active_boss.is_some());
    assert!(boss.is_in_transition());

    // the transition pause suspends the boss's movement and attacks but
    // never shields it: a hit during the pause still lands its damage
    let bullets = vec![plain_bullet(2, 0, 0)];
    let before = health.current;
    let (removed, events) =
        bullet_boss_pass(&bullets, &mut boss, &mut health, Vec2i::new(0, 0), &mut manager);
    assert_eq!(removed, vec![0]);
    assert!(events.is_empty());
    assert_eq!(health.current, before - 1);
}

#[test]
fn boss_pass_can_deplete_twice_in_one_volley() {
    // a pool of 1 and a refilled pool of 40 both emptied by one dense
    // volley: two depletions in a single pass, damage landing through the
    // fresh pause window
    let mut boss = Boss::new(BossType::GiantAsteroid);
    let mut health = Health::new(1);
    let mut manager = BossSpawnManager::new();
    manager.mark_boss_spawned(BossType::GiantAsteroid, 42);
    let mut bullets = Vec::new();
    for id in 0..41u64 {
        bullets.push(plain_bullet(id, 0, 0));
    }
    let (removed, events) =
        bullet_boss_pass(&bullets, &mut boss, &mut health, Vec2i::new(0, 0), &mut manager);
    assert_eq!(removed.len(), 41);
    assert_eq!(
        events,
        vec![
            BossDepletion::Advanced { score: 1500 },
            BossDepletion::Advanced { score: 3000 },
        ]
    );
    assert_eq!(boss.phase, 3);
    // phase-3 pool is 30 + 15 = 45, at full health
    assert_eq!(health.max, 45);
    assert_eq!(health.current, 45);
}

#[test]
fn boss_pass_defeats_at_last_phase() {
    let mut boss = Boss::new(BossType::GiantAsteroid);
    boss.advance_phase();
    boss.advance_phase();
    boss.advance_phase();
    assert_eq!(boss.phase, 4);
    boss.tick_timers(3000);
    assert!(!boss.is_in_transition());
    let mut health = Health::new(1);
    let mut manager = BossSpawnManager::new();
    manager.mark_boss_spawned(BossType::GiantAsteroid, 42);
    let bullets = vec![plain_bullet(1, 0, 0)];
    let (_, events) =
        bullet_boss_pass(&bullets, &mut boss, &mut health, Vec2i::new(0, 0), &mut manager);
    assert_eq!(events, vec![BossDepletion::Defeated { score: 6000 }]);
    assert_eq!(health.current, 0);
    assert!(manager.active_boss.is_none());
}

#[test]
fn bullet_clash_annihilates_pairs() {
    let player_bullets = vec![plain_bullet(1, 0, 0), plain_bullet(2, 100, 0)];
    let enemy_bullets = vec![
        EnemyBulletEntity {
            id: 10,
            pos: Vec2i::new(3, 0),
            bullet: EnemyBullet::new(&EnemyType::Hunter),
        },
        EnemyBulletEntity {
            id: 11,
            pos: Vec2i::new(500, 0),
            bullet: EnemyBullet::new(&EnemyType::Bomber),
        },
    ];
    let clashes = bullet_bullet_pass(&player_bullets, &enemy_bullets);
    assert_eq!(clashes.len(), 1);
    assert_eq!(clashes[0].player_index, 0);
    assert_eq!(clashes[0].enemy_index, 0);

    let no_enemy_bullets: Vec<EnemyBulletEntity> = Vec::new();
    let clashes = bullet_bullet_pass(&player_bullets, &no_enemy_bullets);
    assert!(clashes.is_empty());
}
