//! Verified simulation core of a 2D arcade space shooter.
//!
//! The crate models the per-frame game logic — entity health and damage,
//! asteroid fragmentation, weighted random generators, enemy and boss state
//! machines, power-up reference counting, and the collision resolution
//! passes — over plain integer state. Rendering, windowing and input stay
//! with the caller; time is handed in as elapsed milliseconds, distances and
//! positions as integer world units, and fixed-point factors as thousandths
//! (per-mille).

pub mod asteroid;
pub mod boss;
pub mod bullet_lifecycle;
pub mod combat;
pub mod difficulty;
pub mod enemy;
pub mod generator;
pub mod geom;
pub mod health;
pub mod lives;
pub mod phase;
pub mod physics;
pub mod powerups;
pub mod rng;
pub mod savedata;
pub mod score;
pub mod settings;
pub mod spawn;
pub mod timer;

pub use asteroid::Asteroid;
pub use asteroid::AsteroidType;
pub use boss::AttackPattern;
pub use boss::Boss;
pub use boss::BossType;
pub use difficulty::DifficultySettings;
pub use enemy::AIState;
pub use enemy::Enemy;
pub use enemy::EnemyType;
pub use geom::Vec2i;
pub use health::Health;
pub use lives::Invincibility;
pub use lives::PlayerLives;
pub use phase::GamePhase;
pub use phase::GamePhaseManager;
pub use powerups::PlayerPowerUps;
pub use powerups::PowerUpType;
pub use score::GameScore;
pub use timer::Timer;
