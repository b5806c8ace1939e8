//! Enemy archetype: per-type stats, the six-state behaviour machine, and
//! the shooting cadence.

use vstd::prelude::*;
use crate::timer::Timer;

verus! {

/// Closed set of enemy kinds.
#[derive(Clone, Copy, Debug, PartialEq, Eq, Structural)]
pub enum EnemyType {
    /// Basic ship that hunts the player.
    Hunter,
    /// Shoots explosive projectiles.
    Bomber,
    /// Fast ship that tries to ram the player.
    Interceptor,
}

/// Closed set of behaviour states.
#[derive(Clone, Copy, Debug, PartialEq, Eq, Structural)]
pub enum AIState {
    /// Actively pursuing the player.
    Hunting,
    /// In combat range, aggressive.
    Attacking,
    /// Taking evasive action.
    Evading,
    /// Circling around the player.
    Circling,
    /// Moving to safe distance.
    Retreating,
    /// Waiting for an opportune moment.
    Ambushing,
}

/// Cruise speed in world units per second, before difficulty scaling.
pub open spec fn spec_base_speed(t: EnemyType) -> u32 {
    match t {
        EnemyType::Hunter => 80u32,
        EnemyType::Bomber => 60u32,
        EnemyType::Interceptor => 150u32,
    }
}

/// Milliseconds between shots, before difficulty scaling.
pub open spec fn spec_base_cooldown_ms(t: EnemyType) -> u32 {
    match t {
        EnemyType::Hunter => 1500u32,
        EnemyType::Bomber => 2500u32,
        EnemyType::Interceptor => 4000u32,
    }
}

/// The distance an enemy kind prefers to keep from the player, in world
/// units.
pub open spec fn spec_engagement_range(t: EnemyType) -> u32 {
    match t {
        EnemyType::Hunter => 300u32,
        EnemyType::Bomber => 400u32,
        EnemyType::Interceptor => 150u32,
    }
}

/// The behaviour state chosen on a re-evaluation tick, as a function of the
/// distance to the player, the enemy kind, and the player's speed. Each
/// kind has its own decision tree over its engagement range.
pub open spec fn spec_next_ai_state(t: EnemyType, distance: u32, player_speed: u32) -> AIState {
    match t {
        EnemyType::Hunter => if distance > 450 {
            AIState::Hunting
        } else if distance > 240 {
            AIState::Attacking
        } else if player_speed > 100 {
            AIState::Evading
        } else {
            AIState::Circling
        },
        EnemyType::Bomber => if distance > 400 {
            AIState::Hunting
        } else if distance > 240 {
            AIState::Attacking
        } else {
            AIState::Retreating
        },
        EnemyType::Interceptor => if distance > 300 {
            AIState::Ambushing
        } else if distance > 150 {
            AIState::Hunting
        } else if distance < 75 {
            AIState::Retreating
        } else {
            AIState::Attacking
        },
    }
}

/// An enemy ship: its kind, scaled speed, and shot bookkeeping.
pub struct Enemy {
    pub enemy_type: EnemyType,
    /// Cruise speed in world units per second (difficulty already applied).
    pub speed: u32,
    /// Game clock reading of the last shot, in milliseconds.
    pub last_shot_time_ms: u32,
    /// Minimum milliseconds between shots (difficulty already applied).
    pub shot_cooldown_ms: u32,
}

impl Enemy {
    /// An enemy with unscaled stats.
    pub fn new(enemy_type: EnemyType) -> (r: Enemy)
        ensures
            r.enemy_type == enemy_type,
            r.speed == spec_base_speed(enemy_type),
            r.last_shot_time_ms == 0,
            r.shot_cooldown_ms == spec_base_cooldown_ms(enemy_type),
    {
        let (speed, shot_cooldown_ms): (u32, u32) = match enemy_type {
            EnemyType::Hunter => (80, 1500),
            EnemyType::Bomber => (60, 2500),
            EnemyType::Interceptor => (150, 4000),
        };
        Enemy { enemy_type, speed, last_shot_time_ms: 0, shot_cooldown_ms }
    }

    /// An enemy scaled by the difficulty's enemy-speed multiplier (in
    /// thousandths): speed goes up with it, the shot cooldown comes down
    /// with it, with the divisor floored at one half so easy settings never
    /// stretch the cooldown beyond double.
    pub fn new_with_difficulty(enemy_type: EnemyType, enemy_speed_multiplier_permille: u32) -> (
        r: Enemy)
        requires
            enemy_speed_multiplier_permille <= 10000,
        ensures
            r.enemy_type == enemy_type,
            r.speed == spec_base_speed(enemy_type) * enemy_speed_multiplier_permille / 1000,
            r.last_shot_time_ms == 0,
            r.shot_cooldown_ms == spec_base_cooldown_ms(enemy_type) * 1000 / (
            if enemy_speed_multiplier_permille >= 500 {
                enemy_speed_multiplier_permille as int
            } else {
                500int
            }),
    {
        let mut e = Enemy::new(enemy_type);
        proof {
            assert(e.speed <= 150 && e.shot_cooldown_ms <= 4000) by {
                assert(spec_base_speed(EnemyType::Hunter) == 80);
                assert(spec_base_speed(EnemyType::Bomber) == 60);
                assert(spec_base_speed(EnemyType::Interceptor) == 150);
                assert(spec_base_cooldown_ms(EnemyType::Hunter) == 1500);
                assert(spec_base_cooldown_ms(EnemyType::Bomber) == 2500);
                assert(spec_base_cooldown_ms(EnemyType::Interceptor) == 4000);
            }
            assert((e.speed as int) * (enemy_speed_multiplier_permille as int) <= 1500000)
                by (nonlinear_arith)
                requires
                    e.speed <= 150,
                    enemy_speed_multiplier_permille <= 10000,
            ;
        }
        let divisor: u32 = if enemy_speed_multiplier_permille >= 500 {
            enemy_speed_multiplier_permille
        } else {
            500
        };
        e.speed = e.speed * enemy_speed_multiplier_permille / 1000;
        e.shot_cooldown_ms = e.shot_cooldown_ms * 1000 / divisor;
        e
    }

    /// Score awarded for destroying this enemy.
    pub fn points_value(&self) -> (r: u32)
        ensures
            r == match self.enemy_type {
                EnemyType::Hunter => 150u32,
                EnemyType::Bomber => 250u32,
                EnemyType::Interceptor => 200u32,
            },
    {
        match self.enemy_type {
            EnemyType::Hunter => 150,
            EnemyType::Bomber => 250,
            EnemyType::Interceptor => 200,
        }
    }

    /// Health the enemy starts with, before difficulty scaling.
    pub fn max_health(&self) -> (r: u32)
        ensures
            r == match self.enemy_type {
                EnemyType::Hunter => 2u32,
                EnemyType::Bomber => 4u32,
                EnemyType::Interceptor => 1u32,
            },
    {
        match self.enemy_type {
            EnemyType::Hunter => 2,
            EnemyType::Bomber => 4,
            EnemyType::Interceptor => 1,
        }
    }

    /// Starting health scaled by the difficulty's enemy-health multiplier
    /// (in thousandths, rounded half up).
    pub fn max_health_with_difficulty(&self, enemy_health_multiplier_permille: u32) -> (r: u32)
        requires
            enemy_health_multiplier_permille <= 10000,
        ensures
            r == (match self.enemy_type {
                EnemyType::Hunter => 2int,
                EnemyType::Bomber => 4int,
                EnemyType::Interceptor => 1int,
            } * enemy_health_multiplier_permille + 500) / 1000,
    {
        let base: u32 = self.max_health();
        proof {
            assert(base <= 4);
            assert((base as int) * (enemy_health_multiplier_permille as int) <= 40000)
                by (nonlinear_arith)
                requires
                    base <= 4,
                    enemy_health_multiplier_permille <= 10000,
            ;
        }
        (base * enemy_health_multiplier_permille + 500) / 1000
    }

    /// The distance this kind prefers to keep from the player.
    pub fn get_engagement_range(&self) -> (r: u32)
        ensures
            r == spec_engagement_range(self.enemy_type),
    {
        match self.enemy_type {
            EnemyType::Hunter => 300,
            EnemyType::Bomber => 400,
            EnemyType::Interceptor => 150,
        }
    }

    /// Evasion tendency in thousandths: interceptors dodge, bombers rely on
    /// armour.
    pub fn get_evasion_factor_permille(&self) -> (r: u32)
        ensures
            r == match self.enemy_type {
                EnemyType::Hunter => 300u32,
                EnemyType::Bomber => 100u32,
                EnemyType::Interceptor => 700u32,
            },
    {
        match self.enemy_type {
            EnemyType::Hunter => 300,
            EnemyType::Bomber => 100,
            EnemyType::Interceptor => 700,
        }
    }

    /// Whether the shot cooldown has elapsed and the player is inside the
    /// 600-unit firing range.
    pub fn ready_to_shoot(&self, now_ms: u32, distance_to_player: u32) -> (r: bool)
        requires
            now_ms >= self.last_shot_time_ms,
        ensures
            r == (now_ms - self.last_shot_time_ms >= self.shot_cooldown_ms
                && distance_to_player < 600),
    {
        now_ms - self.last_shot_time_ms >= self.shot_cooldown_ms && distance_to_player < 600
    }

    /// Records that a shot was fired at clock reading `now_ms`.
    pub fn record_shot(&mut self, now_ms: u32)
        ensures
            final(self).enemy_type == old(self).enemy_type,
            final(self).speed == old(self).speed,
            final(self).shot_cooldown_ms == old(self).shot_cooldown_ms,
            final(self).last_shot_time_ms == now_ms,
    {
        self.last_shot_time_ms = now_ms;
    }
}

/// An enemy bullet's damage and blast behaviour, by the shooter's kind.
pub struct EnemyBullet {
    pub damage: u32,
    pub is_explosive: bool,
}

impl EnemyBullet {
    pub fn new(enemy_type: &EnemyType) -> (r: EnemyBullet)
        ensures
            r.damage == match *enemy_type {
                EnemyType::Hunter => 1u32,
                EnemyType::Bomber => 2u32,
                EnemyType::Interceptor => 1u32,
            },
            r.is_explosive == (*enemy_type == EnemyType::Bomber),
    {
        let (damage, is_explosive): (u32, bool) = match enemy_type {
            EnemyType::Hunter => (1, false),
            EnemyType::Bomber => (2, true),
            EnemyType::Interceptor => (1, false),
        };
        EnemyBullet { damage, is_explosive }
    }
}

/// The cached behaviour decision of one enemy, re-evaluated on a 2 s timer.
pub struct AIBehavior {
    /// Player position recorded at the last re-evaluation, in world units.
    pub target_position: (i32, i32),
    /// The 2-second re-evaluation cadence.
    pub behavior_timer: Timer,
    pub state: AIState,
}

impl AIBehavior {
    /// Fresh behaviour: hunting, aimed at the origin, timer at zero.
    pub fn new() -> (r: AIBehavior)
        ensures
            r.target_position == (0i32, 0i32),
            r.behavior_timer.duration_ms == 2000,
            r.behavior_timer.repeating,
            r.behavior_timer.elapsed_ms == 0,
            r.behavior_timer.wf(),
            r.state == AIState::Hunting,
    {
        AIBehavior {
            target_position: (0, 0),
            behavior_timer: Timer::new(2000, true),
            state: AIState::Hunting,
        }
    }

    /// Re-evaluates the state from the distance to the player, the enemy
    /// kind, and the player's speed (see `spec_next_ai_state` for the per-
    /// kind decision trees).
    pub fn update_behavior(
        &mut self,
        distance_to_player: u32,
        enemy_type: &EnemyType,
        player_speed: u32,
    )
        ensures
            final(self).state == spec_next_ai_state(*enemy_type, distance_to_player,
                player_speed),
            final(self).target_position == old(self).target_position,
            final(self).behavior_timer == old(self).behavior_timer,
    {
        self.state = match enemy_type {
            EnemyType::Hunter => {
                if distance_to_player > 450 {
                    AIState::Hunting
                } else if distance_to_player > 240 {
                    AIState::Attacking
                } else if player_speed > 100 {
                    AIState::Evading
                } else {
                    AIState::Circling
                }
            },
            EnemyType::Bomber => {
                if distance_to_player > 400 {
                    AIState::Hunting
                } else if distance_to_player > 240 {
                    AIState::Attacking
                } else {
                    AIState::Retreating
                }
            },
            EnemyType::Interceptor => {
                if distance_to_player > 300 {
                    AIState::Ambushing
                } else if distance_to_player > 150 {
                    AIState::Hunting
                } else if distance_to_player < 75 {
                    AIState::Retreating
                } else {
                    AIState::Attacking
                }
            },
        };
    }
}

} // verus!
