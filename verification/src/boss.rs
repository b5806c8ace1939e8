//! Boss archetype: multi-phase encounter state machine and attack patterns.

use vstd::prelude::*;
use crate::timer::Timer;

verus! {

/// Closed set of boss kinds.
#[derive(Clone, Copy, Debug, PartialEq, Eq, Structural)]
pub enum BossType {
    /// Huge asteroid with multiple phases.
    GiantAsteroid,
    /// Alien ship with different attack patterns.
    AlienMothership,
}

/// Closed set of boss attack patterns.
#[derive(Clone, Copy, Debug, PartialEq, Eq, Structural)]
pub enum AttackPattern {
    /// Bullets in all directions.
    CircularShot,
    /// Multiple shots at the player.
    TargetedBarrage,
    /// Spawns enemy ships.
    SpawnMinions,
    /// Spawns asteroids around the boss.
    AsteroidRain,
}

/// Phases a boss of this kind fights through.
pub open spec fn spec_max_phases(t: BossType) -> u32 {
    match t {
        BossType::GiantAsteroid => 4u32,
        BossType::AlienMothership => 5u32,
    }
}

/// Health of one phase before difficulty scaling.
pub open spec fn spec_base_phase_health(t: BossType) -> u32 {
    match t {
        BossType::GiantAsteroid => 30u32,
        BossType::AlienMothership => 25u32,
    }
}

/// Collision footprint scale of the boss, in thousandths.
pub open spec fn spec_size_multiplier_permille(t: BossType) -> u32 {
    match t {
        BossType::GiantAsteroid => 3500u32,
        BossType::AlienMothership => 3000u32,
    }
}

/// Milliseconds between attacks in a given phase: `1.5s / (0.8*phase + 1)`,
/// floored at 300 ms.
pub open spec fn spec_attack_interval_ms(phase: u32) -> u32
    recommends
        phase >= 1,
{
    let raw = (1500000int / (800 * phase + 1000)) as u32;
    if raw >= 300 {
        raw
    } else {
        300u32
    }
}

/// The attack pattern a boss of kind `t` uses while in `phase`. The two boss
/// kinds traverse the four patterns in different orders.
pub open spec fn spec_attack_pattern(t: BossType, phase: u32) -> AttackPattern {
    match t {
        BossType::GiantAsteroid => if phase == 1 {
            AttackPattern::AsteroidRain
        } else if phase == 2 {
            AttackPattern::CircularShot
        } else if phase == 3 {
            AttackPattern::SpawnMinions
        } else {
            AttackPattern::TargetedBarrage
        },
        BossType::AlienMothership => if phase == 1 {
            AttackPattern::TargetedBarrage
        } else if phase == 2 {
            AttackPattern::SpawnMinions
        } else if phase == 3 {
            AttackPattern::CircularShot
        } else if phase == 4 {
            AttackPattern::AsteroidRain
        } else {
            AttackPattern::TargetedBarrage
        },
    }
}

/// A boss encounter: a phase counter with one health pool per phase, an
/// attack cadence that quickens each phase, and a pause window after each
/// phase transition during which movement and attacks are suspended (damage
/// is not).
pub struct Boss {
    pub boss_type: BossType,
    pub phase: u32,
    pub max_phases: u32,
    pub phase_health: u32,
    pub max_phase_health: u32,
    pub attack_timer: Timer,
    pub phase_transition_timer: Option<Timer>,
    /// Footprint scale in thousandths.
    pub size_multiplier_permille: u32,
}

impl Boss {
    /// The phase stays within its bounds and the health pools stay small
    /// enough for every derived quantity to fit its type.
    pub open spec fn wf(self) -> bool {
        &&& 1 <= self.phase <= self.max_phases
        &&& self.max_phases == spec_max_phases(self.boss_type)
        &&& self.max_phase_health <= 1000000
        &&& self.phase_health <= self.max_phase_health + self.phase * 5
        &&& self.size_multiplier_permille <= 10000
    }

    /// A boss at phase 1 with unscaled health.
    pub fn new(boss_type: BossType) -> (r: Boss)
        ensures
            r.boss_type == boss_type,
            r.phase == 1,
            r.max_phases == spec_max_phases(boss_type),
            r.phase_health == spec_base_phase_health(boss_type),
            r.max_phase_health == spec_base_phase_health(boss_type),
            r.attack_timer.duration_ms == 1500 && r.attack_timer.repeating,
            r.attack_timer.elapsed_ms == 0,
            r.phase_transition_timer is None,
            r.size_multiplier_permille == spec_size_multiplier_permille(boss_type),
            r.wf(),
    {
        let (max_phases, phase_health, size_multiplier_permille): (u32, u32, u32) =
            match boss_type {
            BossType::GiantAsteroid => (4, 30, 3500),
            BossType::AlienMothership => (5, 25, 3000),
        };
        Boss {
            boss_type,
            phase: 1,
            max_phases,
            phase_health,
            max_phase_health: phase_health,
            attack_timer: Timer::new(1500, true),
            phase_transition_timer: None,
            size_multiplier_permille,
        }
    }

    /// A boss whose per-phase health is the base health scaled by the
    /// difficulty's boss-health multiplier (in thousandths, rounded half
    /// up).
    pub fn new_with_difficulty(boss_type: BossType, boss_health_multiplier_permille: u32) -> (
        r: Boss)
        requires
            boss_health_multiplier_permille <= 10000,
        ensures
            r.boss_type == boss_type,
            r.phase == 1,
            r.max_phases == spec_max_phases(boss_type),
            r.phase_health == (spec_base_phase_health(boss_type)
                * boss_health_multiplier_permille + 500) / 1000,
            r.max_phase_health == r.phase_health,
            r.attack_timer.duration_ms == 1500 && r.attack_timer.repeating,
            r.attack_timer.elapsed_ms == 0,
            r.phase_transition_timer is None,
            r.size_multiplier_permille == spec_size_multiplier_permille(boss_type),
            r.wf(),
    {
        let mut boss = Boss::new(boss_type);
        let base = boss.phase_health;
        proof {
            assert(base <= 30) by {
                assert(spec_base_phase_health(BossType::GiantAsteroid) == 30);
                assert(spec_base_phase_health(BossType::AlienMothership) == 25);
            }
            assert((base as int) * (boss_health_multiplier_permille as int) <= 300000)
                by (nonlinear_arith)
                requires
                    base <= 30,
                    boss_health_multiplier_permille <= 10000,
            ;
        }
        boss.phase_health = (base * boss_health_multiplier_permille + 500) / 1000;
        boss.max_phase_health = boss.phase_health;
        boss
    }

    /// Score awarded for depleting one phase: a base of 1500 (giant
    /// asteroid) or 2000 (mothership), times the phase.
    pub fn points_value(&self) -> (r: u32)
        requires
            self.wf(),
        ensures
            r == self.phase * match self.boss_type {
                BossType::GiantAsteroid => 1500u32,
                BossType::AlienMothership => 2000u32,
            },
    {
        let base: u32 = match self.boss_type {
            BossType::GiantAsteroid => 1500,
            BossType::AlienMothership => 2000,
        };
        base * self.phase
    }

    /// Advances to the next phase after a phase-health depletion: below the
    /// last phase it bumps the phase, refills the pool to
    /// `max_phase_health + 5 * new phase`, quickens the attack cadence and
    /// starts a 2.5 s transition pause, and reports true. At the last phase
    /// it changes nothing and reports false (the boss is defeated).
    pub fn advance_phase(&mut self) -> (advanced: bool)
        requires
            old(self).wf(),
        ensures
            advanced == (old(self).phase < old(self).max_phases),
            final(self).wf(),
            final(self).boss_type == old(self).boss_type,
            final(self).max_phases == old(self).max_phases,
            final(self).max_phase_health == old(self).max_phase_health,
            final(self).size_multiplier_permille == old(self).size_multiplier_permille,
            !advanced ==> *final(self) == *old(self),
            advanced ==> {
                &&& final(self).phase == old(self).phase + 1
                &&& final(self).phase_health == old(self).max_phase_health + final(self).phase
                    * 5
                &&& final(self).phase_health > old(self).max_phase_health
                &&& final(self).attack_timer == crate::timer::spec_new_timer(
                    spec_attack_interval_ms(final(self).phase), true)
                &&& final(self).phase_transition_timer == Some(crate::timer::spec_new_timer(
                    2500, false))
            },
    {
        if self.phase < self.max_phases {
            self.phase = self.phase + 1;
            self.phase_health = self.max_phase_health + self.phase * 5;
            self.phase_transition_timer = Some(Timer::new(2500, false));
            let raw: u32 = 1500000 / (800 * self.phase + 1000);
            let interval: u32 = if raw >= 300 {
                raw
            } else {
                300
            };
            self.attack_timer = Timer::new(interval, true);
            true
        } else {
            false
        }
    }

    /// Whether the post-transition pause window is still running.
    pub fn is_in_transition(&self) -> (r: bool)
        ensures
            r == match self.phase_transition_timer {
                Some(t) => !t.spec_finished(),
                None => false,
            },
    {
        match &self.phase_transition_timer {
            Some(t) => !t.finished(),
            None => false,
        }
    }

    /// The attack pattern of the current phase (see `spec_attack_pattern`).
    pub fn get_current_attack_pattern(&self) -> (r: AttackPattern)
        ensures
            r == spec_attack_pattern(self.boss_type, self.phase),
    {
        match self.boss_type {
            BossType::GiantAsteroid => {
                if self.phase == 1 {
                    AttackPattern::AsteroidRain
                } else if self.phase == 2 {
                    AttackPattern::CircularShot
                } else if self.phase == 3 {
                    AttackPattern::SpawnMinions
                } else {
                    AttackPattern::TargetedBarrage
                }
            },
            BossType::AlienMothership => {
                if self.phase == 1 {
                    AttackPattern::TargetedBarrage
                } else if self.phase == 2 {
                    AttackPattern::SpawnMinions
                } else if self.phase == 3 {
                    AttackPattern::CircularShot
                } else if self.phase == 4 {
                    AttackPattern::AsteroidRain
                } else {
                    AttackPattern::TargetedBarrage
                }
            },
        }
    }

    /// Cruise speed in world units per second: the giant asteroid gains 5
    /// per phase over a base of 20, the mothership 8 over 30.
    pub fn get_movement_speed(&self) -> (r: u32)
        requires
            self.wf(),
        ensures
            r == match self.boss_type {
                BossType::GiantAsteroid => 20 + self.phase * 5,
                BossType::AlienMothership => 30 + self.phase * 8,
            },
    {
        match self.boss_type {
            BossType::GiantAsteroid => 20 + self.phase * 5,
            BossType::AlienMothership => 30 + self.phase * 8,
        }
    }

    /// Ticks the attack timer and, when present, the transition-pause
    /// timer by one frame.
    pub fn tick_timers(&mut self, delta_ms: u32)
        requires
            old(self).wf(),
            old(self).attack_timer.wf(),
            old(self).phase_transition_timer matches Some(t) ==> t.wf(),
        ensures
            final(self).wf(),
            final(self).boss_type == old(self).boss_type,
            final(self).phase == old(self).phase,
            final(self).max_phases == old(self).max_phases,
            final(self).phase_health == old(self).phase_health,
            final(self).max_phase_health == old(self).max_phase_health,
            final(self).size_multiplier_permille == old(self).size_multiplier_permille,
            final(self).attack_timer == crate::timer::spec_tick(old(self).attack_timer,
                delta_ms),
            final(self).attack_timer.wf(),
            final(self).phase_transition_timer == match old(self).phase_transition_timer {
                None => None::<Timer>,
                Some(t) => Some(crate::timer::spec_tick(t, delta_ms)),
            },
            old(self).phase_transition_timer matches Some(t)
                ==> (final(self).phase_transition_timer matches Some(u) && u.wf()),
    {
        self.attack_timer.tick(delta_ms);
        match &mut self.phase_transition_timer {
            Some(t) => {
                t.tick(delta_ms);
            },
            None => {},
        }
    }
}

/// The running attack pattern of a boss, with the duration window after
/// which it is swapped for the phase's swap pattern.
pub struct BossAttackPattern {
    pub pattern_type: AttackPattern,
    pub pattern_timer: Timer,
}

/// How long one pattern runs before it is swapped, in milliseconds.
pub open spec fn spec_pattern_duration_ms(p: AttackPattern) -> u32 {
    match p {
        AttackPattern::CircularShot => 1000u32,
        AttackPattern::TargetedBarrage => 3000u32,
        AttackPattern::SpawnMinions => 2000u32,
        AttackPattern::AsteroidRain => 4000u32,
    }
}

/// The pattern swapped in when the running one expires: a fixed
/// phase-indexed table shared by both boss kinds, deliberately unlike the
/// phase-advance table, which is boss-specific.
pub open spec fn spec_swap_pattern(phase: u32) -> AttackPattern {
    if phase == 1 {
        AttackPattern::CircularShot
    } else if phase == 2 {
        AttackPattern::TargetedBarrage
    } else if phase == 3 {
        AttackPattern::SpawnMinions
    } else {
        AttackPattern::AsteroidRain
    }
}

impl BossAttackPattern {
    pub fn new(pattern_type: AttackPattern) -> (r: BossAttackPattern)
        ensures
            r.pattern_type == pattern_type,
            r.pattern_timer.duration_ms == spec_pattern_duration_ms(pattern_type),
            !r.pattern_timer.repeating,
            r.pattern_timer.elapsed_ms == 0,
            r.pattern_timer.wf(),
    {
        let duration: u32 = match pattern_type {
            AttackPattern::CircularShot => 1000,
            AttackPattern::TargetedBarrage => 3000,
            AttackPattern::SpawnMinions => 2000,
            AttackPattern::AsteroidRain => 4000,
        };
        BossAttackPattern { pattern_type, pattern_timer: Timer::new(duration, false) }
    }

    /// The pattern swapped in when this one's duration elapses.
    pub fn swap_pattern_for_phase(phase: u32) -> (r: AttackPattern)
        ensures
            r == spec_swap_pattern(phase),
    {
        if phase == 1 {
            AttackPattern::CircularShot
        } else if phase == 2 {
            AttackPattern::TargetedBarrage
        } else if phase == 3 {
            AttackPattern::SpawnMinions
        } else {
            AttackPattern::AsteroidRain
        }
    }
}

/// What one execution of an attack pattern does, in plain numbers. The
/// caller turns these into spawned entities; the angles and positions are
/// its concern.
pub enum BossAttackCommand {
    /// `bullet_count` bullets evenly spaced radially.
    CircularShot { bullet_count: u32, damage: u32, is_explosive: bool, speed_permille: u32 },
    /// `bullet_count` bullets in a spread cone toward the player;
    /// `spread_millirad` is the total cone width in milliradians.
    TargetedBarrage {
        bullet_count: u32,
        damage: u32,
        is_explosive: bool,
        speed_permille: u32,
        spread_millirad: u32,
    },
    /// One weak hunter-type minion with 1 health near the boss.
    SpawnMinions { minion_health: u32 },
    /// One small asteroid (size 2, 1 health) near the boss, launched toward
    /// the player at the given speed in units per second.
    AsteroidRain { asteroid_size: u32, asteroid_health: u32, launch_speed: u32 },
}

/// The numbers behind one execution of `pattern` at `phase`: bullet counts
/// grow with the phase (`6 + 2*phase` radial, `3 + phase` targeted), damage
/// and speed scale with it, and the barrage cone widens with it.
pub fn boss_attack_command(pattern: AttackPattern, phase: u32) -> (r: BossAttackCommand)
    requires
        1 <= phase <= 5,
    ensures
        r == match pattern {
            AttackPattern::CircularShot => (BossAttackCommand::CircularShot {
                bullet_count: (6 + phase * 2) as u32,
                damage: (2 + phase / 2) as u32,
                is_explosive: phase > 2,
                speed_permille: (600 + phase * 100) as u32,
            }),
            AttackPattern::TargetedBarrage => (BossAttackCommand::TargetedBarrage {
                bullet_count: (3 + phase) as u32,
                damage: (3 + phase / 2) as u32,
                is_explosive: phase > 1,
                speed_permille: (800 + phase * 100) as u32,
                spread_millirad: (400 + phase * 100) as u32,
            }),
            AttackPattern::SpawnMinions => (BossAttackCommand::SpawnMinions {
                minion_health: 1u32,
            }),
            AttackPattern::AsteroidRain => (BossAttackCommand::AsteroidRain {
                asteroid_size: 2u32,
                asteroid_health: 1u32,
                launch_speed: 80u32,
            }),
        },
{
    match pattern {
        AttackPattern::CircularShot => BossAttackCommand::CircularShot {
            bullet_count: 6 + phase * 2,
            damage: 2 + phase / 2,
            is_explosive: phase > 2,
            speed_permille: 600 + phase * 100,
        },
        AttackPattern::TargetedBarrage => BossAttackCommand::TargetedBarrage {
            bullet_count: 3 + phase,
            damage: 3 + phase / 2,
            is_explosive: phase > 1,
            speed_permille: 800 + phase * 100,
            spread_millirad: 400 + phase * 100,
        },
        AttackPattern::SpawnMinions => BossAttackCommand::SpawnMinions { minion_health: 1 },
        AttackPattern::AsteroidRain => BossAttackCommand::AsteroidRain {
            asteroid_size: 2,
            asteroid_health: 1,
            launch_speed: 80,
        },
    }
}

} // verus!
