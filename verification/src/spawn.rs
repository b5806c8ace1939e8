//! Spawning policy: when and what to spawn, at which screen edge, and the
//! fragments a destroyed asteroid leaves behind.

use vstd::prelude::*;
use crate::asteroid::AsteroidType;
use crate::asteroid::spec_fragment_count;
use crate::asteroid::spec_max_health;
use crate::asteroid::valid_size;
use crate::boss::BossType;
use crate::enemy::EnemyType;
use crate::powerups::PowerUpType;
use crate::rng::rand_u32_below;
use crate::timer::Timer;

verus! {

/// The four screen edges an off-screen spawn can come from.
#[derive(Clone, Copy, Debug, PartialEq, Eq, Structural)]
pub enum SpawnEdge {
    Top,
    Right,
    Bottom,
    Left,
}

/// The edge a uniform draw in `0..4` selects.
pub fn pick_edge(roll: u32) -> (r: SpawnEdge)
    requires
        roll < 4,
    ensures
        r == if roll == 0 {
            SpawnEdge::Top
        } else if roll == 1 {
            SpawnEdge::Right
        } else if roll == 2 {
            SpawnEdge::Bottom
        } else {
            SpawnEdge::Left
        },
{
    if roll == 0 {
        SpawnEdge::Top
    } else if roll == 1 {
        SpawnEdge::Right
    } else if roll == 2 {
        SpawnEdge::Bottom
    } else {
        SpawnEdge::Left
    }
}

/// A uniformly drawn screen edge.
pub fn random_edge() -> (r: SpawnEdge) {
    let roll = rand_u32_below(4);
    pick_edge(roll)
}

/// The repeating asteroid spawn cadence.
pub struct AsteroidSpawnTimer {
    pub timer: Timer,
}

impl AsteroidSpawnTimer {
    pub fn new(interval_ms: u32) -> (r: AsteroidSpawnTimer)
        ensures
            r.timer.duration_ms == interval_ms,
            r.timer.repeating,
            r.timer.elapsed_ms == 0,
            r.timer.wf(),
    {
        AsteroidSpawnTimer { timer: Timer::new(interval_ms, true) }
    }

    /// Ticks the cadence by the frame time damped by the phase manager's
    /// spawn multiplier (in thousandths) and reports whether a spawn is
    /// due this frame.
    pub fn spawn_due(&mut self, delta_ms: u32, spawn_multiplier_permille: u32) -> (r: bool)
        requires
            old(self).timer.wf(),
            spawn_multiplier_permille <= 1000,
        ensures
            final(self).timer == crate::timer::spec_tick(old(self).timer,
                (delta_ms * spawn_multiplier_permille / 1000) as u32),
            final(self).timer.wf(),
            r == final(self).timer.spec_finished(),
            old(self).timer.repeating && old(self).timer.duration_ms > 0 ==> r == (
            old(self).timer.elapsed_ms + (delta_ms * spawn_multiplier_permille / 1000)
                >= old(self).timer.duration_ms),
    {
        proof {
            assert((delta_ms as int) * (spawn_multiplier_permille as int) <= u32::MAX as int
                * 1000) by (nonlinear_arith)
                requires
                    spawn_multiplier_permille <= 1000,
                    delta_ms <= u32::MAX,
            ;
        }
        let effective: u64 = delta_ms as u64 * spawn_multiplier_permille as u64 / 1000;
        self.timer.tick(effective as u32);
        self.timer.finished()
    }
}

/// The enemy spawn triggers: a repeating 10 s timer, or a 300-point score
/// advance since the last spawn, whichever comes first. The score watermark
/// moves on every spawn so the two triggers cannot double-fire for one
/// crossing.
pub struct EnemySpawnTimer {
    pub timer: Timer,
    pub last_spawn_score: u32,
    pub spawn_score_interval: u32,
}

impl EnemySpawnTimer {
    pub fn new() -> (r: EnemySpawnTimer)
        ensures
            r.timer.duration_ms == 10000,
            r.timer.repeating,
            r.timer.elapsed_ms == 0,
            r.timer.wf(),
            r.last_spawn_score == 0,
            r.spawn_score_interval == 300,
    {
        EnemySpawnTimer { timer: Timer::new(10000, true), last_spawn_score: 0,
            spawn_score_interval: 300 }
    }

    /// Ticks the timer and decides whether an enemy spawns this frame:
    /// either the timer completed a lap or the score has advanced past the
    /// watermark by a full interval. On a spawn the watermark moves to the
    /// current score; at most one enemy spawns per call whatever fired.
    pub fn spawn_due(&mut self, delta_ms: u32, score: u32) -> (r: bool)
        requires
            old(self).timer.wf(),
            old(self).timer.repeating,
            old(self).timer.duration_ms > 0,
        ensures
            final(self).timer == crate::timer::spec_tick(old(self).timer, delta_ms),
            final(self).timer.wf(),
            final(self).spawn_score_interval == old(self).spawn_score_interval,
            r == (old(self).timer.elapsed_ms + delta_ms >= old(self).timer.duration_ms
                || score >= old(self).last_spawn_score + old(self).spawn_score_interval),
            r ==> final(self).last_spawn_score == score,
            !r ==> final(self).last_spawn_score == old(self).last_spawn_score,
    {
        self.timer.tick(delta_ms);
        let score_trigger = score as u64 >= self.last_spawn_score as u64
            + self.spawn_score_interval as u64;
        let due = self.timer.finished() || score_trigger;
        if due {
            self.last_spawn_score = score;
        }
        due
    }
}

impl Default for EnemySpawnTimer {
    /// The stock cadence: ten seconds or 300 points.
    fn default() -> (r: EnemySpawnTimer)
        ensures
            r.timer.duration_ms == 10000,
            r.timer.repeating,
            r.timer.elapsed_ms == 0,
            r.timer.wf(),
            r.last_spawn_score == 0,
            r.spawn_score_interval == 300,
    {
        EnemySpawnTimer::new()
    }
}

/// The enemy kind a score bracket and two draws select: hunters only below
/// 1000 points, a 70/30 hunter/bomber mix below 3000, a uniform three-way
/// split above.
pub open spec fn spec_choose_enemy_type(score: u32, bomber_roll_permille: u32, triple_roll: u32)
    -> EnemyType {
    if score < 1000 {
        EnemyType::Hunter
    } else if score < 3000 {
        if bomber_roll_permille < 700 {
            EnemyType::Hunter
        } else {
            EnemyType::Bomber
        }
    } else {
        if triple_roll == 0 {
            EnemyType::Hunter
        } else if triple_roll == 1 {
            EnemyType::Bomber
        } else {
            EnemyType::Interceptor
        }
    }
}

/// The enemy kind for the current score and the given draws (see
/// `spec_choose_enemy_type`).
pub fn choose_enemy_type(score: u32, bomber_roll_permille: u32, triple_roll: u32) -> (
    r: EnemyType)
    ensures
        r == spec_choose_enemy_type(score, bomber_roll_permille, triple_roll),
{
    if score < 1000 {
        EnemyType::Hunter
    } else if score < 3000 {
        if bomber_roll_permille < 700 {
            EnemyType::Hunter
        } else {
            EnemyType::Bomber
        }
    } else {
        if triple_roll == 0 {
            EnemyType::Hunter
        } else if triple_roll == 1 {
            EnemyType::Bomber
        } else {
            EnemyType::Interceptor
        }
    }
}

/// Draws the enemy kind for the current score. Below 1000 points only
/// hunters come; below 3000 never an interceptor.
pub fn random_enemy_type(score: u32) -> (r: EnemyType)
    ensures
        score < 1000 ==> r == EnemyType::Hunter,
        score < 3000 ==> r != EnemyType::Interceptor,
{
    let bomber_roll = rand_u32_below(1000);
    let triple_roll = rand_u32_below(3);
    choose_enemy_type(score, bomber_roll, triple_roll)
}

/// Tracks which bosses have been spawned and whether one is active, with
/// the score gates for each kind.
pub struct BossSpawnManager {
    pub bosses_spawned: Vec<BossType>,
    /// Entity handle of the live boss, when one is active.
    pub active_boss: Option<u64>,
}

impl BossSpawnManager {
    pub fn new() -> (r: BossSpawnManager)
        ensures
            r.bosses_spawned@.len() == 0,
            r.active_boss is None,
    {
        BossSpawnManager { bosses_spawned: Vec::new(), active_boss: None }
    }

    /// Whether `t` was already spawned this round.
    pub fn was_spawned(&self, t: BossType) -> (r: bool)
        ensures
            r == self.bosses_spawned@.contains(t),
    {
        let mut i: usize = 0;
        while i < self.bosses_spawned.len()
            invariant
                0 <= i <= self.bosses_spawned@.len(),
                forall|j: int| 0 <= j < i ==> self.bosses_spawned@[j] != t,
            decreases self.bosses_spawned@.len() - i,
        {
            if self.bosses_spawned[i] == t {
                return true;
            }
            i += 1;
        }
        false
    }

    /// The next boss owed at this score: the giant asteroid once 2000
    /// points are reached, the mothership once 5000 are, each at most once
    /// per round and only while no boss is active.
    pub fn should_spawn_boss(&self, score: u32) -> (r: Option<BossType>)
        ensures
            r == if score >= 2000 && !self.bosses_spawned@.contains(BossType::GiantAsteroid)
                && self.active_boss is None {
                Some(BossType::GiantAsteroid)
            } else if score >= 5000 && !self.bosses_spawned@.contains(
                BossType::AlienMothership) && self.active_boss is None {
                Some(BossType::AlienMothership)
            } else {
                None::<BossType>
            },
    {
        if score >= 2000 && !self.was_spawned(BossType::GiantAsteroid)
            && self.active_boss.is_none() {
            return Some(BossType::GiantAsteroid);
        }
        if score >= 5000 && !self.was_spawned(BossType::AlienMothership)
            && self.active_boss.is_none() {
            return Some(BossType::AlienMothership);
        }
        None
    }

    /// Records a spawned boss and makes it the active one.
    pub fn mark_boss_spawned(&mut self, boss_type: BossType, entity: u64)
        ensures
            final(self).bosses_spawned@ == old(self).bosses_spawned@.push(boss_type),
            final(self).active_boss == Some(entity),
    {
        self.bosses_spawned.push(boss_type);
        self.active_boss = Some(entity);
    }

    /// Clears the active boss (it was defeated or despawned).
    pub fn clear_active_boss(&mut self)
        ensures
            final(self).bosses_spawned@ == old(self).bosses_spawned@,
            final(self).active_boss is None,
    {
        self.active_boss = None;
    }
}

impl Default for BossSpawnManager {
    /// No boss spawned or active yet.
    fn default() -> (r: BossSpawnManager)
        ensures
            r.bosses_spawned@.len() == 0,
            r.active_boss is None,
    {
        BossSpawnManager::new()
    }
}

/// One fragment a destroyed asteroid leaves: its size, subtype and
/// starting health.
pub struct FragmentSpawn {
    pub size: u32,
    pub asteroid_type: AsteroidType,
    pub health: u32,
}

/// The fragments a destroyed asteroid of the given size and subtype leaves
/// behind: none at size 1; otherwise the destroyed asteroid's fragment
/// count of children one size smaller, inheriting the subtype except that
/// each ice fragment has a 30% chance to degrade to plain rock.
pub fn plan_fragments(parent_size: u32, parent_type: AsteroidType) -> (r: Vec<FragmentSpawn>)
    requires
        valid_size(parent_size),
    ensures
        parent_size <= 1 ==> r@.len() == 0,
        parent_size > 1 ==> r@.len() == spec_fragment_count(parent_size, parent_type),
        forall|k: int| 0 <= k < r@.len() ==> (#[trigger] r@[k]).size == parent_size - 1,
        forall|k: int|
            0 <= k < r@.len() ==> (#[trigger] r@[k]).asteroid_type == parent_type || (
            parent_type == AsteroidType::Ice && r@[k].asteroid_type == AsteroidType::Normal),
        forall|k: int|
            0 <= k < r@.len() ==> (#[trigger] r@[k]).health == spec_max_health(
                (parent_size - 1) as u32, r@[k].asteroid_type),
{
    let mut fragments: Vec<FragmentSpawn> = Vec::new();
    if parent_size > 1 {
        let fragment_size = parent_size - 1;
        let count = crate::asteroid::Asteroid::new(parent_size, parent_type).fragment_count();
        let mut i: u32 = 0;
        while i < count
            invariant
                0 <= i <= count,
                fragments@.len() == i,
                2 <= parent_size <= 10,
                fragment_size == parent_size - 1,
                forall|k: int|
                    0 <= k < fragments@.len() ==> (#[trigger] fragments@[k]).size
                        == parent_size - 1,
                forall|k: int|
                    0 <= k < fragments@.len() ==> (#[trigger] fragments@[k]).asteroid_type
                        == parent_type || (parent_type == AsteroidType::Ice
                        && fragments@[k].asteroid_type == AsteroidType::Normal),
                forall|k: int|
                    0 <= k < fragments@.len() ==> (#[trigger] fragments@[k]).health
                        == spec_max_health((parent_size - 1) as u32,
                        fragments@[k].asteroid_type),
            decreases count - i,
        {
            let fragment_type = match parent_type {
                AsteroidType::Ice => {
                    if rand_u32_below(1000) < 300 {
                        AsteroidType::Normal
                    } else {
                        AsteroidType::Ice
                    }
                },
                _ => parent_type,
            };
            let child = crate::asteroid::Asteroid::new(fragment_size, fragment_type);
            let health = child.max_health();
            fragments.push(FragmentSpawn { size: fragment_size, asteroid_type: fragment_type,
                health });
            i += 1;
        }
    }
    fragments
}

/// The power-up cadence: a 10-second repeating window with a 70% trigger
/// chance.
pub struct PowerUpSpawnTimer {
    pub timer: Timer,
}

impl PowerUpSpawnTimer {
    pub fn new() -> (r: PowerUpSpawnTimer)
        ensures
            r.timer.duration_ms == 10000,
            r.timer.repeating,
            r.timer.elapsed_ms == 0,
            r.timer.wf(),
    {
        PowerUpSpawnTimer { timer: Timer::new(10000, true) }
    }

    /// Ticks the cadence; a spawn happens only on the ticks that complete
    /// the window, and then with 70% probability.
    pub fn spawn_due(&mut self, delta_ms: u32) -> (r: bool)
        requires
            old(self).timer.wf(),
        ensures
            final(self).timer == crate::timer::spec_tick(old(self).timer, delta_ms),
            final(self).timer.wf(),
            !final(self).timer.spec_finished() ==> !r,
    {
        self.timer.tick(delta_ms);
        if self.timer.finished() && self.timer.repeating {
            rand_u32_below(1000) < 700
        } else {
            false
        }
    }
}

impl Default for PowerUpSpawnTimer {
    /// The stock ten-second window.
    fn default() -> (r: PowerUpSpawnTimer)
        ensures
            r.timer.duration_ms == 10000,
            r.timer.repeating,
            r.timer.elapsed_ms == 0,
            r.timer.wf(),
    {
        PowerUpSpawnTimer::new()
    }
}

/// The power-up kind a uniform draw in `0..5` selects.
pub fn pick_powerup(roll: u32) -> (r: PowerUpType)
    requires
        roll < 5,
    ensures
        r == if roll == 0 {
            PowerUpType::MultiShot
        } else if roll == 1 {
            PowerUpType::RapidFire
        } else if roll == 2 {
            PowerUpType::PiercingBullets
        } else if roll == 3 {
            PowerUpType::ExplosiveBullets
        } else {
            PowerUpType::LaserBeam
        },
{
    if roll == 0 {
        PowerUpType::MultiShot
    } else if roll == 1 {
        PowerUpType::RapidFire
    } else if roll == 2 {
        PowerUpType::PiercingBullets
    } else if roll == 3 {
        PowerUpType::ExplosiveBullets
    } else {
        PowerUpType::LaserBeam
    }
}

/// A uniformly drawn power-up kind.
pub fn spawn_random_powerup() -> (r: PowerUpType) {
    let roll = rand_u32_below(5);
    pick_powerup(roll)
}

} // verus!
