//! Difficulty presets: spawn cadence and the multiplier table applied to
//! speeds, health and damage, all in thousandths.

use vstd::prelude::*;

verus! {

/// One difficulty preset. Multipliers are in thousandths (1000 = unscaled);
/// the spawn interval is in milliseconds.
pub struct DifficultySettings {
    pub name: &'static str,
    /// Milliseconds between asteroid spawns.
    pub asteroid_spawn_interval_ms: u32,
    pub asteroid_speed_multiplier_permille: u32,
    pub player_speed_multiplier_permille: u32,
    pub bullet_speed_multiplier_permille: u32,
    pub enemy_health_multiplier_permille: u32,
    pub enemy_speed_multiplier_permille: u32,
    pub enemy_damage_multiplier_permille: u32,
    pub boss_health_multiplier_permille: u32,
}

impl DifficultySettings {
    /// Every multiplier stays in a sane band, so scaled quantities fit
    /// their types.
    pub open spec fn wf(self) -> bool {
        &&& 100 <= self.asteroid_spawn_interval_ms <= 10000
        &&& 100 <= self.asteroid_speed_multiplier_permille <= 10000
        &&& 100 <= self.player_speed_multiplier_permille <= 10000
        &&& 100 <= self.bullet_speed_multiplier_permille <= 10000
        &&& 100 <= self.enemy_health_multiplier_permille <= 10000
        &&& 100 <= self.enemy_speed_multiplier_permille <= 10000
        &&& 100 <= self.enemy_damage_multiplier_permille <= 10000
        &&& 100 <= self.boss_health_multiplier_permille <= 10000
    }

    /// Slow spawns, weakened enemies.
    pub fn easy() -> (r: DifficultySettings)
        ensures
            r.asteroid_spawn_interval_ms == 2000,
            r.asteroid_speed_multiplier_permille == 1000,
            r.player_speed_multiplier_permille == 1000,
            r.bullet_speed_multiplier_permille == 1000,
            r.enemy_health_multiplier_permille == 700,
            r.enemy_speed_multiplier_permille == 800,
            r.enemy_damage_multiplier_permille == 800,
            r.boss_health_multiplier_permille == 700,
            r.wf(),
    {
        DifficultySettings {
            name: "Easy",
            asteroid_spawn_interval_ms: 2000,
            asteroid_speed_multiplier_permille: 1000,
            player_speed_multiplier_permille: 1000,
            bullet_speed_multiplier_permille: 1000,
            enemy_health_multiplier_permille: 700,
            enemy_speed_multiplier_permille: 800,
            enemy_damage_multiplier_permille: 800,
            boss_health_multiplier_permille: 700,
        }
    }

    /// The baseline preset.
    pub fn normal() -> (r: DifficultySettings)
        ensures
            r.asteroid_spawn_interval_ms == 750,
            r.asteroid_speed_multiplier_permille == 2000,
            r.player_speed_multiplier_permille == 600,
            r.bullet_speed_multiplier_permille == 800,
            r.enemy_health_multiplier_permille == 1000,
            r.enemy_speed_multiplier_permille == 1000,
            r.enemy_damage_multiplier_permille == 1000,
            r.boss_health_multiplier_permille == 1000,
            r.wf(),
    {
        DifficultySettings {
            name: "Normal",
            asteroid_spawn_interval_ms: 750,
            asteroid_speed_multiplier_permille: 2000,
            player_speed_multiplier_permille: 600,
            bullet_speed_multiplier_permille: 800,
            enemy_health_multiplier_permille: 1000,
            enemy_speed_multiplier_permille: 1000,
            enemy_damage_multiplier_permille: 1000,
            boss_health_multiplier_permille: 1000,
        }
    }

    /// Faster spawns, hardened enemies.
    pub fn hard() -> (r: DifficultySettings)
        ensures
            r.asteroid_spawn_interval_ms == 400,
            r.asteroid_speed_multiplier_permille == 2500,
            r.player_speed_multiplier_permille == 500,
            r.bullet_speed_multiplier_permille == 700,
            r.enemy_health_multiplier_permille == 1300,
            r.enemy_speed_multiplier_permille == 1200,
            r.enemy_damage_multiplier_permille == 1300,
            r.boss_health_multiplier_permille == 1400,
            r.wf(),
    {
        DifficultySettings {
            name: "Hard",
            asteroid_spawn_interval_ms: 400,
            asteroid_speed_multiplier_permille: 2500,
            player_speed_multiplier_permille: 500,
            bullet_speed_multiplier_permille: 700,
            enemy_health_multiplier_permille: 1300,
            enemy_speed_multiplier_permille: 1200,
            enemy_damage_multiplier_permille: 1300,
            boss_health_multiplier_permille: 1400,
        }
    }

    /// The hardest preset.
    pub fn insane() -> (r: DifficultySettings)
        ensures
            r.asteroid_spawn_interval_ms == 200,
            r.asteroid_speed_multiplier_permille == 3000,
            r.player_speed_multiplier_permille == 400,
            r.bullet_speed_multiplier_permille == 600,
            r.enemy_health_multiplier_permille == 1600,
            r.enemy_speed_multiplier_permille == 1500,
            r.enemy_damage_multiplier_permille == 1500,
            r.boss_health_multiplier_permille == 1800,
            r.wf(),
    {
        DifficultySettings {
            name: "Insane",
            asteroid_spawn_interval_ms: 200,
            asteroid_speed_multiplier_permille: 3000,
            player_speed_multiplier_permille: 400,
            bullet_speed_multiplier_permille: 600,
            enemy_health_multiplier_permille: 1600,
            enemy_speed_multiplier_permille: 1500,
            enemy_damage_multiplier_permille: 1500,
            boss_health_multiplier_permille: 1800,
        }
    }

    /// The preset's display name.
    pub fn get_name(&self) -> (r: &'static str) {
        self.name
    }
}

impl Default for DifficultySettings {
    /// The baseline preset.
    fn default() -> (r: DifficultySettings)
        ensures
            r.asteroid_spawn_interval_ms == 750,
            r.boss_health_multiplier_permille == 1000,
            r.wf(),
    {
        DifficultySettings::normal()
    }
}

} // verus!
