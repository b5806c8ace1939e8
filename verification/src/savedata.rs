//! Persistent progress counters. Loading and storing the bytes is the
//! caller's concern; this is the record and the rules for updating it.

use vstd::prelude::*;

verus! {

/// The saved progress of a player: high score, accumulated play time (in
/// milliseconds), and lifetime counters.
pub struct SaveData {
    pub high_score: u32,
    pub total_play_time_ms: u64,
    pub games_played: u32,
    pub asteroids_destroyed: u32,
    pub power_ups_collected: u32,
    pub last_difficulty: &'static str,
}

impl SaveData {
    /// Fresh progress, as used when no saved record can be read.
    pub fn new() -> (r: SaveData)
        ensures
            r.high_score == 0,
            r.total_play_time_ms == 0,
            r.games_played == 0,
            r.asteroids_destroyed == 0,
            r.power_ups_collected == 0,
    {
        SaveData {
            high_score: 0,
            total_play_time_ms: 0,
            games_played: 0,
            asteroids_destroyed: 0,
            power_ups_collected: 0,
            last_difficulty: "Normal",
        }
    }

    /// Raises the high score to `new_score` if it beats the record.
    pub fn update_high_score(&mut self, new_score: u32)
        ensures
            final(self).high_score == if new_score > old(self).high_score {
                new_score
            } else {
                old(self).high_score
            },
            final(self).total_play_time_ms == old(self).total_play_time_ms,
            final(self).games_played == old(self).games_played,
            final(self).asteroids_destroyed == old(self).asteroids_destroyed,
            final(self).power_ups_collected == old(self).power_ups_collected,
            final(self).last_difficulty == old(self).last_difficulty,
    {
        if new_score > self.high_score {
            self.high_score = new_score;
        }
    }

    /// Counts one finished round, saturating at the ceiling.
    pub fn increment_games_played(&mut self)
        ensures
            final(self).games_played == if old(self).games_played < u32::MAX {
                old(self).games_played + 1
            } else {
                u32::MAX as int
            },
            final(self).high_score == old(self).high_score,
    {
        if self.games_played < u32::MAX {
            self.games_played = self.games_played + 1;
        }
    }

    /// Adds destroyed asteroids to the lifetime count, saturating.
    pub fn add_asteroids_destroyed(&mut self, count: u32)
        ensures
            final(self).asteroids_destroyed == if old(self).asteroids_destroyed + count
                <= u32::MAX {
                old(self).asteroids_destroyed + count
            } else {
                u32::MAX as int
            },
            final(self).high_score == old(self).high_score,
    {
        self.asteroids_destroyed = if self.asteroids_destroyed <= u32::MAX - count {
            self.asteroids_destroyed + count
        } else {
            u32::MAX
        };
    }

    /// Counts one collected power-up, saturating.
    pub fn increment_power_ups_collected(&mut self)
        ensures
            final(self).power_ups_collected == if old(self).power_ups_collected < u32::MAX {
                old(self).power_ups_collected + 1
            } else {
                u32::MAX as int
            },
            final(self).high_score == old(self).high_score,
    {
        if self.power_ups_collected < u32::MAX {
            self.power_ups_collected = self.power_ups_collected + 1;
        }
    }

    /// Adds play time, saturating.
    pub fn add_play_time_ms(&mut self, time_ms: u64)
        ensures
            final(self).total_play_time_ms == if old(self).total_play_time_ms + time_ms
                <= u64::MAX {
                old(self).total_play_time_ms + time_ms
            } else {
                u64::MAX as int
            },
            final(self).high_score == old(self).high_score,
    {
        self.total_play_time_ms = if self.total_play_time_ms <= u64::MAX - time_ms {
            self.total_play_time_ms + time_ms
        } else {
            u64::MAX
        };
    }
}

impl Default for SaveData {
    /// Fresh progress (see `new`).
    fn default() -> (r: SaveData)
        ensures
            r.high_score == 0,
            r.total_play_time_ms == 0,
            r.games_played == 0,
            r.asteroids_destroyed == 0,
            r.power_ups_collected == 0,
    {
        SaveData::new()
    }
}

} // verus!
