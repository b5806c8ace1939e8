//! Macro-phase of a round: normal play or a boss encounter, with the
//! asteroid-spawn damping that the encounter brings.

use vstd::prelude::*;
use crate::timer::Timer;

verus! {

/// The top-level states of the program, menu screens included.
#[derive(Clone, Copy, Debug, PartialEq, Eq, Hash, Structural)]
pub enum GameState {
    MainMenu,
    Settings,
    DifficultySelect,
    Playing,
    Paused,
    GameOver,
}

impl Default for GameState {
    /// The program opens on the main menu.
    fn default() -> (r: GameState)
        ensures
            r == GameState::MainMenu,
    {
        GameState::MainMenu
    }
}

/// The state after the pause key: play and pause toggle into each other;
/// every other state ignores the key.
pub fn toggle_pause(state: GameState) -> (r: GameState)
    ensures
        state == GameState::Playing ==> r == GameState::Paused,
        state == GameState::Paused ==> r == GameState::Playing,
        state != GameState::Playing && state != GameState::Paused ==> r == state,
{
    match state {
        GameState::Playing => GameState::Paused,
        GameState::Paused => GameState::Playing,
        other => other,
    }
}

/// The two macro-phases of a round.
#[derive(Clone, Copy, Debug, PartialEq, Eq, Structural)]
pub enum GamePhase {
    /// Regular play: asteroids and regular enemies.
    Normal,
    /// A boss is present: asteroid spawns are damped.
    BossEncounter,
}

/// Cached projection of "is any boss alive", with the spawn multiplier it
/// implies. The phase is re-derived each frame from the boss count; this
/// struct only carries it between systems.
pub struct GamePhaseManager {
    pub current_phase: GamePhase,
    pub phase_transition_timer: Option<Timer>,
    /// Asteroid spawn-rate multiplier in thousandths: 1000 in normal play,
    /// 300 during a boss encounter.
    pub asteroid_spawn_multiplier_permille: u32,
}

impl GamePhaseManager {
    /// The multiplier always matches the phase.
    pub open spec fn wf(self) -> bool {
        self.asteroid_spawn_multiplier_permille == match self.current_phase {
            GamePhase::Normal => 1000u32,
            GamePhase::BossEncounter => 300u32,
        }
    }

    /// A round starts in normal play at full spawn rate.
    pub fn new() -> (r: GamePhaseManager)
        ensures
            r.current_phase == GamePhase::Normal,
            r.phase_transition_timer is None,
            r.asteroid_spawn_multiplier_permille == 1000,
            r.wf(),
    {
        GamePhaseManager {
            current_phase: GamePhase::Normal,
            phase_transition_timer: None,
            asteroid_spawn_multiplier_permille: 1000,
        }
    }

    /// Enters the boss encounter: damps asteroid spawns to 30% and starts a
    /// 1 s transition. Already in the encounter, the call changes nothing.
    pub fn enter_boss_encounter(&mut self)
        ensures
            old(self).current_phase == GamePhase::BossEncounter ==> *final(self) == *old(self),
            old(self).current_phase != GamePhase::BossEncounter ==> {
                &&& final(self).current_phase == GamePhase::BossEncounter
                &&& final(self).asteroid_spawn_multiplier_permille == 300
                &&& final(self).phase_transition_timer matches Some(t) && t.duration_ms == 1000
                    && !t.repeating && t.elapsed_ms == 0
            },
            final(self).wf() == (old(self).current_phase == GamePhase::BossEncounter
                ==> old(self).wf()),
    {
        if self.current_phase != GamePhase::BossEncounter {
            self.current_phase = GamePhase::BossEncounter;
            self.asteroid_spawn_multiplier_permille = 300;
            self.phase_transition_timer = Some(Timer::new(1000, false));
        }
    }

    /// Returns to normal play at full spawn rate, with a 0.5 s transition.
    /// Already in normal play, the call changes nothing.
    pub fn enter_normal_phase(&mut self)
        ensures
            old(self).current_phase == GamePhase::Normal ==> *final(self) == *old(self),
            old(self).current_phase != GamePhase::Normal ==> {
                &&& final(self).current_phase == GamePhase::Normal
                &&& final(self).asteroid_spawn_multiplier_permille == 1000
                &&& final(self).phase_transition_timer matches Some(t) && t.duration_ms == 500
                    && !t.repeating && t.elapsed_ms == 0
            },
            final(self).wf() == (old(self).current_phase == GamePhase::Normal ==> old(
                self).wf()),
    {
        if self.current_phase != GamePhase::Normal {
            self.current_phase = GamePhase::Normal;
            self.asteroid_spawn_multiplier_permille = 1000;
            self.phase_transition_timer = Some(Timer::new(500, false));
        }
    }

    /// Whether a phase transition is still playing out.
    pub fn is_transitioning(&self) -> (r: bool)
        requires
            self.phase_transition_timer matches Some(t) ==> !t.repeating,
        ensures
            r == match self.phase_transition_timer {
                Some(t) => t.elapsed_ms < t.duration_ms,
                None => false,
            },
    {
        match &self.phase_transition_timer {
            Some(t) => !t.finished(),
            None => false,
        }
    }

    /// Ticks the transition timer and drops it once it has elapsed.
    pub fn update(&mut self, delta_ms: u32)
        requires
            old(self).phase_transition_timer matches Some(t) ==> t.wf(),
        ensures
            final(self).current_phase == old(self).current_phase,
            final(self).asteroid_spawn_multiplier_permille == old(
                self).asteroid_spawn_multiplier_permille,
            final(self).phase_transition_timer == match old(self).phase_transition_timer {
                None => None::<Timer>,
                Some(t) => if crate::timer::spec_tick(t, delta_ms).spec_finished() {
                    None::<Timer>
                } else {
                    Some(crate::timer::spec_tick(t, delta_ms))
                },
            },
            final(self).phase_transition_timer matches Some(u) ==> u.wf(),
            old(self).wf() ==> final(self).wf(),
    {
        let finished = match &mut self.phase_transition_timer {
            Some(t) => {
                t.tick(delta_ms);
                t.finished()
            },
            None => false,
        };
        if finished {
            self.phase_transition_timer = None;
        }
    }
}


impl Default for GamePhaseManager {
    /// Normal play at full spawn rate.
    fn default() -> (r: GamePhaseManager)
        ensures
            r.current_phase == GamePhase::Normal,
            r.phase_transition_timer is None,
            r.asteroid_spawn_multiplier_permille == 1000,
            r.wf(),
    {
        GamePhaseManager::new()
    }
}

/// Derives the macro-phase from the number of live bosses, each frame: no
/// boss during an encounter ends it (and, as a safety net, clears the
/// spawn manager's active-boss handle, so a boss lost by any means never
/// blocks future spawns), a boss during normal play begins one.
pub fn sync_with_boss_count(
    manager: &mut GamePhaseManager,
    boss_manager: &mut crate::spawn::BossSpawnManager,
    boss_count: usize,
)
    ensures
        boss_count == 0 && old(manager).current_phase == GamePhase::BossEncounter ==> {
            &&& final(manager).current_phase == GamePhase::Normal
            &&& final(manager).asteroid_spawn_multiplier_permille == 1000
        },
        boss_count == 0 ==> final(boss_manager).active_boss is None,
        boss_count > 0 ==> *final(boss_manager) == *old(boss_manager),
        final(boss_manager).bosses_spawned@ == old(boss_manager).bosses_spawned@,
        boss_count > 0 && old(manager).current_phase == GamePhase::Normal ==> {
            &&& final(manager).current_phase == GamePhase::BossEncounter
            &&& final(manager).asteroid_spawn_multiplier_permille == 300
        },
        (boss_count == 0) == (old(manager).current_phase == GamePhase::Normal)
            ==> *final(manager) == *old(manager),
        old(manager).wf() ==> final(manager).wf(),
{
    if boss_count == 0 {
        if self_is_boss_encounter(manager) {
            manager.enter_normal_phase();
        }
        boss_manager.clear_active_boss();
    } else if !self_is_boss_encounter(manager) {
        manager.enter_boss_encounter();
    }
}

/// Whether the manager currently records a boss encounter.
fn self_is_boss_encounter(manager: &GamePhaseManager) -> (r: bool)
    ensures
        r == (manager.current_phase == GamePhase::BossEncounter),
{
    match manager.current_phase {
        GamePhase::BossEncounter => true,
        GamePhase::Normal => false,
    }
}
} // verus!
