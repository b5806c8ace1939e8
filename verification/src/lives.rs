//! Player lives, the invincibility window, and the hit resolution that
//! combines them.

use vstd::prelude::*;
use crate::timer::Timer;

verus! {

/// The player's remaining lives.
pub struct PlayerLives {
    pub lives: u32,
    pub max_lives: u32,
}

impl PlayerLives {
    pub fn new(lives: u32) -> (r: PlayerLives)
        ensures
            r.lives == lives,
            r.max_lives == lives,
    {
        PlayerLives { lives, max_lives: lives }
    }

    /// Removes one life (never below zero) and reports whether the game is
    /// over, i.e. whether no lives remain after the hit.
    pub fn lose_life(&mut self) -> (game_over: bool)
        ensures
            final(self).max_lives == old(self).max_lives,
            final(self).lives == if old(self).lives > 0 {
                old(self).lives - 1
            } else {
                0
            },
            game_over == (final(self).lives == 0),
    {
        if self.lives > 0 {
            self.lives = self.lives - 1;
        }
        self.lives == 0
    }

    /// True when no lives remain.
    pub fn is_game_over(&self) -> (r: bool)
        ensures
            r == (self.lives == 0),
    {
        self.lives == 0
    }
}

/// The grace window after a hit: while it runs, further hits are ignored.
pub struct Invincibility {
    pub timer: Timer,
}

/// The default grace window after a hit, in milliseconds.
pub const INVINCIBILITY_MS: u32 = 2000;

impl Invincibility {
    pub fn new(duration_ms: u32) -> (r: Invincibility)
        ensures
            r.timer.duration_ms == duration_ms,
            r.timer.elapsed_ms == 0,
            !r.timer.repeating,
            r.timer.wf(),
    {
        Invincibility { timer: Timer::new(duration_ms, false) }
    }

    /// The standard 2-second window.
    pub fn new_default() -> (r: Invincibility)
        ensures
            r.timer.duration_ms == INVINCIBILITY_MS,
            r.timer.elapsed_ms == 0,
            !r.timer.repeating,
            r.timer.wf(),
    {
        Invincibility::new(INVINCIBILITY_MS)
    }

    /// Whether the window is still running.
    pub fn is_active(&self) -> (r: bool)
        requires
            !self.timer.repeating,
        ensures
            r == (self.timer.elapsed_ms < self.timer.duration_ms),
    {
        !self.timer.finished()
    }
}

impl Default for PlayerLives {
    /// Three lives, as a round starts with.
    fn default() -> (r: PlayerLives)
        ensures
            r.lives == 3,
            r.max_lives == 3,
    {
        PlayerLives::new(3)
    }
}

impl Default for Invincibility {
    /// The standard 2-second window.
    fn default() -> (r: Invincibility)
        ensures
            r.timer.duration_ms == INVINCIBILITY_MS,
            r.timer.elapsed_ms == 0,
            !r.timer.repeating,
            r.timer.wf(),
    {
        Invincibility::new_default()
    }
}

/// What a player hit resolved to.
#[derive(Clone, Copy, Debug, PartialEq, Eq, Structural)]
pub enum PlayerHitOutcome {
    /// The invincibility window was active; nothing happened.
    Ignored,
    /// A life was lost and a fresh invincibility window is owed.
    LifeLost,
    /// The last life was lost: despawn the player, end the round.
    GameOver,
}

/// Whether this invincibility state still shields the player.
pub open spec fn spec_shielded(invincibility: Option<Invincibility>) -> bool {
    match invincibility {
        Some(inv) => inv.timer.elapsed_ms < inv.timer.duration_ms,
        None => false,
    }
}

/// The lives and outcome after one hazard contact: ignored under an active
/// window, one life drained otherwise, game over when none remain.
pub open spec fn spec_resolve_hit(lives: PlayerLives, invincibility: Option<Invincibility>) -> (
    PlayerLives, PlayerHitOutcome) {
    if spec_shielded(invincibility) {
        (lives, PlayerHitOutcome::Ignored)
    } else {
        let drained = PlayerLives {
            lives: if lives.lives > 0 {
                (lives.lives - 1) as u32
            } else {
                0u32
            },
            max_lives: lives.max_lives,
        };
        if drained.lives == 0 {
            (drained, PlayerHitOutcome::GameOver)
        } else {
            (drained, PlayerHitOutcome::LifeLost)
        }
    }
}

/// Resolves one hazard contact against the player: a hit under an active
/// invincibility window is ignored; otherwise a life is drained, and the
/// outcome says whether to grant a fresh window or to end the round.
pub fn resolve_player_hit(lives: &mut PlayerLives, invincibility: &Option<Invincibility>) -> (
    r: PlayerHitOutcome)
    requires
        *invincibility matches Some(inv) ==> !inv.timer.repeating,
    ensures
        (*final(lives), r) == spec_resolve_hit(*old(lives), *invincibility),
{
    let shielded = match invincibility {
        Some(inv) => inv.is_active(),
        None => false,
    };
    if shielded {
        PlayerHitOutcome::Ignored
    } else {
        let game_over = lives.lose_life();
        if game_over {
            PlayerHitOutcome::GameOver
        } else {
            PlayerHitOutcome::LifeLost
        }
    }
}

/// Invincibility law: after a first hit drains a life and grants a window,
/// a second hit inside that window never drains another life; a hit after
/// the window has elapsed does.
pub proof fn lemma_invincibility_window(
    lives0: PlayerLives,
    first: (PlayerLives, PlayerHitOutcome),
    w: Invincibility,
    second: (PlayerLives, PlayerHitOutcome),
    w_expired: Invincibility,
    third: (PlayerLives, PlayerHitOutcome),
)
    requires
        lives0.lives >= 2,
        // the first hit lands with no window up
        first == spec_resolve_hit(lives0, None::<Invincibility>),
        // the granted window is still running when the second hit lands
        w.timer.elapsed_ms < w.timer.duration_ms,
        second == spec_resolve_hit(first.0, Some(w)),
        // by the third hit the window has elapsed
        w_expired.timer.elapsed_ms >= w_expired.timer.duration_ms,
        third == spec_resolve_hit(first.0, Some(w_expired)),
    ensures
        first.0.lives == lives0.lives - 1,
        // the shielded hit changes nothing: lives are not drained twice
        second.0.lives == lives0.lives - 1,
        second.1 == PlayerHitOutcome::Ignored,
        // the hit after expiry drains the next life
        third.0.lives == lives0.lives - 2,
{
}

} // verus!
