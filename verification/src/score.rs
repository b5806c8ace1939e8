//! The running score of a round.

use vstd::prelude::*;

verus! {

/// Process-wide score resource.
pub struct GameScore {
    pub score: u32,
}

impl GameScore {
    pub fn new() -> (r: GameScore)
        ensures
            r.score == 0,
    {
        GameScore { score: 0 }
    }

    /// Awards points, saturating at the type's ceiling.
    pub fn add(&mut self, points: u32)
        ensures
            final(self).score == if old(self).score + points <= u32::MAX {
                old(self).score + points
            } else {
                u32::MAX as int
            },
    {
        self.score = if self.score <= u32::MAX - points {
            self.score + points
        } else {
            u32::MAX
        };
    }
}

} // verus!
