//! Hit points with saturating damage.

use vstd::prelude::*;

verus! {

/// Hit points of a destructible entity. `current` never exceeds `max` and
/// never underflows: damage is applied by saturating subtraction.
pub struct Health {
    pub current: u32,
    pub max: u32,
}

impl Health {
    /// `current <= max` at all times.
    pub open spec fn wf(self) -> bool {
        self.current <= self.max
    }

    /// A fresh entity at full health.
    pub fn new(hp: u32) -> (r: Health)
        ensures
            r.current == hp,
            r.max == hp,
            r.wf(),
    {
        Health { current: hp, max: hp }
    }

    /// Applies `damage` and reports destruction. The new `current` is
    /// `max(0, old current - damage)`; the call signals destruction exactly
    /// when it brought a previously live entity to zero.
    pub fn take_damage(&mut self, damage: u32) -> (destroyed: bool)
        ensures
            final(self).current == if old(self).current >= damage {
                old(self).current - damage
            } else {
                0
            },
            final(self).max == old(self).max,
            destroyed == (final(self).current == 0 && old(self).current > 0),
            old(self).wf() ==> final(self).wf(),
    {
        let before = self.current;
        self.current = if self.current >= damage {
            self.current - damage
        } else {
            0
        };
        self.current == 0 && before > 0
    }

    /// True when no hit points remain.
    pub fn is_dead(&self) -> (r: bool)
        ensures
            r == (self.current == 0),
    {
        self.current == 0
    }
}

} // verus!
