//! Asteroid archetype: size, subtype, and the values derived from them.

use vstd::prelude::*;

verus! {

/// Closed set of asteroid subtypes.
#[derive(Clone, Copy, Debug, PartialEq, Eq, Structural)]
pub enum AsteroidType {
    Normal,
    /// Shatters into more pieces.
    Ice,
    /// Requires more hits, gives more points.
    Metal,
    /// Rare; drops power-ups when destroyed.
    Crystal,
}

/// An asteroid: a size from 1 to 10 and a subtype. Every other attribute
/// (points, health, fragment count, speed modifier) is a pure function of
/// these two fields.
pub struct Asteroid {
    pub size: u32,
    pub asteroid_type: AsteroidType,
}

/// Sizes run from 1 (smallest fragment) to 10 (largest spawn).
pub open spec fn valid_size(size: u32) -> bool {
    1 <= size <= 10
}

/// Score awarded for destroying an asteroid: `(11 - size) * 10`, doubled
/// for metal and tripled for crystal.
pub open spec fn spec_points_value(size: u32, t: AsteroidType) -> u32
    recommends
        valid_size(size),
{
    let base = ((11 - size) * 10) as u32;
    match t {
        AsteroidType::Normal => base,
        AsteroidType::Ice => base,
        AsteroidType::Metal => (base * 2) as u32,
        AsteroidType::Crystal => (base * 3) as u32,
    }
}

/// Starting health: the size itself, tripled for metal and doubled for
/// crystal.
pub open spec fn spec_max_health(size: u32, t: AsteroidType) -> u32
    recommends
        valid_size(size),
{
    match t {
        AsteroidType::Normal => size,
        AsteroidType::Ice => size,
        AsteroidType::Metal => (size * 3) as u32,
        AsteroidType::Crystal => (size * 2) as u32,
    }
}

/// How many fragments a destroyed asteroid of this size and type leaves.
pub open spec fn spec_fragment_count(size: u32, t: AsteroidType) -> u32 {
    match t {
        AsteroidType::Normal => if size >= 5 { 3u32 } else { 2u32 },
        AsteroidType::Ice => if size >= 7 { 6u32 } else if size >= 4 { 5u32 } else { 4u32 },
        AsteroidType::Metal => if size >= 6 { 2u32 } else { 1u32 },
        AsteroidType::Crystal => if size >= 5 { 3u32 } else { 2u32 },
    }
}

impl Asteroid {
    pub open spec fn wf(self) -> bool {
        valid_size(self.size)
    }

    pub fn new(size: u32, asteroid_type: AsteroidType) -> (r: Asteroid)
        ensures
            r.size == size,
            r.asteroid_type == asteroid_type,
    {
        Asteroid { size, asteroid_type }
    }

    /// Score awarded when this asteroid is destroyed.
    pub fn points_value(&self) -> (r: u32)
        requires
            self.wf(),
        ensures
            r == spec_points_value(self.size, self.asteroid_type),
    {
        let base = (11 - self.size) * 10;
        match self.asteroid_type {
            AsteroidType::Normal => base,
            AsteroidType::Ice => base,
            AsteroidType::Metal => base * 2,
            AsteroidType::Crystal => base * 3,
        }
    }

    /// Health the asteroid starts with.
    pub fn max_health(&self) -> (r: u32)
        requires
            self.wf(),
        ensures
            r == spec_max_health(self.size, self.asteroid_type),
    {
        match self.asteroid_type {
            AsteroidType::Normal => self.size,
            AsteroidType::Ice => self.size,
            AsteroidType::Metal => self.size * 3,
            AsteroidType::Crystal => self.size * 2,
        }
    }

    /// Number of fragments spawned on destruction (the parent must still be
    /// splittable, i.e. fragments exist only for sizes above 1; that gate is
    /// the fragment spawner's, not this table's).
    pub fn fragment_count(&self) -> (r: u32)
        ensures
            r == spec_fragment_count(self.size, self.asteroid_type),
            1 <= r <= 6,
    {
        match self.asteroid_type {
            AsteroidType::Normal => if self.size >= 5 { 3 } else { 2 },
            AsteroidType::Ice => {
                if self.size >= 7 { 6 } else if self.size >= 4 { 5 } else { 4 }
            },
            AsteroidType::Metal => if self.size >= 6 { 2 } else { 1 },
            AsteroidType::Crystal => if self.size >= 5 { 3 } else { 2 },
        }
    }

    /// Speed modifier of the subtype, in thousandths: ice drifts slower,
    /// metal much slower, crystal faster.
    pub fn behavior_modifier_permille(&self) -> (r: u32)
        ensures
            r == match self.asteroid_type {
                AsteroidType::Normal => 1000u32,
                AsteroidType::Ice => 800u32,
                AsteroidType::Metal => 600u32,
                AsteroidType::Crystal => 1200u32,
            },
    {
        match self.asteroid_type {
            AsteroidType::Normal => 1000,
            AsteroidType::Ice => 800,
            AsteroidType::Metal => 600,
            AsteroidType::Crystal => 1200,
        }
    }

    /// Whether destroying this asteroid triggers a type-specific effect
    /// (ice shatter burst, crystal explosion with elevated power-up chance).
    pub fn has_special_destruction(&self) -> (r: bool)
        ensures
            r == (self.asteroid_type == AsteroidType::Ice
                || self.asteroid_type == AsteroidType::Crystal),
    {
        match self.asteroid_type {
            AsteroidType::Ice => true,
            AsteroidType::Crystal => true,
            AsteroidType::Normal => false,
            AsteroidType::Metal => false,
        }
    }
}

impl Clone for Asteroid {
    fn clone(&self) -> (r: Asteroid)
        ensures
            r.size == self.size,
            r.asteroid_type == self.asteroid_type,
    {
        Asteroid { size: self.size, asteroid_type: self.asteroid_type }
    }
}

} // verus!
