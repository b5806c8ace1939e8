//! Bullet lifetime and glow fade.

use vstd::prelude::*;
use crate::timer::Timer;

verus! {

/// The finite life of a bullet or visual effect, with the glow intensity
/// it started at (in thousandths).
pub struct BulletLifecycle {
    pub lifetime: Timer,
    pub initial_intensity_permille: u32,
}

impl BulletLifecycle {
    pub fn new(lifetime_ms: u32, initial_intensity_permille: u32) -> (r: BulletLifecycle)
        ensures
            r.lifetime.duration_ms == lifetime_ms,
            r.lifetime.elapsed_ms == 0,
            !r.lifetime.repeating,
            r.lifetime.wf(),
            r.initial_intensity_permille == initial_intensity_permille,
    {
        BulletLifecycle { lifetime: Timer::new(lifetime_ms, false), initial_intensity_permille }
    }

    /// Whether the lifetime has run out.
    pub fn is_expired(&self) -> (r: bool)
        ensures
            r == (self.lifetime.elapsed_ms >= self.lifetime.duration_ms),
    {
        self.lifetime.elapsed_ms >= self.lifetime.duration_ms
    }

    /// The glow intensity at the current age, in thousandths: a linear
    /// fade from the initial intensity down to 5% of it at expiry.
    pub fn current_intensity_permille(&self) -> (r: u32)
        requires
            self.lifetime.wf(),
            self.lifetime.duration_ms > 0,
            self.initial_intensity_permille <= 100000,
        ensures
            r == self.initial_intensity_permille * (1000 - 950 * (
            self.lifetime.elapsed_ms as int) / (self.lifetime.duration_ms as int)) / 1000,
    {
        proof {
            assert(950int * (self.lifetime.elapsed_ms as int) / (
            self.lifetime.duration_ms as int) <= 950int) by (nonlinear_arith)
                requires
                    0 <= self.lifetime.elapsed_ms <= self.lifetime.duration_ms,
                    self.lifetime.duration_ms > 0,
            ;
            assert(950int * (self.lifetime.elapsed_ms as int) / (
            self.lifetime.duration_ms as int) >= 0) by (nonlinear_arith)
                requires
                    0 <= self.lifetime.elapsed_ms,
                    self.lifetime.duration_ms > 0,
            ;
        }
        let progress: u64 = 950u64 * self.lifetime.elapsed_ms as u64
            / self.lifetime.duration_ms as u64;
        let remaining: u32 = 1000 - progress as u32;
        proof {
            assert((self.initial_intensity_permille as int) * (remaining as int)
                <= 100000000int) by (nonlinear_arith)
                requires
                    self.initial_intensity_permille <= 100000,
                    remaining <= 1000,
            ;
        }
        self.initial_intensity_permille * remaining / 1000
    }
}

} // verus!
