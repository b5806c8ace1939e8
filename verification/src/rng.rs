//! Uniform random draws, taken from the process-wide generator.

use vstd::prelude::*;

verus! {

/// Relies on fastrand::u32: a uniform draw from the given range, which for
/// `0..bound` with a positive bound is nonempty, so the call returns a
/// value below `bound` and does not panic.
#[verifier::external_body]
pub fn rand_u32_below(bound: u32) -> (r: u32)
    requires
        bound > 0,
    ensures
        r < bound,
{
    fastrand::u32(0..bound)
}

/// Relies on fastrand::u64: a uniform draw from the given range, which for
/// `0..bound` with a positive bound is nonempty, so the call returns a
/// value below `bound` and does not panic.
#[verifier::external_body]
pub fn rand_u64_below(bound: u64) -> (r: u64)
    requires
        bound > 0,
    ensures
        r < bound,
{
    fastrand::u64(0..bound)
}

} // verus!
