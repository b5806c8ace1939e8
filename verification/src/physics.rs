//! Frame physics over integer world state: velocity integration, screen
//! wraparound, and the off-screen despawn rules.

use vstd::prelude::*;
use crate::geom::Vec2i;

verus! {

/// The distance covered in one frame along one axis: speed (units per
/// second, by magnitude and direction) scaled by the frame time, rounded
/// toward zero.
pub open spec fn spec_frame_step(v: int, delta_ms: int) -> int {
    if v >= 0 {
        v * delta_ms / 1000
    } else {
        -((-v) * delta_ms / 1000)
    }
}

/// One frame of velocity integration: the position advanced by
/// `velocity * delta`, with the velocity in units per second and the
/// frame time in milliseconds.
pub fn apply_velocity(pos: Vec2i, velocity: Vec2i, delta_ms: u32) -> (r: Vec2i)
    requires
        pos.in_bounds(),
        -100000 <= velocity.x <= 100000,
        -100000 <= velocity.y <= 100000,
        delta_ms <= 10000,
    ensures
        r.x == pos.x + spec_frame_step(velocity.x as int, delta_ms as int),
        r.y == pos.y + spec_frame_step(velocity.y as int, delta_ms as int),
{
    let dx: i64 = frame_step(velocity.x, delta_ms);
    let dy: i64 = frame_step(velocity.y, delta_ms);
    Vec2i { x: pos.x + dx, y: pos.y + dy }
}

/// One axis of `apply_velocity` (see `spec_frame_step`).
fn frame_step(v: i64, delta_ms: u32) -> (r: i64)
    requires
        -100000 <= v <= 100000,
        delta_ms <= 10000,
    ensures
        r == spec_frame_step(v as int, delta_ms as int),
        -1000000 <= r <= 1000000,
{
    proof {
        assert(0int <= 100000 * delta_ms <= 1000000000int) by (nonlinear_arith)
            requires
                0 <= delta_ms <= 10000,
        ;
        assert(v >= 0 ==> 0int <= v * delta_ms <= 1000000000int) by (nonlinear_arith)
            requires
                v <= 100000,
                0 <= delta_ms <= 10000,
        ;
        assert(v < 0 ==> 0int <= (-v) * delta_ms <= 1000000000int) by (nonlinear_arith)
            requires
                -100000 <= v,
                0 <= delta_ms <= 10000,
        ;
    }
    if v >= 0 {
        v * delta_ms as i64 / 1000
    } else {
        -((-v) * delta_ms as i64 / 1000)
    }
}

/// Wraparound: a coordinate that crossed a screen edge reappears at the
/// opposite edge; both coordinates are handled independently.
pub open spec fn spec_wrap_coord(v: int, half: int) -> int {
    if v > half {
        -half
    } else if v < -half {
        half
    } else {
        v
    }
}

/// Moves a position that crossed a screen edge to the opposite edge.
pub fn wrap_around(pos: Vec2i, half_width: i64, half_height: i64) -> (r: Vec2i)
    requires
        0 <= half_width <= crate::geom::COORD_LIMIT,
        0 <= half_height <= crate::geom::COORD_LIMIT,
        pos.x >= -2 * crate::geom::COORD_LIMIT && pos.x <= 2 * crate::geom::COORD_LIMIT,
        pos.y >= -2 * crate::geom::COORD_LIMIT && pos.y <= 2 * crate::geom::COORD_LIMIT,
    ensures
        r.x == spec_wrap_coord(pos.x as int, half_width as int),
        r.y == spec_wrap_coord(pos.y as int, half_height as int),
        -half_width <= r.x <= half_width || r.x == pos.x,
        -half_height <= r.y <= half_height || r.y == pos.y,
{
    let x: i64 = if pos.x > half_width {
        -half_width
    } else if pos.x < -half_width {
        half_width
    } else {
        pos.x
    };
    let y: i64 = if pos.y > half_height {
        -half_height
    } else if pos.y < -half_height {
        half_height
    } else {
        pos.y
    };
    Vec2i { x, y }
}

/// Whether an asteroid has drifted past the southern boundary and is to
/// be despawned: more than 50 units below the bottom edge.
pub fn asteroid_off_screen(pos: Vec2i, half_height: i64) -> (r: bool)
    requires
        -1000000000 <= half_height <= 1000000000,
        -1000000000 <= pos.y <= 1000000000,
    ensures
        r == (pos.y < -half_height - 50),
{
    pos.y < -half_height - 50
}

/// Whether a bullet has flown past the northern boundary and is to be
/// despawned: more than 50 units above the top edge.
pub fn bullet_off_screen(pos: Vec2i, half_height: i64) -> (r: bool)
    requires
        -1000000000 <= half_height <= 1000000000,
        -1000000000 <= pos.y <= 1000000000,
    ensures
        r == (pos.y > half_height + 50),
{
    pos.y > half_height + 50
}

/// Cosmetic spin of a drifting body, in milliradians per second.
pub struct RotationVelocity {
    pub angular_velocity_millirad: i32,
}

impl RotationVelocity {
    pub fn new(angular_velocity_millirad: i32) -> (r: RotationVelocity)
        ensures
            r.angular_velocity_millirad == angular_velocity_millirad,
    {
        RotationVelocity { angular_velocity_millirad }
    }

    /// A random slow spin between -1 and 1 radians per second.
    pub fn random_slow() -> (r: RotationVelocity)
        ensures
            -1000 <= r.angular_velocity_millirad <= 1000,
    {
        let roll = crate::rng::rand_u32_below(2001);
        RotationVelocity { angular_velocity_millirad: roll as i32 - 1000 }
    }
}

} // verus!
