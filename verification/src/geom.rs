//! Plane vectors and the fixed-point unit conventions of the simulation.
//!
//! Coordinates, velocities and sizes are integers in hundredths of a world
//! unit. Velocities are clamped to a terminal magnitude: the steering model
//! applies fixed impulses every frame and leaves damping to the physics
//! integrator outside the library, so the model itself caps the magnitude a
//! velocity component can reach.

use vstd::prelude::*;

verus! {

/// Largest magnitude a velocity component can hold, hundredths of a unit.
pub const VEL_LIMIT: i64 = 1_000_000_000;

/// Largest magnitude the player's coordinates can hold, hundredths of a unit.
pub const POS_LIMIT: i64 = 1_000_000_000_000;

/// Largest viewport extent accepted per frame, hundredths of a unit.
pub const VIEW_LIMIT: i64 = 1_000_000_000;

/// A plane vector in hundredths of a world unit.
#[derive(Clone, Copy, PartialEq, Eq, Structural, Debug)]
pub struct Vec2i {
    pub x: i64,
    pub y: i64,
}

impl Vec2i {
    /// The origin / zero vector.
    pub fn zero() -> (v: Vec2i)
        ensures
            v.x == 0,
            v.y == 0,
    {
        Vec2i { x: 0, y: 0 }
    }
}

/// A velocity component folded back into the terminal range.
pub open spec fn clamp_vel(v: int) -> int {
    if v > VEL_LIMIT {
        VEL_LIMIT as int
    } else if v < -VEL_LIMIT {
        -VEL_LIMIT as int
    } else {
        v
    }
}

/// Adds an impulse to a velocity component and clamps the sum to the
/// terminal range.
pub fn clamped_vel_add(v: i64, impulse: i64) -> (r: i64)
    requires
        -VEL_LIMIT <= v <= VEL_LIMIT,
        -VEL_LIMIT <= impulse <= VEL_LIMIT,
    ensures
        r == clamp_vel(v + impulse),
        -VEL_LIMIT <= r <= VEL_LIMIT,
{
    let s: i64 = v + impulse;
    if s > VEL_LIMIT {
        VEL_LIMIT
    } else if s < -VEL_LIMIT {
        -VEL_LIMIT
    } else {
        s
    }
}

/// Sprite edge length of the player at a given viewport width: the
/// rendering layer shows the player at one twentieth of the window.
pub fn player_sprite_extent(viewport_width: i64) -> (r: i64)
    requires
        0 < viewport_width <= VIEW_LIMIT,
    ensures
        r == viewport_width / 20,
{
    viewport_width / 20
}

/// Sprite edge length of a hostile: one fortieth of the window, multiplied
/// by the hostile's size-scale factor (hundredths).
pub fn hostile_sprite_extent(viewport_width: i64, size_scale: i64) -> (r: i64)
    requires
        0 < viewport_width <= VIEW_LIMIT,
        0 <= size_scale <= 1000,
    ensures
        r == viewport_width / 40 * size_scale / 100,
{
    let base: i64 = viewport_width / 40;
    assert(base * size_scale <= (VIEW_LIMIT / 40) * 1000) by (nonlinear_arith)
        requires
            0 <= base <= VIEW_LIMIT / 40,
            0 <= size_scale <= 1000,
    ;
    assert(0 <= base * size_scale) by (nonlinear_arith)
        requires
            0 <= base,
            0 <= size_scale,
    ;
    base * size_scale / 100
}

/// Radius of the circular collision footprint for a sprite edge length.
pub fn collision_radius(extent: i64) -> (r: i64)
    requires
        0 <= extent,
    ensures
        r == extent / 2,
{
    extent / 2
}

} // verus!
