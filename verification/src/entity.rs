//! The player and the hostile entities that pursue it.
//!
//! A hostile carries a size-scale factor and a rare-variant tag, both
//! sampled once at spawn and immutable thereafter. Pursuit steering is a
//! fixed-magnitude impulse per axis per frame: whichever side of the player
//! a hostile stands on, its velocity is nudged toward the player by the
//! hostile's speed constant, independent of distance.

use vstd::prelude::*;
use crate::geom::{Vec2i, clamp_vel, clamped_vel_add, POS_LIMIT, VEL_LIMIT};
use crate::health::MAX_HEALTH;

verus! {

/// Velocity impulse the player gains per held movement axis per frame,
/// hundredths of a unit.
pub const PLAYER_SPEED: i64 = 500;

/// Steering impulse a hostile applies per axis per frame, hundredths of a
/// unit.
pub const HOSTILE_SPEED: i64 = 250;

/// Lower bound of every size-scale draw, hundredths.
pub const SIZE_OUTLIER_MIN: i64 = 75;

/// Outlier size-scale ceiling at difficulty zero, hundredths; the ceiling
/// grows by two hundredths per difficulty level.
pub const SIZE_OUTLIER_BASE: i64 = 250;

/// Lower bound of the common size-scale cluster, hundredths.
pub const SIZE_COMMON_MIN: i64 = 80;

/// Exclusive upper bound of the common size-scale cluster, hundredths.
pub const SIZE_COMMON_MAX: i64 = 120;

/// Exclusive upper bound any size-scale can reach, at the difficulty
/// ceiling of one hundred levels.
pub const SIZE_SCALE_CAP: i64 = 450;

/// Visual/behavioral tag sampled at spawn; rare hostiles share all other
/// mechanics with common ones.
#[derive(Clone, Copy, PartialEq, Eq, Structural, Debug)]
pub enum Variant {
    Common,
    Rare,
}

/// The player entity: created once, never destroyed during a session.
#[derive(Clone, Copy, PartialEq, Eq, Structural, Debug)]
pub struct Player {
    pub pos: Vec2i,
    pub vel: Vec2i,
    /// Current health, within [0, MAX_HEALTH].
    pub health: u8,
    /// Movement impulse per held axis per frame.
    pub speed: i64,
}

impl Player {
    pub open spec fn wf(self) -> bool {
        &&& self.health <= MAX_HEALTH
        &&& 0 < self.speed <= VEL_LIMIT
        &&& -POS_LIMIT <= self.pos.x <= POS_LIMIT
        &&& -POS_LIMIT <= self.pos.y <= POS_LIMIT
        &&& -VEL_LIMIT <= self.vel.x <= VEL_LIMIT
        &&& -VEL_LIMIT <= self.vel.y <= VEL_LIMIT
    }

    /// A fresh player at the origin: at rest, at full health.
    pub fn new() -> (p: Player)
        ensures
            p.wf(),
            p.pos.x == 0 && p.pos.y == 0,
            p.vel.x == 0 && p.vel.y == 0,
            p.health == MAX_HEALTH,
            p.speed == PLAYER_SPEED,
    {
        Player {
            pos: Vec2i { x: 0, y: 0 },
            vel: Vec2i { x: 0, y: 0 },
            health: MAX_HEALTH,
            speed: PLAYER_SPEED,
        }
    }
}

/// A hostile entity created by the spawn director and destroyed only by
/// the bulk reset clear.
#[derive(Clone, Copy, PartialEq, Eq, Structural, Debug)]
pub struct Hostile {
    pub pos: Vec2i,
    pub vel: Vec2i,
    /// Size multiplier in hundredths, sampled at spawn, immutable.
    pub size_scale: i64,
    /// Sampled at spawn, immutable.
    pub variant: Variant,
    /// Steering impulse per axis per frame.
    pub speed: i64,
}

impl Hostile {
    pub open spec fn wf(self) -> bool {
        &&& 0 < self.speed <= VEL_LIMIT
        &&& SIZE_OUTLIER_MIN <= self.size_scale < SIZE_SCALE_CAP
        &&& -VEL_LIMIT <= self.vel.x <= VEL_LIMIT
        &&& -VEL_LIMIT <= self.vel.y <= VEL_LIMIT
    }

    /// One steering frame toward `target`: position and spawn-time fields
    /// unchanged, each velocity axis nudged by the speed constant.
    pub fn pursue(&mut self, target: Vec2i)
        requires
            old(self).wf(),
        ensures
            final(self).wf(),
            *final(self) == pursued(*old(self), target),
    {
        if self.pos.x > target.x {
            self.vel.x = clamped_vel_add(self.vel.x, -self.speed);
        } else {
            self.vel.x = clamped_vel_add(self.vel.x, self.speed);
        }
        if self.pos.y > target.y {
            self.vel.y = clamped_vel_add(self.vel.y, -self.speed);
        } else {
            self.vel.y = clamped_vel_add(self.vel.y, self.speed);
        }
    }
}

/// One pursuit impulse on one axis: decrement toward a target that lies
/// behind, increment toward one that lies ahead, clamped to the terminal
/// range.
pub open spec fn steer_axis(pos: int, target: int, vel: int, speed: int) -> int {
    clamp_vel(if pos > target { vel - speed } else { vel + speed })
}

/// A hostile after one steering frame toward `target`.
pub open spec fn pursued(h: Hostile, target: Vec2i) -> Hostile {
    Hostile {
        pos: h.pos,
        vel: Vec2i {
            x: steer_axis(h.pos.x as int, target.x as int, h.vel.x as int, h.speed as int) as i64,
            y: steer_axis(h.pos.y as int, target.y as int, h.vel.y as int, h.speed as int) as i64,
        },
        size_scale: h.size_scale,
        variant: h.variant,
        speed: h.speed,
    }
}

} // verus!
