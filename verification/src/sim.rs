//! The simulation context: every singleton of the game in one struct, with
//! the per-frame systems that drive it.
//!
//! The frame driver outside the library calls `advance` once per frame with
//! the elapsed time, the viewport extent, the batch of contact transitions
//! the physics engine reported, and the input intents. The systems run in a
//! fixed order within the frame: movement input, pursuit steering, spawn,
//! difficulty escalation, collision health, then state transitions. The
//! physics integrator reports entity positions back through the sync
//! methods, which take effect only while the simulation is running.
//!
//! Reset policy: a reset starts a fresh session, so the difficulty level
//! and its timer return to zero along with the population and the player.

use vstd::prelude::*;
use crate::entity::{
    Hostile, Player, Variant, pursued, HOSTILE_SPEED, SIZE_COMMON_MAX, SIZE_COMMON_MIN,
    SIZE_OUTLIER_BASE, SIZE_OUTLIER_MIN,
};
use crate::geom::{Vec2i, clamp_vel, clamped_vel_add, POS_LIMIT, VIEW_LIMIT};
use crate::health::{CollisionEvent, apply_events, health_after_events, MAX_HEALTH};
use crate::population::ChaserCount;
use crate::rng::{rand_range, seed_rng};
use crate::timer::PausableTimer;

verus! {

/// Milliseconds between spawn-timer fires.
pub const SPAWN_INTERVAL_MS: u64 = 500;

/// Milliseconds between difficulty-timer fires.
pub const DIFFICULTY_INTERVAL_MS: u64 = 5000;

/// The difficulty level saturates here.
pub const MAX_DIFFICULTY: u8 = 100;

/// Population cap of a session started with `Sim::new`.
pub const DEFAULT_MAX_POPULATION: u32 = 1000;

/// Depth of the near-off-screen spawn ring beyond the viewport extent,
/// hundredths of a unit.
pub const SPAWN_MARGIN: i64 = 10_000;

/// Exactly one state is active at a time. Paused is reachable and leaveable
/// only while alive; Dead is entered only by health reaching zero and is
/// terminal until an explicit reset.
#[derive(Clone, Copy, PartialEq, Eq, Structural, Debug)]
pub enum GameState {
    Running,
    Paused,
    Dead,
}

/// Input intents recognized per frame: the movement directions are held
/// keys, the pause and reset intents are edge-triggered presses.
#[derive(Clone, Copy, PartialEq, Eq, Structural, Debug)]
pub struct InputState {
    pub move_up: bool,
    pub move_down: bool,
    pub move_left: bool,
    pub move_right: bool,
    pub pause_pressed: bool,
    pub reset_pressed: bool,
}

impl Default for InputState {
    /// No key held and nothing pressed.
    fn default() -> (r: InputState)
        ensures
            r == (InputState {
                move_up: false,
                move_down: false,
                move_left: false,
                move_right: false,
                pause_pressed: false,
                reset_pressed: false,
            }),
    {
        InputState {
            move_up: false,
            move_down: false,
            move_left: false,
            move_right: false,
            pause_pressed: false,
            reset_pressed: false,
        }
    }
}

/// Viewport extent of the current frame, hundredths of a unit per axis.
#[derive(Clone, Copy, PartialEq, Eq, Structural, Debug)]
pub struct Viewport {
    pub width: i64,
    pub height: i64,
}

impl Viewport {
    pub open spec fn wf(self) -> bool {
        0 < self.width <= VIEW_LIMIT && 0 < self.height <= VIEW_LIMIT
    }

    pub fn new(width: i64, height: i64) -> (v: Viewport)
        requires
            0 < width <= VIEW_LIMIT,
            0 < height <= VIEW_LIMIT,
        ensures
            v.wf(),
            v.width == width,
            v.height == height,
    {
        Viewport { width, height }
    }
}

/// The whole simulation: player, hostile collection, registries, timers,
/// state flag and the seeded random source.
pub struct Sim {
    pub player: Player,
    pub hostiles: Vec<Hostile>,
    pub population: ChaserCount,
    /// Bounded counter widening the spawn-size variance; within
    /// [0, MAX_DIFFICULTY].
    pub difficulty: u8,
    pub state: GameState,
    pub spawn_timer: PausableTimer,
    pub difficulty_timer: PausableTimer,
    /// Seeded random source; opaque to verification, so nothing the
    /// library proves depends on what it yields.
    pub rng: rand::rngs::StdRng,
}

/// One velocity axis after a frame of held movement input: opposed or idle
/// keys cancel, otherwise the speed constant is the impulse, clamped to the
/// terminal range.
pub open spec fn moved_axis(vel: int, neg_held: bool, pos_held: bool, speed: int) -> int {
    if pos_held == neg_held {
        vel
    } else if pos_held {
        clamp_vel(vel + speed)
    } else {
        clamp_vel(vel - speed)
    }
}

/// The player's velocity after a frame of held movement input.
pub open spec fn moved_vel(vel: Vec2i, input: InputState, speed: int) -> Vec2i {
    Vec2i {
        x: moved_axis(vel.x as int, input.move_left, input.move_right, speed) as i64,
        y: moved_axis(vel.y as int, input.move_down, input.move_up, speed) as i64,
    }
}

/// Whether `coord` lies in the near-off-screen ring on one axis: one of the
/// two bands just beyond the viewport extent on either side of `center`.
pub open spec fn spawn_band(coord: int, center: int, extent: int) -> bool {
    ||| center + extent <= coord < center + extent + SPAWN_MARGIN
    ||| center - extent - SPAWN_MARGIN <= coord < center - extent
}

/// Exclusive ceiling of an outlier size-scale draw at a difficulty level.
pub open spec fn size_scale_cap(difficulty: u8) -> int {
    SIZE_OUTLIER_BASE + 2 * (difficulty as int)
}

/// What holds of every hostile the spawn director creates, whatever the
/// random draws were: placed in the off-screen ring on both axes relative
/// to the player, at rest, with the hostile speed constant and a size-scale
/// inside the difficulty-widened range.
pub open spec fn valid_spawn(h: Hostile, player_pos: Vec2i, vp: Viewport, difficulty: u8) -> bool {
    &&& spawn_band(h.pos.x as int, player_pos.x as int, vp.width as int)
    &&& spawn_band(h.pos.y as int, player_pos.y as int, vp.height as int)
    &&& h.vel.x == 0 && h.vel.y == 0
    &&& h.speed == HOSTILE_SPEED
    &&& SIZE_OUTLIER_MIN <= h.size_scale < size_scale_cap(difficulty)
}

/// Health at the end of a frame's collision phase, before state
/// transitions: while already Dead the batch is not consumed and health
/// stays at zero; otherwise the batch is applied in order.
pub open spec fn health_mid(o: Sim, events: Seq<CollisionEvent>) -> int {
    if o.state is Dead {
        0
    } else {
        health_after_events(o.player.health as int, events)
    }
}

/// Whether a frame stands in Dead once its collision phase is done and
/// before the reset intent is considered.
pub open spec fn dead_after(o: Sim, events: Seq<CollisionEvent>) -> bool {
    health_mid(o, events) == 0
}

/// The state the machine reaches at the end of a frame: reset revives a
/// dead session, the pause intent toggles a living one, anything else
/// stays.
pub open spec fn state_after(o: Sim, events: Seq<CollisionEvent>, input: InputState) -> GameState {
    if dead_after(o, events) {
        if input.reset_pressed {
            GameState::Running
        } else {
            GameState::Dead
        }
    } else if input.pause_pressed {
        if o.state is Paused {
            GameState::Running
        } else {
            GameState::Paused
        }
    } else {
        o.state
    }
}

impl Sim {
    /// Everything the frame driver can observe: every field but the opaque
    /// random generator.
    pub open spec fn obs_eq(self, other: Sim) -> bool {
        &&& self.player == other.player
        &&& self.hostiles@ == other.hostiles@
        &&& self.population == other.population
        &&& self.difficulty == other.difficulty
        &&& self.state == other.state
        &&& self.spawn_timer == other.spawn_timer
        &&& self.difficulty_timer == other.difficulty_timer
    }

    /// The simulation invariant, preserved by every system:
    /// the registry count matches the live collection and never exceeds the
    /// cap; health is zero exactly in the Dead state; the spawn timer is
    /// paused exactly while not Running; the difficulty timer is gated by
    /// the state machine instead of its own pause flag.
    pub open spec fn wf(self) -> bool {
        &&& self.player.wf()
        &&& self.population.wf()
        &&& self.hostiles@.len() == self.population.current
        &&& (forall|i: int|
            0 <= i < self.hostiles@.len() ==> (#[trigger] self.hostiles@[i]).wf())
        &&& self.difficulty <= MAX_DIFFICULTY
        &&& self.spawn_timer.wf()
        &&& self.spawn_timer.interval_ms == SPAWN_INTERVAL_MS
        &&& self.difficulty_timer.wf()
        &&& self.difficulty_timer.interval_ms == DIFFICULTY_INTERVAL_MS
        &&& !self.difficulty_timer.paused
        &&& (self.state is Dead <==> self.player.health == 0)
        &&& (self.spawn_timer.paused <==> !(self.state is Running))
    }

    /// The observable state of a session that has just begun: player at the
    /// origin at full health, no hostiles, difficulty zero, both timers at
    /// the start of their first period, Running.
    pub open spec fn is_fresh(self, max_population: u32) -> bool {
        &&& self.player.pos == (Vec2i { x: 0, y: 0 })
        &&& self.player.vel == (Vec2i { x: 0, y: 0 })
        &&& self.player.health == MAX_HEALTH
        &&& self.hostiles@.len() == 0
        &&& self.population.current == 0
        &&& self.population.max == max_population
        &&& self.difficulty == 0
        &&& self.state is Running
        &&& self.spawn_timer.elapsed_ms == 0
        &&& self.spawn_timer.interval_ms == SPAWN_INTERVAL_MS
        &&& !self.spawn_timer.paused
        &&& self.difficulty_timer.elapsed_ms == 0
        &&& self.difficulty_timer.interval_ms == DIFFICULTY_INTERVAL_MS
        &&& !self.difficulty_timer.paused
    }

    /// A fresh session with the default population cap, drawing all
    /// randomness from the given seed.
    pub fn new(seed: u64) -> (s: Sim)
        ensures
            s.wf(),
            s.is_fresh(DEFAULT_MAX_POPULATION),
    {
        Sim::with_max_population(seed, DEFAULT_MAX_POPULATION)
    }

    /// A fresh session with a caller-chosen population cap.
    pub fn with_max_population(seed: u64, max_population: u32) -> (s: Sim)
        ensures
            s.wf(),
            s.is_fresh(max_population),
    {
        Sim {
            player: Player::new(),
            hostiles: Vec::new(),
            population: ChaserCount::new(0, max_population),
            difficulty: 0,
            state: GameState::Running,
            spawn_timer: PausableTimer::new(SPAWN_INTERVAL_MS),
            difficulty_timer: PausableTimer::new(DIFFICULTY_INTERVAL_MS),
            rng: seed_rng(seed),
        }
    }

    /// Movement input: while Running, each held direction adds the player's
    /// speed constant to the matching velocity axis; in any other state the
    /// input is ignored.
    pub fn apply_movement_input(&mut self, input: InputState)
        requires
            old(self).wf(),
        ensures
            final(self).wf(),
            old(self).state is Running ==> {
                &&& final(self).player.vel == moved_vel(
                    old(self).player.vel,
                    input,
                    old(self).player.speed as int,
                )
                &&& final(self).player.pos == old(self).player.pos
                &&& final(self).player.health == old(self).player.health
                &&& final(self).player.speed == old(self).player.speed
            },
            !(old(self).state is Running) ==> final(self).player == old(self).player,
            final(self).hostiles@ == old(self).hostiles@,
            final(self).population == old(self).population,
            final(self).difficulty == old(self).difficulty,
            final(self).state == old(self).state,
            final(self).spawn_timer == old(self).spawn_timer,
            final(self).difficulty_timer == old(self).difficulty_timer,
    {
        if self.state == GameState::Running {
            let speed: i64 = self.player.speed;
            if input.move_right && !input.move_left {
                self.player.vel.x = clamped_vel_add(self.player.vel.x, speed);
            } else if input.move_left && !input.move_right {
                self.player.vel.x = clamped_vel_add(self.player.vel.x, -speed);
            }
            if input.move_up && !input.move_down {
                self.player.vel.y = clamped_vel_add(self.player.vel.y, speed);
            } else if input.move_down && !input.move_up {
                self.player.vel.y = clamped_vel_add(self.player.vel.y, -speed);
            }
        }
    }

    /// Pursuit steering: while Running, every hostile's velocity is nudged
    /// toward the player's current position by one fixed impulse per axis;
    /// positions and spawn-time fields stay as they are. Frozen in any
    /// other state.
    pub fn pursue_hostiles(&mut self)
        requires
            old(self).wf(),
        ensures
            final(self).wf(),
            final(self).hostiles@.len() == old(self).hostiles@.len(),
            old(self).state is Running ==> forall|i: int|
                0 <= i < old(self).hostiles@.len() ==> #[trigger] final(self).hostiles@[i]
                    == pursued(old(self).hostiles@[i], old(self).player.pos),
            !(old(self).state is Running) ==> final(self).hostiles@ == old(self).hostiles@,
            final(self).player == old(self).player,
            final(self).population == old(self).population,
            final(self).difficulty == old(self).difficulty,
            final(self).state == old(self).state,
            final(self).spawn_timer == old(self).spawn_timer,
            final(self).difficulty_timer == old(self).difficulty_timer,
    {
        if self.state == GameState::Running {
            let target: Vec2i = self.player.pos;
            let ghost pre: Sim = *self;
            let ghost orig: Seq<Hostile> = self.hostiles@;
            let n: usize = self.hostiles.len();
            let mut i: usize = 0;
            while i < n
                invariant
                    i <= n,
                    n == self.hostiles@.len(),
                    n == orig.len(),
                    self.player == pre.player,
                    self.population == pre.population,
                    self.difficulty == pre.difficulty,
                    self.state == pre.state,
                    self.spawn_timer == pre.spawn_timer,
                    self.difficulty_timer == pre.difficulty_timer,
                    pre.wf(),
                    forall|j: int| 0 <= j < n ==> (#[trigger] orig[j]).wf(),
                    forall|j: int|
                        0 <= j < i ==> #[trigger] self.hostiles@[j] == pursued(orig[j], target),
                    forall|j: int| i <= j < n ==> #[trigger] self.hostiles@[j] == orig[j],
                    forall|j: int|
                        0 <= j < n ==> (#[trigger] self.hostiles@[j]).wf(),
                decreases n - i,
            {
                let mut h: Hostile = self.hostiles[i];
                h.pursue(target);
                self.hostiles.set(i, h);
                i = i + 1;
            }
        }
    }

    /// Draws one hostile from the random source: size-scale from the common
    /// cluster three times out of four, otherwise from the
    /// difficulty-widened outlier range; a rare variant once in a hundred;
    /// a position in the off-screen ring, each axis choosing its side by an
    /// unbiased coin flip.
    fn make_hostile(&mut self, viewport: Viewport) -> (h: Hostile)
        requires
            old(self).wf(),
            viewport.wf(),
        ensures
            final(self).obs_eq(*old(self)),
            final(self).wf(),
            h.wf(),
            valid_spawn(h, old(self).player.pos, viewport, old(self).difficulty),
    {
        let cluster_draw: i64 = rand_range(&mut self.rng, 0, 100);
        let size_scale: i64 = if cluster_draw < 75 {
            rand_range(&mut self.rng, SIZE_COMMON_MIN, SIZE_COMMON_MAX)
        } else {
            let cap: i64 = SIZE_OUTLIER_BASE + 2 * (self.difficulty as i64);
            rand_range(&mut self.rng, SIZE_OUTLIER_MIN, cap)
        };
        let rare_draw: i64 = rand_range(&mut self.rng, 0, 100);
        let variant: Variant = if rare_draw == 0 {
            Variant::Rare
        } else {
            Variant::Common
        };
        let px: i64 = self.player.pos.x;
        let py: i64 = self.player.pos.y;
        let spawn_x: i64 = if rand_range(&mut self.rng, 0, 2) == 0 {
            rand_range(&mut self.rng, px + viewport.width, px + viewport.width + SPAWN_MARGIN)
        } else {
            rand_range(&mut self.rng, px - viewport.width - SPAWN_MARGIN, px - viewport.width)
        };
        let spawn_y: i64 = if rand_range(&mut self.rng, 0, 2) == 0 {
            rand_range(&mut self.rng, py + viewport.height, py + viewport.height + SPAWN_MARGIN)
        } else {
            rand_range(&mut self.rng, py - viewport.height - SPAWN_MARGIN, py - viewport.height)
        };
        Hostile {
            pos: Vec2i { x: spawn_x, y: spawn_y },
            vel: Vec2i { x: 0, y: 0 },
            size_scale,
            variant,
            speed: HOSTILE_SPEED,
        }
    }

    /// Spawn director: while Running, the spawn timer accumulates the
    /// frame's delta; on a fire with the population under its cap exactly
    /// one hostile is created and counted, otherwise the frame does
    /// nothing. The population cap is never exceeded and nothing spawns
    /// while Paused or Dead.
    pub fn spawn_step(&mut self, delta_ms: u64, viewport: Viewport)
        requires
            old(self).wf(),
            viewport.wf(),
            delta_ms <= u64::MAX - SPAWN_INTERVAL_MS,
        ensures
            final(self).wf(),
            final(self).player == old(self).player,
            final(self).difficulty == old(self).difficulty,
            final(self).state == old(self).state,
            final(self).difficulty_timer == old(self).difficulty_timer,
            final(self).population.max == old(self).population.max,
            final(self).spawn_timer.paused == old(self).spawn_timer.paused,
            !(old(self).state is Running) ==> {
                &&& final(self).hostiles@ == old(self).hostiles@
                &&& final(self).population == old(self).population
                &&& final(self).spawn_timer == old(self).spawn_timer
            },
            old(self).state is Running ==> {
                &&& final(self).spawn_timer.elapsed_ms == (old(self).spawn_timer.elapsed_ms
                    + delta_ms) % (SPAWN_INTERVAL_MS as int)
                &&& {
                    let fired = old(self).spawn_timer.elapsed_ms + delta_ms
                        >= SPAWN_INTERVAL_MS;
                    let spawns = fired && old(self).population.current
                        < old(self).population.max;
                    if spawns {
                        &&& final(self).population.current == old(self).population.current + 1
                        &&& final(self).hostiles@.len() == old(self).hostiles@.len() + 1
                        &&& (forall|i: int|
                            0 <= i < old(self).hostiles@.len()
                                ==> #[trigger] final(self).hostiles@[i]
                                == old(self).hostiles@[i])
                        &&& valid_spawn(
                            final(self).hostiles@[old(self).hostiles@.len() as int],
                            old(self).player.pos,
                            viewport,
                            old(self).difficulty,
                        )
                    } else {
                        &&& final(self).population == old(self).population
                        &&& final(self).hostiles@ == old(self).hostiles@
                    }
                }
            },
    {
        if self.state == GameState::Running {
            let fired: bool = self.spawn_timer.tick(delta_ms);
            if fired && !self.population.at_max() {
                let h: Hostile = self.make_hostile(viewport);
                self.hostiles.push(h);
                self.population.current = self.population.current + 1;
            }
        }
    }

    /// Difficulty scaler: while Running, its timer accumulates the frame's
    /// delta and each fire raises the level by one, saturating at
    /// MAX_DIFFICULTY. The level never moves while Paused or Dead and
    /// never decreases here.
    pub fn difficulty_step(&mut self, delta_ms: u64)
        requires
            old(self).wf(),
            delta_ms <= u64::MAX - DIFFICULTY_INTERVAL_MS,
        ensures
            final(self).wf(),
            final(self).player == old(self).player,
            final(self).hostiles@ == old(self).hostiles@,
            final(self).population == old(self).population,
            final(self).state == old(self).state,
            final(self).spawn_timer == old(self).spawn_timer,
            final(self).difficulty >= old(self).difficulty,
            final(self).difficulty <= MAX_DIFFICULTY,
            !(old(self).state is Running) ==> {
                &&& final(self).difficulty == old(self).difficulty
                &&& final(self).difficulty_timer == old(self).difficulty_timer
            },
            old(self).state is Running ==> {
                &&& final(self).difficulty_timer.elapsed_ms == (
                    old(self).difficulty_timer.elapsed_ms + delta_ms) % (
                DIFFICULTY_INTERVAL_MS as int)
                &&& !final(self).difficulty_timer.paused
                &&& final(self).difficulty == (
                    if old(self).difficulty_timer.elapsed_ms + delta_ms
                        >= DIFFICULTY_INTERVAL_MS && old(self).difficulty < MAX_DIFFICULTY {
                        old(self).difficulty + 1
                    } else {
                        old(self).difficulty as int
                    })
            },
    {
        if self.state == GameState::Running {
            let fired: bool = self.difficulty_timer.tick(delta_ms);
            if fired && self.difficulty < MAX_DIFFICULTY {
                self.difficulty = self.difficulty + 1;
            }
        }
    }

    /// Collision health model: unless already Dead, the frame's contact
    /// transitions are applied to health in order; if the batch leaves
    /// health at exactly zero the state machine enters Dead within the same
    /// frame and the spawn timer becomes paused.
    pub fn apply_collisions(&mut self, events: &Vec<CollisionEvent>)
        requires
            old(self).wf(),
        ensures
            final(self).wf(),
            final(self).player.pos == old(self).player.pos,
            final(self).player.vel == old(self).player.vel,
            final(self).player.speed == old(self).player.speed,
            final(self).hostiles@ == old(self).hostiles@,
            final(self).population == old(self).population,
            final(self).difficulty == old(self).difficulty,
            final(self).difficulty_timer == old(self).difficulty_timer,
            final(self).spawn_timer.elapsed_ms == old(self).spawn_timer.elapsed_ms,
            final(self).spawn_timer.interval_ms == old(self).spawn_timer.interval_ms,
            old(self).state is Dead ==> final(self).obs_eq(*old(self)),
            !(old(self).state is Dead) ==> {
                &&& final(self).player.health == health_after_events(
                    old(self).player.health as int,
                    events@,
                )
                &&& (final(self).player.health == 0 ==> final(self).state is Dead
                    && final(self).spawn_timer.paused)
                &&& (final(self).player.health != 0 ==> final(self).state == old(self).state
                    && final(self).spawn_timer.paused == old(self).spawn_timer.paused)
            },
    {
        if self.state == GameState::Dead {
            return ;
        }
        let h: u8 = apply_events(self.player.health, events);
        self.player.health = h;
        if h == 0 {
            self.state = GameState::Dead;
            self.spawn_timer.pause();
        }
    }

    /// Pause toggle: rejected while Dead; otherwise Running and Paused
    /// swap, and the spawn timer's pause flag follows the state without
    /// discarding accumulated progress.
    pub fn toggle_pause(&mut self)
        requires
            old(self).wf(),
        ensures
            final(self).wf(),
            final(self).player == old(self).player,
            final(self).hostiles@ == old(self).hostiles@,
            final(self).population == old(self).population,
            final(self).difficulty == old(self).difficulty,
            final(self).difficulty_timer == old(self).difficulty_timer,
            final(self).spawn_timer.elapsed_ms == old(self).spawn_timer.elapsed_ms,
            final(self).spawn_timer.interval_ms == old(self).spawn_timer.interval_ms,
            old(self).state is Dead ==> final(self).obs_eq(*old(self)),
            old(self).state is Running ==> final(self).state is Paused
                && final(self).spawn_timer.paused,
            old(self).state is Paused ==> final(self).state is Running
                && !final(self).spawn_timer.paused,
    {
        if self.state == GameState::Running {
            self.state = GameState::Paused;
            self.spawn_timer.pause();
        } else if self.state == GameState::Paused {
            self.state = GameState::Running;
            self.spawn_timer.unpause();
        }
    }

    /// What a completed reset leaves behind: an empty arena, a zeroed
    /// registry, the player recentered at rest at full health, both timers
    /// back at the start of their original intervals, difficulty zero, and
    /// the machine Running. The population cap and the player's speed
    /// constant survive.
    pub open spec fn is_reset_of(self, prev: Sim) -> bool {
        &&& self.player.pos == (Vec2i { x: 0, y: 0 })
        &&& self.player.vel == (Vec2i { x: 0, y: 0 })
        &&& self.player.health == MAX_HEALTH
        &&& self.player.speed == prev.player.speed
        &&& self.hostiles@.len() == 0
        &&& self.population.current == 0
        &&& self.population.max == prev.population.max
        &&& self.difficulty == 0
        &&& self.state is Running
        &&& self.spawn_timer.elapsed_ms == 0
        &&& self.spawn_timer.interval_ms == SPAWN_INTERVAL_MS
        &&& !self.spawn_timer.paused
        &&& self.difficulty_timer.elapsed_ms == 0
        &&& self.difficulty_timer.interval_ms == DIFFICULTY_INTERVAL_MS
        &&& !self.difficulty_timer.paused
    }

    /// Full reset: a no-op unless Dead; once applied, every hostile is
    /// despawned, the registry and difficulty return to zero, the player
    /// returns to the origin at rest with full health, the spawn timer is
    /// reinstated unpaused at its original interval, and play resumes.
    pub fn reset(&mut self)
        requires
            old(self).wf(),
        ensures
            final(self).wf(),
            !(old(self).state is Dead) ==> final(self).obs_eq(*old(self)),
            old(self).state is Dead ==> final(self).is_reset_of(*old(self)),
    {
        if self.state == GameState::Dead {
            self.hostiles.clear();
            self.population.current = 0;
            self.player.pos = Vec2i::zero();
            self.player.vel = Vec2i::zero();
            self.player.health = MAX_HEALTH;
            self.difficulty = 0;
            self.spawn_timer = PausableTimer::new(SPAWN_INTERVAL_MS);
            self.difficulty_timer = PausableTimer::new(DIFFICULTY_INTERVAL_MS);
            self.state = GameState::Running;
        }
    }

    /// The physics integrator reports the player's position back; the
    /// write takes effect only while Running, since pausing suspends the
    /// physics time scale and death halts movement.
    pub fn sync_player_position(&mut self, x: i64, y: i64)
        requires
            old(self).wf(),
            -POS_LIMIT <= x <= POS_LIMIT,
            -POS_LIMIT <= y <= POS_LIMIT,
        ensures
            final(self).wf(),
            !(old(self).state is Running) ==> final(self).obs_eq(*old(self)),
            old(self).state is Running ==> {
                &&& final(self).player.pos == (Vec2i { x: x, y: y })
                &&& final(self).player.vel == old(self).player.vel
                &&& final(self).player.health == old(self).player.health
                &&& final(self).player.speed == old(self).player.speed
                &&& final(self).hostiles@ == old(self).hostiles@
                &&& final(self).population == old(self).population
                &&& final(self).difficulty == old(self).difficulty
                &&& final(self).state == old(self).state
                &&& final(self).spawn_timer == old(self).spawn_timer
                &&& final(self).difficulty_timer == old(self).difficulty_timer
            },
    {
        if self.state == GameState::Running {
            self.player.pos = Vec2i { x, y };
        }
    }

    /// The physics integrator reports one hostile's position back; the
    /// write takes effect only while Running.
    pub fn sync_hostile_position(&mut self, index: usize, x: i64, y: i64)
        requires
            old(self).wf(),
            index < old(self).hostiles@.len(),
        ensures
            final(self).wf(),
            !(old(self).state is Running) ==> final(self).obs_eq(*old(self)),
            old(self).state is Running ==> {
                &&& final(self).hostiles@.len() == old(self).hostiles@.len()
                &&& final(self).hostiles@[index as int] == (Hostile {
                    pos: Vec2i { x: x, y: y },
                    ..old(self).hostiles@[index as int]
                })
                &&& (forall|i: int|
                    0 <= i < old(self).hostiles@.len() && i != index
                        ==> #[trigger] final(self).hostiles@[i] == old(self).hostiles@[i])
                &&& final(self).player == old(self).player
                &&& final(self).population == old(self).population
                &&& final(self).difficulty == old(self).difficulty
                &&& final(self).state == old(self).state
                &&& final(self).spawn_timer == old(self).spawn_timer
                &&& final(self).difficulty_timer == old(self).difficulty_timer
            },
    {
        if self.state == GameState::Running {
            let mut h: Hostile = self.hostiles[index];
            h.pos = Vec2i { x, y };
            self.hostiles.set(index, h);
        }
    }

    /// One whole frame, in the fixed system order: movement input, pursuit
    /// steering, spawn, difficulty escalation, collision health, then the
    /// state transitions the input intents ask for. The contract pins every
    /// observable field of the frame's outcome, up to the random draws of a
    /// spawned hostile, which are bounded by `valid_spawn`.
    pub fn advance(
        &mut self,
        delta_ms: u64,
        viewport: Viewport,
        events: &Vec<CollisionEvent>,
        input: InputState,
    )
        requires
            old(self).wf(),
            viewport.wf(),
            delta_ms <= u64::MAX - DIFFICULTY_INTERVAL_MS,
            delta_ms <= u64::MAX - SPAWN_INTERVAL_MS,
        ensures
            final(self).wf(),
            final(self).population.current <= final(self).population.max,
            final(self).population.max == old(self).population.max,
            final(self).state == state_after(*old(self), events@, input),
            (final(self).player.health == 0 <==> final(self).state is Dead),
            final(self).state is Dead ==> final(self).spawn_timer.paused,
            old(self).state is Dead && !input.reset_pressed ==> final(self).obs_eq(*old(self)),
            dead_after(*old(self), events@) && input.reset_pressed ==> final(self).is_reset_of(
                *old(self),
            ),
            !(dead_after(*old(self), events@) && input.reset_pressed) ==> ({
                let o = *old(self);
                let running = o.state is Running;
                let spawn_fires = running && o.spawn_timer.elapsed_ms + delta_ms
                    >= SPAWN_INTERVAL_MS;
                let spawns = spawn_fires && o.population.current < o.population.max;
                let diff_fires = running && o.difficulty_timer.elapsed_ms + delta_ms
                    >= DIFFICULTY_INTERVAL_MS;
                &&& final(self).player.pos == o.player.pos
                &&& final(self).player.speed == o.player.speed
                &&& final(self).player.health == health_mid(o, events@)
                &&& final(self).player.vel == (if running {
                    moved_vel(o.player.vel, input, o.player.speed as int)
                } else {
                    o.player.vel
                })
                &&& final(self).difficulty == (if diff_fires && o.difficulty < MAX_DIFFICULTY {
                    o.difficulty + 1
                } else {
                    o.difficulty as int
                })
                &&& final(self).population.current == o.population.current + (if spawns {
                    1int
                } else {
                    0
                })
                &&& final(self).hostiles@.len() == o.hostiles@.len() + (if spawns {
                    1int
                } else {
                    0
                })
                &&& (forall|i: int|
                    0 <= i < o.hostiles@.len() ==> #[trigger] final(self).hostiles@[i] == (
                    if running {
                        pursued(o.hostiles@[i], o.player.pos)
                    } else {
                        o.hostiles@[i]
                    }))
                &&& (spawns ==> valid_spawn(
                    final(self).hostiles@[o.hostiles@.len() as int],
                    o.player.pos,
                    viewport,
                    o.difficulty,
                ))
                &&& final(self).spawn_timer.interval_ms == SPAWN_INTERVAL_MS
                &&& final(self).spawn_timer.elapsed_ms == (if running {
                    (o.spawn_timer.elapsed_ms + delta_ms) % (SPAWN_INTERVAL_MS as int)
                } else {
                    o.spawn_timer.elapsed_ms as int
                })
                &&& final(self).difficulty_timer.interval_ms == DIFFICULTY_INTERVAL_MS
                &&& final(self).difficulty_timer.elapsed_ms == (if running {
                    (o.difficulty_timer.elapsed_ms + delta_ms) % (DIFFICULTY_INTERVAL_MS as int)
                } else {
                    o.difficulty_timer.elapsed_ms as int
                })
            }),
            !(dead_after(*old(self), events@) && input.reset_pressed) ==> final(self).difficulty
                >= old(self).difficulty,
            old(self).state is Paused && !(dead_after(*old(self), events@)
                && input.reset_pressed) ==> {
                &&& final(self).hostiles@ == old(self).hostiles@
                &&& final(self).population == old(self).population
                &&& final(self).player.pos == old(self).player.pos
                &&& final(self).player.vel == old(self).player.vel
                &&& final(self).difficulty == old(self).difficulty
                &&& final(self).spawn_timer.elapsed_ms == old(self).spawn_timer.elapsed_ms
                &&& final(self).difficulty_timer == old(self).difficulty_timer
            },
    {
        self.apply_movement_input(input);
        self.pursue_hostiles();
        self.spawn_step(delta_ms, viewport);
        self.difficulty_step(delta_ms);
        self.apply_collisions(events);
        if input.pause_pressed {
            self.toggle_pause();
        }
        if input.reset_pressed {
            self.reset();
        }
    }

    /// Center-screen message for the state: empty while Running.
    pub fn center_message(&self) -> (r: &'static str)
        ensures
            self.state is Running ==> r@ == ""@,
            self.state is Paused ==> r@ == "Paused"@,
            self.state is Dead ==> r@ == "You Died"@,
    {
        match self.state {
            GameState::Running => "",
            GameState::Paused => "Paused",
            GameState::Dead => "You Died",
        }
    }

    /// Secondary message under the center one: the restart hint, only
    /// while Dead.
    pub fn sub_message(&self) -> (r: &'static str)
        ensures
            self.state is Dead ==> r@ == "Press R to restart"@,
            !(self.state is Dead) ==> r@ == ""@,
    {
        match self.state {
            GameState::Dead => "Press R to restart",
            GameState::Running => "",
            GameState::Paused => "",
        }
    }

    /// Whether the health-indicator slot at `slot` is shown full: exactly
    /// the slots below the current health, so every slot is empty once
    /// health reaches zero.
    pub fn indicator_full(&self, slot: u8) -> (r: bool)
        ensures
            r == (slot < self.player.health),
    {
        slot < self.player.health
    }
}

/// Law: under the simulation invariant, the population count never exceeds
/// the configured cap, and the live collection matches the count — whatever
/// sequence of spawn-timer fires produced the state.
pub proof fn lemma_population_capped(s: Sim)
    requires
        s.wf(),
    ensures
        s.population.current <= s.population.max,
        s.hostiles@.len() <= s.population.max,
{
}

} // verus!
