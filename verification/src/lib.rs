//! Simulation core of a top-down survival game: a player evades a growing
//! population of hostile entities that home toward it. The library owns the
//! game state and its rules — timer-gated spawning under a population cap,
//! pursuit steering, a collision-driven health model, a difficulty scaler,
//! and the Running/Paused/Dead state machine — while rendering, input
//! polling and the physics integrator stay with the caller.
//!
//! All distances, sizes and speeds are fixed-point integers in hundredths
//! of a world unit; time is measured in milliseconds.

pub mod entity;
pub mod geom;
pub mod health;
pub mod population;
pub mod rng;
pub mod sim;
pub mod timer;

pub use entity::{Hostile, Player, Variant};
pub use geom::Vec2i;
pub use health::{CollisionEvent, ContactPhase, LayerTags};
pub use population::ChaserCount;
pub use sim::{GameState, InputState, Sim, Viewport};
pub use timer::PausableTimer;
