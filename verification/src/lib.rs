//! Deterministic, rollback-safe simulation core for a two-player fighting
//! game.
//!
//! The crate advances a match exactly one game-frame at a time and produces
//! bit-identical results from bit-identical inputs, so an external rollback
//! scheduler can snapshot a [`game::GameState`], re-simulate already-simulated
//! frames, and stay in lockstep with a remote peer.  Everything that affects
//! the simulation is integer-backed: positions and velocities use the Q24.8
//! fixed-point scalars of [`fixed_point`], and all delays and windows are
//! measured by the dual frame counters of [`time`].
//!
//! Rendering, asset files, input-device mapping and the network transport are
//! external collaborators: the core only consumes plain input signals and
//! static character data, and exposes a snapshot that is a pure value.

pub mod animation;
pub mod character;
pub mod fixed_point;
pub mod game;
pub mod guy;
pub mod input;
pub mod movelist;
pub mod time;
