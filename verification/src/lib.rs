//! Core simulation engine for a 2D tile-world creature simulation.
//!
//! Creatures wander the map, occasionally die, and are drawn with
//! direction- and action-dependent sprite animations resolved from a
//! texture atlas.  World distances and times are held as plain integers
//! (milli-world-units and milliseconds) so that every rule — the
//! behavior state machine, the playback clock, the frame resolver and
//! the atlas loader — is deterministic and verified.

pub mod animation;
pub mod animations;
pub mod arith;
pub mod atlas;
pub mod components;
pub mod cursor;
pub mod geom;
pub mod goblin;
pub mod json;
pub mod map;
pub mod playback;
pub mod random;
pub mod rogue;
pub mod systems;
pub mod visibility;
pub mod world;
