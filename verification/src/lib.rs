//! Core logic of a side-scrolling platformer: the player locomotion state
//! machine with double-, wall- and token-jumps, the parallax camera rig that
//! follows the player over a horizontally wrapping level, the cinematic
//! panning director, the one-way backwards barrier, and the dim-to-black
//! level-transition coordinator.
//!
//! All world quantities are fixed-point integers in milliunits (one world
//! unit is `units::UNIT` milliunits) and all times are whole milliseconds,
//! so every rule is stated and proved exactly. The surrounding game engine
//! (rendering, physics integration, sensor queries, input, audio) is an
//! external service: it hands the functions here plain values (contact
//! flags, ray distances, key presses, frame times) and applies the positions
//! and velocities they produce.

pub mod animation;
pub mod barrier;
pub mod camera;
pub mod entities;
pub mod hud;
pub mod panning;
pub mod player;
pub mod timer;
pub mod transition;
pub mod units;
