//! Simulation kernel of a two-player fighting game.
//!
//! Once per frame the kernel takes what each player holds, spells commands
//! from the recent directions, steps each character's state, moves the
//! characters, and resolves hitboxes against hurtboxes. Devices, files and
//! drawing are left to the program around it.
//!
//! Every quantity of the simulation is an integer, so that a match replays
//! identically on every machine: frame counts are `u8`, and lengths and speeds
//! are `i32` in thousandths of a world unit.
//!
//! - [`inputs`]: the input buffer and the command table.
//! - [`character`]: the state machine of a character and its movement.
//! - [`physics`]: forces that ease from one velocity to another.
//! - [`attacks`] and [`collision`]: attacks, hitboxes and hurtboxes.
//! - [`animation`]: what the renderer is told, and the cells that answer it.
//! - [`character_library`]: the tables of character data.
//! - [`math`], [`text`], [`table`], [`pattern`], [`utils`]: what the others
//!   are built from.

pub mod utils;
pub mod math;
pub mod physics;
pub mod text;
pub mod pattern;
pub mod table;
pub mod constants;
pub mod attacks;
pub mod animation;
pub mod character;
pub mod character_library;
pub mod collision;
pub mod inputs;
