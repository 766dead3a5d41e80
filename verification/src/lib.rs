//! Gameplay core of a 2D side-scrolling platformer: character physics,
//! tile-based collision resolution, animation sequencing, and a scene/stage
//! state machine. The host (input polling, pixel blitting) lives outside;
//! this crate computes one frame of game state at a time and emits draw
//! requests as plain data.

pub mod utils;
pub mod stage;
pub mod assets;
pub mod dragon;
pub mod scenes;
pub mod game;

use vstd::prelude::*;

verus! {

} // verus!
