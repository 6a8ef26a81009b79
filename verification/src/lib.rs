//! Verified game logic of Last Beacon: scene keys and navigation, the gameplay
//! space resolver, modular-vehicle connection planning, landscape parameter and
//! grid bookkeeping, and the reusable UI widget state.
use vstd::prelude::*;

pub mod input;
pub mod loading;
pub mod scenes;
pub mod shared;
pub mod text;
pub mod ui;
pub mod world;
pub mod vehicle;

verus! {

/// Foundation game name used by the engine `--game` argument.
pub const GAME_NAME: &'static str = "last-beacon";

} // verus!
