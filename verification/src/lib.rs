use vstd::prelude::*;

pub mod obstacle;
pub mod player;
pub mod rng;
pub mod state;

verus! {

/// Width of the character grid, in columns.
pub const SCREEN_WIDTH: i32 = 80;
/// Height of the character grid, in rows.
pub const SCREEN_HEIGHT: i32 = 50;
/// Milliseconds of accumulated real time per physics tick.
pub const FRAME_DURATION: u32 = 75;
/// The fixed screen column at which the player is drawn; the world scrolls
/// beneath the player, so this column never changes.
pub const PLAYER_OFFSET: i32 = 20;

} // verus!
