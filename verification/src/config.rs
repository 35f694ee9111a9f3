use vstd::prelude::*;

verus! {

/// Width of the playfield in grid units.
pub const SCREEN_WIDTH: u32 = 600;

/// Height of the playfield in grid units.
pub const SCREEN_HEIGHT: u32 = 800;

/// Distance the head moves per frame, in grid units.
pub const PLAYER_STEP: i32 = 10;

/// Side length of the square occupied by every entity, in grid units.
pub const RECT_SIZE: i32 = 20;

} // verus!
