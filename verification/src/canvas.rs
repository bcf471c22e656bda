use vstd::prelude::*;

verus! {

// Screen geometry, in dots (pixels of the logical raster) and in characters
// (8-dot units). The playfield is 28 characters wide and 26 characters tall.
pub const CHAR_WIDTH: i32 = 28;

pub const CHAR_HEIGHT: i32 = 26;

// Score strip above the playfield: 28 x 4 characters.
pub const TOP_WIDTH: i32 = 224;

pub const TOP_HEIGHT: i32 = 32;

// Main playfield: 28 x 26 characters.
pub const GAME_WIDTH: i32 = 224;

pub const GAME_HEIGHT: i32 = 208;

// Life display below the playfield: 28 x 2 characters.
pub const BOTTOM_WIDTH: i32 = 224;

pub const BOTTOM_HEIGHT: i32 = 16;

// The playfield raster measured in dots.
pub const DOT_WIDTH: i32 = 224;

pub const DOT_HEIGHT: i32 = 208;

// How many screen pixels one dot is scaled to by a presentation layer.
pub const SCALE: i32 = 3;

} // verus!
