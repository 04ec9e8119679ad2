//! Board dimensions and other game-wide constants.

use vstd::prelude::*;

verus! {

/// Number of columns of the board; valid x coordinates are `0..BOARD_COLS`.
pub const BOARD_COLS: i32 = 10;

/// Number of visible rows of the board; only rows `0..BOARD_ROWS` can clear.
pub const BOARD_ROWS: i32 = 20;

/// Number of upcoming pieces the queue keeps cached after each draw.
pub const CACHED_PIECES: usize = 7;

/// First row above the cup: blocks at or above it are hidden, and a settled
/// block there ends the game.
pub const VISIBILITY_LIMIT_Y: i32 = 21;

/// Generous ceiling on block coordinates. Ordinary play stays far below it;
/// it only keeps every coordinate computation comfortably inside `i32`.
pub const COORD_LIMIT: i32 = 0x10_0000;

} // verus!
