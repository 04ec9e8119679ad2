//! A single occupied cell of the board.

use vstd::prelude::*;

use crate::common::{BOARD_COLS, COORD_LIMIT, VISIBILITY_LIMIT_Y};

verus! {

/// One occupied cell: an integer coordinate pair. `x` grows rightward,
/// `y` grows upward from the floor at `y == 0`.
#[derive(Debug, Clone, Copy, PartialEq, Eq, Structural)]
pub struct Block {
    pub x: i32,
    pub y: i32,
}

/// A block that sits inside the board horizontally and at or above the
/// floor, below the generous coordinate ceiling. Every block a session
/// holds satisfies this.
pub open spec fn block_in_bounds(b: Block) -> bool {
    &&& 0 <= b.x < BOARD_COLS
    &&& 0 <= b.y <= COORD_LIMIT
}

impl Block {
    /// Create a block at the given cell.
    pub fn new(x: i32, y: i32) -> (b: Self)
        ensures
            b.x == x,
            b.y == y,
    {
        Self { x, y }
    }

    /// Move one row toward the floor.
    pub fn move_down(&mut self)
        requires
            old(self).y > i32::MIN,
        ensures
            final(self).x == old(self).x,
            final(self).y == old(self).y - 1,
    {
        self.y -= 1;
    }

    /// Move one column to the left.
    pub fn move_left(&mut self)
        requires
            old(self).x > i32::MIN,
        ensures
            final(self).x == old(self).x - 1,
            final(self).y == old(self).y,
    {
        self.x -= 1;
    }

    /// Move one column to the right.
    pub fn move_right(&mut self)
        requires
            old(self).x < i32::MAX,
        ensures
            final(self).x == old(self).x + 1,
            final(self).y == old(self).y,
    {
        self.x += 1;
    }

    /// Place the block at the given cell.
    pub fn move_to(&mut self, x: i32, y: i32)
        ensures
            final(self).x == x,
            final(self).y == y,
    {
        self.x = x;
        self.y = y;
    }

    /// The column of the block.
    pub fn x(&self) -> (r: i32)
        ensures
            r == self.x,
    {
        self.x
    }

    /// The row of the block.
    pub fn y(&self) -> (r: i32)
        ensures
            r == self.y,
    {
        self.y
    }

    /// Move the block vertically by `shift` rows (negative moves down).
    pub fn shift_y(&mut self, shift: i32)
        requires
            i32::MIN <= old(self).y + shift <= i32::MAX,
        ensures
            final(self).x == old(self).x,
            final(self).y == old(self).y + shift,
    {
        self.y += shift;
    }
}

/// Whether a block lies inside the visible part of the cup; blocks at or
/// above the visibility limit are not drawn.
pub fn block_visible(b: &Block) -> (r: bool)
    ensures
        r == (b.y < VISIBILITY_LIMIT_Y),
{
    b.y < VISIBILITY_LIMIT_Y
}

} // verus!
