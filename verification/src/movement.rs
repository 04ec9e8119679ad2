//! Per-tick move legality of the active piece against the settled field.

use vstd::prelude::*;

use crate::block::Block;
use crate::common::BOARD_COLS;

verus! {

/// Which directions are currently legal for the whole active piece as a
/// unit. A tetromino moves rigidly: one blocked block blocks the piece.
#[derive(Debug, Clone, Copy, PartialEq, Eq, Structural)]
pub struct Movable {
    pub down: bool,
    pub left: bool,
    pub right: bool,
}

impl Movable {
    /// All movements enabled.
    pub fn new() -> (m: Self)
        ensures
            m.down && m.left && m.right,
    {
        Self { down: true, left: true, right: true }
    }

    /// Rotation needs every direction free: the destination cells must be
    /// fully unobstructed.
    pub fn can_rotate(&self) -> (r: bool)
        ensures
            r == (self.down && self.left && self.right),
    {
        self.down && self.left && self.right
    }

    /// Whether the piece can move down.
    pub fn can_move_down(&self) -> (r: bool)
        ensures
            r == self.down,
    {
        self.down
    }

    /// Whether the piece can move left.
    pub fn can_move_left(&self) -> (r: bool)
        ensures
            r == self.left,
    {
        self.left
    }

    /// Whether the piece can move right.
    pub fn can_move_right(&self) -> (r: bool)
        ensures
            r == self.right,
    {
        self.right
    }
}

/// Some settled block occupies the cell `(x, y)`.
pub open spec fn occupied(settled: Seq<Block>, x: int, y: int) -> bool {
    exists|i: int| 0 <= i < settled.len() && settled[i].x == x && settled[i].y == y
}

/// Some block of the piece sits on the floor or directly above a settled
/// block, so the piece cannot descend.
pub open spec fn blocked_down(blocks: Seq<Block>, settled: Seq<Block>) -> bool {
    exists|i: int|
        0 <= i < blocks.len() && (blocks[i].y == 0 || occupied(
            settled,
            blocks[i].x as int,
            blocks[i].y - 1,
        ))
}

/// Some block of the piece sits at the left wall or directly right of a
/// settled block.
pub open spec fn blocked_left(blocks: Seq<Block>, settled: Seq<Block>) -> bool {
    exists|i: int|
        0 <= i < blocks.len() && (blocks[i].x == 0 || occupied(
            settled,
            blocks[i].x - 1,
            blocks[i].y as int,
        ))
}

/// Some block of the piece sits at the right wall or directly left of a
/// settled block.
pub open spec fn blocked_right(blocks: Seq<Block>, settled: Seq<Block>) -> bool {
    exists|i: int|
        0 <= i < blocks.len() && (blocks[i].x == BOARD_COLS - 1 || occupied(
            settled,
            blocks[i].x + 1,
            blocks[i].y as int,
        ))
}

/// Like `blocked_down` for a rotation candidate: a block below the floor
/// also blocks, wherever it is.
pub open spec fn rot_blocked_down(blocks: Seq<Block>, settled: Seq<Block>) -> bool {
    exists|i: int|
        0 <= i < blocks.len() && (blocks[i].y < 0 || occupied(
            settled,
            blocks[i].x as int,
            blocks[i].y - 1,
        ))
}

/// Like `blocked_left` for a rotation candidate: a block left of the wall
/// also blocks.
pub open spec fn rot_blocked_left(blocks: Seq<Block>, settled: Seq<Block>) -> bool {
    exists|i: int|
        0 <= i < blocks.len() && (blocks[i].x < 0 || occupied(
            settled,
            blocks[i].x - 1,
            blocks[i].y as int,
        ))
}

/// Like `blocked_right` for a rotation candidate: a block right of the wall
/// also blocks.
pub open spec fn rot_blocked_right(blocks: Seq<Block>, settled: Seq<Block>) -> bool {
    exists|i: int|
        0 <= i < blocks.len() && (blocks[i].x > BOARD_COLS - 1 || occupied(
            settled,
            blocks[i].x + 1,
            blocks[i].y as int,
        ))
}

/// Whether any settled block occupies the cell `(x, y)`.
pub fn cell_occupied(settled: &[Block], x: i32, y: i32) -> (r: bool)
    ensures
        r == occupied(settled@, x as int, y as int),
{
    let mut i: usize = 0;
    while i < settled.len()
        invariant
            0 <= i <= settled@.len(),
            !occupied(settled@.take(i as int), x as int, y as int),
        decreases settled@.len() - i,
    {
        if settled[i].x == x && settled[i].y == y {
            proof {
                assert(settled@[i as int].x == x && settled@[i as int].y == y);
            }
            return true;
        }
        proof {
            assert(settled@.take(i + 1 as int) =~= settled@.take(i as int).push(
                settled@[i as int],
            ));
            assert(!occupied(settled@.take(i + 1 as int), x as int, y as int));
        }
        i += 1;
    }
    proof {
        assert(settled@.take(settled@.len() as int) =~= settled@);
    }
    false
}

/// Compute which directions are legal for the active piece: a direction is
/// reported legal exactly when no block of the piece is blocked that way.
pub fn valid_move(blocks: &[Block], settled: &[Block]) -> (m: Movable)
    requires
        forall|i: int|
            0 <= i < blocks@.len() ==> (#[trigger] blocks@[i]).x > i32::MIN && blocks@[i].x
                < i32::MAX && blocks@[i].y > i32::MIN,
    ensures
        m.down == !blocked_down(blocks@, settled@),
        m.left == !blocked_left(blocks@, settled@),
        m.right == !blocked_right(blocks@, settled@),
{
    let mut moveable = Movable::new();
    let mut i: usize = 0;
    while i < blocks.len()
        invariant
            0 <= i <= blocks@.len(),
            forall|k: int|
                0 <= k < blocks@.len() ==> (#[trigger] blocks@[k]).x > i32::MIN && blocks@[k].x
                    < i32::MAX && blocks@[k].y > i32::MIN,
            moveable.down == !blocked_down(blocks@.take(i as int), settled@),
            moveable.left == !blocked_left(blocks@.take(i as int), settled@),
            moveable.right == !blocked_right(blocks@.take(i as int), settled@),
        decreases blocks@.len() - i,
    {
        let block = blocks[i];
        let down_hit = block.y == 0 || cell_occupied(settled, block.x, block.y - 1);
        let left_hit = block.x == 0 || cell_occupied(settled, block.x - 1, block.y);
        let right_hit = block.x == BOARD_COLS - 1 || cell_occupied(settled, block.x + 1, block.y);
        if down_hit {
            moveable.down = false;
        }
        if left_hit {
            moveable.left = false;
        }
        if right_hit {
            moveable.right = false;
        }
        proof {
            let prefix = blocks@.take(i as int);
            let next = blocks@.take(i + 1 as int);
            assert(next =~= prefix.push(blocks@[i as int]));
            assert(next[i as int] == blocks@[i as int]);
            assert(blocked_down(next, settled@) == (blocked_down(prefix, settled@) || down_hit))
                by {
                if blocked_down(prefix, settled@) {
                    let j = choose|j: int|
                        0 <= j < prefix.len() && (prefix[j].y == 0 || occupied(
                            settled@,
                            prefix[j].x as int,
                            prefix[j].y - 1,
                        ));
                    assert(next[j] == prefix[j]);
                }
                if blocked_down(next, settled@) && !down_hit {
                    let j = choose|j: int|
                        0 <= j < next.len() && (next[j].y == 0 || occupied(
                            settled@,
                            next[j].x as int,
                            next[j].y - 1,
                        ));
                    assert(j < i ==> prefix[j] == next[j]);
                }
            }
            assert(blocked_left(next, settled@) == (blocked_left(prefix, settled@) || left_hit))
                by {
                if blocked_left(prefix, settled@) {
                    let j = choose|j: int|
                        0 <= j < prefix.len() && (prefix[j].x == 0 || occupied(
                            settled@,
                            prefix[j].x - 1,
                            prefix[j].y as int,
                        ));
                    assert(next[j] == prefix[j]);
                }
                if blocked_left(next, settled@) && !left_hit {
                    let j = choose|j: int|
                        0 <= j < next.len() && (next[j].x == 0 || occupied(
                            settled@,
                            next[j].x - 1,
                            next[j].y as int,
                        ));
                    assert(j < i ==> prefix[j] == next[j]);
                }
            }
            assert(blocked_right(next, settled@) == (blocked_right(prefix, settled@) || right_hit))
                by {
                if blocked_right(prefix, settled@) {
                    let j = choose|j: int|
                        0 <= j < prefix.len() && (prefix[j].x == BOARD_COLS - 1 || occupied(
                            settled@,
                            prefix[j].x + 1,
                            prefix[j].y as int,
                        ));
                    assert(next[j] == prefix[j]);
                }
                if blocked_right(next, settled@) && !right_hit {
                    let j = choose|j: int|
                        0 <= j < next.len() && (next[j].x == BOARD_COLS - 1 || occupied(
                            settled@,
                            next[j].x + 1,
                            next[j].y as int,
                        ));
                    assert(j < i ==> prefix[j] == next[j]);
                }
            }
        }
        i += 1;
    }
    proof {
        assert(blocks@.take(blocks@.len() as int) =~= blocks@);
    }
    moveable
}

/// Compute which directions are legal for a rotation candidate. The
/// boundary comparisons are looser than `valid_move`'s (`< 0` and
/// `> BOARD_COLS - 1`), since a rotated block may lie outside the board
/// before the rotation is discarded.
pub fn valid_rotation(blocks: &[Block], settled: &[Block]) -> (m: Movable)
    ensures
        m.down == !rot_blocked_down(blocks@, settled@),
        m.left == !rot_blocked_left(blocks@, settled@),
        m.right == !rot_blocked_right(blocks@, settled@),
{
    let mut moveable = Movable::new();
    let mut i: usize = 0;
    while i < blocks.len()
        invariant
            0 <= i <= blocks@.len(),
            moveable.down == !rot_blocked_down(blocks@.take(i as int), settled@),
            moveable.left == !rot_blocked_left(blocks@.take(i as int), settled@),
            moveable.right == !rot_blocked_right(blocks@.take(i as int), settled@),
        decreases blocks@.len() - i,
    {
        let block = blocks[i];
        let down_hit = block.y < 0 || cell_occupied(settled, block.x, block.y - 1);
        let left_hit = block.x < 0 || cell_occupied(settled, block.x - 1, block.y);
        let right_hit = block.x > BOARD_COLS - 1 || cell_occupied(settled, block.x + 1, block.y);
        if down_hit {
            moveable.down = false;
        }
        if left_hit {
            moveable.left = false;
        }
        if right_hit {
            moveable.right = false;
        }
        proof {
            let prefix = blocks@.take(i as int);
            let next = blocks@.take(i + 1 as int);
            assert(next =~= prefix.push(blocks@[i as int]));
            assert(next[i as int] == blocks@[i as int]);
            assert(rot_blocked_down(next, settled@) == (rot_blocked_down(prefix, settled@)
                || down_hit)) by {
                if rot_blocked_down(prefix, settled@) {
                    let j = choose|j: int|
                        0 <= j < prefix.len() && (prefix[j].y < 0 || occupied(
                            settled@,
                            prefix[j].x as int,
                            prefix[j].y - 1,
                        ));
                    assert(next[j] == prefix[j]);
                }
                if rot_blocked_down(next, settled@) && !down_hit {
                    let j = choose|j: int|
                        0 <= j < next.len() && (next[j].y < 0 || occupied(
                            settled@,
                            next[j].x as int,
                            next[j].y - 1,
                        ));
                    assert(j < i ==> prefix[j] == next[j]);
                }
            }
            assert(rot_blocked_left(next, settled@) == (rot_blocked_left(prefix, settled@)
                || left_hit)) by {
                if rot_blocked_left(prefix, settled@) {
                    let j = choose|j: int|
                        0 <= j < prefix.len() && (prefix[j].x < 0 || occupied(
                            settled@,
                            prefix[j].x - 1,
                            prefix[j].y as int,
                        ));
                    assert(next[j] == prefix[j]);
                }
                if rot_blocked_left(next, settled@) && !left_hit {
                    let j = choose|j: int|
                        0 <= j < next.len() && (next[j].x < 0 || occupied(
                            settled@,
                            next[j].x - 1,
                            next[j].y as int,
                        ));
                    assert(j < i ==> prefix[j] == next[j]);
                }
            }
            assert(rot_blocked_right(next, settled@) == (rot_blocked_right(prefix, settled@)
                || right_hit)) by {
                if rot_blocked_right(prefix, settled@) {
                    let j = choose|j: int|
                        0 <= j < prefix.len() && (prefix[j].x > BOARD_COLS - 1 || occupied(
                            settled@,
                            prefix[j].x + 1,
                            prefix[j].y as int,
                        ));
                    assert(next[j] == prefix[j]);
                }
                if rot_blocked_right(next, settled@) && !right_hit {
                    let j = choose|j: int|
                        0 <= j < next.len() && (next[j].x > BOARD_COLS - 1 || occupied(
                            settled@,
                            next[j].x + 1,
                            next[j].y as int,
                        ));
                    assert(j < i ==> prefix[j] == next[j]);
                }
            }
        }
        i += 1;
    }
    proof {
        assert(blocks@.take(blocks@.len() as int) =~= blocks@);
    }
    moveable
}

/// Whether the active piece must lock: some block of it rests on the floor
/// or on a settled block. Equivalent to `valid_move` disabling "down".
pub fn collisions_check(blocks: &[Block], settled: &[Block]) -> (locked: bool)
    requires
        forall|i: int| 0 <= i < blocks@.len() ==> (#[trigger] blocks@[i]).y > i32::MIN,
    ensures
        locked == blocked_down(blocks@, settled@),
{
    let mut i: usize = 0;
    while i < blocks.len()
        invariant
            0 <= i <= blocks@.len(),
            forall|k: int| 0 <= k < blocks@.len() ==> (#[trigger] blocks@[k]).y > i32::MIN,
            !blocked_down(blocks@.take(i as int), settled@),
        decreases blocks@.len() - i,
    {
        let block = blocks[i];
        if block.y == 0 || cell_occupied(settled, block.x, block.y - 1) {
            proof {
                assert(blocks@[i as int].y == block.y && blocks@[i as int].x == block.x);
            }
            return true;
        }
        proof {
            assert(blocks@.take(i + 1 as int) =~= blocks@.take(i as int).push(blocks@[i as int]));
        }
        i += 1;
    }
    proof {
        assert(blocks@.take(blocks@.len() as int) =~= blocks@);
    }
    false
}

/// Whether any settled block has reached the visibility limit, which ends
/// the game on the next evaluation.
pub fn game_over_check(settled: &[Block]) -> (over: bool)
    ensures
        over == exists|i: int|
            0 <= i < settled@.len() && (#[trigger] settled@[i]).y
                >= crate::common::VISIBILITY_LIMIT_Y,
{
    let mut i: usize = 0;
    while i < settled.len()
        invariant
            0 <= i <= settled@.len(),
            forall|k: int|
                0 <= k < i ==> (#[trigger] settled@[k]).y < crate::common::VISIBILITY_LIMIT_Y,
        decreases settled@.len() - i,
    {
        if settled[i].y >= crate::common::VISIBILITY_LIMIT_Y {
            return true;
        }
        i += 1;
    }
    false
}

/// A legal downward report never holds a block sitting on the floor, and a
/// legal left or right report never holds a block at the matching wall.
pub proof fn lemma_valid_move_walls(blocks: Seq<Block>, settled: Seq<Block>)
    ensures
        !blocked_down(blocks, settled) ==> forall|i: int|
            0 <= i < blocks.len() ==> (#[trigger] blocks[i]).y != 0,
        !blocked_left(blocks, settled) ==> forall|i: int|
            0 <= i < blocks.len() ==> (#[trigger] blocks[i]).x != 0,
        !blocked_right(blocks, settled) ==> forall|i: int|
            0 <= i < blocks.len() ==> (#[trigger] blocks[i]).x != BOARD_COLS - 1,
{
}

} // verus!
