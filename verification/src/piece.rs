//! The seven piece kinds, their spawn shapes, and pivot-based rotation.

use vstd::prelude::*;

use crate::block::Block;
use crate::common::COORD_LIMIT;

verus! {

/// The kind of a tetromino.
#[derive(Debug, Clone, Copy, PartialEq, Eq, Structural)]
pub enum PieceType {
    I,
    J,
    L,
    O,
    S,
    T,
    Z,
}

/// All seven kinds, in catalog order.
pub const PIECES: [PieceType; 7] = [
    PieceType::I,
    PieceType::J,
    PieceType::L,
    PieceType::O,
    PieceType::S,
    PieceType::T,
    PieceType::Z,
];

// Spawn layouts share a grid of columns 3..=6 and rows 0..=1.

/// The four spawn cells of a kind, in catalog order.
pub open spec fn shape(t: PieceType) -> Seq<Block> {
    match t {
        // ####
        PieceType::I => seq![
            Block { x: 3, y: 0 },
            Block { x: 4, y: 0 },
            Block { x: 5, y: 0 },
            Block { x: 6, y: 0 },
        ],
        // #
        // ###
        PieceType::J => seq![
            Block { x: 3, y: 1 },
            Block { x: 3, y: 0 },
            Block { x: 4, y: 0 },
            Block { x: 5, y: 0 },
        ],
        //   #
        // ###
        PieceType::L => seq![
            Block { x: 3, y: 0 },
            Block { x: 4, y: 0 },
            Block { x: 5, y: 0 },
            Block { x: 5, y: 1 },
        ],
        //  ##
        //  ##
        PieceType::O => seq![
            Block { x: 4, y: 1 },
            Block { x: 4, y: 0 },
            Block { x: 5, y: 1 },
            Block { x: 5, y: 0 },
        ],
        //  ##
        // ##
        PieceType::S => seq![
            Block { x: 3, y: 0 },
            Block { x: 4, y: 0 },
            Block { x: 4, y: 1 },
            Block { x: 5, y: 1 },
        ],
        //  #
        // ###
        PieceType::T => seq![
            Block { x: 3, y: 1 },
            Block { x: 4, y: 1 },
            Block { x: 4, y: 0 },
            Block { x: 5, y: 0 },
        ],
        // ##
        //  ##
        PieceType::Z => seq![
            Block { x: 3, y: 1 },
            Block { x: 4, y: 1 },
            Block { x: 4, y: 0 },
            Block { x: 5, y: 0 },
        ],
    }
}

/// Every spawn cell lies in columns 3..=6 and rows 0..=1.
pub proof fn lemma_shape_bounds(t: PieceType)
    ensures
        shape(t).len() == 4,
        forall|i: int|
            0 <= i < 4 ==> 3 <= #[trigger] shape(t)[i].x <= 6 && 0 <= shape(t)[i].y <= 1,
{
    assert forall|i: int| 0 <= i < 4 implies 3 <= #[trigger] shape(t)[i].x <= 6 && 0 <= shape(
        t,
    )[i].y <= 1 by {
        if i == 0 {
        } else if i == 1 {
        } else if i == 2 {
        }
    }
}

/// The four spawn blocks of a kind.
pub fn select_piece(piece_type: PieceType) -> (r: [Block; 4])
    ensures
        r@ == shape(piece_type),
{
    let r: [Block; 4] = match piece_type {
        PieceType::I => [
            Block { x: 3, y: 0 },
            Block { x: 4, y: 0 },
            Block { x: 5, y: 0 },
            Block { x: 6, y: 0 },
        ],
        PieceType::J => [
            Block { x: 3, y: 1 },
            Block { x: 3, y: 0 },
            Block { x: 4, y: 0 },
            Block { x: 5, y: 0 },
        ],
        PieceType::L => [
            Block { x: 3, y: 0 },
            Block { x: 4, y: 0 },
            Block { x: 5, y: 0 },
            Block { x: 5, y: 1 },
        ],
        PieceType::O => [
            Block { x: 4, y: 1 },
            Block { x: 4, y: 0 },
            Block { x: 5, y: 1 },
            Block { x: 5, y: 0 },
        ],
        PieceType::S => [
            Block { x: 3, y: 0 },
            Block { x: 4, y: 0 },
            Block { x: 4, y: 1 },
            Block { x: 5, y: 1 },
        ],
        PieceType::T => [
            Block { x: 3, y: 1 },
            Block { x: 4, y: 1 },
            Block { x: 4, y: 0 },
            Block { x: 5, y: 0 },
        ],
        PieceType::Z => [
            Block { x: 3, y: 1 },
            Block { x: 4, y: 1 },
            Block { x: 4, y: 0 },
            Block { x: 5, y: 0 },
        ],
    };
    proof {
        assert(r@ =~= shape(piece_type));
    }
    r
}

/// A block whose coordinates are nonnegative and below the coordinate
/// ceiling; the rotation arithmetic is defined on such blocks.
pub open spec fn block_in_coord_range(b: Block) -> bool {
    &&& 0 <= b.x <= COORD_LIMIT
    &&& 0 <= b.y <= COORD_LIMIT
}

/// The pivot column derived from four blocks: `avgX - avgY` with
/// integer-divided sums.
pub open spec fn pivot_x_of(bs: Seq<Block>) -> int
    recommends
        bs.len() == 4,
{
    (bs[0].x + bs[1].x + bs[2].x + bs[3].x) / 4 - (bs[0].y + bs[1].y + bs[2].y + bs[3].y) / 4
}

/// The pivot row derived from four blocks: `avgX + avgY` with
/// integer-divided sums.
pub open spec fn pivot_y_of(bs: Seq<Block>) -> int
    recommends
        bs.len() == 4,
{
    (bs[0].x + bs[1].x + bs[2].x + bs[3].x) / 4 + (bs[0].y + bs[1].y + bs[2].y + bs[3].y) / 4
}

/// The vertical offset added after rotation: 0 for kinds L and J, 1 for
/// every other kind. The asymmetry keeps each silhouette centered under
/// this pivot scheme and is part of the game's observable behavior.
pub open spec fn rotation_delta(t: PieceType) -> int {
    if t is L || t is J {
        0
    } else {
        1
    }
}

/// The pivot of four in-range blocks stays within one coordinate ceiling
/// of the board.
pub proof fn lemma_pivot_bounds(bs: Seq<Block>)
    requires
        bs.len() == 4,
        forall|i: int| 0 <= i < 4 ==> block_in_coord_range(#[trigger] bs[i]),
    ensures
        -COORD_LIMIT <= pivot_x_of(bs) <= COORD_LIMIT,
        0 <= pivot_y_of(bs) <= 2 * COORD_LIMIT,
{
    let sx = bs[0].x + bs[1].x + bs[2].x + bs[3].x;
    let sy = bs[0].y + bs[1].y + bs[2].y + bs[3].y;
    assert(0 <= sx <= 4 * COORD_LIMIT);
    assert(0 <= sy <= 4 * COORD_LIMIT);
    assert(0 <= sx / 4 <= COORD_LIMIT);
    assert(0 <= sy / 4 <= COORD_LIMIT);
}

/// A helper that rotates the four blocks of a piece a quarter turn around
/// a pivot derived once from their current positions.
pub struct Piece {
    pub piece_type: PieceType,
    pub blocks: [Block; 4],
    pub pivot_x: i32,
    pub pivot_y: i32,
}

impl Piece {
    /// The pivot fields match the block positions and all coordinates are
    /// in range, as `from_array` establishes.
    pub open spec fn wf(self) -> bool {
        &&& forall|i: int| 0 <= i < 4 ==> block_in_coord_range(#[trigger] self.blocks@[i])
        &&& self.pivot_x == pivot_x_of(self.blocks@)
        &&& self.pivot_y == pivot_y_of(self.blocks@)
    }

    /// Create a rotation helper for the given four blocks, computing the
    /// pivot from their positions.
    pub fn from_array(q_blocks: &[Block], piece_type: PieceType) -> (p: Self)
        requires
            q_blocks@.len() == 4,
            forall|i: int| 0 <= i < 4 ==> block_in_coord_range(#[trigger] q_blocks@[i]),
        ensures
            p.wf(),
            p.piece_type == piece_type,
            p.blocks@ == q_blocks@,
    {
        let blocks: [Block; 4] = [q_blocks[0], q_blocks[1], q_blocks[2], q_blocks[3]];
        proof {
            assert(blocks@ =~= q_blocks@);
        }
        let mut result = Self { piece_type, blocks, pivot_x: 0, pivot_y: 0 };
        result.compute();
        result
    }

    /// The current four blocks.
    pub fn blocks(&self) -> (r: [Block; 4])
        ensures
            r@ == self.blocks@,
    {
        self.blocks
    }

    /// Derive the pivot from the average of the block coordinates.
    fn compute(&mut self)
        requires
            forall|i: int| 0 <= i < 4 ==> block_in_coord_range(#[trigger] old(self).blocks@[i]),
        ensures
            final(self).blocks == old(self).blocks,
            final(self).piece_type == old(self).piece_type,
            final(self).pivot_x == pivot_x_of(final(self).blocks@),
            final(self).pivot_y == pivot_y_of(final(self).blocks@),
    {
        let sum_x: i32 = self.blocks[0].x + self.blocks[1].x + self.blocks[2].x
            + self.blocks[3].x;
        let sum_y: i32 = self.blocks[0].y + self.blocks[1].y + self.blocks[2].y
            + self.blocks[3].y;
        self.pivot_x = sum_x / 4 - sum_y / 4;
        self.pivot_y = sum_x / 4 + sum_y / 4;
    }

    /// Rotate all four blocks; a kind `O` piece comes back unchanged.
    pub fn rotate_blocks(&self) -> (r: [Block; 4])
        requires
            self.wf(),
        ensures
            self.piece_type is O ==> r@ == self.blocks@,
            !(self.piece_type is O) ==> forall|i: int|
                0 <= i < 4 ==> (#[trigger] r@[i]).x == self.blocks@[i].y + self.pivot_x
                    && r@[i].y == -self.blocks@[i].x + self.pivot_y
                    + rotation_delta(self.piece_type),
    {
        let mut blocks = self.blocks;
        if matches!(self.piece_type, PieceType::O) {
            return blocks;
        }
        let mut i: usize = 0;
        while i < 4
            invariant
                0 <= i <= 4,
                self.wf(),
                !(self.piece_type is O),
                blocks@.len() == 4,
                forall|j: int|
                    i <= j < 4 ==> #[trigger] blocks@[j] == self.blocks@[j],
                forall|j: int|
                    0 <= j < i ==> (#[trigger] blocks@[j]).x == self.blocks@[j].y + self.pivot_x
                        && blocks@[j].y == -self.blocks@[j].x + self.pivot_y
                        + rotation_delta(self.piece_type),
            decreases 4 - i,
        {
            let mut b = blocks[i];
            self.rotate_block(&mut b);
            blocks[i] = b;
            i += 1;
        }
        blocks
    }

    /// Rotate one block a quarter turn around the pivot; no-op for kind `O`.
    pub fn rotate_block(&self, block: &mut Block)
        requires
            self.wf(),
            block_in_coord_range(*old(block)),
        ensures
            self.piece_type is O ==> *final(block) == *old(block),
            !(self.piece_type is O) ==> final(block).x == old(block).y + self.pivot_x
                && final(block).y == -old(block).x + self.pivot_y
                + rotation_delta(self.piece_type),
    {
        if matches!(self.piece_type, PieceType::O) {
            return ;
        }
        let inv_x = -block.x;
        block.x = block.y + self.pivot_x;
        if matches!(self.piece_type, PieceType::L | PieceType::J) {
            block.y = inv_x + self.pivot_y;
        } else {
            block.y = inv_x + self.pivot_y + 1;
        }
    }
}

} // verus!
