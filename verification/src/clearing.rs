//! Full-row detection, removal, gravity shift, and the score delta.

use vstd::prelude::*;

use crate::block::Block;
use crate::common::{BOARD_COLS, BOARD_ROWS};
use crate::stats::{line_clear_score, score_for_lines, Score};

verus! {

/// How many settled blocks lie on row `y`.
pub open spec fn row_count(settled: Seq<Block>, y: int) -> nat {
    settled.filter(|b: Block| b.y == y).len()
}

/// Row `y` is full: it is a visible row and every one of its cells is
/// occupied.
pub open spec fn is_full_row(settled: Seq<Block>, y: int) -> bool {
    0 <= y < BOARD_ROWS && row_count(settled, y) == BOARD_COLS
}

/// How many full rows lie strictly below row `n`.
pub open spec fn full_rows_below(settled: Seq<Block>, n: int) -> nat
    decreases n,
{
    if n <= 0 {
        0
    } else {
        full_rows_below(settled, n - 1) + if is_full_row(settled, n - 1) {
            1nat
        } else {
            0nat
        }
    }
}

/// How many rows are full on the whole board.
pub open spec fn total_full_rows(settled: Seq<Block>) -> nat {
    full_rows_below(settled, BOARD_ROWS as int)
}

/// Where a surviving block ends up after one clearing pass: shifted down
/// by the number of full rows strictly below it.
pub open spec fn shifted_down(settled: Seq<Block>, b: Block) -> Block {
    Block { x: b.x, y: (b.y - full_rows_below(settled, b.y as int)) as i32 }
}

/// The part of `s` that survives clearing the full rows of `orig`, each
/// survivor shifted down past the full rows below it.
pub open spec fn cleared_field_of(orig: Seq<Block>, s: Seq<Block>) -> Seq<Block> {
    s.filter(|b: Block| !is_full_row(orig, b.y as int)).map_values(
        |b: Block| shifted_down(orig, b),
    )
}

/// The settled field after one clearing pass.
pub open spec fn cleared_field(settled: Seq<Block>) -> Seq<Block> {
    cleared_field_of(settled, settled)
}

/// There are at most `n` full rows below row `n`.
pub proof fn lemma_full_rows_below_le(settled: Seq<Block>, n: int)
    ensures
        full_rows_below(settled, n) <= if n <= 0 {
            0
        } else {
            n
        },
    decreases n,
{
    if n > 0 {
        lemma_full_rows_below_le(settled, n - 1);
    }
}

/// Counting full rows below a higher row counts at least as many.
pub proof fn lemma_full_rows_below_mono(settled: Seq<Block>, a: int, b: int)
    requires
        a <= b,
    ensures
        full_rows_below(settled, a) <= full_rows_below(settled, b),
    decreases b - a,
{
    if a < b {
        lemma_full_rows_below_mono(settled, a, b - 1);
    }
}

/// No row at or above the visible board is full, so counting further up
/// adds nothing.
pub proof fn lemma_full_rows_below_high(settled: Seq<Block>, n: int)
    requires
        n >= BOARD_ROWS,
    ensures
        full_rows_below(settled, n) == total_full_rows(settled),
    decreases n,
{
    if n > BOARD_ROWS {
        lemma_full_rows_below_high(settled, n - 1);
    }
}

/// A full row below row `n` makes the count below `n` positive.
pub proof fn lemma_full_rows_below_pos(settled: Seq<Block>, y: int, n: int)
    requires
        is_full_row(settled, y),
        y < n,
    ensures
        full_rows_below(settled, n) >= 1,
{
    lemma_full_rows_below_mono(settled, y + 1, n);
}

/// Appending one block to a row raises that row's count by one and leaves
/// every other row's count unchanged.
proof fn lemma_row_count_push(s: Seq<Block>, b: Block, y: int)
    ensures
        row_count(s.push(b), y) == row_count(s, y) + if b.y == y {
            1nat
        } else {
            0nat
        },
{
    reveal(Seq::filter);
    assert(s.push(b).drop_last() =~= s);
    assert(s.push(b).last() == b);
}

/// How one more block changes the cleared field: a block on a full row of
/// `orig` vanishes, any other block survives shifted.
proof fn lemma_cleared_field_push(orig: Seq<Block>, s: Seq<Block>, b: Block)
    ensures
        cleared_field_of(orig, s.push(b)) == if is_full_row(orig, b.y as int) {
            cleared_field_of(orig, s)
        } else {
            cleared_field_of(orig, s).push(shifted_down(orig, b))
        },
{
    reveal(Seq::filter);
    let pred = |bb: Block| !is_full_row(orig, bb.y as int);
    let f = |bb: Block| shifted_down(orig, bb);
    assert(s.push(b).drop_last() =~= s);
    assert(s.push(b).last() == b);
    if pred(b) {
        assert(s.push(b).filter(pred) == s.filter(pred).push(b));
        assert(s.filter(pred).push(b).map_values(f) =~= s.filter(pred).map_values(f).push(f(b)));
    }
}

/// Detect the full rows of the settled field, destroy their blocks, shift
/// every remaining block down by the number of full rows strictly below
/// it, and award the score for the number of rows cleared in this pass.
/// Returns `None`, and changes nothing, when no row is full.
pub fn remove_lines(settled: &mut Vec<Block>) -> (r: Option<Score>)
    ensures
        final(settled)@ == cleared_field(old(settled)@),
        r is Some <==> total_full_rows(old(settled)@) > 0,
        r matches Some(s) ==> s.value == line_clear_score(total_full_rows(old(settled)@) as int)
            && s.lines == total_full_rows(old(settled)@),
{
    let ghost orig = settled@;

    // Count the settled blocks of each visible row; rows outside the board
    // are ignored.
    let mut lines: [usize; 20] = [0; 20];
    let mut i: usize = 0;
    while i < settled.len()
        invariant
            0 <= i <= settled@.len(),
            settled@ == orig,
            lines@.len() == 20,
            forall|y: int| 0 <= y < 20 ==> #[trigger] lines@[y] == row_count(orig.take(i as int), y),
            forall|y: int| 0 <= y < 20 ==> #[trigger] lines@[y] <= i,
        decreases settled@.len() - i,
    {
        let b = settled[i];
        proof {
            assert(orig.take(i + 1 as int) =~= orig.take(i as int).push(orig[i as int]));
            assert forall|y: int| 0 <= y < 20 implies row_count(orig.take(i + 1 as int), y)
                == row_count(orig.take(i as int), y) + if b.y == y {
                1nat
            } else {
                0nat
            } by {
                lemma_row_count_push(orig.take(i as int), orig[i as int], y);
            }
        }
        if b.y >= 0 && b.y < BOARD_ROWS {
            let y = b.y as usize;
            lines[y] = lines[y] + 1;
        }
        i += 1;
    }
    proof {
        assert(orig.take(settled@.len() as int) =~= orig);
    }

    // Prefix sums: `below[n]` is the number of full rows strictly below
    // row `n`.
    let mut below: [usize; 21] = [0; 21];
    let mut n: usize = 0;
    while n < 20
        invariant
            0 <= n <= 20,
            settled@ == orig,
            lines@.len() == 20,
            below@.len() == 21,
            forall|y: int| 0 <= y < 20 ==> #[trigger] lines@[y] == row_count(orig, y),
            forall|k: int| 0 <= k <= n ==> #[trigger] below@[k] == full_rows_below(orig, k),
            forall|k: int| 0 <= k <= n ==> #[trigger] below@[k] <= k,
        decreases 20 - n,
    {
        let full = lines[n] == BOARD_COLS as usize;
        proof {
            assert(is_full_row(orig, n as int) == full);
        }
        below[n + 1] = below[n] + if full {
            1
        } else {
            0
        };
        n += 1;
    }

    let count = below[20];
    proof {
        assert(count == total_full_rows(orig));
    }
    if count == 0 {
        proof {
            lemma_cleared_unchanged(orig);
        }
        return None;
    }

    // Rebuild the field: drop blocks on full rows, shift the rest down.
    let mut out: Vec<Block> = Vec::new();
    let mut i: usize = 0;
    while i < settled.len()
        invariant
            0 <= i <= settled@.len(),
            settled@ == orig,
            lines@.len() == 20,
            below@.len() == 21,
            forall|y: int| 0 <= y < 20 ==> #[trigger] lines@[y] == row_count(orig, y),
            forall|k: int| 0 <= k <= 20 ==> #[trigger] below@[k] == full_rows_below(orig, k),
            forall|k: int| 0 <= k <= 20 ==> #[trigger] below@[k] <= k,
            out@ == cleared_field_of(orig, orig.take(i as int)),
        decreases settled@.len() - i,
    {
        let b = settled[i];
        proof {
            assert(orig.take(i + 1 as int) =~= orig.take(i as int).push(orig[i as int]));
            lemma_cleared_field_push(orig, orig.take(i as int), orig[i as int]);
        }
        if b.y >= 0 && b.y < BOARD_ROWS && lines[b.y as usize] == BOARD_COLS as usize {
            // This block's row is full: the block is destroyed.
        } else {
            let offset: usize = if b.y < 0 {
                0
            } else if b.y >= BOARD_ROWS {
                proof {
                    lemma_full_rows_below_high(orig, b.y as int);
                }
                below[20]
            } else {
                below[b.y as usize]
            };
            proof {
                assert(offset == full_rows_below(orig, b.y as int)) by {
                    if b.y >= BOARD_ROWS {
                        lemma_full_rows_below_high(orig, b.y as int);
                    }
                }
                lemma_full_rows_below_le(orig, b.y as int);
            }
            out.push(Block { x: b.x, y: b.y - offset as i32 });
        }
        i += 1;
    }
    proof {
        assert(orig.take(settled@.len() as int) =~= orig);
    }
    *settled = out;

    let cleared: u64 = count as u64;
    Some(Score { value: score_for_lines(cleared), lines: cleared })
}

/// With no full row, a clearing pass changes nothing.
pub proof fn lemma_cleared_unchanged(s: Seq<Block>)
    requires
        total_full_rows(s) == 0,
    ensures
        cleared_field(s) == s,
{
    assert forall|y: int| !is_full_row(s, y) by {
        if is_full_row(s, y) {
            lemma_full_rows_below_pos(s, y, BOARD_ROWS as int);
        }
    }
    assert forall|b: Block| #[trigger] shifted_down(s, b) == b by {
        assert(full_rows_below(s, b.y as int) == 0) by {
            if b.y as int <= BOARD_ROWS {
                lemma_full_rows_below_mono(s, b.y as int, BOARD_ROWS as int);
            } else {
                lemma_full_rows_below_high(s, b.y as int);
            }
        }
    }
    lemma_cleared_id(s, s);
}

/// A positive count of full rows below `n` exhibits a full row below `n`.
proof fn lemma_full_rows_below_witness(settled: Seq<Block>, n: int)
    requires
        full_rows_below(settled, n) >= 1,
    ensures
        exists|r: int| 0 <= r < n && is_full_row(settled, r),
    decreases n,
{
    if n > 0 {
        if is_full_row(settled, n - 1) {
            assert(0 <= n - 1 < n && is_full_row(settled, n - 1));
        } else {
            lemma_full_rows_below_witness(settled, n - 1);
        }
    }
}

/// When exactly one row — row `y` — is full, a clearing pass moves every
/// surviving block above it down by exactly one row, and leaves every
/// surviving block below it in place; columns never change.
pub proof fn lemma_single_clear_shift(s: Seq<Block>, y: int, b: Block)
    requires
        total_full_rows(s) == 1,
        is_full_row(s, y),
        !is_full_row(s, b.y as int),
    ensures
        b.y > y ==> shifted_down(s, b).y == b.y - 1,
        b.y < y ==> shifted_down(s, b) == b,
        shifted_down(s, b).x == b.x,
{
    if b.y > y {
        lemma_full_rows_below_pos(s, y, b.y as int);
        if b.y as int <= BOARD_ROWS {
            lemma_full_rows_below_mono(s, b.y as int, BOARD_ROWS as int);
        } else {
            lemma_full_rows_below_high(s, b.y as int);
        }
    } else {
        if full_rows_below(s, b.y as int) >= 1 {
            lemma_full_rows_below_witness(s, b.y as int);
            let r = choose|r: int| 0 <= r < b.y && is_full_row(s, r);
            lemma_full_rows_below_pos(s, r, y);
            assert(full_rows_below(s, y + 1) == full_rows_below(s, y) + 1);
            lemma_full_rows_below_mono(s, y + 1, BOARD_ROWS as int);
            assert(false);
        }
    }
}

/// A clearing pass keeps every surviving block inside the board: the
/// column is untouched and the row only moves down, never below the
/// floor.
pub proof fn lemma_cleared_in_bounds(s: Seq<Block>)
    requires
        forall|i: int| 0 <= i < s.len() ==> crate::block::block_in_bounds(#[trigger] s[i]),
    ensures
        forall|i: int|
            0 <= i < cleared_field(s).len() ==> crate::block::block_in_bounds(
                #[trigger] cleared_field(s)[i],
            ),
{
    lemma_cleared_bounds_of(s, s);
}

/// Induction behind `lemma_cleared_in_bounds`, over the scanned part.
proof fn lemma_cleared_bounds_of(orig: Seq<Block>, s: Seq<Block>)
    requires
        forall|i: int| 0 <= i < s.len() ==> crate::block::block_in_bounds(#[trigger] s[i]),
    ensures
        forall|i: int|
            0 <= i < cleared_field_of(orig, s).len() ==> crate::block::block_in_bounds(
                #[trigger] cleared_field_of(orig, s)[i],
            ),
    decreases s.len(),
{
    if s.len() > 0 {
        assert forall|i: int| 0 <= i < s.drop_last().len() implies crate::block::block_in_bounds(
            #[trigger] s.drop_last()[i],
        ) by {
            assert(s.drop_last()[i] == s[i]);
        }
        lemma_cleared_bounds_of(orig, s.drop_last());
        let b = s.last();
        assert(crate::block::block_in_bounds(b));
        lemma_cleared_field_push(orig, s.drop_last(), b);
        assert(s.drop_last().push(b) =~= s);
        if !is_full_row(orig, b.y as int) {
            lemma_full_rows_below_le(orig, b.y as int);
            assert(crate::block::block_in_bounds(shifted_down(orig, b)));
        }
    }
}

/// With no full row in `orig`, every block of `s` survives unshifted.
proof fn lemma_cleared_id(orig: Seq<Block>, s: Seq<Block>)
    requires
        forall|y: int| !is_full_row(orig, y),
        forall|b: Block| #[trigger] shifted_down(orig, b) == b,
    ensures
        cleared_field_of(orig, s) == s,
    decreases s.len(),
{
    reveal(Seq::filter);
    if s.len() == 0 {
        assert(cleared_field_of(orig, s) =~= s);
    } else {
        lemma_cleared_id(orig, s.drop_last());
        lemma_cleared_field_push(orig, s.drop_last(), s.last());
        assert(s.drop_last().push(s.last()) =~= s);
        assert(cleared_field_of(orig, s) =~= s.drop_last().push(s.last()));
    }
}

} // verus!
