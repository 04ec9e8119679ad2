use tetris_core::block::Block;
use tetris_core::movement::{collisions_check, game_over_check, valid_move, valid_rotation};
use tetris_core::clearing::remove_lines;

fn row(y: i32, cols: impl IntoIterator<Item = i32>) -> Vec<Block> {
    cols.into_iter().map(|x| Block::new(x, y)).collect()
}

fn full_row(y: i32) -> Vec<Block> {
    row(y, 0..10)
}

#[test]
fn floor_and_walls_block_movement() {
    let settled: Vec<Block> = Vec::new();
    // A block on the floor can never move down.
    let m = valid_move(&[Block::new(5, 0)], &settled);
    assert!(!m.down);
    assert!(m.left && m.right);
    // A block at the left wall can never move left.
    let m = valid_move(&[Block::new(0, 5)], &settled);
    assert!(!m.left);
    assert!(m.down && m.right);
    // A block at the right wall can never move right.
    let m = valid_move(&[Block::new(9, 5)], &settled);
    assert!(!m.right);
    assert!(m.down && m.left);
    // One blocked block blocks the whole piece.
    let m = valid_move(&[Block::new(4, 4), Block::new(0, 7)], &settled);
    assert!(!m.left && m.down && m.right);
}

#[test]
fn settled_neighbours_block_movement() {
    let settled = vec![Block::new(4, 4)];
    let m = valid_move(&[Block::new(4, 5)], &settled);
    assert!(!m.down && m.left && m.right);
    let m = valid_move(&[Block::new(5, 4)], &settled);
    assert!(!m.left && m.down && m.right);
    let m = valid_move(&[Block::new(3, 4)], &settled);
    assert!(!m.right && m.down && m.left);
    let m = valid_move(&[Block::new(4, 6)], &settled);
    assert!(m.down && m.left && m.right);
}

#[test]
fn rotation_candidates_use_loose_bounds() {
    let settled: Vec<Block> = Vec::new();
    // A candidate below the floor blocks downward.
    let m = valid_rotation(&[Block::new(4, -1)], &settled);
    assert!(!m.down);
    // A candidate at row 0 is still fine for the candidate check.
    let m = valid_rotation(&[Block::new(4, 0)], &settled);
    assert!(m.down && m.left && m.right);
    // Outside either wall blocks that side.
    let m = valid_rotation(&[Block::new(-1, 5)], &settled);
    assert!(!m.left);
    let m = valid_rotation(&[Block::new(10, 5)], &settled);
    assert!(!m.right);
}

#[test]
fn lock_check_fires_on_floor_or_support() {
    let settled = vec![Block::new(7, 2)];
    assert!(collisions_check(&[Block::new(3, 0)], &settled));
    assert!(collisions_check(&[Block::new(7, 3)], &settled));
    assert!(!collisions_check(&[Block::new(7, 5)], &settled));
    assert!(!collisions_check(&[], &settled));
}

#[test]
fn game_over_sees_the_buffer_limit() {
    assert!(!game_over_check(&[Block::new(0, 20)]));
    assert!(game_over_check(&[Block::new(0, 21)]));
    assert!(game_over_check(&[Block::new(9, 30)]));
    assert!(!game_over_check(&[]));
}

#[test]
fn clearing_nothing_reports_nothing() {
    // Nine cells are not a full row.
    let mut settled = row(0, 0..9);
    let before = settled.clone();
    assert!(remove_lines(&mut settled).is_none());
    assert_eq!(settled, before);
}

#[test]
fn clearing_one_row_scores_forty() {
    let mut settled = full_row(0);
    settled.push(Block::new(3, 1));
    let score = remove_lines(&mut settled).expect("row 0 is full");
    assert_eq!(score.value, 40);
    assert_eq!(score.lines, 1);
    // The ten blocks of row 0 are destroyed; the survivor drops by one.
    assert_eq!(settled, vec![Block::new(3, 0)]);
}

#[test]
fn clearing_two_rows_scores_one_hundred() {
    let mut settled = full_row(0);
    settled.extend(full_row(1));
    let score = remove_lines(&mut settled).expect("two full rows");
    assert_eq!((score.value, score.lines), (100, 2));
    assert!(settled.is_empty());
}

#[test]
fn clearing_three_rows_scores_three_hundred() {
    let mut settled = full_row(2);
    settled.extend(full_row(5));
    settled.extend(full_row(9));
    let score = remove_lines(&mut settled).expect("three full rows");
    assert_eq!((score.value, score.lines), (300, 3));
}

#[test]
fn clearing_four_rows_scores_twelve_hundred() {
    let mut settled = full_row(0);
    settled.extend(full_row(1));
    settled.extend(full_row(2));
    settled.extend(full_row(3));
    settled.push(Block::new(0, 4));
    let score = remove_lines(&mut settled).expect("four full rows");
    assert_eq!((score.value, score.lines), (1200, 4));
    assert_eq!(settled, vec![Block::new(0, 0)]);
}

#[test]
fn blocks_fall_by_the_rows_cleared_below_them() {
    // Rows 3 and 5 are full; a block at row 10 must land on row 8, one
    // at row 4 drops to row 3, and one at row 2 stays.
    let mut settled = full_row(3);
    settled.extend(full_row(5));
    settled.push(Block::new(2, 10));
    settled.push(Block::new(6, 4));
    settled.push(Block::new(8, 2));
    let score = remove_lines(&mut settled).expect("two full rows");
    assert_eq!((score.value, score.lines), (100, 2));
    assert_eq!(
        settled,
        vec![Block::new(2, 8), Block::new(6, 3), Block::new(8, 2)]
    );
}

#[test]
fn buffer_rows_never_count_as_full() {
    // Ten cells on row 20 lie outside the scored board.
    let mut settled = row(20, 0..10);
    let before = settled.clone();
    assert!(remove_lines(&mut settled).is_none());
    assert_eq!(settled, before);
}

#[test]
fn eleven_cells_are_not_a_full_row() {
    // A row is full at exactly ten occupied cells.
    let mut settled = full_row(0);
    settled.push(Block::new(4, 0));
    assert!(remove_lines(&mut settled).is_none());
}
