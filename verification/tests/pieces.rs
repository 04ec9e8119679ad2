use tetris_core::block::{block_visible, Block};
use tetris_core::movement::Movable;
use tetris_core::piece::{select_piece, Piece, PieceType, PIECES};
use tetris_core::queue::PiecesQueue;
use tetris_core::state::{handle_pause, GameState};
use tetris_core::stats::{compute_drop_period, score_for_lines, update_stats, HighScore, Score, ScoreEvent};
use tetris_core::timer::{GameTimer, MoveDownTimer};

#[test]
fn block_moves() {
    let mut b = Block::new(4, 7);
    assert_eq!(b.x(), 4);
    assert_eq!(b.y(), 7);
    b.move_down();
    assert_eq!((b.x(), b.y()), (4, 6));
    b.move_left();
    assert_eq!((b.x(), b.y()), (3, 6));
    b.move_right();
    assert_eq!((b.x(), b.y()), (4, 6));
    b.move_to(9, 0);
    assert_eq!((b.x(), b.y()), (9, 0));
    b.shift_y(5);
    assert_eq!((b.x(), b.y()), (9, 5));
    b.shift_y(-2);
    assert_eq!((b.x(), b.y()), (9, 3));
}

#[test]
fn block_visibility_limit() {
    assert!(block_visible(&Block::new(0, 20)));
    assert!(block_visible(&Block::new(0, 0)));
    assert!(!block_visible(&Block::new(0, 21)));
    assert!(!block_visible(&Block::new(0, 22)));
}

#[test]
fn movable_defaults_and_rotation_gate() {
    let m = Movable::new();
    assert!(m.down && m.left && m.right);
    assert!(m.can_rotate());
    assert!(m.can_move_down() && m.can_move_left() && m.can_move_right());
    let blocked = Movable {
        down: true,
        left: false,
        right: true,
    };
    assert!(!blocked.can_rotate());
    assert!(!blocked.can_move_left());
    assert!(blocked.can_move_down());
}

#[test]
fn shapes_sit_on_the_spawn_grid() {
    for kind in PIECES {
        let blocks = select_piece(kind);
        assert_eq!(blocks.len(), 4);
        for b in blocks {
            assert!((3..=6).contains(&b.x()), "{:?}", kind);
            assert!((0..=1).contains(&b.y()), "{:?}", kind);
        }
    }
}

#[test]
fn shape_of_kind_i() {
    let blocks = select_piece(PieceType::I);
    let got: Vec<(i32, i32)> = blocks.iter().map(|b| (b.x(), b.y())).collect();
    assert_eq!(got, vec![(3, 0), (4, 0), (5, 0), (6, 0)]);
}

#[test]
fn rotating_kind_o_changes_nothing() {
    let blocks = select_piece(PieceType::O);
    let piece = Piece::from_array(&blocks, PieceType::O);
    let rotated = piece.rotate_blocks();
    assert_eq!(rotated, blocks);
    let mut single = blocks[2];
    piece.rotate_block(&mut single);
    assert_eq!(single, blocks[2]);
}

#[test]
fn rotating_kind_i_gives_a_vertical_bar() {
    // Pivot of the spawn bar: sums 18 and 0, so pivot is (4, 4); the
    // quarter turn maps (x, y) to (y + 4, -x + 4 + 1).
    let blocks = select_piece(PieceType::I);
    let piece = Piece::from_array(&blocks, PieceType::I);
    let rotated = piece.rotate_blocks();
    let got: Vec<(i32, i32)> = rotated.iter().map(|b| (b.x(), b.y())).collect();
    assert_eq!(got, vec![(4, 2), (4, 1), (4, 0), (4, -1)]);
}

#[test]
fn rotating_kind_j_uses_the_smaller_offset() {
    // J spawns at (3,1),(3,0),(4,0),(5,0): sums 15 and 1, pivot (3, 3);
    // kinds L and J rotate without the extra +1 row.
    let blocks = select_piece(PieceType::J);
    let piece = Piece::from_array(&blocks, PieceType::J);
    let rotated = piece.rotate_blocks();
    let got: Vec<(i32, i32)> = rotated.iter().map(|b| (b.x(), b.y())).collect();
    assert_eq!(got, vec![(4, 0), (3, 0), (3, -1), (3, -2)]);
}

#[test]
fn fresh_queue_draws_seven_distinct_kinds() {
    let mut queue = PiecesQueue::new();
    assert!(!queue.is_empty());
    let mut drawn = Vec::new();
    for _ in 0..7 {
        let peeked = queue.peek().expect("queue must stay filled");
        let got = queue.next();
        assert_eq!(peeked, got);
        drawn.push(got);
    }
    for i in 0..7 {
        for j in (i + 1)..7 {
            assert_ne!(drawn[i], drawn[j], "first batch must be duplicate-free");
        }
    }
    // The queue keeps refilling: many more draws never run dry.
    for _ in 0..100 {
        let _ = queue.next();
        assert!(!queue.is_empty());
    }
}

#[test]
fn timer_fires_on_period_boundaries() {
    let mut t = GameTimer::new(1000);
    assert!(!t.tick(999));
    assert!(t.tick(1));
    assert_eq!(t.elapsed_ms, 0);
    assert!(t.tick(2500));
    assert_eq!(t.elapsed_ms, 500);
    assert!(!t.tick(499));
    assert!(t.tick(1));
    t.set_duration(50);
    t.reset();
    assert_eq!((t.duration_ms, t.elapsed_ms), (50, 0));
    assert!(t.tick(50));
}

#[test]
fn line_scores_follow_the_quad_curve() {
    assert_eq!(score_for_lines(0), 0);
    assert_eq!(score_for_lines(1), 40);
    assert_eq!(score_for_lines(2), 100);
    assert_eq!(score_for_lines(3), 300);
    assert_eq!(score_for_lines(4), 1200);
    assert_eq!(score_for_lines(5), 0);
}

#[test]
fn drop_period_steps_down_to_its_floor() {
    assert_eq!(compute_drop_period(0), 1000);
    assert_eq!(compute_drop_period(499), 1000);
    assert_eq!(compute_drop_period(500), 900);
    assert_eq!(compute_drop_period(2300), 600);
    assert_eq!(compute_drop_period(4999), 100);
    assert_eq!(compute_drop_period(5000), 50);
    assert_eq!(compute_drop_period(u64::MAX - 1300), 50);
}

#[test]
fn pause_toggle_flips_between_play_and_pause() {
    assert_eq!(handle_pause(GameState::Play), GameState::Pause);
    assert_eq!(handle_pause(GameState::Pause), GameState::Play);
}

#[test]
fn score_events_accumulate_and_speed_up_the_drop() {
    let mut score = Score { value: 460, lines: 2 };
    let mut high = HighScore(Score { value: 500, lines: 10 });
    let mut timer = MoveDownTimer(GameTimer::new(1000));
    timer.0.tick(300);

    update_stats(
        &mut score,
        &mut high,
        &mut timer,
        &ScoreEvent(Score { value: 40, lines: 1 }),
    );
    assert_eq!((score.value, score.lines), (500, 3));
    // Matching the high score does not take it over.
    assert_eq!((high.0.value, high.0.lines), (500, 10));
    // Reaching level one shrinks the period and restarts its phase.
    assert_eq!((timer.0.duration_ms, timer.0.elapsed_ms), (900, 0));

    update_stats(
        &mut score,
        &mut high,
        &mut timer,
        &ScoreEvent(Score { value: 1200, lines: 4 }),
    );
    assert_eq!((score.value, score.lines), (1700, 7));
    // Beating the high score replaces it with the whole score.
    assert_eq!((high.0.value, high.0.lines), (1700, 7));
    assert_eq!((timer.0.duration_ms, timer.0.elapsed_ms), (700, 0));
}
