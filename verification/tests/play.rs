use tetris_core::block::Block;
use tetris_core::game::Game;
use tetris_core::piece::{select_piece, PieceType};
use tetris_core::session::{ActivePiece, InputState, Session};
use tetris_core::state::{AppState, GameState, MenuButton};
use tetris_core::stats::{HighScore, Score};

fn no_input() -> InputState {
    InputState::default()
}

fn pause_input() -> InputState {
    InputState {
        pause_pressed: true,
        ..InputState::default()
    }
}

/// A session whose active piece is the given kind at its spawn cells.
fn session_with(kind: PieceType) -> Session {
    let mut session = Session::new();
    let mut blocks = select_piece(kind);
    for b in blocks.iter_mut() {
        b.shift_y(20);
    }
    session.active = Some(ActivePiece {
        piece_type: kind,
        blocks,
    });
    session
}

fn active_rows(session: &Session) -> Vec<i32> {
    session
        .active
        .as_ref()
        .expect("piece must be active")
        .blocks
        .iter()
        .map(|b| b.y())
        .collect()
}

#[test]
fn spawning_lifts_the_shape_to_the_top() {
    let mut session = Session::new();
    let mut high = HighScore(Score::default());
    let ev = session.on_tick(0, &no_input(), &mut high);
    let piece = session.active.expect("a piece spawns on the first tick");
    assert!(ev.next_piece.is_some());
    for b in piece.blocks {
        assert!((20..=21).contains(&b.y()));
        assert!((3..=6).contains(&b.x()));
    }
}

#[test]
fn auto_drop_moves_one_row_per_period() {
    let mut session = session_with(PieceType::I);
    let mut high = HighScore(Score::default());
    let before = active_rows(&session);
    // A shorter tick does not fire the auto-drop trigger.
    session.on_tick(999, &no_input(), &mut high);
    assert_eq!(active_rows(&session), before);
    // Completing the period drops the piece one row.
    session.on_tick(1, &no_input(), &mut high);
    let after = active_rows(&session);
    assert_eq!(after, before.iter().map(|y| y - 1).collect::<Vec<_>>());
}

#[test]
fn piece_on_the_floor_locks_and_stops() {
    // P7: the I bar dropped to the floor settles on the next check.
    let mut session = session_with(PieceType::I);
    let mut high = HighScore(Score::default());
    let mut ticks = 0;
    while session.active.is_some() {
        session.on_tick(1000, &no_input(), &mut high);
        ticks += 1;
        assert!(ticks < 64, "the piece must lock in bounded time");
    }
    // The four blocks settled on row 0, columns 3..=6, and stay there.
    let mut cells: Vec<(i32, i32)> = session.settled.iter().map(|b| (b.x(), b.y())).collect();
    cells.sort();
    assert_eq!(cells, vec![(3, 0), (4, 0), (5, 0), (6, 0)]);
}

#[test]
fn held_keys_move_the_piece_sideways() {
    let mut session = session_with(PieceType::O);
    let mut high = HighScore(Score::default());
    let before: Vec<(i32, i32)> = session.active.unwrap().blocks.iter().map(|b| (b.x(), b.y())).collect();
    let left = InputState {
        left_held: true,
        ..InputState::default()
    };
    // The manual timer fires every 50 ms.
    session.on_tick(50, &left, &mut high);
    let after: Vec<(i32, i32)> = session.active.unwrap().blocks.iter().map(|b| (b.x(), b.y())).collect();
    let expected: Vec<(i32, i32)> = before.iter().map(|(x, y)| (x - 1, *y)).collect();
    assert_eq!(after, expected);
}

#[test]
fn left_takes_priority_over_right_and_down() {
    let mut session = session_with(PieceType::O);
    let mut high = HighScore(Score::default());
    let before: Vec<(i32, i32)> = session.active.unwrap().blocks.iter().map(|b| (b.x(), b.y())).collect();
    let all = InputState {
        left_held: true,
        right_held: true,
        down_held: true,
        ..InputState::default()
    };
    session.on_tick(50, &all, &mut high);
    let after: Vec<(i32, i32)> = session.active.unwrap().blocks.iter().map(|b| (b.x(), b.y())).collect();
    let expected: Vec<(i32, i32)> = before.iter().map(|(x, y)| (x - 1, *y)).collect();
    assert_eq!(after, expected);
}

#[test]
fn rotating_kind_o_in_play_changes_nothing() {
    // P2 at the session level.
    let mut session = session_with(PieceType::O);
    let mut high = HighScore(Score::default());
    let before = session.active.unwrap().blocks;
    let rotate = InputState {
        rotate_released: true,
        ..InputState::default()
    };
    session.on_tick(0, &rotate, &mut high);
    assert_eq!(session.active.unwrap().blocks, before);
}

#[test]
fn settled_block_in_the_buffer_ends_the_game() {
    // P6: a settled block at row 21 flips the session to game over on
    // the next evaluation, and nothing moves afterwards.
    let mut session = session_with(PieceType::T);
    session.settled.push(Block::new(0, 21));
    let mut high = HighScore(Score::default());
    let ev = session.on_tick(0, &no_input(), &mut high);
    assert!(ev.game_over);
    assert_eq!(session.state, GameState::GameOver);
    let frozen = session.clone();
    for _ in 0..5 {
        let ev = session.on_tick(1000, &no_input(), &mut high);
        assert!(!ev.game_over);
        assert!(ev.score.is_none());
        assert_eq!(session, frozen);
    }
}

#[test]
fn overflowing_row_can_be_saved_by_a_clear() {
    // A full row whose clearing pulls the offending block out of the
    // buffer zone must not end the game: clearing runs first.
    let mut session = Session::new();
    session.active = Some(ActivePiece {
        piece_type: PieceType::O,
        blocks: select_piece(PieceType::O),
    });
    for x in 0..10 {
        session.settled.push(Block::new(x, 19));
    }
    session.settled.push(Block::new(0, 21));
    let mut high = HighScore(Score::default());
    let ev = session.on_tick(0, &no_input(), &mut high);
    assert!(!ev.game_over);
    assert_eq!(session.state, GameState::Play);
    assert!(session.settled.iter().any(|b| b.x() == 0 && b.y() == 20));
}

#[test]
fn single_line_clear_after_lock_scores_forty() {
    // P8: an I bar locks on row 0; the six remaining columns get filled;
    // one more lock touching row 0 clears it for forty points.
    let mut session = session_with(PieceType::I);
    let mut high = HighScore(Score::default());
    let mut ticks = 0;
    while session.active.is_some() {
        session.on_tick(1000, &no_input(), &mut high);
        ticks += 1;
        assert!(ticks < 64, "the piece must lock in bounded time");
    }
    assert_eq!(session.score.value, 0);
    for x in [0, 1, 2, 7, 8, 9] {
        session.settled.push(Block::new(x, 0));
    }
    // An O piece resting on the full row locks on the next tick.
    session.active = Some(ActivePiece {
        piece_type: PieceType::O,
        blocks: [
            Block::new(4, 2),
            Block::new(4, 1),
            Block::new(5, 2),
            Block::new(5, 1),
        ],
    });
    let ev = session.on_tick(0, &no_input(), &mut high);
    let score = ev.score.expect("row 0 clears").0;
    assert_eq!((score.value, score.lines), (40, 1));
    assert_eq!(session.score.value, 40);
    assert_eq!(session.score.lines, 1);
    // Row 0 was destroyed; the freshly locked O dropped one row.
    assert!(session.active.is_none());
    let mut cells: Vec<(i32, i32)> = session.settled.iter().map(|b| (b.x(), b.y())).collect();
    cells.sort();
    assert_eq!(cells, vec![(4, 0), (4, 1), (5, 0), (5, 1)]);
    assert_eq!(high.0.value, 40);
}

#[test]
fn pausing_freezes_the_whole_session() {
    // P9: ten paused ticks change nothing; the first tick after resuming
    // matches the tick a twin session takes from the same point.
    let mut session = session_with(PieceType::S);
    let mut high = HighScore(Score::default());
    session.on_tick(0, &pause_input(), &mut high);
    assert_eq!(session.state, GameState::Pause);
    let twin = session.clone();
    for _ in 0..10 {
        let ev = session.on_tick(1000, &no_input(), &mut high);
        assert!(ev.score.is_none() && ev.next_piece.is_none() && !ev.game_over);
    }
    assert_eq!(session, twin, "paused ticks must not move anything");
    let mut resumed = session.clone();
    let mut twin_resumed = twin.clone();
    resumed.on_tick(0, &pause_input(), &mut high);
    twin_resumed.on_tick(0, &pause_input(), &mut high);
    assert_eq!(resumed.state, GameState::Play);
    resumed.on_tick(1000, &no_input(), &mut high);
    twin_resumed.on_tick(1000, &no_input(), &mut high);
    assert_eq!(resumed, twin_resumed);
    // The resumed tick really moved the piece.
    assert_ne!(
        resumed.active.unwrap().blocks,
        session.active.unwrap().blocks
    );
}

#[test]
fn menu_flow_starts_pauses_and_restarts() {
    let mut game = Game::new();
    assert_eq!(game.app_state, AppState::MainMenu);
    assert!(game.session.is_none());

    // Quit is the host's business; the state machine ignores it.
    assert!(!game.handle_button(&MenuButton::Quit));
    assert_eq!(game.app_state, AppState::MainMenu);

    // Play enters a fresh session.
    assert!(game.handle_button(&MenuButton::Play));
    assert_eq!(game.app_state, AppState::GameState);
    let session = game.session.as_ref().expect("play starts a session");
    assert_eq!(session.score.value, 0);
    assert_eq!(session.state, GameState::Play);

    // Pause, then continue.
    game.on_tick(0, &pause_input());
    assert_eq!(game.session.as_ref().unwrap().state, GameState::Pause);
    assert!(!game.handle_button(&MenuButton::Continue));
    assert_eq!(game.session.as_ref().unwrap().state, GameState::Play);

    // Force a game over, then restart: the score moves to the high
    // score and a fresh session begins.
    {
        let session = game.session.as_mut().unwrap();
        session.state = GameState::GameOver;
        session.score.value = 700;
        session.score.lines = 3;
    }
    assert!(game.handle_button(&MenuButton::Restart));
    assert_eq!(game.high_score.0.value, 700);
    let session = game.session.as_ref().unwrap();
    assert_eq!(session.score.value, 0);
    assert_eq!(session.state, GameState::Play);
    assert!(session.settled.is_empty());

    // Returning to the menu is refused while actively playing, and
    // allowed from the pause menu.
    assert!(!game.handle_button(&MenuButton::MainMenu));
    assert_eq!(game.app_state, AppState::GameState, "not from active play");
    game.on_tick(0, &pause_input());
    assert!(!game.handle_button(&MenuButton::MainMenu));
    assert_eq!(game.app_state, AppState::MainMenu);
    assert!(game.session.is_none());
    assert_eq!(game.high_score.0.value, 700, "high score survives the session");
}

#[test]
fn menu_tick_does_nothing() {
    let mut game = Game::new();
    let before = game.clone();
    let ev = game.on_tick(1000, &no_input());
    assert!(ev.score.is_none() && ev.next_piece.is_none() && !ev.game_over);
    assert_eq!(game, before);
}

#[test]
fn free_rotation_turns_the_bar_upright() {
    // The spawn bar at rows 20 rotates into a vertical bar when all the
    // rotated cells are free.
    let mut session = session_with(PieceType::I);
    let mut high = HighScore(Score::default());
    let rotate = InputState {
        rotate_released: true,
        ..InputState::default()
    };
    session.on_tick(0, &rotate, &mut high);
    let got: Vec<(i32, i32)> = session
        .active
        .unwrap()
        .blocks
        .iter()
        .map(|b| (b.x(), b.y()))
        .collect();
    assert_eq!(got, vec![(4, 22), (4, 21), (4, 20), (4, 19)]);
}

#[test]
fn obstructed_rotation_is_refused() {
    // A settled block directly under one rotated cell makes the whole
    // rotation illegal; the piece stays as it was.
    let mut session = session_with(PieceType::I);
    session.settled.push(Block::new(4, 18));
    let mut high = HighScore(Score::default());
    let before = session.active.unwrap().blocks;
    let rotate = InputState {
        rotate_released: true,
        ..InputState::default()
    };
    session.on_tick(0, &rotate, &mut high);
    assert_eq!(session.active.unwrap().blocks, before);
}
