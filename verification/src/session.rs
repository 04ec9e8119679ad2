//! The play-session aggregate and the per-tick pipeline: spawn, rotate,
//! move, lock, clear, and the game-over check, in that order.

use vstd::prelude::*;

use crate::block::{block_in_bounds, Block};
use crate::clearing::{cleared_field, remove_lines, total_full_rows};
use crate::common::{CACHED_PIECES, COORD_LIMIT, VISIBILITY_LIMIT_Y};
use crate::movement::{
    blocked_down, blocked_left, blocked_right, collisions_check, game_over_check,
    rot_blocked_down, rot_blocked_left, rot_blocked_right, valid_move, valid_rotation,
};
use crate::piece::{
    lemma_shape_bounds, pivot_x_of, pivot_y_of, rotation_delta, select_piece, shape, Piece,
    PieceType,
};
use crate::queue::PiecesQueue;
use crate::state::{handle_pause, GameState};
use crate::stats::{update_stats, HighScore, NextPieceEvent, Score, ScoreEvent};
use crate::timer::{ticked, timer_fires, GameTimer, ManualMoveTimer, MoveDownTimer};

verus! {

/// The input edges the engine consumes on one tick: which direction keys
/// are held, whether the rotate key was just released, and whether the
/// pause toggle was just pressed.
#[derive(Debug, Clone, Copy, PartialEq, Eq, Structural)]
pub struct InputState {
    pub left_held: bool,
    pub right_held: bool,
    pub down_held: bool,
    pub rotate_released: bool,
    pub pause_pressed: bool,
}

impl Default for InputState {
    /// No key held, no edge fired.
    fn default() -> (s: Self)
        ensures
            !s.left_held && !s.right_held && !s.down_held && !s.rotate_released
                && !s.pause_pressed,
    {
        InputState {
            left_held: false,
            right_held: false,
            down_held: false,
            rotate_released: false,
            pause_pressed: false,
        }
    }
}

/// The notifications one tick can emit.
#[derive(Debug, Clone, Copy, PartialEq, Eq)]
pub struct TickEvents {
    pub score: Option<ScoreEvent>,
    pub next_piece: Option<NextPieceEvent>,
    pub game_over: bool,
}

/// The single player-controlled tetromino: a kind and its four blocks,
/// moved rigidly as a unit.
#[derive(Debug, Clone, Copy, PartialEq, Eq)]
pub struct ActivePiece {
    pub piece_type: PieceType,
    pub blocks: [Block; 4],
}

/// The spawn cells of a kind lifted to the top of the cup.
pub open spec fn spawn_blocks(t: PieceType) -> Seq<Block> {
    shape(t).map_values(|b: Block| Block { x: b.x, y: (b.y + 20) as i32 })
}

/// The blocks of a piece of kind `t` after a quarter turn around the
/// pivot derived from their current positions.
pub open spec fn rotated_blocks_at(t: PieceType, bs: Seq<Block>) -> Seq<Block> {
    bs.map_values(
        |b: Block| Block {
            x: (b.y + pivot_x_of(bs)) as i32,
            y: (-b.x + pivot_y_of(bs) + rotation_delta(t)) as i32,
        },
    )
}

/// The blocks of a piece after a quarter turn around the pivot derived
/// from their current positions.
pub open spec fn rotated_blocks_of(p: ActivePiece) -> Seq<Block> {
    rotated_blocks_at(p.piece_type, p.blocks@)
}

/// Whether a rotation input takes effect: the piece has a distinct
/// rotated state (kind `O` has none), every rotated cell is unobstructed
/// in all three directions, and no rotated cell escapes the coordinate
/// ceiling.
pub open spec fn rotation_applies_at(t: PieceType, bs: Seq<Block>, settled: Seq<Block>) -> bool {
    let r = rotated_blocks_at(t, bs);
    &&& !(t is O)
    &&& !rot_blocked_down(r, settled)
    &&& !rot_blocked_left(r, settled)
    &&& !rot_blocked_right(r, settled)
    &&& forall|i: int| 0 <= i < r.len() ==> (#[trigger] r[i]).y <= COORD_LIMIT
}

/// `rotation_applies_at` for an active piece.
pub open spec fn rotation_applies(p: ActivePiece, settled: Seq<Block>) -> bool {
    rotation_applies_at(p.piece_type, p.blocks@, settled)
}

/// Four blocks translated rigidly by `(dx, dy)`.
pub open spec fn shifted_piece(bs: Seq<Block>, dx: int, dy: int) -> Seq<Block> {
    bs.map_values(|b: Block| Block { x: (b.x + dx) as i32, y: (b.y + dy) as i32 })
}

/// Where the active blocks end up after the movement stage of one tick:
/// one auto-drop step when the coarse trigger fired and descending is
/// legal, then at most one manual step from held input — left first, then
/// right, then down, the manual down skipped when an auto step already
/// happened this tick. Legality is re-derived after the auto step.
pub open spec fn moved_piece(
    bs: Seq<Block>,
    settled: Seq<Block>,
    auto: bool,
    input: InputState,
) -> Seq<Block> {
    let auto_down = auto && !blocked_down(bs, settled);
    let b1 = if auto_down {
        shifted_piece(bs, 0, -1)
    } else {
        bs
    };
    if input.left_held && !blocked_left(b1, settled) {
        shifted_piece(b1, -1, 0)
    } else if input.right_held && !blocked_right(b1, settled) {
        shifted_piece(b1, 1, 0)
    } else if input.down_held && !blocked_down(b1, settled) && !auto_down {
        shifted_piece(b1, 0, -1)
    } else {
        b1
    }
}

// The following spec functions walk one playing tick stage by stage, so
// that `on_tick` can state exactly where the board ends up. Only the
// queue's refill escapes them: what it appends is random.

/// The kind the spawn stage leaves active: the current piece's kind, or
/// the queue's head when a piece has to spawn.
pub open spec fn tick_kind(s: Session) -> PieceType {
    match s.active {
        Some(p) => p.piece_type,
        None => s.queue@[0],
    }
}

/// The active blocks after the spawn stage.
pub open spec fn tick_spawned(s: Session) -> Seq<Block> {
    match s.active {
        Some(p) => p.blocks@,
        None => spawn_blocks(s.queue@[0]),
    }
}

/// The active blocks after the rotation stage.
pub open spec fn tick_rotated(s: Session, input: InputState) -> Seq<Block> {
    let bs = tick_spawned(s);
    if input.rotate_released && rotation_applies_at(tick_kind(s), bs, s.settled@) {
        rotated_blocks_at(tick_kind(s), bs)
    } else {
        bs
    }
}

/// The active blocks after the movement stage.
pub open spec fn tick_moved(s: Session, delta_ms: u64, input: InputState) -> Seq<Block> {
    let bs = tick_rotated(s, input);
    let auto = timer_fires(s.drop_timer.0, delta_ms);
    let manual = timer_fires(s.manual_timer.0, delta_ms);
    if auto || manual {
        moved_piece(bs, s.settled@, auto, input)
    } else {
        bs
    }
}

/// Whether the piece locks on this tick: after moving it can no longer
/// descend.
pub open spec fn tick_locks(s: Session, delta_ms: u64, input: InputState) -> bool {
    blocked_down(tick_moved(s, delta_ms, input), s.settled@)
}

/// The settled field after the lock stage, before clearing.
pub open spec fn tick_settled(s: Session, delta_ms: u64, input: InputState) -> Seq<Block> {
    if tick_locks(s, delta_ms, input) {
        s.settled@ + tick_moved(s, delta_ms, input)
    } else {
        s.settled@
    }
}

/// Everything a running play session owns: the settled field, the active
/// piece, the upcoming-piece queue, both timers, the score, and the inner
/// state. It is created on entering play and dropped on leaving it.
#[derive(Debug, Clone, PartialEq, Eq)]
pub struct Session {
    pub settled: Vec<Block>,
    pub active: Option<ActivePiece>,
    pub queue: PiecesQueue,
    pub drop_timer: MoveDownTimer,
    pub manual_timer: ManualMoveTimer,
    pub score: Score,
    pub state: GameState,
}

impl Session {
    /// The session invariant: the queue stays filled, the timers are well
    /// formed with their documented periods, and every block sits inside
    /// the board columns at a sane height.
    pub open spec fn wf(self) -> bool {
        &&& self.queue@.len() >= CACHED_PIECES
        &&& self.drop_timer.0.wf()
        &&& 50 <= self.drop_timer.0.duration_ms <= 1000
        &&& self.manual_timer.0.wf()
        &&& self.manual_timer.0.duration_ms == 50
        &&& forall|i: int|
            0 <= i < self.settled@.len() ==> block_in_bounds(#[trigger] self.settled@[i])
        &&& match self.active {
            Some(p) => forall|i: int| 0 <= i < 4 ==> block_in_bounds(#[trigger] p.blocks@[i]),
            None => true,
        }
    }

    /// A fresh session: empty board, no active piece, a newly drawn
    /// queue, the two timers at their starting periods, a zero score, and
    /// the playing state.
    pub fn new() -> (s: Session)
        ensures
            s.wf(),
            s.settled@.len() == 0,
            s.active is None,
            s.queue@.len() == CACHED_PIECES,
            s.queue@.no_duplicates(),
            s.drop_timer.0.duration_ms == 1000 && s.drop_timer.0.elapsed_ms == 0,
            s.manual_timer.0.duration_ms == 50 && s.manual_timer.0.elapsed_ms == 0,
            s.score.value == 0 && s.score.lines == 0,
            s.state is Play,
    {
        Session {
            settled: Vec::new(),
            active: None,
            queue: PiecesQueue::new(),
            drop_timer: MoveDownTimer(GameTimer::new(1000)),
            manual_timer: ManualMoveTimer(GameTimer::new(50)),
            score: Score { value: 0, lines: 0 },
            state: GameState::Play,
        }
    }

    /// When no active piece exists, draw the next kind, spawn it at the
    /// top of the cup, and report the new upcoming kind for the preview.
    /// With a piece already active, nothing happens.
    pub fn add_piece(&mut self) -> (ev: Option<NextPieceEvent>)
        requires
            old(self).wf(),
        ensures
            final(self).wf(),
            old(self).active is Some ==> *final(self) == *old(self) && ev is None,
            old(self).active is None ==> {
                &&& final(self).active matches Some(p) && p.piece_type == old(self).queue@[0]
                    && p.blocks@ == spawn_blocks(old(self).queue@[0])
                &&& forall|i: int|
                    1 <= i < old(self).queue@.len() ==> final(self).queue@[i - 1] == old(self).queue@[i]
                &&& ev matches Some(n) && n.0 == final(self).queue@[0]
            },
            final(self).settled == old(self).settled,
            final(self).score == old(self).score,
            final(self).state == old(self).state,
            final(self).drop_timer == old(self).drop_timer,
            final(self).manual_timer == old(self).manual_timer,
            old(self).active is None ==> final(self).queue@.len() >= CACHED_PIECES,
    {
        if self.active.is_some() {
            return None;
        }
        let kind = self.queue.next();
        let mut blocks = select_piece(kind);
        proof {
            lemma_shape_bounds(kind);
        }
        let mut i: usize = 0;
        while i < 4
            invariant
                0 <= i <= 4,
                blocks@.len() == 4,
                forall|j: int| i <= j < 4 ==> #[trigger] blocks@[j] == shape(kind)[j],
                forall|j: int|
                    0 <= j < 4 ==> 3 <= #[trigger] shape(kind)[j].x <= 6 && 0 <= shape(kind)[j].y
                        <= 1,
                forall|j: int|
                    0 <= j < i ==> #[trigger] blocks@[j] == (Block {
                        x: shape(kind)[j].x,
                        y: (shape(kind)[j].y + 20) as i32,
                    }),
            decreases 4 - i,
        {
            blocks[i] = Block { x: blocks[i].x, y: blocks[i].y + 20 };
            i += 1;
        }
        proof {
            assert(blocks@ =~= spawn_blocks(kind));
        }
        self.active = Some(ActivePiece { piece_type: kind, blocks });
        match self.queue.peek() {
            Some(next) => Some(NextPieceEvent(next)),
            None => {
                // Unreachable: the draw above refills the queue.
                proof {
                    assert(false);
                }
                None
            },
        }
    }

    /// On a rotate input edge, rotate the active piece a quarter turn —
    /// atomically for all four blocks, and only when every rotated cell
    /// is fully unobstructed. Without the edge, with no active piece, or
    /// with an obstructed candidate, nothing changes.
    pub fn rotate_piece(&mut self, rotate_released: bool)
        requires
            old(self).wf(),
        ensures
            final(self).wf(),
            final(self).settled == old(self).settled,
            final(self).queue == old(self).queue,
            final(self).score == old(self).score,
            final(self).state == old(self).state,
            final(self).drop_timer == old(self).drop_timer,
            final(self).manual_timer == old(self).manual_timer,
            !rotate_released || old(self).active is None ==> final(self).active == old(self).active,
            rotate_released ==> match old(self).active {
                Some(p) => {
                    if rotation_applies(p, old(self).settled@) {
                        final(self).active matches Some(q) && q.piece_type == p.piece_type
                            && q.blocks@ == rotated_blocks_of(p)
                    } else {
                        final(self).active == old(self).active
                    }
                },
                None => true,
            },
    {
        if !rotate_released {
            return ;
        }
        let p = match &self.active {
            Some(p) => *p,
            None => { return ; },
        };
        proof {
            crate::piece::lemma_pivot_bounds(p.blocks@);
        }
        let piece = Piece::from_array(p.blocks.as_slice(), p.piece_type);
        let rotated = piece.rotate_blocks();
        proof {
            if !(p.piece_type is O) {
                assert(rotated@ =~= rotated_blocks_of(p));
            } else {
                assert(rotated@ == p.blocks@);
            }
        }
        let movable = valid_rotation(rotated.as_slice(), self.settled.as_slice());
        // The ceiling guard keeps every coordinate comfortably inside
        // `i32`; ordinary play never comes near it.
        let ok = movable.can_rotate() && rotated[0].y <= COORD_LIMIT && rotated[1].y
            <= COORD_LIMIT && rotated[2].y <= COORD_LIMIT && rotated[3].y <= COORD_LIMIT;
        if ok {
            proof {
                assert forall|i: int| 0 <= i < 4 implies block_in_bounds(
                    #[trigger] rotated@[i],
                ) by {
                    if rotated@[i].x < 0 {
                        assert(rot_blocked_left(rotated@, self.settled@));
                    }
                    if rotated@[i].x > crate::common::BOARD_COLS - 1 {
                        assert(rot_blocked_right(rotated@, self.settled@));
                    }
                    if rotated@[i].y < 0 {
                        assert(rot_blocked_down(rotated@, self.settled@));
                    }
                }
                assert forall|i: int| 0 <= i < 4 implies (#[trigger] rotated@[i]).y
                    <= COORD_LIMIT by {
                    if i == 0 {
                    } else if i == 1 {
                    } else if i == 2 {
                    }
                }
                if p.piece_type is O {
                    assert(rotated =~= p.blocks);
                }
            }
            self.active = Some(ActivePiece { piece_type: p.piece_type, blocks: rotated });
        }
    }

    /// Advance both timers by the elapsed time; when either fires, apply
    /// the movement stage to the active piece: one auto-drop step if the
    /// coarse trigger fired and descending is legal, then at most one
    /// manual step from held input, left before right before down, the
    /// manual down skipped right after an auto step.
    pub fn move_piece(&mut self, delta_ms: u64, input: &InputState)
        requires
            old(self).wf(),
            delta_ms <= u64::MAX - 1000,
        ensures
            final(self).wf(),
            final(self).settled == old(self).settled,
            final(self).queue == old(self).queue,
            final(self).score == old(self).score,
            final(self).state == old(self).state,
            final(self).drop_timer.0 == ticked(old(self).drop_timer.0, delta_ms),
            final(self).manual_timer.0 == ticked(old(self).manual_timer.0, delta_ms),
            ({
                let auto = timer_fires(old(self).drop_timer.0, delta_ms);
                let manual = timer_fires(old(self).manual_timer.0, delta_ms);
                if auto || manual {
                    match old(self).active {
                        Some(p) => final(self).active matches Some(q) && q.piece_type
                            == p.piece_type && q.blocks@ == moved_piece(
                            p.blocks@,
                            old(self).settled@,
                            auto,
                            *input,
                        ),
                        None => final(self).active is None,
                    }
                } else {
                    final(self).active == old(self).active
                }
            }),
    {
        let manual = self.manual_timer.0.tick(delta_ms);
        let auto = self.drop_timer.0.tick(delta_ms);
        if !(auto || manual) {
            return ;
        }
        let p = match &self.active {
            Some(p) => *p,
            None => { return ; },
        };
        let ghost settled_view = self.settled@;
        let mut blocks = p.blocks;
        let mut movable = valid_move(blocks.as_slice(), self.settled.as_slice());
        let mut auto_moved = false;
        if auto && movable.can_move_down() {
            proof {
                assert forall|i: int| 0 <= i < 4 implies (#[trigger] blocks@[i]).y >= 1 by {
                    if blocks@[i].y == 0 {
                        assert(blocked_down(blocks@, settled_view));
                    }
                }
            }
            blocks = translate_blocks(blocks, 0, -1);
            auto_moved = true;
            movable = valid_move(blocks.as_slice(), self.settled.as_slice());
        }
        if input.left_held && movable.can_move_left() {
            proof {
                assert forall|i: int| 0 <= i < 4 implies (#[trigger] blocks@[i]).x >= 1 by {
                    if blocks@[i].x == 0 {
                        assert(blocked_left(blocks@, settled_view));
                    }
                }
            }
            blocks = translate_blocks(blocks, -1, 0);
        } else if input.right_held && movable.can_move_right() {
            proof {
                assert forall|i: int| 0 <= i < 4 implies (#[trigger] blocks@[i]).x
                    <= crate::common::BOARD_COLS - 2 by {
                    if blocks@[i].x == crate::common::BOARD_COLS - 1 {
                        assert(blocked_right(blocks@, settled_view));
                    }
                }
            }
            blocks = translate_blocks(blocks, 1, 0);
        } else if input.down_held && movable.can_move_down() && !auto_moved {
            proof {
                assert forall|i: int| 0 <= i < 4 implies (#[trigger] blocks@[i]).y >= 1 by {
                    if blocks@[i].y == 0 {
                        assert(blocked_down(blocks@, settled_view));
                    }
                }
            }
            blocks = translate_blocks(blocks, 0, -1);
        }
        self.active = Some(ActivePiece { piece_type: p.piece_type, blocks });
    }

    /// Lock the active piece when it can no longer descend: its four
    /// blocks join the settled field and the piece loses active status.
    /// With no active piece, or one that can still descend, nothing
    /// changes.
    pub fn collisions_check(&mut self)
        requires
            old(self).wf(),
        ensures
            final(self).wf(),
            final(self).queue == old(self).queue,
            final(self).score == old(self).score,
            final(self).state == old(self).state,
            final(self).drop_timer == old(self).drop_timer,
            final(self).manual_timer == old(self).manual_timer,
            match old(self).active {
                Some(p) => {
                    if blocked_down(p.blocks@, old(self).settled@) {
                        final(self).active is None && final(self).settled@ == old(self).settled@
                            + p.blocks@
                    } else {
                        final(self).active == old(self).active && final(self).settled == old(self).settled
                    }
                },
                None => final(self).active == old(self).active && final(self).settled == old(self).settled,
            },
    {
        let p = match &self.active {
            Some(p) => *p,
            None => { return ; },
        };
        let locked = collisions_check(p.blocks.as_slice(), self.settled.as_slice());
        if locked {
            let ghost before = self.settled@;
            let mut i: usize = 0;
            while i < 4
                invariant
                    0 <= i <= 4,
                    self.settled@ == before + p.blocks@.take(i as int),
                    forall|j: int| 0 <= j < 4 ==> block_in_bounds(#[trigger] p.blocks@[j]),
                    forall|j: int|
                        0 <= j < before.len() ==> block_in_bounds(#[trigger] before[j]),
                    self.active == old(self).active,
                    self.queue == old(self).queue,
                    self.score == old(self).score,
                    self.state == old(self).state,
                    self.drop_timer == old(self).drop_timer,
                    self.manual_timer == old(self).manual_timer,
                    old(self).wf(),
                decreases 4 - i,
            {
                self.settled.push(p.blocks[i]);
                proof {
                    assert(before + p.blocks@.take(i + 1 as int) =~= (before + p.blocks@.take(
                        i as int,
                    )).push(p.blocks@[i as int]));
                }
                i += 1;
            }
            proof {
                assert(p.blocks@.take(4) =~= p.blocks@);
            }
            self.active = None;
        }
    }

    /// Drive one tick of the session pipeline: spawn a piece if none is
    /// active, resolve rotation and movement, lock, clear full rows and
    /// score them, check for game over, and finally apply a pause toggle.
    /// While paused, nothing moves and neither timer advances; once in
    /// game over, the session never changes again.
    pub fn on_tick(&mut self, delta_ms: u64, input: &InputState, high_score: &mut HighScore) -> (ev:
        TickEvents)
        requires
            old(self).wf(),
            delta_ms <= u64::MAX - 1000,
            old(self).score.value <= u64::MAX - 1200,
            old(self).score.lines <= u64::MAX - 20,
        ensures
            final(self).wf(),
            old(self).state is GameOver ==> *final(self) == *old(self) && *final(high_score)
                == *old(high_score) && ev == (TickEvents {
                score: None,
                next_piece: None,
                game_over: false,
            }),
            old(self).state is Pause ==> {
                &&& final(self).settled == old(self).settled
                &&& final(self).active == old(self).active
                &&& final(self).queue == old(self).queue
                &&& final(self).drop_timer == old(self).drop_timer
                &&& final(self).manual_timer == old(self).manual_timer
                &&& final(self).score == old(self).score
                &&& *final(high_score) == *old(high_score)
                &&& final(self).state == if input.pause_pressed {
                    GameState::Play
                } else {
                    GameState::Pause
                }
                &&& ev == (TickEvents { score: None, next_piece: None, game_over: false })
            },
            old(self).state is Play ==> {
                &&& final(self).state == if exists|i: int|
                    0 <= i < final(self).settled@.len() && (#[trigger] final(self).settled@[i]).y
                        >= VISIBILITY_LIMIT_Y {
                    GameState::GameOver
                } else if input.pause_pressed {
                    GameState::Pause
                } else {
                    GameState::Play
                }
                &&& ev.game_over == (final(self).state is GameOver)
                &&& final(self).manual_timer.0 == ticked(old(self).manual_timer.0, delta_ms)
                &&& final(self).score.value >= old(self).score.value
                &&& final(self).score.lines >= old(self).score.lines
                &&& (ev.next_piece is Some <==> old(self).active is None)
                &&& match ev.score {
                    Some(e) => e.0.lines >= 1 && e.0.value == crate::stats::line_clear_score(
                        e.0.lines as int,
                    ) && final(self).score.value == old(self).score.value + e.0.value && final(self).score.lines == old(self).score.lines + e.0.lines && final(high_score).0
                        == (if final(self).score.value > old(high_score).0.value {
                        final(self).score
                    } else {
                        old(high_score).0
                    }),
                    None => final(self).score == old(self).score && *final(high_score) == *old(high_score),
                }
                &&& (old(self).active matches Some(p) && !input.rotate_released && exists|i: int|
                    0 <= i < 4 && (#[trigger] p.blocks@[i]).y == 0) ==> final(self).active is None
                &&& final(self).settled@ == cleared_field(
                    tick_settled(*old(self), delta_ms, *input),
                )
                &&& (tick_locks(*old(self), delta_ms, *input) ==> final(self).active is None)
                &&& (!tick_locks(*old(self), delta_ms, *input) ==> (final(self).active matches Some(
                    q,
                ) && q.piece_type == tick_kind(*old(self)) && q.blocks@ == tick_moved(
                    *old(self),
                    delta_ms,
                    *input,
                )))
                &&& ({
                    let n = total_full_rows(tick_settled(*old(self), delta_ms, *input));
                    &&& ev.score == (if n > 0 {
                        Some(
                            ScoreEvent(
                                Score {
                                    value: crate::stats::line_clear_score(n as int) as u64,
                                    lines: n as u64,
                                },
                            ),
                        )
                    } else {
                        None
                    })
                    &&& final(self).drop_timer.0 == ({
                        let t1 = ticked(old(self).drop_timer.0, delta_ms);
                        if n > 0 && t1.duration_ms > crate::stats::drop_period_ms(
                            final(self).score.value,
                        ) {
                            GameTimer {
                                duration_ms: crate::stats::drop_period_ms(
                                    final(self).score.value,
                                ) as u64,
                                elapsed_ms: 0,
                            }
                        } else {
                            t1
                        }
                    })
                })
                &&& (old(self).active is Some ==> final(self).queue == old(self).queue)
            },
    {
        let ghost start = *self;
        let mut events = TickEvents { score: None, next_piece: None, game_over: false };
        if matches!(self.state, GameState::Play) {
            events.next_piece = self.add_piece();
            self.rotate_piece(input.rotate_released);
            let ghost before_move = *self;
            self.move_piece(delta_ms, input);
            proof {
                // A piece with a block on the floor stays blocked downward
                // through the movement stage: sideways steps keep every
                // row, and no downward step is taken while it is blocked.
                match start.active {
                    Some(p) => {
                        if !input.rotate_released && exists|i: int|
                            0 <= i < 4 && (#[trigger] p.blocks@[i]).y == 0 {
                            let s = before_move.settled@;
                            let bs = p.blocks@;
                            let wi = choose|i: int| 0 <= i < 4 && (#[trigger] bs[i]).y == 0;
                            assert(blocked_down(bs, s));
                            let auto = timer_fires(before_move.drop_timer.0, delta_ms);
                            let manual = timer_fires(before_move.manual_timer.0, delta_ms);
                            if auto || manual {
                                let b2 = moved_piece(bs, s, auto, *input);
                                if input.left_held && !blocked_left(bs, s) {
                                    assert(b2[wi].y == bs[wi].y);
                                } else if input.right_held && !blocked_right(bs, s) {
                                    assert(b2[wi].y == bs[wi].y);
                                } else {
                                    assert(b2 == bs);
                                }
                                assert(blocked_down(b2, s));
                            }
                        }
                    },
                    None => {},
                }
            }
            self.collisions_check();
            let ghost before_clear = self.settled@;
            match remove_lines(&mut self.settled) {
                Some(sc) => {
                    proof {
                        crate::clearing::lemma_full_rows_below_le(before_clear, 20);
                    }
                    let event = ScoreEvent(sc);
                    update_stats(&mut self.score, high_score, &mut self.drop_timer, &event);
                    events.score = Some(event);
                },
                None => {},
            }
            proof {
                crate::clearing::lemma_cleared_in_bounds(before_clear);
            }
            if game_over_check(self.settled.as_slice()) {
                self.state = GameState::GameOver;
                events.game_over = true;
            }
        }
        if input.pause_pressed && !matches!(self.state, GameState::GameOver) {
            self.state = handle_pause(self.state);
        }
        events
    }
}

/// The four blocks translated rigidly by `(dx, dy)`.
fn translate_blocks(blocks: [Block; 4], dx: i32, dy: i32) -> (r: [Block; 4])
    requires
        forall|i: int|
            0 <= i < 4 ==> i32::MIN <= (#[trigger] blocks@[i]).x + dx <= i32::MAX && i32::MIN
                <= blocks@[i].y + dy <= i32::MAX,
    ensures
        r@ == shifted_piece(blocks@, dx as int, dy as int),
{
    let r: [Block; 4] = [
        Block { x: blocks[0].x + dx, y: blocks[0].y + dy },
        Block { x: blocks[1].x + dx, y: blocks[1].y + dy },
        Block { x: blocks[2].x + dx, y: blocks[2].y + dy },
        Block { x: blocks[3].x + dx, y: blocks[3].y + dy },
    ];
    proof {
        assert(r@ =~= shifted_piece(blocks@, dx as int, dy as int));
    }
    r
}

} // verus!
