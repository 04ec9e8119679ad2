//! The outer state machine: the main menu, the running play session, and
//! the menu actions that move between them.

use vstd::prelude::*;

use crate::session::{InputState, Session, TickEvents};
use crate::state::{AppState, GameState, MenuButton};
use crate::stats::HighScore;

verus! {

/// The whole game: the outer mode, the session that exists exactly while
/// playing, and the high score, which outlives sessions.
#[derive(Debug, Clone, PartialEq, Eq)]
pub struct Game {
    pub app_state: AppState,
    pub session: Option<Session>,
    pub high_score: HighScore,
}

impl Game {
    /// A session exists exactly while the outer mode is in play, and it
    /// satisfies the session invariant.
    pub open spec fn wf(self) -> bool {
        &&& (self.app_state is GameState) == (self.session is Some)
        &&& match self.session {
            Some(s) => s.wf(),
            None => true,
        }
    }

    /// A fresh game at the main menu with a zero high score.
    pub fn new() -> (g: Game)
        ensures
            g.wf(),
            g.app_state is MainMenu,
            g.session is None,
            g.high_score.0.value == 0 && g.high_score.0.lines == 0,
    {
        Game {
            app_state: AppState::MainMenu,
            session: None,
            high_score: HighScore(crate::stats::Score { value: 0, lines: 0 }),
        }
    }

    /// Apply a menu action. Entering play — from the menu, or by a
    /// restart after game over — tears the old session down and builds a
    /// fresh one: cleared board, new queue, new timers, zero score; the
    /// result says whether that reset happened. A restart first takes the
    /// finished session's score into the high score when it beats it.
    /// Leaving for the main menu is possible from pause or game over
    /// only. Quitting is the host's business and changes nothing here.
    pub fn handle_button(&mut self, button: &MenuButton) -> (reset: bool)
        requires
            old(self).wf(),
        ensures
            final(self).wf(),
            match *button {
                MenuButton::Play => {
                    if old(self).app_state is MainMenu {
                        &&& reset
                        &&& final(self).app_state is GameState
                        &&& fresh_session(final(self).session)
                        &&& final(self).high_score == old(self).high_score
                    } else {
                        *final(self) == *old(self) && !reset
                    }
                },
                MenuButton::Continue => {
                    &&& !reset
                    &&& match old(self).session {
                        Some(s) => if s.state is Pause {
                            final(self).session matches Some(s2) && s2 == (Session {
                                state: GameState::Play,
                                ..s
                            }) && final(self).app_state == old(self).app_state && final(self).high_score == old(self).high_score
                        } else {
                            *final(self) == *old(self)
                        },
                        None => *final(self) == *old(self),
                    }
                },
                MenuButton::Restart => {
                    match old(self).session {
                        Some(s) => if s.state is GameOver {
                            &&& reset
                            &&& final(self).app_state == old(self).app_state
                            &&& fresh_session(final(self).session)
                            &&& final(self).high_score.0 == if s.score.value > old(self).high_score.0.value {
                                s.score
                            } else {
                                old(self).high_score.0
                            }
                        } else {
                            *final(self) == *old(self) && !reset
                        },
                        None => *final(self) == *old(self) && !reset,
                    }
                },
                MenuButton::MainMenu => {
                    &&& !reset
                    &&& match old(self).session {
                        Some(s) => if s.state is Pause || s.state is GameOver {
                            final(self).app_state is MainMenu && final(self).session is None
                                && final(self).high_score == old(self).high_score
                        } else {
                            *final(self) == *old(self)
                        },
                        None => *final(self) == *old(self),
                    }
                },
                MenuButton::Quit => *final(self) == *old(self) && !reset,
            },
    {
        match button {
            MenuButton::Play => {
                if matches!(self.app_state, AppState::MainMenu) {
                    self.app_state = AppState::GameState;
                    self.session = Some(Session::new());
                    return true;
                }
                false
            },
            MenuButton::Continue => {
                let sess = self.session.take();
                match sess {
                    Some(mut s) => {
                        if matches!(s.state, GameState::Pause) {
                            s.state = GameState::Play;
                        }
                        self.session = Some(s);
                    },
                    None => {
                        self.session = None;
                    },
                }
                false
            },
            MenuButton::Restart => {
                let sess = self.session.take();
                match sess {
                    Some(s) => {
                        if matches!(s.state, GameState::GameOver) {
                            if s.score.value > self.high_score.0.value {
                                self.high_score.0 = s.score;
                            }
                            self.session = Some(Session::new());
                            return true;
                        }
                        self.session = Some(s);
                    },
                    None => {
                        self.session = None;
                    },
                }
                false
            },
            MenuButton::MainMenu => {
                let sess = self.session.take();
                match sess {
                    Some(s) => {
                        if matches!(s.state, GameState::Pause | GameState::GameOver) {
                            self.app_state = AppState::MainMenu;
                            self.session = None;
                        } else {
                            self.session = Some(s);
                        }
                    },
                    None => {
                        self.session = None;
                    },
                }
                false
            },
            MenuButton::Quit => false,
        }
    }

    /// Drive one tick: at the main menu nothing happens; in play the
    /// session pipeline runs and may raise the high score.
    pub fn on_tick(&mut self, delta_ms: u64, input: &InputState) -> (ev: TickEvents)
        requires
            old(self).wf(),
            delta_ms <= u64::MAX - 1000,
            match old(self).session {
                Some(s) => s.score.value <= u64::MAX - 1200 && s.score.lines <= u64::MAX - 20,
                None => true,
            },
        ensures
            final(self).wf(),
            final(self).app_state == old(self).app_state,
            old(self).session is None ==> *final(self) == *old(self) && ev == (TickEvents {
                score: None,
                next_piece: None,
                game_over: false,
            }),
            old(self).session matches Some(s) ==> {
                &&& final(self).session is Some
                &&& final(self).high_score.0.value >= old(self).high_score.0.value
                &&& (s.state is GameOver ==> final(self).session == old(self).session && final(self).high_score == old(self).high_score && ev == (TickEvents {
                    score: None,
                    next_piece: None,
                    game_over: false,
                }))
                &&& (s.state is Pause ==> match final(self).session {
                    Some(s2) => s2.settled == s.settled && s2.active == s.active && s2.queue
                        == s.queue && s2.drop_timer == s.drop_timer && s2.manual_timer
                        == s.manual_timer && s2.score == s.score && final(self).high_score
                        == old(self).high_score && ev == (TickEvents {
                        score: None,
                        next_piece: None,
                        game_over: false,
                    }),
                    None => false,
                })
                &&& match final(self).session {
                    Some(s2) => s2.score.value >= s.score.value,
                    None => false,
                }
                &&& (s.state is Play ==> match final(self).session {
                    Some(s2) => {
                        &&& s2.settled@ == crate::clearing::cleared_field(
                            crate::session::tick_settled(s, delta_ms, *input),
                        )
                        &&& (crate::session::tick_locks(s, delta_ms, *input) ==> s2.active
                            is None)
                        &&& (!crate::session::tick_locks(s, delta_ms, *input) ==> (s2.active
                            matches Some(q) && q.piece_type == crate::session::tick_kind(s)
                            && q.blocks@ == crate::session::tick_moved(s, delta_ms, *input)))
                        &&& s2.state == if exists|i: int|
                            0 <= i < s2.settled@.len() && (#[trigger] s2.settled@[i]).y
                                >= crate::common::VISIBILITY_LIMIT_Y {
                            GameState::GameOver
                        } else if input.pause_pressed {
                            GameState::Pause
                        } else {
                            GameState::Play
                        }
                        &&& ev.game_over == (s2.state is GameOver)
                    },
                    None => false,
                })
            },
    {
        let sess = self.session.take();
        match sess {
            Some(mut s) => {
                let ev = s.on_tick(delta_ms, input, &mut self.high_score);
                self.session = Some(s);
                ev
            },
            None => {
                self.session = None;
                TickEvents { score: None, next_piece: None, game_over: false }
            },
        }
    }
}

/// A session as `Session::new` hands it out: empty board, no active
/// piece, zero score, playing.
pub open spec fn fresh_session(s: Option<Session>) -> bool {
    match s {
        Some(s) => {
            &&& s.wf()
            &&& s.settled@.len() == 0
            &&& s.active is None
            &&& s.score.value == 0 && s.score.lines == 0
            &&& s.state is Play
            &&& s.queue@.len() == crate::common::CACHED_PIECES
            &&& s.queue@.no_duplicates()
        },
        None => false,
    }
}

} // verus!
