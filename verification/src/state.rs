//! The outer and inner game states and their input-driven transitions.

use vstd::prelude::*;

verus! {

/// The outer mode: the start menu, or a running play session.
#[derive(Debug, Clone, Copy, PartialEq, Eq, Structural)]
pub enum AppState {
    MainMenu,
    GameState,
}

impl Default for AppState {
    /// The program starts at the main menu.
    fn default() -> (s: Self)
        ensures
            s is MainMenu,
    {
        AppState::MainMenu
    }
}

/// The inner mode of a play session.
#[derive(Debug, Clone, Copy, PartialEq, Eq, Structural)]
pub enum GameState {
    Play,
    Pause,
    GameOver,
}

impl Default for GameState {
    /// A session starts playing.
    fn default() -> (s: Self)
        ensures
            s is Play,
    {
        GameState::Play
    }
}

/// The menu actions a session reacts to.
#[derive(Debug, Clone, Copy, PartialEq, Eq, Structural)]
pub enum MenuButton {
    Play,
    Continue,
    Restart,
    MainMenu,
    Quit,
}

/// Toggle between playing and paused. Only legal outside game over.
pub fn handle_pause(current: GameState) -> (next: GameState)
    requires
        !(current is GameOver),
    ensures
        next == if current is Pause {
            GameState::Play
        } else {
            GameState::Pause
        },
{
    if matches!(current, GameState::Pause) {
        GameState::Play
    } else {
        GameState::Pause
    }
}

} // verus!
