//! Core simulation engine for a falling-block puzzle game: board and block
//! model, piece shapes and rotation, movement and collision resolution,
//! line clearing and scoring, the randomized piece queue, and the game
//! state machine. Rendering, input polling and windowing are left to a host
//! program; the engine works on plain values and is verified.

pub mod block;
pub mod clearing;
pub mod common;
pub mod game;
pub mod movement;
pub mod piece;
pub mod queue;
pub mod session;
pub mod state;
pub mod stats;
pub mod timer;
