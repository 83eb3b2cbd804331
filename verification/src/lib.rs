//! Game logic of a four-in-a-row board game played with sixteen distinct pieces.
use vstd::prelude::*;

/// The interface of a computer opponent
pub mod agent;
/// Board management, checking for game over condition
pub mod board;
/// An opponent that looks one move ahead
pub mod decision_tree_agent;
/// The text that draws the game on a terminal
pub mod draw;
/// Contains `GameError`, the core game error type
pub mod error;
/// The game's state machine
pub mod game;
/// Events and screen positions of a user interface
pub mod gui;
/// The web page that shows the game
pub mod html;
/// Moves and their enumeration
pub mod moves;
/// An opponent that moves at random
pub mod rand_agent;
/// Texts that picture pieces and the state of the game
pub mod render;
/// Paths that name a cell of the board
pub mod route;
/// The state of a user interface: cursor and pool
pub mod ui_state;

pub use self::agent::{get_ai_agent, AiAgent};
pub use self::board::{BPos, Board, GameOverInfo, Piece};
pub use self::error::GameError;
pub use self::game::{Game, GameState, PlacePieceTransaction};
pub use self::ui_state::UiState;

verus! {

} // verus!
