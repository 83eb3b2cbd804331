//! The errors of the game's transitions.
use vstd::prelude::*;

verus! {

/// Errors that can occur when placing or selecting a piece
#[derive(Debug, PartialEq, Eq, Structural, Clone, Copy)]
pub enum GameError {
    /// The specified cell is already occupied with a piece
    CellOccupied,
    /// The specified piece is already used on the board
    PieceInUse,
    /// An action required a selected piece, but there was none
    NoPieceSelected,
    /// An action required that no piece was selected, but there was one
    PieceAlreadySelected,
    /// An action couldn't be fulfilled because the game was over
    GameIsOver,
}

impl GameError {
    /// The text that describes the error.
    pub open spec fn message_text(self) -> Seq<char> {
        match self {
            GameError::CellOccupied => "The specified cell is already occupied with a piece"@,
            GameError::PieceInUse => "The specified piece is already on the board"@,
            GameError::NoPieceSelected => "An action required `self.selected_piece` to be `Some(_)`, but is was `None`"@,
            GameError::PieceAlreadySelected => "An action required `self.selected_piece` to be `None`, but it was `Some(_)`"@,
            GameError::GameIsOver => "Game Over"@,
        }
    }

    /// Describes the error in words.
    pub fn message(&self) -> (text: String)
        ensures
            text@ == self.message_text(),
    {
        match self {
            GameError::CellOccupied => "The specified cell is already occupied with a piece".to_owned(),
            GameError::PieceInUse => "The specified piece is already on the board".to_owned(),
            GameError::NoPieceSelected => "An action required `self.selected_piece` to be `Some(_)`, but is was `None`".to_owned(),
            GameError::PieceAlreadySelected => "An action required `self.selected_piece` to be `None`, but it was `Some(_)`".to_owned(),
            GameError::GameIsOver => "Game Over".to_owned(),
        }
    }
}

} // verus!
