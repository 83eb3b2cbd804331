//! The interface of a computer opponent.
use vstd::prelude::*;
use crate::board::{occupied, BPos, Piece};
use crate::game::Game;
use crate::rand_agent::{is_random_choice, RandAgent};

verus! {

/// Some kind of AI agent the player can play against
pub trait AiAgent {
    /// What this agent promises of the choice that it makes on the given cells, for the
    /// piece that it has to place.
    spec fn promises(&self, cells: Seq<Option<Piece>>, piece: Piece, choice: (BPos, Piece)) -> bool;

    /// Given the current game state, here the AI decides what to do.
    /// First it outputs a `BPos` which indicates where the piece shall be placed,
    /// Second it outputs a next piece for it's opponent to place.
    /// The game has a piece selected for the agent, and its board is not full.
    /// The agent keeps what it promises, now and for its later choices.
    fn play(&mut self, game: &Game) -> (choice: (BPos, Piece))
        requires
            game.selected_piece is Some,
            occupied(game.board@, 16) < 16,
        ensures
            choice.0.wf(),
            game.board@[choice.0.index()] is None,
            old(self).promises(game.board@, game.selected_piece.unwrap(), choice),
            forall|cells: Seq<Option<Piece>>, piece: Piece, next: (BPos, Piece)|
                #[trigger] final(self).promises(cells, piece, next) == old(self).promises(
                    cells,
                    piece,
                    next,
                ),
    ;
}

/// The agent to play against: one that moves at random. Of each choice it promises what
/// a random valid move is: an empty cell of the board and a piece that is not on it.
pub fn get_ai_agent(game: &Game) -> (agent: Box<dyn AiAgent>)
    ensures
        forall|cells: Seq<Option<Piece>>, piece: Piece, choice: (BPos, Piece)|
            #[trigger] agent.promises(cells, piece, choice) == is_random_choice(cells, choice),
{
    return Box::new(RandAgent::new(game));
}

} // verus!
