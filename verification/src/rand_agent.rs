//! An opponent that moves at random.
use vstd::prelude::*;
use rand::Rng;
use crate::agent::AiAgent;
use crate::board::{holds, occupied, BPos, Board, Piece};
use crate::game::Game;
use crate::moves::{
    empty_positions, get_empty_positions, get_unused_pieces, lemma_free_cell_exists,
    lemma_spare_piece_exists, unused_pieces,
};

verus! {

/// An AI enemy
pub struct RandAgent;

impl RandAgent {
    /// Create a new AI enemy
    pub fn new(_game: &Game) -> Self {
        RandAgent
    }
}

/// The choice is a valid move on the cells: one of their empty cells, and one of the
/// pieces that stand in none of them.
pub open spec fn is_random_choice(cells: Seq<Option<Piece>>, choice: (BPos, Piece)) -> bool {
    empty_positions(cells).contains(choice.0) && unused_pieces(cells).contains(choice.1)
}

impl AiAgent for RandAgent {
    /// This agent promises a valid move, whatever piece it has to place.
    open spec fn promises(
        &self,
        cells: Seq<Option<Piece>>,
        piece: Piece,
        choice: (BPos, Piece),
    ) -> bool {
        is_random_choice(cells, choice)
    }

    /// A random move: an empty cell, and a piece that is not on the board.
    fn play(&mut self, game: &Game) -> (choice: (BPos, Piece))
        ensures
            empty_positions(game.board@).contains(choice.0),
            unused_pieces(game.board@).contains(choice.1),
            !holds(game.board@, choice.1),
    {
        valid_random_move(&game.board)
    }
}

/// Draws a number below `bound` with `rand::Rng::gen_range` on the generator that
/// `rand::thread_rng` hands out, with the bounds 0 and `bound`. The call returns a value
/// of the half-open range and panics on an empty range, which is why `bound` is positive.
/// Nothing is said of which value comes back.
#[verifier::external_body]
fn random_below(bound: usize) -> (index: usize)
    requires
        bound > 0,
    ensures
        index < bound,
{
    rand::thread_rng().gen_range(0, bound)
}

/// Generates a random move thats valid on the given board: one of its empty cells and one
/// of the pieces that are not on it, each drawn with equal chance. The board is not full.
pub fn valid_random_move(board: &Board) -> (choice: (BPos, Piece))
    requires
        occupied(board@, 16) < 16,
    ensures
        empty_positions(board@).contains(choice.0),
        unused_pieces(board@).contains(choice.1),
        choice.0.wf(),
        board@[choice.0.index()] is None,
        !holds(board@, choice.1),
{
    let free = get_empty_positions(board);
    let spare = get_unused_pieces(board);
    proof {
        lemma_free_cell_exists(board@);
        lemma_spare_piece_exists(board@);
    }
    let i = random_below(free.len());
    let k = random_below(spare.len());
    (free[i], spare[k])
}

} // verus!
