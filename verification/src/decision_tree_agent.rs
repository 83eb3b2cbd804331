//! An opponent that looks one move ahead.
use vstd::prelude::*;
use crate::agent::AiAgent;
use crate::board::{holds, wins, BPos, Board, Piece};
use crate::game::Game;
use crate::game::{GameState, GameView};
use crate::moves::{
    agent_moves, all_pieces, applied, apply_move, find_winning_move, fits, get_all_agent_moves,
    get_all_player_moves, get_unused_pieces, is_free, is_spare, is_winning, lemma_filter_keeps,
    lemma_no_winner_among, lemma_player_moves_complete, player_moves, scan_order, unused_pieces,
    Move,
};
use crate::rand_agent::valid_random_move;

verus! {

/// An AI enemy that plans ahead
pub struct DecisionTreeAgent {}

impl DecisionTreeAgent {
    /// Create a `DecisionTreeAgent`
    pub fn new(_game: &Game) -> Self {
        Self {}
    }
}

/// The test for a move after which no move of the other player completes a winning line,
/// whichever empty cell and whichever unused piece the other player takes.
pub open spec fn is_safe(cells: Seq<Option<Piece>>) -> spec_fn(Move) -> bool {
    |mov: Move|
        player_moves(applied(cells, mov)).filter(is_winning(applied(cells, mov))).len() == 0
}

/// The piece that is handed to the other player on the given cells: the first of the
/// pieces that stand in none of them. Where every piece stands on the board nothing is
/// left to hand over, and the default piece stands for that.
pub open spec fn handover(cells: Seq<Option<Piece>>) -> Piece {
    if unused_pieces(cells).len() > 0 {
        unused_pieces(cells)[0]
    } else {
        Piece { big: false, dark: false, round: false, flat: false }
    }
}

/// What the agent decides without chance, for the piece that it has to place: the first
/// move that wins at once, with the default piece to hand over; else the first move that
/// leaves the other player no winning reply, with the first piece that is unused once the
/// move is made; else nothing.
pub open spec fn decision(cells: Seq<Option<Piece>>, piece: Piece) -> Option<(BPos, Piece)> {
    let moves = agent_moves(cells, piece);
    let winning = moves.filter(is_winning(cells));
    let safe = moves.filter(is_safe(cells));
    if winning.len() > 0 {
        Some((winning[0].pos, Piece { big: false, dark: false, round: false, flat: false }))
    } else if safe.len() > 0 {
        Some((safe[0].pos, handover(applied(cells, safe[0]))))
    } else {
        None
    }
}

/// Finds the first of `moves` that is safe to do without giving the player the
/// opportunity to win with the next move.
pub fn find_safe_move<'m>(board: &Board, moves: &'m [Move]) -> (found: Option<&'m Move>)
    requires
        forall|i: int| 0 <= i < moves@.len() ==> fits(board@, #[trigger] moves@[i]),
    ensures
        match found {
            Some(mov) => moves@.filter(is_safe(board@)).len() > 0 && *mov == moves@.filter(
                is_safe(board@),
            )[0],
            None => moves@.filter(is_safe(board@)).len() == 0,
        },
        found matches Some(mov) ==> is_safe(board@)(*mov) && moves@.contains(*mov),
{
    let mut i: usize = 0;
    while i < moves.len()
        invariant
            i <= moves@.len(),
            forall|i: int| 0 <= i < moves@.len() ==> fits(board@, #[trigger] moves@[i]),
            moves@.take(i as int).filter(is_safe(board@)).len() == 0,
        decreases moves@.len() - i,
    {
        proof {
            let seen = moves@.take(i as int);
            assert(moves@.take(i + 1) =~= seen.push(moves@[i as int]));
            seen.lemma_filter_push(moves@[i as int], is_safe(board@));
        }
        // how the board would look after playing this move
        let new_board = apply_move(board.clone(), &moves[i]);
        // what moves the player could do then
        let new_board_moves = get_all_player_moves(&new_board);
        if find_winning_move(&new_board, new_board_moves.as_slice()).is_none() {
            proof {
                let seen = moves@.take(i + 1);
                let rest = moves@.skip(i + 1);
                assert(moves@ =~= seen + rest);
                Seq::filter_distributes_over_add(seen, rest, is_safe(board@));
            }
            return Some(&moves[i]);
        }
        i += 1;
    }
    assert(moves@.take(moves@.len() as int) =~= moves@);
    None
}

/// What the agent decides without chance: a winning move, else a safe move, else nothing.
pub fn decide(game: &Game) -> (choice: Option<(BPos, Piece)>)
    requires
        game.selected_piece is Some,
    ensures
        choice == decision(game.board@, game.selected_piece.unwrap()),
        choice matches Some(c) ==> c.0.wf() && game.board@[c.0.index()] is None,
{
    // moves the agent could do
    let agent_moves = get_all_agent_moves(game);
    if let Some(winning_move) = find_winning_move(&game.board, agent_moves.as_slice()) {
        // the piece to select afterwards isn't relevant anymore
        return Some((winning_move.pos, Piece::default()));
    }
    // just do the first move that won't give the player the opportunity to win
    if let Some(not_losing_move) = find_safe_move(&game.board, agent_moves.as_slice()) {
        // hand over a piece that is still unused when the move is made
        let new_board = apply_move(game.board.clone(), not_losing_move);
        let spare = get_unused_pieces(&new_board);
        let next_piece = if spare.len() > 0 {
            spare[0]
        } else {
            Piece::default()
        };
        return Some((not_losing_move.pos, next_piece));
    }
    None
}

impl AiAgent for DecisionTreeAgent {
    /// This agent promises what it decides without chance, and a valid move where it
    /// decides nothing.
    open spec fn promises(
        &self,
        cells: Seq<Option<Piece>>,
        piece: Piece,
        choice: (BPos, Piece),
    ) -> bool {
        match decision(cells, piece) {
            Some(decided) => choice == decided,
            None => choice.0.wf() && cells[choice.0.index()] is None && !holds(cells, choice.1),
        }
    }

    /// Plays what `decide` finds, and a random valid move where it finds nothing.
    fn play(&mut self, game: &Game) -> (choice: (BPos, Piece))
        ensures
            match decision(game.board@, game.selected_piece.unwrap()) {
                Some(decided) => choice == decided,
                None => choice.0.wf() && game.board@[choice.0.index()] is None && !holds(
                    game.board@,
                    choice.1,
                ),
            },
    {
        match decide(game) {
            Some(decided) => decided,
            // no directly winning move, no move that can't lead to a loss
            // => do random move and hope the player doesn't notice he can win
            None => valid_random_move(&game.board),
        }
    }
}

/// After a safe move the other player cannot win with the next move: whatever unused
/// piece goes to whatever empty cell of the board that the safe move leaves, no line wins.
pub proof fn lemma_safe_move_blocks_every_reply(
    cells: Seq<Option<Piece>>,
    mov: Move,
    reply: Move,
)
    requires
        is_safe(cells)(mov),
        fits(applied(cells, mov), reply),
        !holds(applied(cells, mov), reply.piece),
    ensures
        !wins(applied(applied(cells, mov), reply)),
{
    let after = applied(cells, mov);
    lemma_player_moves_complete(after, reply);
    lemma_no_winner_among(after, player_moves(after), reply);
}

/// What the agent decides without chance is a move that it can make: the position is an
/// empty cell of the board. A decision that does not win at once is safe: no reply to it
/// wins. The piece that comes with such a decision can be handed over, where any piece is
/// left when the move is made: it is not on the board then, and it is not the placed one.
pub proof fn lemma_decision_is_sound(cells: Seq<Option<Piece>>, piece: Piece)
    requires
        cells.len() == 16,
        decision(cells, piece) is Some,
    ensures
        ({
            let pos = decision(cells, piece).unwrap().0;
            let next = decision(cells, piece).unwrap().1;
            let mov = Move { pos, piece };
            let after = applied(cells, mov);
            &&& pos.wf()
            &&& cells[pos.index()] is None
            &&& agent_moves(cells, piece).contains(mov)
            &&& wins(after) || is_safe(cells)(mov)
            &&& !wins(after) && unused_pieces(after).len() > 0 ==> !holds(after, next) && next
                != piece
        }),
{
    let moves = agent_moves(cells, piece);
    let winning = moves.filter(is_winning(cells));
    let safe = moves.filter(is_safe(cells));
    let chosen = if winning.len() > 0 {
        lemma_filter_keeps(moves, is_winning(cells), 0);
        winning[0]
    } else {
        lemma_filter_keeps(moves, is_safe(cells), 0);
        safe[0]
    };
    let i = choose|i: int| 0 <= i < moves.len() && moves[i] == chosen;
    lemma_filter_keeps(scan_order(), is_free(cells), i);
    let after = applied(cells, chosen);
    if winning.len() == 0 && wins(after) {
        assert(is_winning(cells)(moves[i]));
        moves.lemma_filter_contains(is_winning(cells), i);
    }
    if unused_pieces(after).len() > 0 {
        lemma_filter_keeps(all_pieces(), is_spare(after), 0);
        assert(after[chosen.pos.index()] == Some(piece));
    }
}

/// A decision that does not win at once can be played in full, where any piece is left
/// when the move is made: the placement succeeds, and so does the selection of the piece
/// that comes with the decision.
pub proof fn lemma_decision_can_be_played(game: GameView)
    requires
        game.cells.len() == 16,
        game.selected is Some,
        decision(game.cells, game.selected.unwrap()) is Some,
        ({
            let choice = decision(game.cells, game.selected.unwrap()).unwrap();
            let after = applied(game.cells, Move { pos: choice.0, piece: game.selected.unwrap() });
            !wins(after) && unused_pieces(after).len() > 0
        }),
    ensures
        ({
            let choice = decision(game.cells, game.selected.unwrap()).unwrap();
            &&& game.place(choice.0) is Ok
            &&& game.place(choice.0).unwrap().state == GameState::SelectPiece
            &&& game.place(choice.0).unwrap().select(choice.1) is Ok
        }),
{
    lemma_decision_is_sound(game.cells, game.selected.unwrap());
}

} // verus!
