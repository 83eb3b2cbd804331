//! What a user interface keeps beside the game: the cursor and the pool of pieces.
use vstd::prelude::*;
use crate::board::{distinct, full_cells, holds, is_first, BPos, Board, Piece};
use crate::moves::{get_unused_pieces, unused_pieces};
use crate::error::GameError;
use crate::game::{Game, GameState, GameView};

verus! {

/// Current User Interface State (cursor position, highlighted fields, ...)
pub struct UiState {
    /// The game that's played
    pub game: Game,
    /// On which position the cursor is
    pub cursor_pos: BPos,
    /// The board where the rest of the pieces is
    pub pieces_board: Board,
}

/// The coordinate that a cursor reaches from `from` by a step of `delta`: the distance of
/// `from + 4 + delta` from zero, wrapped into the board.
pub open spec fn stepped(from: int, delta: int) -> int {
    let to = from + 4 + delta;
    (if to < 0 {
        -to
    } else {
        to
    }) % 4
}

/// The step can be taken in 32 bits.
pub open spec fn can_step(from: int, delta: int) -> bool {
    i32::MIN < from + 4 + delta <= i32::MAX
}

/// One coordinate of the cursor after a step.
fn step(from: u16, delta: i32) -> (to: u16)
    requires
        can_step(from as int, delta as int),
    ensures
        to == stepped(from as int, delta as int),
        to < 4,
{
    let sum: i32 = from as i32 + 4 + delta;
    let distance: i32 = if sum < 0 {
        -sum
    } else {
        sum
    };
    (distance % 4) as u16
}

impl UiState {
    /// The cursor is on the board, the game is well formed, and the pool holds no piece
    /// twice, none that is on the board and not the selected one.
    pub open spec fn wf(self) -> bool {
        &&& self.cursor_pos.wf()
        &&& self.game@.wf()
        &&& distinct(self.pieces_board@)
        &&& forall|k: int|
            0 <= k < 16 ==> match #[trigger] self.pieces_board@[k] {
                Some(piece) => !holds(self.game.board@, piece) && self.game.selected_piece
                    != Some(piece),
                None => true,
            }
    }

    /// What the pool holds under the cursor.
    pub open spec fn under_cursor(self) -> Option<Piece> {
        self.pieces_board@[self.cursor_pos.index()]
    }

    /// What `enter` needs: the cursor is on the board, the turn is 1 or 2, a piece under
    /// the cursor that can be selected is not on the board, and where a piece is to be
    /// placed one is selected.
    pub open spec fn can_enter(self) -> bool {
        &&& self.cursor_pos.wf()
        &&& self.game.player_turn == 1 || self.game.player_turn == 2
        &&& self.game.state == GameState::SelectPiece ==> match self.under_cursor() {
            Some(piece) => !holds(self.game.board@, piece),
            None => true,
        }
        &&& self.game.state == GameState::PlacePiece ==> self.game.selected_piece is Some
    }

    /// Create a new User Interface State struct
    pub fn new(game: Game) -> (state: Self)
        ensures
            state.game == game,
            state.cursor_pos == (BPos { x: 0, y: 0 }),
            state.pieces_board@ == full_cells(),
            game@ == GameView::start() ==> state.wf(),
    {
        let state = Self { game, cursor_pos: BPos::new(0, 0), pieces_board: Board::full() };
        proof {
            if game@ == GameView::start() {
                crate::game::lemma_start_wf();
                crate::moves::lemma_full_cells_distinct();
            }
        }
        state
    }

    /// Move the cursor position by some given deltas
    pub fn move_cursor(&mut self, dx: i32, dy: i32)
        requires
            can_step(old(self).cursor_pos.x as int, dx as int),
            can_step(old(self).cursor_pos.y as int, dy as int),
        ensures
            final(self).cursor_pos.x == stepped(old(self).cursor_pos.x as int, dx as int),
            final(self).cursor_pos.y == stepped(old(self).cursor_pos.y as int, dy as int),
            final(self).cursor_pos.wf(),
            final(self).game == old(self).game,
            final(self).pieces_board == old(self).pieces_board,
    {
        self.cursor_pos.x = step(self.cursor_pos.x, dx);
        self.cursor_pos.y = step(self.cursor_pos.y, dy);
    }

    /// Set the cursor onto a specific x position
    pub fn set_cursor_x(&mut self, x: u16)
        ensures
            final(self).cursor_pos == (BPos { x, y: old(self).cursor_pos.y }),
            final(self).game == old(self).game,
            final(self).pieces_board == old(self).pieces_board,
    {
        self.cursor_pos.x = x;
    }

    /// Set the cursor onto a specific y position
    pub fn set_cursor_y(&mut self, y: u16)
        ensures
            final(self).cursor_pos == (BPos { x: old(self).cursor_pos.x, y }),
            final(self).game == old(self).game,
            final(self).pieces_board == old(self).pieces_board,
    {
        self.cursor_pos.y = y;
    }

    /// Set the cursor to a specific position
    pub fn set_cursor_pos(&mut self, pos: BPos)
        ensures
            final(self).cursor_pos == pos,
            final(self).game == old(self).game,
            final(self).pieces_board == old(self).pieces_board,
    {
        self.cursor_pos = pos;
    }

    /// Perform some action, depending on the game state.
    /// Normally picking up or putting down a piece: while a piece is to be selected, the
    /// piece under the cursor leaves the pool and is selected; while a piece is to be
    /// placed, it goes to the cell under the cursor if that is empty.
    pub fn enter(&mut self)
        requires
            old(self).can_enter(),
        ensures
            final(self).cursor_pos == old(self).cursor_pos,
            match old(self).game.state {
                GameState::SelectPiece => match old(self).under_cursor() {
                    Some(piece) => {
                        &&& Ok::<GameView, GameError>(final(self).game@) == old(self).game@.select(
                            piece,
                        )
                        &&& final(self).pieces_board@ == old(self).pieces_board@.update(
                            old(self).cursor_pos.index(),
                            None,
                        )
                    },
                    None => *final(self) == *old(self),
                },
                GameState::PlacePiece => final(self).pieces_board == old(self).pieces_board
                    && match old(self).game@.place(old(self).cursor_pos) {
                    Ok(after) => final(self).game@ == after,
                    Err(_) => final(self).game == old(self).game,
                },
                GameState::GameOver => *final(self) == *old(self),
            },
            old(self).wf() ==> final(self).wf(),
    {
        match self.game.state {
            GameState::SelectPiece => {
                if let Some(piece) = self.pieces_board.get(self.cursor_pos) {
                    match self.game.select_next_piece(piece) {
                        Ok(()) => {
                            self.pieces_board.set(self.cursor_pos, None);
                        },
                        Err(_) => {},
                    }
                }
            },
            GameState::PlacePiece => {
                let _ = self.game.place_piece(self.cursor_pos);
            },
            GameState::GameOver => {},
        }
    }
}

/// The pool after `piece` was taken from it: the first cell that held the piece is empty,
/// and a pool that did not hold it is as it was.
pub open spec fn taken_from(
    pool: Seq<Option<Piece>>,
    piece: Piece,
    after: Seq<Option<Piece>>,
) -> bool {
    if holds(pool, piece) {
        exists|k: int| is_first(pool, piece, k) && after == pool.update(k, None)
    } else {
        after == pool
    }
}

/// Makes the move of an agent as one step: the selected piece goes to the cell
/// `choice.0`, and `choice.1` is selected for the other player and leaves the pool.
///
/// Nothing changes unless both steps are in order. Where the piece cannot be placed, the
/// error says why. Where the piece that is to be handed over would be on the board, the
/// error is `PieceInUse`, and the agent may try again with another choice.
///
/// Two placements stand without a piece handed over: the one that wins, which is
/// answered with `GameIsOver`, and the one that leaves no piece unused, after which the
/// turn is done.
pub fn try_agent_move(ui_state: &mut UiState, choice: (BPos, Piece)) -> (res: Result<
    (),
    GameError,
>)
    requires
        choice.0.wf(),
        old(ui_state).game.player_turn == 1 || old(ui_state).game.player_turn == 2,
    ensures
        match old(ui_state).game@.place(choice.0) {
            Err(e) => res == Err::<(), GameError>(e) && *final(ui_state) == *old(ui_state),
            Ok(placed) => match placed.select(choice.1) {
                Ok(selected) => {
                    &&& res is Ok
                    &&& final(ui_state).game@ == selected
                    &&& final(ui_state).cursor_pos == old(ui_state).cursor_pos
                    &&& taken_from(
                        old(ui_state).pieces_board@,
                        choice.1,
                        final(ui_state).pieces_board@,
                    )
                },
                Err(e) => if e == GameError::GameIsOver || unused_pieces(placed.cells).len()
                    == 0 {
                    &&& res == if e == GameError::GameIsOver {
                        Err::<(), GameError>(GameError::GameIsOver)
                    } else {
                        Ok::<(), GameError>(())
                    }
                    &&& final(ui_state).game@ == placed
                    &&& final(ui_state).cursor_pos == old(ui_state).cursor_pos
                    &&& final(ui_state).pieces_board == old(ui_state).pieces_board
                } else {
                    res == Err::<(), GameError>(e) && *final(ui_state) == *old(ui_state)
                },
            },
        },
        old(ui_state).wf() ==> final(ui_state).wf(),
{
    let pos = choice.0;
    let piece = choice.1;
    let transaction = match ui_state.game.probe_place_piece(pos) {
        Ok(transaction) => transaction,
        Err(e) => {
            return Err(e);
        },
    };
    // how the board would look after the placement
    let mut after = ui_state.game.board.clone();
    after.set(pos, ui_state.game.selected_piece);
    let over = after.check().is_some();
    let in_use = after.contains(piece);
    if !over && in_use && get_unused_pieces(&after).len() > 0 {
        return Err(GameError::PieceInUse);
    }
    transaction.run(&mut ui_state.game);
    if over {
        return Err(GameError::GameIsOver);
    }
    if in_use {
        return Ok(());
    }
    match ui_state.game.select_next_piece(piece) {
        Ok(()) => {
            ui_state.pieces_board.remove(piece);
            Ok(())
        },
        Err(e) => Err(e),
    }
}

} // verus!
