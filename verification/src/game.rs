//! The game's state machine: selecting a piece for the opponent, placing it, and the end.
use vstd::prelude::*;
use crate::board::{
    distinct, empty_cells, holds, lemma_empty_no_win, win_report, wins, BPos, Board, GameOverInfo,
    Piece, WinView,
};
use crate::error::GameError;

verus! {

/// The state the game is in
#[derive(Debug, PartialEq, Eq, Structural, Clone, Copy)]
pub enum GameState {
    /// The player selects a piece which his opponent has to place on the board
    SelectPiece,
    /// The player has to place the piece his opponent gave him
    PlacePiece,
    /// One of the players lost, game over
    GameOver,
}

/// The central data structure of the game
#[derive(Debug)]
pub struct Game {
    /// The current state of the game
    pub state: GameState,
    /// Which player's turn it is
    pub player_turn: u32,
    /// The board on which will be played
    pub board: Board,
    /// The selected piece, if any
    pub selected_piece: Option<Piece>,
    /// In case of Game Over, this contains a description
    pub game_over_info: Option<GameOverInfo>,
}

/// A game as the rules see it.
pub struct GameView {
    /// The phase of the game
    pub state: GameState,
    /// The player whose turn it is
    pub turn: int,
    /// The sixteen cells of the board, row by row
    pub cells: Seq<Option<Piece>>,
    /// The piece that is to be placed next, if any
    pub selected: Option<Piece>,
    /// The report of the win, once the game is over
    pub info: Option<WinView>,
}

impl View for Game {
    type V = GameView;

    open spec fn view(&self) -> GameView {
        GameView {
            state: self.state,
            turn: self.player_turn as int,
            cells: self.board@,
            selected: self.selected_piece,
            info: match self.game_over_info {
                Some(info) => Some(info@),
                None => None,
            },
        }
    }
}

impl GameView {
    /// The game at its start: an empty board, the first player is to select a piece.
    pub open spec fn start() -> GameView {
        GameView {
            state: GameState::SelectPiece,
            turn: 1,
            cells: empty_cells(),
            selected: None,
            info: None,
        }
    }

    /// What holds of every game that was played by the rules from the start.
    pub open spec fn wf(self) -> bool {
        &&& self.turn == 1 || self.turn == 2
        &&& self.cells.len() == 16
        &&& distinct(self.cells)
        &&& self.state == GameState::PlacePiece <==> self.selected is Some
        &&& self.selected matches Some(piece) ==> !holds(self.cells, piece)
        &&& self.state == GameState::GameOver <==> wins(self.cells)
        &&& self.info == win_report(self.cells)
    }

    /// The game after a look at the board: over, with the report, where a line wins.
    pub open spec fn checked(self) -> GameView {
        match win_report(self.cells) {
            Some(report) => GameView { state: GameState::GameOver, info: Some(report), ..self },
            None => self,
        }
    }

    /// The game after `piece` was selected for the other player, or why it cannot be.
    pub open spec fn select(self, piece: Piece) -> Result<GameView, GameError> {
        if self.state == GameState::GameOver {
            Err(GameError::GameIsOver)
        } else if holds(self.cells, piece) {
            Err(GameError::PieceInUse)
        } else {
            Ok(
                GameView {
                    selected: Some(piece),
                    state: GameState::PlacePiece,
                    turn: 3 - self.turn,
                    ..self
                },
            )
        }
    }

    /// The game after the selected piece was placed at `pos`, or why it cannot be.
    pub open spec fn place(self, pos: BPos) -> Result<GameView, GameError> {
        if self.selected is None {
            Err(GameError::NoPieceSelected)
        } else if self.cells[pos.index()] is Some {
            Err(GameError::CellOccupied)
        } else {
            Ok(self.put(pos, self.selected.unwrap()))
        }
    }

    /// The game after `piece` was written to the cell at `pos`: nothing is selected, the
    /// turn stays, and the game is over where a line wins now.
    pub open spec fn put(self, pos: BPos, piece: Piece) -> GameView {
        GameView {
            cells: self.cells.update(pos.index(), Some(piece)),
            selected: None,
            state: GameState::SelectPiece,
            ..self
        }.checked()
    }
}

impl Game {
    /// Create a new `Game`
    pub fn new() -> (game: Self)
        ensures
            game@ == GameView::start(),
            game@.wf(),
    {
        proof {
            lemma_start_wf();
        }
        Self {
            state: GameState::SelectPiece,
            player_turn: 1,
            board: Board::default(),
            selected_piece: None,
            game_over_info: None,
        }
    }

    /// Place selected piece on the board at `place_pos`
    ///
    /// Errors:
    /// - NoPieceSelected: no piece is selected
    /// - CellOccupied: `place_pos` is already occupied with a piece
    ///
    /// The turn is not passed on here: who placed a piece selects the next one.
    pub fn place_piece(&mut self, place_pos: BPos) -> (res: Result<(), GameError>)
        requires
            place_pos.wf(),
        ensures
            match old(self)@.place(place_pos) {
                Ok(after) => res is Ok && final(self)@ == after,
                Err(e) => res == Err::<(), GameError>(e) && *final(self) == *old(self),
            },
            res is Ok ==> final(self).board@[place_pos.index()] == old(self).selected_piece,
            old(self)@.wf() ==> final(self)@.wf(),
    {
        proof {
            if old(self)@.wf() && old(self)@.place(place_pos) is Ok {
                lemma_place_keeps_wf(old(self)@, place_pos);
            }
        }
        if self.selected_piece.is_none() {
            Err(GameError::NoPieceSelected)
        } else if self.board.get(place_pos).is_some() {
            Err(GameError::CellOccupied)
        } else {
            self.board.set(place_pos, self.selected_piece);
            self.selected_piece = None;
            self.state = GameState::SelectPiece;
            self.check();
            Ok(())
        }
    }

    /// Select `next_piece` for the next player, it's his turn now
    ///
    /// Errors:
    /// - GameIsOver: when method is called after GameOver
    /// - PieceInUse: `next_piece` is already on the board
    pub fn select_next_piece(&mut self, next_piece: Piece) -> (res: Result<(), GameError>)
        requires
            old(self).player_turn == 1 || old(self).player_turn == 2,
        ensures
            match old(self)@.select(next_piece) {
                Ok(after) => res is Ok && final(self)@ == after,
                Err(e) => res == Err::<(), GameError>(e) && *final(self) == *old(self),
            },
            old(self)@.wf() ==> final(self)@.wf(),
    {
        proof {
            if old(self)@.wf() && old(self)@.select(next_piece) is Ok {
                lemma_select_keeps_wf(old(self)@, next_piece);
            }
        }
        if self.is_over() {
            Err(GameError::GameIsOver)
        } else if self.board.contains(next_piece) {
            Err(GameError::PieceInUse)
        } else {
            self.selected_piece = Some(next_piece);
            self.state = GameState::PlacePiece;
            self.player_turn = 3 - self.player_turn;
            Ok(())
        }
    }

    /// Check if selected piece can be placed on the board at `place_pos`
    /// Returns a `PlacePieceTransaction` on success which can be used to perform
    /// the real placing later on. The game is left as it was in either case.
    ///
    /// Errors:
    /// - NoPieceSelected: no piece is selected
    /// - CellOccupied: `place_pos` is already occupied with a piece
    pub fn probe_place_piece(&mut self, place_pos: BPos) -> (res: Result<
        PlacePieceTransaction,
        GameError,
    >)
        requires
            place_pos.wf(),
        ensures
            *final(self) == *old(self),
            match old(self)@.place(place_pos) {
                Ok(_) => res matches Ok(transaction) && transaction.pos() == place_pos && Some(
                    transaction.piece(),
                ) == old(self).selected_piece,
                Err(e) => res matches Err(error) && error == e,
            },
    {
        if self.selected_piece.is_none() {
            Err(GameError::NoPieceSelected)
        } else if self.board.get(place_pos).is_some() {
            Err(GameError::CellOccupied)
        } else {
            Ok(PlacePieceTransaction { selected_piece: self.selected_piece, place_pos })
        }
    }

    /// Whether the game is over
    pub fn is_over(&self) -> (over: bool)
        ensures
            over == (self.state == GameState::GameOver),
    {
        self.state == GameState::GameOver
    }

    /// Check if the game is over (delegate from the board)
    /// Returns true on GameOver
    pub fn check(&mut self) -> (over: bool)
        ensures
            over == wins(old(self).board@),
            final(self)@ == old(self)@.checked(),
            !over ==> *final(self) == *old(self),
    {
        if let Some(info) = self.board.check() {
            self.state = GameState::GameOver;
            self.game_over_info = Some(info);
            true
        } else {
            false
        }
    }
}

impl Default for Game {
    fn default() -> (game: Self)
        ensures
            game@ == GameView::start(),
            game@.wf(),
    {
        Self::new()
    }
}

/// Transaction returned by `probe_place_piece`, allows delaying committing changes.
/// An agent that wants to place and then hand over a piece can look at both steps first
/// and run the placement only where both are in order.
pub struct PlacePieceTransaction {
    selected_piece: Option<Piece>,
    place_pos: BPos,
}

impl PlacePieceTransaction {
    #[verifier::type_invariant]
    spec fn valid(self) -> bool {
        self.selected_piece is Some && self.place_pos.wf()
    }

    /// The piece that the transaction places.
    pub closed spec fn piece(self) -> Piece {
        self.selected_piece.unwrap()
    }

    /// The position at which the transaction places its piece.
    pub closed spec fn pos(self) -> BPos {
        self.place_pos
    }

    /// Run the transaction: the game is then as `place_piece` would have left it when the
    /// transaction was made. The cell has to be empty still.
    pub fn run(self, game: &mut Game)
        requires
            old(game).board@[self.pos().index()] is None,
        ensures
            final(game)@ == old(game)@.put(self.pos(), self.piece()),
            old(game)@.selected == Some(self.piece()) ==> Ok::<GameView, GameError>(final(game)@)
                == old(game)@.place(self.pos()),
            old(game)@.wf() && old(game)@.selected == Some(self.piece()) ==> final(game)@.wf(),
    {
        proof {
            use_type_invariant(&self);
            if old(game)@.wf() && old(game)@.selected == Some(self.piece()) {
                lemma_place_keeps_wf(old(game)@, self.pos());
            }
        }
        game.board.set(self.place_pos, self.selected_piece);
        game.selected_piece = None;
        game.state = GameState::SelectPiece;
        game.check();
    }
}

/// The game at its start is well formed.
pub proof fn lemma_start_wf()
    ensures
        GameView::start().wf(),
{
    lemma_empty_no_win();
}

/// Selecting a piece keeps a game well formed.
pub proof fn lemma_select_keeps_wf(game: GameView, piece: Piece)
    requires
        game.wf(),
        game.select(piece) is Ok,
    ensures
        game.select(piece).unwrap().wf(),
{
}

/// Placing the selected piece keeps a game well formed.
pub proof fn lemma_place_keeps_wf(game: GameView, pos: BPos)
    requires
        game.wf(),
        pos.wf(),
        game.place(pos) is Ok,
    ensures
        game.place(pos).unwrap().wf(),
{
    let piece = game.selected.unwrap();
    let cells = game.cells.update(pos.index(), Some(piece));
    assert forall|j: int, k: int|
        0 <= j < 16 && 0 <= k < 16 && j != k && cells[j] is Some implies cells[j] != cells[k] by {
        if j == pos.index() {
            assert(game.cells[k] != Some(piece));
        } else if k == pos.index() {
            assert(game.cells[j] != Some(piece));
        }
    }
}

/// Selecting a piece that is not on the board and placing it at once on an empty cell
/// succeeds in both steps, while the game is not over. The piece then stands in that cell,
/// nothing is selected, the game is over exactly where a line wins now, and the turn has
/// passed to the other player once, at the selection.
pub proof fn lemma_select_then_place(game: GameView, piece: Piece, pos: BPos)
    requires
        game.state != GameState::GameOver,
        game.cells.len() == 16,
        pos.wf(),
        !holds(game.cells, piece),
        game.cells[pos.index()] is None,
    ensures
        game.select(piece) is Ok,
        game.select(piece).unwrap().turn == 3 - game.turn,
        game.select(piece).unwrap().place(pos) is Ok,
        ({
            let after = game.select(piece).unwrap().place(pos).unwrap();
            &&& after.cells == game.cells.update(pos.index(), Some(piece))
            &&& after.selected is None
            &&& after.turn == 3 - game.turn
            &&& after.state == if wins(after.cells) {
                GameState::GameOver
            } else {
                GameState::SelectPiece
            }
        }),
{
}

} // verus!
