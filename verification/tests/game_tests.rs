use quart::{BPos, Board, Game, GameError, GameState, Piece};

fn piece(big: bool, dark: bool, round: bool, flat: bool) -> Piece {
    Piece { big, dark, round, flat }
}

#[test]
fn new_game() {
    let game = Game::new();
    assert_eq!(game.state, GameState::SelectPiece);
    assert_eq!(game.player_turn, 1);
    assert_eq!(game.board, Board::default());
    assert_eq!(game.selected_piece, None);
    assert!(game.game_over_info.is_none());
    assert!(!game.is_over());
    let game = Game::default();
    assert_eq!(game.state, GameState::SelectPiece);
    assert_eq!(game.player_turn, 1);
}

#[test]
fn place_then_read() {
    let mut game = Game::new();
    let p = piece(true, false, true, false);
    assert_eq!(game.select_next_piece(p), Ok(()));
    assert_eq!(game.place_piece(BPos::new(2, 1)), Ok(()));
    assert_eq!(game.board.get(BPos::new(2, 1)), Some(p));
    assert_eq!(game.board.piece_count(), 1);
}

#[test]
fn place_on_occupied_cell_is_rejected() {
    let mut game = Game::new();
    let p = piece(true, false, true, false);
    let q = piece(false, false, true, false);
    game.select_next_piece(p).unwrap();
    game.place_piece(BPos::new(2, 1)).unwrap();
    game.select_next_piece(q).unwrap();
    let board = game.board.clone();
    assert_eq!(game.place_piece(BPos::new(2, 1)), Err(GameError::CellOccupied));
    assert_eq!(game.board, board);
    assert_eq!(game.selected_piece, Some(q));
    assert_eq!(game.state, GameState::PlacePiece);
    assert_eq!(game.player_turn, 1);
}

#[test]
fn place_without_selection_is_rejected() {
    let mut game = Game::new();
    assert_eq!(game.place_piece(BPos::new(0, 0)), Err(GameError::NoPieceSelected));
    assert_eq!(game.board, Board::default());
    assert_eq!(game.state, GameState::SelectPiece);
    assert!(matches!(game.probe_place_piece(BPos::new(0, 0)), Err(GameError::NoPieceSelected)));
}

#[test]
fn select_then_place_round_trip() {
    let mut game = Game::new();
    let p = piece(false, true, false, true);
    assert_eq!(game.select_next_piece(p), Ok(()));
    assert_eq!(game.state, GameState::PlacePiece);
    assert_eq!(game.selected_piece, Some(p));
    assert_eq!(game.player_turn, 2);
    assert_eq!(game.place_piece(BPos::new(1, 2)), Ok(()));
    assert_eq!(game.state, GameState::SelectPiece);
    assert_eq!(game.selected_piece, None);
    assert_eq!(game.player_turn, 2);
    let q = piece(false, true, false, false);
    assert_eq!(game.select_next_piece(q), Ok(()));
    assert_eq!(game.player_turn, 1);
    assert_eq!(game.place_piece(BPos::new(0, 0)), Ok(()));
    assert_eq!(game.player_turn, 1);
}

#[test]
fn piece_in_use_scenario() {
    let mut game = Game::new();
    let p = piece(true, true, true, true);
    assert_eq!(game.select_next_piece(p), Ok(()));
    assert_eq!(game.place_piece(BPos::new(3, 3)), Ok(()));
    assert_eq!(game.select_next_piece(p), Err(GameError::PieceInUse));
    assert_eq!(game.state, GameState::SelectPiece);
    assert_eq!(game.selected_piece, None);
    assert_eq!(game.player_turn, 2);
    // the piece that differs in its top is still free
    assert_eq!(game.select_next_piece(piece(true, true, true, false)), Ok(()));
}

#[test]
fn winning_row_scenario() {
    let mut game = Game::new();
    game.select_next_piece(piece(true, true, true, true)).unwrap();
    game.place_piece(BPos::new(0, 3)).unwrap();
    game.select_next_piece(piece(true, true, true, false)).unwrap();
    game.place_piece(BPos::new(1, 3)).unwrap();
    game.select_next_piece(piece(true, true, false, true)).unwrap();
    game.place_piece(BPos::new(2, 3)).unwrap();
    assert!(!game.is_over());
    assert!(game.game_over_info.is_none());
    game.select_next_piece(piece(true, true, false, false)).unwrap();
    assert_eq!(game.place_piece(BPos::new(3, 3)), Ok(()));
    assert!(game.is_over());
    assert_eq!(game.state, GameState::GameOver);
    let info = game.game_over_info.as_ref().unwrap();
    assert_eq!(info.property, "Size");
    assert_eq!(
        info.positions,
        vec![BPos::new(0, 3), BPos::new(1, 3), BPos::new(2, 3), BPos::new(3, 3)]
    );
    // the one who placed the last piece is the one whose turn it still is
    assert_eq!(game.player_turn, 1);
}

#[test]
fn nothing_goes_on_after_the_end() {
    let mut game = Game::new();
    let row = [
        piece(true, true, true, true),
        piece(true, false, true, false),
        piece(true, true, false, true),
        piece(true, false, false, false),
    ];
    for (x, p) in row.iter().enumerate() {
        game.select_next_piece(*p).unwrap();
        game.place_piece(BPos::new(x as u16, 0)).unwrap();
    }
    assert!(game.is_over());
    let turn = game.player_turn;
    assert_eq!(
        game.select_next_piece(piece(false, false, false, false)),
        Err(GameError::GameIsOver)
    );
    assert_eq!(game.place_piece(BPos::new(0, 1)), Err(GameError::NoPieceSelected));
    assert_eq!(game.player_turn, turn);
    assert_eq!(game.state, GameState::GameOver);
    assert!(game.check());
}

#[test]
fn check_on_a_game_without_a_win() {
    let mut game = Game::new();
    assert!(!game.check());
    assert_eq!(game.state, GameState::SelectPiece);
    game.select_next_piece(piece(true, true, true, true)).unwrap();
    assert!(!game.check());
    assert_eq!(game.state, GameState::PlacePiece);
}

#[test]
fn check_finds_a_win_on_a_given_board() {
    let mut game = Game::new();
    game.board = Board([
        [Some(piece(true, true, true, true)), None, None, None],
        [None, Some(piece(false, true, false, false)), None, None],
        [None, None, Some(piece(true, true, false, true)), None],
        [None, None, None, Some(piece(false, true, true, false))],
    ]);
    assert!(game.check());
    assert!(game.is_over());
    assert_eq!(game.game_over_info.as_ref().unwrap().property, "Color");
}

#[test]
fn probe_leaves_the_game_and_run_places() {
    let mut game = Game::new();
    let p = piece(true, false, false, true);
    game.select_next_piece(p).unwrap();
    let transaction = game.probe_place_piece(BPos::new(1, 1)).ok().unwrap();
    assert_eq!(game.board, Board::default());
    assert_eq!(game.state, GameState::PlacePiece);
    assert_eq!(game.selected_piece, Some(p));
    assert_eq!(game.player_turn, 2);
    transaction.run(&mut game);
    assert_eq!(game.board.get(BPos::new(1, 1)), Some(p));
    assert_eq!(game.state, GameState::SelectPiece);
    assert_eq!(game.selected_piece, None);
    assert_eq!(game.player_turn, 2);

    let mut other = Game::new();
    other.select_next_piece(p).unwrap();
    other.place_piece(BPos::new(1, 1)).unwrap();
    assert_eq!(other.board, game.board);
    assert_eq!(other.state, game.state);
}

#[test]
fn probe_rejects_an_occupied_cell() {
    let mut game = Game::new();
    game.select_next_piece(piece(true, false, false, true)).unwrap();
    game.place_piece(BPos::new(1, 1)).unwrap();
    game.select_next_piece(piece(true, false, false, false)).unwrap();
    assert!(matches!(game.probe_place_piece(BPos::new(1, 1)), Err(GameError::CellOccupied)));
    assert!(game.probe_place_piece(BPos::new(1, 2)).is_ok());
    assert_eq!(game.board.piece_count(), 1);
}

#[test]
fn error_messages() {
    assert_eq!(
        GameError::CellOccupied.message(),
        "The specified cell is already occupied with a piece"
    );
    assert_eq!(GameError::PieceInUse.message(), "The specified piece is already on the board");
    assert_eq!(
        GameError::NoPieceSelected.message(),
        "An action required `self.selected_piece` to be `Some(_)`, but is was `None`"
    );
    assert_eq!(
        GameError::PieceAlreadySelected.message(),
        "An action required `self.selected_piece` to be `None`, but it was `Some(_)`"
    );
    assert_eq!(GameError::GameIsOver.message(), "Game Over");
}
