use quart::gui::{event_from_input, label_offset, screen_to_bpos, Event, Input, Key, Layout, SPos};
use quart::render::{
    decimal, gen_classlist_for_piece, gen_piece_string, picture_rows, status_message, status_text,
};
use quart::route::board_pos_guard;
use quart::ui_state::try_agent_move;
use quart::{BPos, Board, Game, GameError, GameState, Piece, UiState};

fn piece(big: bool, dark: bool, round: bool, flat: bool) -> Piece {
    Piece { big, dark, round, flat }
}

#[test]
fn new_ui_state() {
    let state = UiState::new(Game::new());
    assert_eq!(state.cursor_pos, BPos::new(0, 0));
    assert_eq!(state.pieces_board, Board::full());
    assert_eq!(state.game.state, GameState::SelectPiece);
    assert_eq!(state.game.board, Board::default());
}

#[test]
fn cursor_moves_and_wraps() {
    let mut state = UiState::new(Game::new());
    state.move_cursor(1, 0);
    assert_eq!(state.cursor_pos, BPos { x: 1, y: 0 });
    state.move_cursor(0, -1);
    assert_eq!(state.cursor_pos, BPos { x: 1, y: 3 });
    state.move_cursor(-1, 1);
    assert_eq!(state.cursor_pos, BPos { x: 0, y: 0 });
    state.move_cursor(-1, 0);
    assert_eq!(state.cursor_pos, BPos { x: 3, y: 0 });
    state.move_cursor(1, 0);
    assert_eq!(state.cursor_pos, BPos { x: 0, y: 0 });
    // a step far to the left is counted by its distance from zero
    state.move_cursor(-7, -9);
    assert_eq!(state.cursor_pos, BPos { x: 3, y: 1 });
    state.move_cursor(127, -128);
    assert_eq!(state.cursor_pos, BPos { x: 2, y: 3 });
}

#[test]
fn cursor_is_set() {
    let mut state = UiState::new(Game::new());
    state.set_cursor_x(2);
    assert_eq!(state.cursor_pos, BPos { x: 2, y: 0 });
    state.set_cursor_y(3);
    assert_eq!(state.cursor_pos, BPos { x: 2, y: 3 });
    state.set_cursor_pos(BPos::new(1, 1));
    assert_eq!(state.cursor_pos, BPos { x: 1, y: 1 });
    assert_eq!(state.pieces_board, Board::full());
}

#[test]
fn enter_selects_and_places() {
    let mut state = UiState::new(Game::new());
    state.set_cursor_pos(BPos::new(2, 1));
    let taken = state.pieces_board.get(BPos::new(2, 1)).unwrap();
    assert_eq!(taken, piece(true, false, false, true));
    state.enter();
    assert_eq!(state.game.state, GameState::PlacePiece);
    assert_eq!(state.game.selected_piece, Some(taken));
    assert_eq!(state.game.player_turn, 2);
    assert_eq!(state.pieces_board.get(BPos::new(2, 1)), None);
    assert_eq!(state.pieces_board.piece_count(), 15);
    state.enter();
    assert_eq!(state.game.state, GameState::SelectPiece);
    assert_eq!(state.game.board.get(BPos::new(2, 1)), Some(taken));
    assert_eq!(state.game.selected_piece, None);
    assert_eq!(state.game.player_turn, 2);
    // the cell of the pool is empty now: nothing happens
    state.enter();
    assert_eq!(state.game.state, GameState::SelectPiece);
    assert_eq!(state.game.player_turn, 2);
    assert_eq!(state.pieces_board.piece_count(), 15);
    // the next piece cannot go to the occupied cell
    state.set_cursor_pos(BPos::new(0, 0));
    state.enter();
    assert_eq!(state.game.state, GameState::PlacePiece);
    state.set_cursor_pos(BPos::new(2, 1));
    state.enter();
    assert_eq!(state.game.state, GameState::PlacePiece);
    assert_eq!(state.game.board.piece_count(), 1);
    assert_eq!(state.cursor_pos, BPos::new(2, 1));
}

#[test]
fn enter_after_the_end_does_nothing() {
    let mut state = UiState::new(Game::new());
    for x in 0..4u16 {
        state.set_cursor_pos(BPos::new(x, 0));
        state.enter();
        state.enter();
    }
    assert!(state.game.is_over());
    assert_eq!(state.game.game_over_info.as_ref().unwrap().property, "Size");
    let turn = state.game.player_turn;
    state.set_cursor_pos(BPos::new(1, 1));
    state.enter();
    assert!(state.game.is_over());
    assert_eq!(state.game.player_turn, turn);
    assert_eq!(state.pieces_board.piece_count(), 12);
    assert_eq!(state.game.board.piece_count(), 4);
}

#[test]
fn keys_become_events() {
    let state = UiState::new(Game::new());
    let key = |k| event_from_input(Input::Key(k), &state);
    assert_eq!(key(Key::Esc), Some(Event::Exit));
    assert_eq!(key(Key::Char('q')), Some(Event::Exit));
    assert_eq!(key(Key::Up), Some(Event::CursorUp));
    assert_eq!(key(Key::Char('k')), Some(Event::CursorUp));
    assert_eq!(key(Key::Down), Some(Event::CursorDown));
    assert_eq!(key(Key::Char('j')), Some(Event::CursorDown));
    assert_eq!(key(Key::Left), Some(Event::CursorLeft));
    assert_eq!(key(Key::Char('h')), Some(Event::CursorLeft));
    assert_eq!(key(Key::Right), Some(Event::CursorRight));
    assert_eq!(key(Key::Char('l')), Some(Event::CursorRight));
    assert_eq!(key(Key::Char('a')), Some(Event::CursorToX(0)));
    assert_eq!(key(Key::Char('b')), Some(Event::CursorToX(1)));
    assert_eq!(key(Key::Char('c')), Some(Event::CursorToX(2)));
    assert_eq!(key(Key::Char('d')), Some(Event::CursorToX(3)));
    assert_eq!(key(Key::Char('1')), Some(Event::CursorToY(3)));
    assert_eq!(key(Key::Char('2')), Some(Event::CursorToY(2)));
    assert_eq!(key(Key::Char('3')), Some(Event::CursorToY(1)));
    assert_eq!(key(Key::Char('4')), Some(Event::CursorToY(0)));
    assert_eq!(key(Key::Char('\n')), Some(Event::Enter));
    assert_eq!(key(Key::Char('e')), None);
    assert_eq!(key(Key::Char('5')), None);
    assert_eq!(key(Key::Char('0')), None);
    assert_eq!(key(Key::Char('A')), None);
    assert_eq!(key(Key::Other), None);
    assert_eq!(event_from_input(Input::Other, &state), None);
}

#[test]
fn mouse_presses_hit_the_active_board() {
    let mut state = UiState::new(Game::new());
    // a piece is to be selected: the pool is active, its first corner is at (47, 3)
    assert_eq!(screen_to_bpos(&state, None, 47, 3), Some(BPos::new(0, 0)));
    assert_eq!(screen_to_bpos(&state, None, 52, 6), Some(BPos::new(0, 0)));
    assert_eq!(screen_to_bpos(&state, None, 53, 7), Some(BPos::new(1, 1)));
    assert_eq!(screen_to_bpos(&state, None, 70, 18), Some(BPos::new(3, 3)));
    assert_eq!(screen_to_bpos(&state, None, 71, 19), Some(BPos::new(3, 3)));
    assert_eq!(screen_to_bpos(&state, None, 72, 19), None);
    assert_eq!(screen_to_bpos(&state, None, 71, 20), None);
    assert_eq!(screen_to_bpos(&state, None, 46, 3), None);
    assert_eq!(screen_to_bpos(&state, None, 47, 2), None);
    assert_eq!(screen_to_bpos(&state, None, 4, 3), None);
    assert_eq!(
        event_from_input(Input::MousePress { x: 60, y: 12 }, &state),
        Some(Event::CursorToPos(BPos::new(2, 2)))
    );
    assert_eq!(event_from_input(Input::MousePress { x: 1, y: 1 }, &state), None);
    // a piece is to be placed: the main board is active, its first corner is at (4, 3)
    state.enter();
    assert_eq!(state.game.state, GameState::PlacePiece);
    assert_eq!(screen_to_bpos(&state, None, 4, 3), Some(BPos::new(0, 0)));
    assert_eq!(screen_to_bpos(&state, None, 28, 19), Some(BPos::new(3, 3)));
    assert_eq!(screen_to_bpos(&state, None, 47, 3), None);
    // another layout
    let layout = Layout {
        main_board: SPos::new(10, 20),
        curr_piece: SPos::new(0, 0),
        pieces_board: SPos::new(50, 20),
        status_label: SPos::new(0, 40),
    };
    assert_eq!(screen_to_bpos(&state, Some(&layout), 12, 21), Some(BPos::new(0, 0)));
    assert_eq!(screen_to_bpos(&state, Some(&layout), 18, 25), Some(BPos::new(1, 1)));
    assert_eq!(screen_to_bpos(&state, Some(&layout), 11, 21), None);
}

#[test]
fn no_cell_is_hit_when_the_game_is_over() {
    let mut state = UiState::new(Game::new());
    state.game.state = GameState::GameOver;
    assert_eq!(screen_to_bpos(&state, None, 4, 3), None);
    assert_eq!(screen_to_bpos(&state, None, 47, 3), None);
    assert_eq!(event_from_input(Input::MousePress { x: 47, y: 3 }, &state), None);
}

#[test]
fn wide_layout() {
    let layout = Layout::_wide();
    assert_eq!(layout.main_board, SPos { x: 2, y: 2 });
    assert_eq!(layout.curr_piece, SPos { x: 35, y: 3 });
    assert_eq!(layout.pieces_board, SPos { x: 45, y: 2 });
    assert_eq!(layout.status_label, SPos { x: 4, y: 22 });
}

#[test]
fn screen_positions_translate() {
    let pos = SPos::new(45, 2);
    assert_eq!(pos.translated(3, 2), SPos { x: 48, y: 4 });
    assert_eq!(pos.translated_i32(2, -1), SPos { x: 47, y: 1 });
    assert_eq!(pos.translated_i32(-46, -3), SPos { x: 65535, y: 65535 });
    assert_eq!(pos.translated_i32(65536, 65534), SPos { x: 45, y: 0 });
}

#[test]
fn labels_are_centered() {
    assert_eq!(label_offset(25, 16), 4);
    assert_eq!(label_offset(25, 25), 0);
    assert_eq!(label_offset(25, 0), 12);
    assert_eq!(label_offset(30, 15), 8);
}

#[test]
fn piece_pictures() {
    assert_eq!(gen_piece_string(None), "\n\n");
    assert_eq!(gen_piece_string(Some(piece(true, true, true, true))), "(---)\n(   )\n(   )");
    assert_eq!(gen_piece_string(Some(piece(true, false, true, false))), "(\\ /)\n( O )\n(   )");
    assert_eq!(gen_piece_string(Some(piece(true, true, false, true))), "|---|\n|   |\n|   |");
    assert_eq!(gen_piece_string(Some(piece(false, true, false, false))), "     \n|\\ /|\n| O |");
    assert_eq!(gen_piece_string(Some(piece(false, false, true, true))), "     \n(---)\n(   )");
}

#[test]
fn painted_pictures() {
    let blank = "     ".to_string();
    assert_eq!(picture_rows(None, "<r>", "<0>"), [blank.clone(), blank.clone(), blank.clone()]);
    assert_eq!(
        picture_rows(Some(piece(true, true, true, false)), "<r>", "<0>"),
        ["<r>(\\ /)<0>".to_string(), "<r>( O )<0>".to_string(), "<r>(   )<0>".to_string()]
    );
    assert_eq!(
        picture_rows(Some(piece(true, false, false, true)), "<r>", "<0>"),
        ["|---|<0>".to_string(), "|   |<0>".to_string(), "|   |<0>".to_string()]
    );
    assert_eq!(
        picture_rows(Some(piece(false, true, false, true)), "<r>", "<0>"),
        [blank, "<r>|---|<0>".to_string(), "<r>|   |<0>".to_string()]
    );
}

#[test]
fn class_lists() {
    assert_eq!(gen_classlist_for_piece(None), Vec::<&str>::new());
    assert_eq!(
        gen_classlist_for_piece(Some(piece(true, true, true, true))),
        vec!["piece_big", "piece_dark", "piece_flat", "piece_round"]
    );
    assert_eq!(
        gen_classlist_for_piece(Some(piece(false, true, true, false))),
        vec!["piece_dark", "piece_round"]
    );
    assert_eq!(
        gen_classlist_for_piece(Some(piece(false, false, false, false))),
        Vec::<&str>::new()
    );
}

#[test]
fn numbers_in_decimal() {
    assert_eq!(decimal(0), "0");
    assert_eq!(decimal(7), "7");
    assert_eq!(decimal(10), "10");
    assert_eq!(decimal(1234567890), "1234567890");
    assert_eq!(decimal(4294967295), "4294967295");
}

#[test]
fn status_texts() {
    let mut game = Game::new();
    assert_eq!(status_text(&game), "Player 1's turn!");
    assert_eq!(status_message(&game), "<h2 class='msg_player_turn'>Player 1s turn</h2>");
    game.select_next_piece(piece(true, true, true, true)).unwrap();
    assert_eq!(status_text(&game), "Player 2's turn!");
    game.place_piece(BPos::new(0, 0)).unwrap();
    for (x, p) in [(1, piece(true, false, true, true)), (2, piece(false, true, true, true))] {
        game.select_next_piece(p).unwrap();
        game.place_piece(BPos::new(x, 0)).unwrap();
    }
    game.select_next_piece(piece(false, false, true, false)).unwrap();
    game.place_piece(BPos::new(3, 0)).unwrap();
    assert!(game.is_over());
    assert_eq!(status_text(&game), "Game over because of Shape");
    assert_eq!(
        status_message(&game),
        "<h2 class='msg_game_over'>Game Over, player 1 won!</h2>"
    );
    game.game_over_info = None;
    assert_eq!(status_text(&game), "");
}

#[test]
fn paths_with_two_small_numbers_pass() {
    assert!(board_pos_guard("/move_cursor/to/1/2"));
    assert!(board_pos_guard("/move_cursor/by/-1/0"));
    assert!(board_pos_guard("/by/+3/-3"));
    assert!(board_pos_guard("/to/003/0"));
    assert!(board_pos_guard("0/0"));
    assert!(board_pos_guard("/1/x/2/"));
    assert!(!board_pos_guard(""));
    assert!(!board_pos_guard("/"));
    assert!(!board_pos_guard("/move_cursor/to/1"));
    assert!(!board_pos_guard("/move_cursor/to/1/2/3"));
    assert!(!board_pos_guard("/move_cursor/to/4/2"));
    assert!(!board_pos_guard("/move_cursor/to/-4/2"));
    assert!(!board_pos_guard("/move_cursor/to/10/2"));
    assert!(!board_pos_guard("/move_cursor/to/1/+"));
    assert!(!board_pos_guard("/move_cursor/to/1/-"));
    assert!(!board_pos_guard("/move_cursor/to/1/2x"));
    assert!(!board_pos_guard("/move_cursor/to/1/ 2"));
    assert!(!board_pos_guard("/move_cursor/to/1/--2"));
    assert!(!board_pos_guard("/é/1/1/2"));
    assert!(board_pos_guard("/é/1/2"));
}

fn ui_with_a_selected_piece() -> UiState {
    let mut state = UiState::new(Game::new());
    state.enter();
    assert_eq!(state.game.selected_piece, Some(piece(true, true, true, true)));
    state
}

#[test]
fn agent_move_places_and_hands_over() {
    let mut state = ui_with_a_selected_piece();
    let next = piece(false, false, false, false);
    assert_eq!(try_agent_move(&mut state, (BPos::new(1, 1), next)), Ok(()));
    assert_eq!(state.game.board.get(BPos::new(1, 1)), Some(piece(true, true, true, true)));
    assert_eq!(state.game.board.piece_count(), 1);
    assert_eq!(state.game.selected_piece, Some(next));
    assert_eq!(state.game.state, GameState::PlacePiece);
    assert_eq!(state.game.player_turn, 1);
    assert_eq!(state.pieces_board.get(BPos::new(3, 3)), None);
    assert_eq!(state.pieces_board.piece_count(), 14);
    assert_eq!(state.cursor_pos, BPos::new(0, 0));
}

#[test]
fn agent_move_with_a_piece_in_use_changes_nothing() {
    let mut state = ui_with_a_selected_piece();
    // the piece that is placed cannot be handed over
    let own = piece(true, true, true, true);
    assert_eq!(try_agent_move(&mut state, (BPos::new(1, 1), own)), Err(GameError::PieceInUse));
    assert_eq!(state.game.board, Board::default());
    assert_eq!(state.game.selected_piece, Some(own));
    assert_eq!(state.game.state, GameState::PlacePiece);
    assert_eq!(state.game.player_turn, 2);
    assert_eq!(state.pieces_board.piece_count(), 15);
    // nor can a piece that is on the board
    assert_eq!(try_agent_move(&mut state, (BPos::new(1, 1), piece(true, false, true, true))), Ok(()));
    assert_eq!(
        try_agent_move(&mut state, (BPos::new(2, 2), own)),
        Err(GameError::PieceInUse)
    );
    assert_eq!(state.game.board.piece_count(), 1);
    assert_eq!(state.game.selected_piece, Some(piece(true, false, true, true)));
    assert_eq!(state.game.player_turn, 1);
}

#[test]
fn agent_move_to_an_occupied_cell_changes_nothing() {
    let mut state = ui_with_a_selected_piece();
    let next = piece(false, false, false, false);
    assert_eq!(try_agent_move(&mut state, (BPos::new(1, 1), next)), Ok(()));
    let other = piece(false, true, false, true);
    assert_eq!(try_agent_move(&mut state, (BPos::new(1, 1), other)), Err(GameError::CellOccupied));
    assert_eq!(state.game.board.piece_count(), 1);
    assert_eq!(state.game.selected_piece, Some(next));
    assert_eq!(state.game.player_turn, 1);
    assert_eq!(state.pieces_board.piece_count(), 14);
}

#[test]
fn agent_move_without_a_selected_piece_changes_nothing() {
    let mut state = UiState::new(Game::new());
    let next = piece(false, false, false, false);
    assert_eq!(
        try_agent_move(&mut state, (BPos::new(1, 1), next)),
        Err(GameError::NoPieceSelected)
    );
    assert_eq!(state.game.board, Board::default());
    assert_eq!(state.game.state, GameState::SelectPiece);
    assert_eq!(state.game.player_turn, 1);
    assert_eq!(state.pieces_board, Board::full());
}

#[test]
fn agent_move_that_wins_stands() {
    let mut state = UiState::new(Game::new());
    state.game.board = Board([
        [Some(piece(true, true, true, true)), None, None, None],
        [Some(piece(true, true, true, false)), None, None, None],
        [Some(piece(true, true, false, true)), None, None, None],
        [None, None, None, None],
    ]);
    state.game.selected_piece = Some(piece(true, false, false, false));
    state.game.state = GameState::PlacePiece;
    state.game.player_turn = 2;
    let pool = state.pieces_board.clone();
    assert_eq!(
        try_agent_move(&mut state, (BPos::new(0, 3), Piece::default())),
        Err(GameError::GameIsOver)
    );
    assert!(state.game.is_over());
    assert_eq!(state.game.board.get(BPos::new(0, 3)), Some(piece(true, false, false, false)));
    assert_eq!(state.game.selected_piece, None);
    assert_eq!(state.game.player_turn, 2);
    assert_eq!(state.game.game_over_info.as_ref().unwrap().property, "Size");
    assert_eq!(state.pieces_board, pool);
}

#[test]
fn agent_move_that_fills_the_board_stands() {
    let p = |big, dark, round, flat| Some(piece(big, dark, round, flat));
    let (t, f) = (true, false);
    let mut state = UiState::new(Game::new());
    state.game.board = Board([
        [p(t, t, f, f), p(t, f, f, f), p(f, f, t, f), p(f, t, t, t)],
        [p(f, t, f, t), p(f, f, f, f), None, p(f, t, f, f)],
        [p(t, f, t, t), p(t, t, t, f), p(t, f, f, t), p(f, f, t, t)],
        [p(f, f, f, t), p(t, t, f, t), p(f, t, t, f), p(t, t, t, t)],
    ]);
    state.game.selected_piece = p(t, f, t, f);
    state.game.state = GameState::PlacePiece;
    state.game.player_turn = 2;
    state.pieces_board = Board::default();
    // whatever piece comes with the move, nothing is left to hand over
    assert_eq!(try_agent_move(&mut state, (BPos::new(2, 1), Piece::default())), Ok(()));
    assert_eq!(state.game.board.piece_count(), 16);
    assert_eq!(state.game.selected_piece, None);
    assert_eq!(state.game.state, GameState::SelectPiece);
    assert_eq!(state.game.player_turn, 2);
    assert!(!state.game.is_over());
}
