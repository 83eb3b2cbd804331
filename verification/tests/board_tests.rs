use quart::board::{check_fields, _new_piece};
use quart::{BPos, Board, Piece};

fn piece(big: bool, dark: bool, round: bool, flat: bool) -> Piece {
    Piece { big, dark, round, flat }
}

#[allow(non_snake_case)]
#[test]
fn test_check_fields() {
    let p_bdrf = _new_piece(0, 0, 0, 0);
    let p_BdRf = _new_piece(1, 0, 1, 0);
    let p_bDrf = _new_piece(0, 1, 0, 0);
    let p_BDrf = _new_piece(1, 1, 0, 0);
    let p_BDrF = _new_piece(1, 1, 0, 1);

    assert!(check_fields(&[p_bdrf, p_bdrf, p_bdrf, p_bdrf]).is_some(), "all equal");
    assert!(check_fields(&[p_bdrf, p_BdRf, p_bDrf, p_BDrf]).is_some(), "all not flat");
    assert!(!check_fields(&[p_bdrf, p_bdrf, p_bdrf, None]).is_some(), "1 none");
    assert!(!check_fields(&[p_bdrf, p_BdRf, p_bDrf, p_BDrF]).is_some(), "no equals");
}

#[allow(non_snake_case)]
#[test]
fn board_test_check_fields() {
    let p_bdrf = _new_piece(0, 0, 0, 0);
    let p_BdRf = _new_piece(1, 0, 1, 0);
    let p_bDrf = _new_piece(0, 1, 0, 0);
    let p_BDrf = _new_piece(1, 1, 0, 0);
    let p_BDrF = _new_piece(1, 1, 0, 1);

    assert!(check_fields(&[p_bdrf, p_bdrf, p_bdrf, p_bdrf]).is_some(), "all equal");
    assert!(check_fields(&[p_bdrf, p_BdRf, p_bDrf, p_BDrf]).is_some(), "all not flat");
    assert!(!check_fields(&[p_bdrf, p_bdrf, p_bdrf, None]).is_some(), "1 none");
    assert!(!check_fields(&[p_bdrf, p_BdRf, p_bDrf, p_BDrF]).is_some(), "no equals");
}

#[test]
fn check_fields_names_first_shared_property() {
    let a = _new_piece(0, 0, 0, 0);
    assert_eq!(check_fields(&[a, a, a, a]), Some("Size".to_string()));
    // size differs, color is shared
    let b = _new_piece(1, 0, 0, 0);
    assert_eq!(check_fields(&[a, b, a, b]), Some("Color".to_string()));
    // size and color differ, shape is shared
    let c = _new_piece(1, 1, 0, 1);
    assert_eq!(check_fields(&[a, c, a, c]), Some("Shape".to_string()));
    // only the top is shared
    let d = _new_piece(1, 1, 1, 0);
    assert_eq!(check_fields(&[a, d, a, d]), Some("Top".to_string()));
    // nothing is shared
    let e = _new_piece(1, 1, 1, 1);
    assert_eq!(check_fields(&[a, e, a, e]), None);
}

#[test]
fn check_fields_looks_at_the_first_four_only() {
    let a = _new_piece(0, 0, 0, 0);
    let e = _new_piece(1, 1, 1, 1);
    assert_eq!(check_fields(&[a, a, a, a, e]), Some("Size".to_string()));
    assert_eq!(check_fields(&[a, a, a, a, None]), Some("Size".to_string()));
    assert_eq!(check_fields(&[a, a]), Some("Size".to_string()));
    assert_eq!(check_fields(&[a, None]), None);
    assert_eq!(check_fields(&[None]), None);
}

#[test]
fn new_position_wraps() {
    assert_eq!(BPos::new(0, 0), BPos { x: 0, y: 0 });
    assert_eq!(BPos::new(3, 2), BPos { x: 3, y: 2 });
    assert_eq!(BPos::new(4, 7), BPos { x: 0, y: 3 });
    assert_eq!(BPos::new(65535, 9), BPos { x: 3, y: 1 });
}

#[test]
fn default_piece_and_board() {
    assert_eq!(Piece::default(), piece(false, false, false, false));
    let board = Board::default();
    assert_eq!(board, Board([[None; 4]; 4]));
    assert_eq!(board.piece_count(), 0);
    assert!(board.check().is_none());
}

#[test]
fn new_piece_reads_numbers_as_flags() {
    assert_eq!(_new_piece(1, 0, 7, 0), Some(piece(true, false, true, false)));
    assert_eq!(_new_piece(0, 255, 0, 1), Some(piece(false, true, false, true)));
}

#[test]
fn get_and_set_touch_one_cell() {
    let mut board = Board::default();
    let p = piece(true, false, true, false);
    board.set(BPos::new(3, 1), Some(p));
    assert_eq!(board.get(BPos::new(3, 1)), Some(p));
    assert_eq!(board.0[1][3], Some(p));
    assert_eq!(board.piece_count(), 1);
    for y in 0..4u16 {
        for x in 0..4u16 {
            if (x, y) != (3, 1) {
                assert_eq!(board.get(BPos::new(x, y)), None);
            }
        }
    }
    board.set(BPos::new(3, 1), None);
    assert_eq!(board, Board::default());
}

#[test]
fn full_board_layout() {
    let board = Board::full();
    assert_eq!(board.piece_count(), 16);
    for r in 0..4usize {
        for c in 0..4usize {
            let expected = piece(r <= 1, r % 2 == 0, c <= 1, c % 2 == 0);
            assert_eq!(board.0[r][c], Some(expected));
        }
    }
    assert_eq!(board.0[0][0], Some(piece(true, true, true, true)));
    assert_eq!(board.0[3][3], Some(piece(false, false, false, false)));
    assert_eq!(board.0[1][2], Some(piece(true, false, false, true)));
}

#[test]
fn contains_and_remove() {
    let mut board = Board::full();
    let p = piece(true, false, false, true);
    assert!(board.contains(p));
    assert!(board.remove(p));
    assert!(!board.contains(p));
    assert_eq!(board.0[1][2], None);
    assert_eq!(board.piece_count(), 15);
    assert!(!board.remove(p));
    assert_eq!(board.piece_count(), 15);
}

#[test]
fn remove_takes_the_first_occurence() {
    let p = piece(true, true, false, false);
    let mut board = Board([
        [None, None, None, None],
        [None, None, Some(p), None],
        [None, Some(p), None, None],
        [None, None, None, None],
    ]);
    assert!(board.remove(p));
    assert_eq!(
        board,
        Board([
            [None, None, None, None],
            [None, None, None, None],
            [None, Some(p), None, None],
            [None, None, None, None],
        ])
    );
}

#[test]
fn three_in_a_line_and_a_gap_do_not_win() {
    let board = Board([
        [None, None, None, None],
        [None, None, None, None],
        [None, None, None, None],
        [
            Some(piece(true, true, true, true)),
            Some(piece(true, true, true, false)),
            Some(piece(true, true, false, true)),
            None,
        ],
    ]);
    assert!(board.check().is_none());
    let column = Board([
        [None, Some(piece(true, true, true, true)), None, None],
        [None, Some(piece(true, true, true, false)), None, None],
        [None, None, None, None],
        [None, Some(piece(true, true, false, true)), None, None],
    ]);
    assert!(column.check().is_none());
}

#[test]
fn four_in_a_row_win() {
    let board = Board([
        [None, None, None, None],
        [
            Some(piece(false, true, true, true)),
            Some(piece(true, true, true, false)),
            Some(piece(false, true, false, true)),
            Some(piece(true, true, false, false)),
        ],
        [None, None, None, None],
        [None, None, None, None],
    ]);
    let info = board.check().unwrap();
    assert_eq!(info.property, "Color");
    assert_eq!(
        info.positions,
        vec![BPos::new(0, 1), BPos::new(1, 1), BPos::new(2, 1), BPos::new(3, 1)]
    );
}

#[test]
fn four_in_a_column_win() {
    let board = Board([
        [None, None, Some(piece(false, true, true, true)), None],
        [None, None, Some(piece(true, false, true, false)), None],
        [None, None, Some(piece(false, true, true, true)), None],
        [None, None, Some(piece(true, false, true, false)), None],
    ]);
    let info = board.check().unwrap();
    assert_eq!(info.property, "Shape");
    assert_eq!(
        info.positions,
        vec![BPos::new(2, 0), BPos::new(2, 1), BPos::new(2, 2), BPos::new(2, 3)]
    );
}

#[test]
fn four_on_a_diagonal_win() {
    let falling = Board([
        [Some(piece(false, true, false, true)), None, None, None],
        [None, Some(piece(true, false, true, true)), None, None],
        [None, None, Some(piece(false, false, false, true)), None],
        [None, None, None, Some(piece(true, true, true, true))],
    ]);
    let info = falling.check().unwrap();
    assert_eq!(info.property, "Top");
    assert_eq!(
        info.positions,
        vec![BPos::new(0, 0), BPos::new(1, 1), BPos::new(2, 2), BPos::new(3, 3)]
    );
    let rising = Board([
        [None, None, None, Some(piece(true, true, true, true))],
        [None, None, Some(piece(false, false, false, true)), None],
        [None, Some(piece(true, false, true, true)), None, None],
        [Some(piece(false, true, false, true)), None, None, None],
    ]);
    let info = rising.check().unwrap();
    assert_eq!(info.property, "Top");
    assert_eq!(
        info.positions,
        vec![BPos::new(0, 3), BPos::new(1, 2), BPos::new(2, 1), BPos::new(3, 0)]
    );
}

#[test]
fn rows_are_reported_before_columns() {
    // row 2 and column 0 both win; the row comes first
    let a = piece(true, true, true, true);
    let board = Board([
        [Some(a), None, None, None],
        [Some(piece(true, false, false, false)), None, None, None],
        [
            Some(piece(true, true, false, false)),
            Some(piece(false, true, false, true)),
            Some(piece(false, true, true, false)),
            Some(piece(false, true, true, true)),
        ],
        [Some(piece(true, false, true, false)), None, None, None],
    ]);
    let info = board.check().unwrap();
    assert_eq!(info.property, "Color");
    assert_eq!(
        info.positions,
        vec![BPos::new(0, 2), BPos::new(1, 2), BPos::new(2, 2), BPos::new(3, 2)]
    );
}

#[test]
fn full_line_without_shared_property_does_not_win() {
    let board = Board([
        [
            Some(piece(true, true, true, true)),
            Some(piece(false, false, false, false)),
            Some(piece(true, false, true, false)),
            Some(piece(false, true, false, true)),
        ],
        [None, None, None, None],
        [None, None, None, None],
        [None, None, None, None],
    ]);
    assert!(board.check().is_none());
}

#[test]
fn clone_is_equal() {
    let board = Board::full();
    assert_eq!(board.clone(), board);
}
