//! The texts that a user interface shows of a piece and of the state of the game.
use vstd::prelude::*;
use crate::board::Piece;
use crate::game::{Game, GameState};

verus! {

/// The three lines that picture a piece, without colour. A round piece has round sides,
/// a flat piece a flat roof and no hole, a small piece leaves the first line empty.
pub open spec fn piece_rows(piece: Piece) -> Seq<Seq<char>> {
    let left = if piece.round {
        "("@
    } else {
        "|"@
    };
    let right = if piece.round {
        ")"@
    } else {
        "|"@
    };
    let roof = left + (if piece.flat {
        "---"@
    } else {
        "\\ /"@
    }) + right;
    let upper = left + (if piece.flat {
        "   "@
    } else {
        " O "@
    }) + right;
    let lower = left + "   "@ + right;
    if piece.big {
        seq![roof, upper, lower]
    } else {
        seq!["     "@, roof, upper]
    }
}

/// The picture of a field in one text of three lines.
pub open spec fn piece_text(field: Option<Piece>) -> Seq<char> {
    match field {
        Some(piece) => piece_rows(piece)[0] + "\n"@ + piece_rows(piece)[1] + "\n"@ + piece_rows(
            piece,
        )[2],
        None => "\n\n"@,
    }
}

/// The three lines that picture a field on a terminal: a dark piece is painted, and each
/// painted line ends with `reset`. An empty line and an empty field are five blanks.
pub open spec fn field_rows(field: Option<Piece>, paint: Seq<char>, reset: Seq<char>) -> Seq<
    Seq<char>,
> {
    match field {
        Some(piece) => {
            let ink = if piece.dark {
                paint
            } else {
                Seq::empty()
            };
            let rows = piece_rows(piece);
            if piece.big {
                seq![ink + rows[0] + reset, ink + rows[1] + reset, ink + rows[2] + reset]
            } else {
                seq!["     "@, ink + rows[1] + reset, ink + rows[2] + reset]
            }
        },
        None => seq!["     "@, "     "@, "     "@],
    }
}

/// The style classes of a field, in the order big, dark, flat, round.
pub open spec fn class_names(field: Option<Piece>) -> Seq<Seq<char>> {
    match field {
        Some(piece) => (if piece.big {
            seq!["piece_big"@]
        } else {
            Seq::empty()
        }) + (if piece.dark {
            seq!["piece_dark"@]
        } else {
            Seq::empty()
        }) + (if piece.flat {
            seq!["piece_flat"@]
        } else {
            Seq::empty()
        }) + (if piece.round {
            seq!["piece_round"@]
        } else {
            Seq::empty()
        }),
        None => Seq::empty(),
    }
}

/// The texts of a list of string slices.
pub open spec fn texts(list: Seq<&'static str>) -> Seq<Seq<char>> {
    list.map_values(|s: &'static str| s@)
}

/// The style classes that picture a field on a web page.
pub fn gen_classlist_for_piece(piece: Option<Piece>) -> (classes: Vec<&'static str>)
    ensures
        texts(classes@) == class_names(piece),
{
    let mut classes: Vec<&'static str> = Vec::new();
    if let Some(piece) = piece {
        if piece.big {
            classes.push("piece_big");
        }
        if piece.dark {
            classes.push("piece_dark");
        }
        if piece.flat {
            classes.push("piece_flat");
        }
        if piece.round {
            classes.push("piece_round");
        }
    }
    assert(texts(classes@) =~= class_names(piece));
    classes
}

/// One line of a picture: what stands between the two sides, and `ink` and `reset` around.
fn picture_row(ink: &str, left: &str, middle: &str, right: &str, reset: &str) -> (row: String)
    ensures
        row@ == ink@ + (left@ + middle@ + right@) + reset@,
{
    let mut row = ink.to_owned();
    row.append(left);
    row.append(middle);
    row.append(right);
    row.append(reset);
    assert(row@ =~= ink@ + (left@ + middle@ + right@) + reset@);
    row
}

/// Creates the visual representation of a field, split into 3 lines, for a terminal that
/// paints what follows `paint` and goes back to its own colours after `reset`.
pub fn picture_rows(field: Option<Piece>, paint: &str, reset: &str) -> (rows: [String; 3])
    ensures
        rows@.len() == 3,
        forall|i: int|
            0 <= i < 3 ==> (#[trigger] rows@[i])@ == field_rows(field, paint@, reset@)[i],
{
    if let Some(piece) = field {
        let ink = if piece.dark {
            paint
        } else {
            ""
        };
        let (left, right) = if piece.round {
            ("(", ")")
        } else {
            ("|", "|")
        };
        let f1 = if piece.flat {
            "---"
        } else {
            "\\ /"
        };
        let f2 = if piece.flat {
            "   "
        } else {
            " O "
        };
        proof {
            reveal_strlit("");
            assert(""@ =~= Seq::<char>::empty());
        }
        let roof = picture_row(ink, left, f1, right, reset);
        let base1 = picture_row(ink, left, f2, right, reset);
        if piece.big {
            let base2 = picture_row(ink, left, "   ", right, reset);
            [roof, base1, base2]
        } else {
            ["     ".to_owned(), roof, base1]
        }
    } else {
        ["     ".to_owned(), "     ".to_owned(), "     ".to_owned()]
    }
}

/// Creates the visual representation of a field as one text of three lines, without
/// colour.
pub fn gen_piece_string(field: Option<Piece>) -> (text: String)
    ensures
        text@ == piece_text(field),
{
    if field.is_some() {
        proof {
            reveal_strlit("");
            assert(""@ =~= Seq::<char>::empty());
        }
        let rows = picture_rows(field, "", "");
        let mut text = String::new();
        text.append(rows[0].as_str());
        text.append("\n");
        text.append(rows[1].as_str());
        text.append("\n");
        text.append(rows[2].as_str());
        assert(text@ =~= piece_text(field));
        text
    } else {
        "\n\n".to_owned()
    }
}

/// The text of one decimal digit.
pub open spec fn digit_text(digit: int) -> Seq<char> {
    if digit == 0 {
        "0"@
    } else if digit == 1 {
        "1"@
    } else if digit == 2 {
        "2"@
    } else if digit == 3 {
        "3"@
    } else if digit == 4 {
        "4"@
    } else if digit == 5 {
        "5"@
    } else if digit == 6 {
        "6"@
    } else if digit == 7 {
        "7"@
    } else if digit == 8 {
        "8"@
    } else {
        "9"@
    }
}

/// A number written with decimal digits, without leading zeros.
pub open spec fn decimal_text(n: nat) -> Seq<char>
    decreases n,
{
    if n < 10 {
        digit_text(n as int)
    } else {
        decimal_text(n / 10) + digit_text((n % 10) as int)
    }
}

fn digit(d: u32) -> (text: &'static str)
    requires
        d < 10,
    ensures
        text@ == digit_text(d as int),
{
    let digit = d;
    if digit == 0 {
        "0"
    } else if digit == 1 {
        "1"
    } else if digit == 2 {
        "2"
    } else if digit == 3 {
        "3"
    } else if digit == 4 {
        "4"
    } else if digit == 5 {
        "5"
    } else if digit == 6 {
        "6"
    } else if digit == 7 {
        "7"
    } else if digit == 8 {
        "8"
    } else {
        "9"
    }
}

/// Writes a number with decimal digits.
pub fn decimal(n: u32) -> (text: String)
    ensures
        text@ == decimal_text(n as nat),
    decreases n,
{
    if n < 10 {
        digit(n).to_owned()
    } else {
        decimal(n / 10).concat(digit(n % 10))
    }
}

/// The line that tells a player at a terminal how the game stands.
pub open spec fn status_line(
    over: bool,
    property: Option<Seq<char>>,
    turn: nat,
) -> Seq<char> {
    if over {
        match property {
            Some(name) => "Game over because of "@ + name,
            None => Seq::empty(),
        }
    } else {
        "Player "@ + decimal_text(turn) + "'s turn!"@
    }
}

/// The headline that tells a player on a web page how the game stands.
pub open spec fn status_headline(over: bool, turn: nat) -> Seq<char> {
    if over {
        "<h2 class='msg_game_over'>Game Over, player "@ + decimal_text(turn) + " won!</h2>"@
    } else {
        "<h2 class='msg_player_turn'>Player "@ + decimal_text(turn) + "s turn</h2>"@
    }
}

/// The status line for a terminal: whose turn it is, or the property that ended the game.
pub fn status_text(game: &Game) -> (text: String)
    ensures
        text@ == status_line(
            game.state == GameState::GameOver,
            match game.game_over_info {
                Some(info) => Some(info.property@),
                None => None,
            },
            game.player_turn as nat,
        ),
{
    if game.is_over() {
        match &game.game_over_info {
            Some(info) => "Game over because of ".to_owned().concat(info.property.as_str()),
            None => String::new(),
        }
    } else {
        let mut text = "Player ".to_owned();
        text.append(decimal(game.player_turn).as_str());
        text.append("'s turn!");
        text
    }
}

/// The status headline for a web page: whose turn it is, or who has won.
pub fn status_message(game: &Game) -> (text: String)
    ensures
        text@ == status_headline(game.state == GameState::GameOver, game.player_turn as nat),
{
    let mut text = if game.is_over() {
        "<h2 class='msg_game_over'>Game Over, player ".to_owned()
    } else {
        "<h2 class='msg_player_turn'>Player ".to_owned()
    };
    text.append(decimal(game.player_turn).as_str());
    if game.is_over() {
        text.append(" won!</h2>");
    } else {
        text.append("s turn</h2>");
    }
    text
}

} // verus!
