//! The text that draws the game on a terminal: boards, pieces and labels, each at its
//! place on the screen.
use vstd::prelude::*;
use crate::board::{BPos, Board, Piece};
use crate::game::GameState;
use crate::gui::{label_offset, Layout, SPos};
use crate::render::{decimal, decimal_text, field_rows, picture_rows, status_line, status_text};
use crate::ui_state::UiState;

verus! {

/// The horizontal line used for drawing the board
pub const LINE_H: &'static str = "─────";

/// The horizontal line used for drawing the board - selected
pub const LINE_H_S: &'static str = "═════";

/// The sequence that makes a terminal swap its two colours.
pub const INVERT: &'static str = "\x1b[7m";

/// The sequence that makes a terminal drop every style.
pub const RESET_STYLE: &'static str = "\x1b[m";

/// The sequence that makes a terminal write in its own colour again.
pub const RESET_COLOR: &'static str = "\x1b[39m";

/// The sequence that makes a terminal write in red.
pub const RED: &'static str = "\x1b[38;5;1m";

/// The sequence that clears the screen.
pub const CLEAR: &'static str = "\x1b[2J";

/// The text above the pieces board
pub const PIECES_BOARD_LABEL: &'static str = "Available Pieces";

/// The sequence that moves a terminal's cursor to column `x` of line `y`.
pub open spec fn goto_text(x: nat, y: nat) -> Seq<char> {
    "\x1b["@ + decimal_text(y) + ";"@ + decimal_text(x) + "H"@
}

/// The sequence that `termion::style::Invert` displays: the control sequence introducer
/// and `7m`, as the crate's macro for such sequences writes it.
#[verifier::external_body]
fn invert_code() -> (code: String)
    ensures
        code@ == INVERT@,
{
    termion::style::Invert.to_string()
}

/// The sequence that `termion::style::Reset` displays: the control sequence introducer
/// and `m`.
#[verifier::external_body]
fn reset_style_code() -> (code: String)
    ensures
        code@ == RESET_STYLE@,
{
    termion::style::Reset.to_string()
}

/// The sequence that `termion::color::Fg` displays for `termion::color::Reset`: the
/// control sequence introducer and `39m`, whatever the environment says of colours.
#[verifier::external_body]
fn reset_color_code() -> (code: String)
    ensures
        code@ == RESET_COLOR@,
{
    termion::color::Fg(termion::color::Reset).to_string()
}

/// The sequence that `termion::clear::All` displays: the control sequence introducer and
/// `2J`.
#[verifier::external_body]
fn clear_code() -> (code: String)
    ensures
        code@ == CLEAR@,
{
    termion::clear::All.to_string()
}

/// What `termion::color::Fg` displays for `termion::color::Red`: the control sequence
/// introducer and `38;5;1m` where colours are in use, and nothing where the environment
/// has switched them off. Which of the two comes back is not said.
#[verifier::external_body]
fn red_code() -> (code: String)
    ensures
        code@ == RED@ || code@ == Seq::<char>::empty(),
{
    termion::color::Fg(termion::color::Red).to_string()
}

/// The sequence that `termion::cursor::Goto` displays: the control sequence introducer,
/// the line, a semicolon, the column and `H`, both numbers in decimal. The crate counts
/// from one and refuses the position of two zeros.
#[verifier::external_body]
pub(crate) fn goto_code(x: u16, y: u16) -> (code: String)
    requires
        x != 0 || y != 0,
    ensures
        code@ == goto_text(x as nat, y as nat),
{
    termion::cursor::Goto(x, y).to_string()
}

/// The corner at the left end of a delimiter: of the top for line 0, of the bottom for
/// line 4, a junction between; doubled where the border is marked.
pub open spec fn left_corner(y: u16, marked: bool) -> Seq<char> {
    if marked {
        if y == 0 {
            "╔"@
        } else if y == 4 {
            "╚"@
        } else {
            "╠"@
        }
    } else {
        if y == 0 {
            "┌"@
        } else if y == 4 {
            "└"@
        } else {
            "├"@
        }
    }
}

/// The junction between two cells of a delimiter.
pub open spec fn junction(y: u16, marked: bool) -> Seq<char> {
    if marked {
        if y == 0 {
            "╦"@
        } else if y == 4 {
            "╩"@
        } else {
            "╬"@
        }
    } else {
        if y == 0 {
            "┬"@
        } else if y == 4 {
            "┴"@
        } else {
            "┼"@
        }
    }
}

/// The corner at the right end of a delimiter.
pub open spec fn right_corner(y: u16, marked: bool) -> Seq<char> {
    if marked {
        if y == 0 {
            "╗"@
        } else if y == 4 {
            "╝"@
        } else {
            "╣"@
        }
    } else {
        if y == 0 {
            "┐"@
        } else if y == 4 {
            "┘"@
        } else {
            "┤"@
        }
    }
}

/// The line above or below one cell.
pub open spec fn line_text(marked: bool) -> Seq<char> {
    if marked {
        LINE_H_S@
    } else {
        LINE_H@
    }
}

/// The given text where the condition holds, and nothing where it does not.
pub open spec fn when(condition: bool, text: Seq<char>) -> Seq<char> {
    if condition {
        text
    } else {
        Seq::empty()
    }
}

/// The delimiter `y` borders the cursor's cell: it is the one above or the one below.
pub open spec fn delim_marked(y: u16, cursor: BPos) -> bool {
    cursor.y == y || cursor.y + 1 == y
}

/// The part of a delimiter that belongs to column `x`, for the first three columns: the
/// line over the cell and the junction behind it. The colours are swapped from the
/// junction before the cursor's cell to the one behind it.
pub open spec fn delim_part(y: u16, cursor: BPos, x: u16) -> Seq<char> {
    let ysel = delim_marked(y, cursor);
    line_text(ysel && cursor.x == x) + when(ysel && cursor.x == x + 1, INVERT@) + junction(
        y,
        ysel && (cursor.x == x || cursor.x == x + 1),
    ) + when(ysel && cursor.x == x, RESET_STYLE@)
}

/// The first `n` parts of a delimiter.
pub open spec fn delim_parts(y: u16, cursor: BPos, n: nat) -> Seq<char>
    decreases n,
{
    if n == 0 {
        Seq::empty()
    } else {
        delim_parts(y, cursor, (n - 1) as nat) + delim_part(y, cursor, (n - 1) as u16)
    }
}

/// A horizontal delimiter of the board, with the border of the cursor's cell marked.
pub open spec fn delim_text(y: u16, cursor: BPos) -> Seq<char> {
    let ysel = delim_marked(y, cursor);
    when(ysel && cursor.x == 0, INVERT@) + left_corner(y, ysel && cursor.x == 0) + delim_parts(
        y,
        cursor,
        3,
    ) + line_text(ysel && cursor.x == 3) + right_corner(y, ysel && cursor.x == 3) + RESET_STYLE@
}

/// The given code where the condition holds, and nothing where it does not.
fn draw_when(condition: bool, code: String) -> (text: String)
    ensures
        text@ == when(condition, code@),
{
    if condition {
        code
    } else {
        String::new()
    }
}

/// The corner at the left end of a delimiter.
fn draw_left_corner(y: u16, marked: bool) -> (text: &'static str)
    ensures
        text@ == left_corner(y, marked),
{
    if marked {
        if y == 0 {
            "╔"
        } else if y == 4 {
            "╚"
        } else {
            "╠"
        }
    } else {
        if y == 0 {
            "┌"
        } else if y == 4 {
            "└"
        } else {
            "├"
        }
    }
}

/// The junction between two cells of a delimiter.
fn draw_junction(y: u16, marked: bool) -> (text: &'static str)
    ensures
        text@ == junction(y, marked),
{
    if marked {
        if y == 0 {
            "╦"
        } else if y == 4 {
            "╩"
        } else {
            "╬"
        }
    } else {
        if y == 0 {
            "┬"
        } else if y == 4 {
            "┴"
        } else {
            "┼"
        }
    }
}

/// The corner at the right end of a delimiter.
fn draw_right_corner(y: u16, marked: bool) -> (text: &'static str)
    ensures
        text@ == right_corner(y, marked),
{
    if marked {
        if y == 0 {
            "╗"
        } else if y == 4 {
            "╝"
        } else {
            "╣"
        }
    } else {
        if y == 0 {
            "┐"
        } else if y == 4 {
            "┘"
        } else {
            "┤"
        }
    }
}

/// The line above or below one cell.
fn draw_line(marked: bool) -> (text: &'static str)
    ensures
        text@ == line_text(marked),
{
    if marked {
        LINE_H_S
    } else {
        LINE_H
    }
}

/// The part of a delimiter that belongs to one of the first three columns.
fn draw_delim_part(y: u16, cursor: BPos, x: u16) -> (text: String)
    requires
        x < 3,
        cursor.y < u16::MAX,
    ensures
        text@ == delim_part(y, cursor, x),
{
    let ysel = cursor.y == y || cursor.y + 1 == y;
    // line segment
    let mut text = draw_line(ysel && cursor.x == x).to_owned();
    // inner junction
    text.append(draw_when(ysel && cursor.x == x + 1, invert_code()).as_str());
    text.append(draw_junction(y, ysel && (cursor.x == x || cursor.x == x + 1)));
    text.append(draw_when(ysel && cursor.x == x, reset_style_code()).as_str());
    text
}

/// Draw a horizontal delimiter, possibly highlighting the current fields border
pub fn draw_h_delim(y: u16, cursor: BPos) -> (text: String)
    requires
        cursor.y < u16::MAX,
    ensures
        text@ == delim_text(y, cursor),
{
    // mark border if cell above or below is selected
    let ysel = cursor.y == y || cursor.y + 1 == y;
    let mut parts = String::new();
    let mut x: u16 = 0;
    while x < 3
        invariant
            x <= 3,
            cursor.y < u16::MAX,
            parts@ == delim_parts(y, cursor, x as nat),
        decreases 3 - x,
    {
        parts.append(draw_delim_part(y, cursor, x).as_str());
        x += 1;
    }
    // left corner
    let mut text = draw_when(ysel && cursor.x == 0, invert_code());
    text.append(draw_left_corner(y, ysel && cursor.x == 0));
    text.append(parts.as_str());
    text.append(draw_line(ysel && cursor.x == 3));
    // right corner
    text.append(draw_right_corner(y, ysel && cursor.x == 3));
    text.append(reset_style_code().as_str());
    text
}

/// The two sequences that end what was painted: back to the terminal's colour and style.
pub open spec fn reset_text() -> Seq<char> {
    RESET_COLOR@ + RESET_STYLE@
}

/// Creates the visual representation of a field, split into 3 lines. A dark piece is
/// painted with `paint`.
pub fn field_strs(field: Option<Piece>, paint: &str) -> (rows: [String; 3])
    ensures
        forall|i: int|
            0 <= i < 3 ==> (#[trigger] rows@[i])@ == field_rows(field, paint@, reset_text())[i],
{
    let reset = reset_color_code().concat(reset_style_code().as_str());
    picture_rows(field, paint, reset.as_str())
}

/// The first `n` lines of a picture, each behind the sequence that moves the cursor to
/// its line below (`x`, `y`).
pub open spec fn piece_lines(x: nat, y: nat, rows: Seq<Seq<char>>, n: nat) -> Seq<char>
    decreases n,
{
    if n == 0 {
        Seq::empty()
    } else {
        piece_lines(x, y, rows, (n - 1) as nat) + goto_text(x, (y + n - 1) as nat) + rows[n - 1]
    }
}

/// The text that draws a field at a place of the screen.
pub open spec fn piece_at(pos: SPos, field: Option<Piece>, paint: Seq<char>) -> Seq<char> {
    goto_text(pos.x as nat, pos.y as nat) + piece_lines(
        pos.x as nat,
        pos.y as nat,
        field_rows(field, paint, reset_text()),
        3,
    )
}

/// Draw a piece at the given location
pub fn draw_piece(pos: SPos, piece: Option<Piece>, paint: &str) -> (text: String)
    requires
        pos.x != 0 || pos.y != 0,
        pos.y + 2 <= u16::MAX,
    ensures
        text@ == piece_at(pos, piece, paint@),
{
    let piece_strs = field_strs(piece, paint);
    let ghost rows = field_rows(piece, paint@, reset_text());
    let mut lines = String::new();
    let mut row: u16 = 0;
    while row < 3
        invariant
            row <= 3,
            pos.x != 0 || pos.y != 0,
            pos.y + 2 <= u16::MAX,
            forall|i: int| 0 <= i < 3 ==> (#[trigger] piece_strs@[i])@ == rows[i],
            lines@ == piece_lines(pos.x as nat, pos.y as nat, rows, row as nat),
        decreases 3 - row,
    {
        lines.append(pos.to_goto_t(0, row).as_str());
        lines.append(piece_strs[row as usize].as_str());
        row += 1;
    }
    pos.to_goto().concat(lines.as_str())
}

/// The first `n` empty lines of the box of the selected piece.
pub open spec fn box_lines(pos: SPos, n: nat) -> Seq<char>
    decreases n,
{
    if n == 0 {
        Seq::empty()
    } else {
        box_lines(pos, (n - 1) as nat) + goto_text(pos.x as nat, (pos.y + n) as nat) + "│     │"@
    }
}

/// The text that draws the box with the selected piece.
pub open spec fn selected_box(pos: SPos, piece: Option<Piece>, paint: Seq<char>) -> Seq<char> {
    goto_text(pos.x as nat, pos.y as nat) + "┌PLACE┐"@ + box_lines(pos, 3) + piece_at(
        SPos { x: (pos.x + 1) as u16, y: (pos.y + 1) as u16 },
        piece,
        paint,
    ) + goto_text(pos.x as nat, (pos.y + 4) as nat) + "└─────┘"@
}

/// Draw a small box to show which piece is currently selected
pub fn draw_selected_piece(pos: SPos, piece: Option<Piece>, paint: &str) -> (text: String)
    requires
        pos.x != 0 || pos.y != 0,
        pos.x + 1 <= u16::MAX,
        pos.y + 4 <= u16::MAX,
    ensures
        text@ == selected_box(pos, piece, paint@),
{
    let mut lines = String::new();
    let mut row: u16 = 0;
    while row < 3
        invariant
            row <= 3,
            pos.y + 4 <= u16::MAX,
            lines@ == box_lines(pos, row as nat),
        decreases 3 - row,
    {
        lines.append(pos.to_goto_t(0, row + 1).as_str());
        lines.append("│     │");
        row += 1;
    }
    let mut text = pos.to_goto();
    text.append("┌PLACE┐");
    text.append(lines.as_str());
    text.append(draw_piece(pos.translated(1, 1), piece, paint).as_str());
    text.append(pos.to_goto_t(0, 4).as_str());
    text.append("└─────┘");
    text
}

/// How many bytes a text takes.
pub open spec fn byte_len(text: Seq<char>) -> nat {
    vstd::utf8::encode_utf8(text).len()
}

/// The text that draws a label centered inside `total_width` columns from `pos` on.
pub open spec fn label_text(pos: SPos, total_width: u16, label: Seq<char>) -> Seq<char> {
    goto_text((pos.x + total_width / 2 - byte_len(label) / 2) as nat, pos.y as nat) + label
}

/// Draw a label, with origin at x,y, such that is is centered inside the given width.
/// The label takes at most `total_width` bytes.
pub fn draw_label(pos: SPos, total_width: u16, label: &str) -> (text: String)
    requires
        byte_len(label@) <= total_width,
        pos.x + total_width / 2 - byte_len(label@) / 2 <= u16::MAX,
        pos.x + total_width / 2 - byte_len(label@) / 2 != 0 || pos.y != 0,
    ensures
        text@ == label_text(pos, total_width, label@),
{
    let offset = label_offset(total_width, label.len() as u16);
    let mut text = pos.to_goto_t(offset, 0);
    text.append(label);
    text
}

/// The vertical border of a board: a double line for the main board, a blank for the pool.
pub open spec fn v_border(main: bool) -> Seq<char> {
    if main {
        "║"@
    } else {
        " "@
    }
}

/// The border between two cells: marked where it borders the cursor's cell.
pub open spec fn cell_border(marked: bool) -> Seq<char> {
    if marked {
        INVERT@ + "║"@ + RESET_STYLE@
    } else {
        "│"@
    }
}

/// What stands left of the cells in a line of the frame: the number of the row in its
/// middle line, the border in the others.
pub open spec fn left_margin(y: u16, rows: u16, main: bool) -> Seq<char> {
    if rows == 1 {
        decimal_text((4 - y) as nat) + " "@
    } else {
        v_border(main) + " "@
    }
}

/// What stands right of the cells in a line of the frame.
pub open spec fn right_margin(y: u16, rows: u16, main: bool) -> Seq<char> {
    if rows == 1 {
        " "@ + decimal_text((4 - y) as nat)
    } else {
        " "@ + v_border(main)
    }
}

/// The part of a line of the frame that belongs to the cell (`x`, `y`): its left border
/// and five blanks, and behind the last cell its right border and the margin.
pub open spec fn frame_cell(y: u16, rows: u16, x: u16, cursor: BPos, main: bool) -> Seq<char> {
    cell_border(cursor.y == y && (cursor.x == x || cursor.x + 1 == x)) + "     "@ + when(
        x == 3,
        cell_border(cursor.x == x && cursor.y == y) + right_margin(y, rows, main),
    )
}

/// The parts of the first `n` cells of a line of the frame.
pub open spec fn frame_cells(y: u16, rows: u16, cursor: BPos, main: bool, n: nat) -> Seq<char>
    decreases n,
{
    if n == 0 {
        Seq::empty()
    } else {
        frame_cells(y, rows, cursor, main, (n - 1) as nat) + frame_cell(
            y,
            rows,
            (n - 1) as u16,
            cursor,
            main,
        )
    }
}

/// Line `rows` of the three lines of row `y` of the frame.
pub open spec fn frame_line(pos: SPos, y: u16, rows: u16, cursor: BPos, main: bool) -> Seq<char> {
    goto_text(pos.x as nat, (pos.y + 4 * y + rows + 2) as nat) + left_margin(y, rows, main)
        + frame_cells(y, rows, cursor, main, 4)
}

/// The first `n` lines of row `y` of the frame.
pub open spec fn frame_lines(pos: SPos, y: u16, cursor: BPos, main: bool, n: nat) -> Seq<char>
    decreases n,
{
    if n == 0 {
        Seq::empty()
    } else {
        frame_lines(pos, y, cursor, main, (n - 1) as nat) + frame_line(
            pos,
            y,
            (n - 1) as u16,
            cursor,
            main,
        )
    }
}

/// Row `y` of the frame: the delimiter above it and its three lines.
pub open spec fn frame_row(pos: SPos, y: u16, cursor: BPos, main: bool) -> Seq<char> {
    goto_text(pos.x as nat, (pos.y + 4 * y + 1) as nat) + v_border(main) + " "@ + delim_text(
        y,
        cursor,
    ) + " "@ + v_border(main) + frame_lines(pos, y, cursor, main, 3)
}

/// The first `n` rows of the frame.
pub open spec fn frame_rows(pos: SPos, cursor: BPos, main: bool, n: nat) -> Seq<char>
    decreases n,
{
    if n == 0 {
        Seq::empty()
    } else {
        frame_rows(pos, cursor, main, (n - 1) as nat) + frame_row(pos, (n - 1) as u16, cursor, main)
    }
}

/// The place of the picture of the cell (`x`, `y`), for a board that is drawn at `pos`.
pub open spec fn picture_pos(pos: SPos, x: nat, y: nat) -> SPos {
    SPos { x: (pos.x + 3 + 6 * x) as u16, y: (pos.y + 2 + 4 * y) as u16 }
}

/// The pictures of the first `n` cells of row `y`.
pub open spec fn pictures_in_row(
    pos: SPos,
    cells: Seq<Option<Piece>>,
    paint: Seq<char>,
    y: nat,
    n: nat,
) -> Seq<char>
    decreases n,
{
    if n == 0 {
        Seq::empty()
    } else {
        let x = (n - 1) as nat;
        pictures_in_row(pos, cells, paint, y, x) + piece_at(
            picture_pos(pos, x, y),
            cells[(4 * y + x) as int],
            paint,
        )
    }
}

/// The pictures of the cells of the first `n` rows.
pub open spec fn pictures(pos: SPos, cells: Seq<Option<Piece>>, paint: Seq<char>, n: nat) -> Seq<
    char,
>
    decreases n,
{
    if n == 0 {
        Seq::empty()
    } else {
        pictures(pos, cells, paint, (n - 1) as nat) + pictures_in_row(
            pos,
            cells,
            paint,
            (n - 1) as nat,
            4,
        )
    }
}

/// The line with the letters of the columns, above the board.
pub open spec fn header(main: bool) -> Seq<char> {
    if main {
        "╔════A═════B═════C═════D════╗"@
    } else {
        "     A     B     C     D"@
    }
}

/// The end of the last delimiter and the line with the letters below the board.
pub open spec fn footer(pos: SPos, main: bool) -> Seq<char> {
    if main {
        " ║"@ + goto_text(pos.x as nat, (pos.y + 18) as nat) + "╚════A═════B═════C═════D════╝"@
    } else {
        goto_text(pos.x as nat, (pos.y + 18) as nat) + "     A     B     C     D"@
    }
}

/// The cursor as a board shows it: the given one on the board that is selected, and one
/// far from every cell on the other.
pub open spec fn shown_cursor(cursor: BPos, sel: bool) -> BPos {
    if sel {
        cursor
    } else {
        BPos { x: 99, y: 99 }
    }
}

/// The text that draws a board at `pos`: the frame with the borders of the cursor's cell
/// marked, then the pictures of the cells, then the last delimiter and the letters.
pub open spec fn board_text(
    pos: SPos,
    cells: Seq<Option<Piece>>,
    cursor: BPos,
    sel: bool,
    main: bool,
    paint: Seq<char>,
) -> Seq<char> {
    goto_text(pos.x as nat, pos.y as nat) + header(main) + frame_rows(
        pos,
        shown_cursor(cursor, sel),
        main,
        4,
    ) + pictures(pos, cells, paint, 4) + goto_text(pos.x as nat, (pos.y + 17) as nat) + v_border(
        main,
    ) + " "@ + delim_text(4, shown_cursor(cursor, sel)) + footer(pos, main)
}

/// A board can be drawn at `pos`: the screen has columns and lines enough.
pub open spec fn board_fits(pos: SPos) -> bool {
    &&& pos.x != 0 || pos.y != 0
    &&& pos.x + 21 <= u16::MAX
    &&& pos.y + 18 <= u16::MAX
}

/// The border between two cells of the frame.
fn draw_cell_border(marked: bool) -> (text: String)
    ensures
        text@ == cell_border(marked),
{
    if marked {
        let mut text = invert_code();
        text.append("║");
        text.append(reset_style_code().as_str());
        text
    } else {
        "│".to_owned()
    }
}

/// The vertical border of a board.
fn draw_v_border(main: bool) -> (text: &'static str)
    ensures
        text@ == v_border(main),
{
    if main {
        "║"
    } else {
        " "
    }
}

/// What stands left of the cells in a line of the frame.
fn draw_left_margin(y: u16, rows: u16, main: bool) -> (text: String)
    requires
        y < 4,
    ensures
        text@ == left_margin(y, rows, main),
{
    // draw big border or line number
    if rows == 1 {
        decimal((4 - y) as u32).concat(" ")
    } else {
        draw_v_border(main).to_owned().concat(" ")
    }
}

/// What stands right of the cells in a line of the frame.
fn draw_right_margin(y: u16, rows: u16, main: bool) -> (text: String)
    requires
        y < 4,
    ensures
        text@ == right_margin(y, rows, main),
{
    // draw big border or line number
    if rows == 1 {
        " ".to_owned().concat(decimal((4 - y) as u32).as_str())
    } else {
        " ".to_owned().concat(draw_v_border(main))
    }
}

/// The part of a line of the frame that belongs to one cell.
fn draw_frame_cell(y: u16, rows: u16, x: u16, cursor: BPos, main: bool) -> (text: String)
    requires
        y < 4,
        cursor.x < u16::MAX,
    ensures
        text@ == frame_cell(y, rows, x, cursor, main),
{
    // left/middle cell border
    let mut text = draw_cell_border(cursor.y == y && (cursor.x == x || cursor.x + 1 == x));
    text.append("     ");
    // right-most cell border
    let end = if x == 3 {
        draw_cell_border(cursor.x == x && cursor.y == y).concat(
            draw_right_margin(y, rows, main).as_str(),
        )
    } else {
        String::new()
    };
    text.append(end.as_str());
    text
}

/// One line of a row of the frame.
fn draw_frame_line(pos: SPos, y: u16, rows: u16, cursor: BPos, main: bool) -> (text: String)
    requires
        board_fits(pos),
        y < 4,
        rows < 3,
        cursor.x < u16::MAX,
    ensures
        text@ == frame_line(pos, y, rows, cursor, main),
{
    let mut cells = String::new();
    let mut x: u16 = 0;
    while x < 4
        invariant
            x <= 4,
            y < 4,
            cursor.x < u16::MAX,
            cells@ == frame_cells(y, rows, cursor, main, x as nat),
        decreases 4 - x,
    {
        cells.append(draw_frame_cell(y, rows, x, cursor, main).as_str());
        x += 1;
    }
    let mut text = pos.to_goto_t(0, 4 * y + rows + 2);
    text.append(draw_left_margin(y, rows, main).as_str());
    text.append(cells.as_str());
    text
}

/// One row of the frame: its delimiter and its three lines.
fn draw_frame_row(pos: SPos, y: u16, cursor: BPos, main: bool) -> (text: String)
    requires
        board_fits(pos),
        y < 4,
        cursor.x < u16::MAX,
        cursor.y < u16::MAX,
    ensures
        text@ == frame_row(pos, y, cursor, main),
{
    let mut lines = String::new();
    let mut rows: u16 = 0;
    while rows < 3
        invariant
            rows <= 3,
            board_fits(pos),
            y < 4,
            cursor.x < u16::MAX,
            lines@ == frame_lines(pos, y, cursor, main, rows as nat),
        decreases 3 - rows,
    {
        lines.append(draw_frame_line(pos, y, rows, cursor, main).as_str());
        rows += 1;
    }
    let mut text = pos.to_goto_t(0, 4 * y + 1);
    text.append(draw_v_border(main));
    text.append(" ");
    text.append(draw_h_delim(y, cursor).as_str());
    text.append(" ");
    text.append(draw_v_border(main));
    text.append(lines.as_str());
    text
}

/// The frame of a board.
fn draw_frame(pos: SPos, cursor: BPos, main: bool) -> (text: String)
    requires
        board_fits(pos),
        cursor.x < u16::MAX,
        cursor.y < u16::MAX,
    ensures
        text@ == frame_rows(pos, cursor, main, 4),
{
    let mut text = String::new();
    let mut y: u16 = 0;
    while y < 4
        invariant
            y <= 4,
            board_fits(pos),
            cursor.x < u16::MAX,
            cursor.y < u16::MAX,
            text@ == frame_rows(pos, cursor, main, y as nat),
        decreases 4 - y,
    {
        text.append(draw_frame_row(pos, y, cursor, main).as_str());
        y += 1;
    }
    text
}

/// The pictures of the cells of one row of a board.
fn draw_pictures_in_row(pos: SPos, board: &Board, paint: &str, y: u16) -> (text: String)
    requires
        board_fits(pos),
        y < 4,
    ensures
        text@ == pictures_in_row(pos, board@, paint@, y as nat, 4),
{
    let mut text = String::new();
    let mut x: u16 = 0;
    while x < 4
        invariant
            x <= 4,
            y < 4,
            board_fits(pos),
            text@ == pictures_in_row(pos, board@, paint@, y as nat, x as nat),
        decreases 4 - x,
    {
        let place = pos.translated(3 + 6 * x, 2 + 4 * y);
        assert(place == picture_pos(pos, x as nat, y as nat));
        text.append(draw_piece(place, board.get(BPos::new(x, y)), paint).as_str());
        x += 1;
    }
    text
}

/// The pictures of the cells of a board.
fn draw_pictures(pos: SPos, board: &Board, paint: &str) -> (text: String)
    requires
        board_fits(pos),
    ensures
        text@ == pictures(pos, board@, paint@, 4),
{
    let mut text = String::new();
    let mut y: u16 = 0;
    while y < 4
        invariant
            y <= 4,
            board_fits(pos),
            text@ == pictures(pos, board@, paint@, y as nat),
        decreases 4 - y,
    {
        text.append(draw_pictures_in_row(pos, board, paint, y).as_str());
        y += 1;
    }
    text
}

/// The end of the last delimiter and the line with the letters below the board.
fn draw_footer(pos: SPos, main: bool) -> (text: String)
    requires
        board_fits(pos),
    ensures
        text@ == footer(pos, main),
{
    if main {
        let mut text = " ║".to_owned();
        text.append(pos.to_goto_t(0, 4 * 4 + 2).as_str());
        text.append("╚════A═════B═════C═════D════╝");
        text
    } else {
        let mut text = pos.to_goto_t(0, 4 * 4 + 2);
        text.append("     A     B     C     D");
        text
    }
}

/// Draw a board at the current position, with `cursor` as selected cells.
/// draws a big border if `main` is true. Dark pieces are painted with `paint`.
pub fn draw_board(
    pos: SPos,
    board: &Board,
    cursor: BPos,
    sel: bool,
    main: bool,
    _highlights: Vec<BPos>,
    paint: &str,
) -> (text: String)
    requires
        board_fits(pos),
        sel ==> cursor.x < u16::MAX && cursor.y < u16::MAX,
    ensures
        text@ == board_text(pos, board@, cursor, sel, main, paint@),
{
    let cursor = if sel {
        cursor
    } else {
        BPos { x: 99, y: 99 }
    };
    let mut text = pos.to_goto();
    if main {
        text.append("╔════A═════B═════C═════D════╗");
    } else {
        text.append("     A     B     C     D");
    }
    text.append(draw_frame(pos, cursor, main).as_str());
    text.append(draw_pictures(pos, board, paint).as_str());
    text.append(pos.to_goto_t(0, 4 * 4 + 1).as_str());
    text.append(draw_v_border(main));
    text.append(" ");
    text.append(draw_h_delim(4, cursor).as_str());
    text.append(draw_footer(pos, main).as_str());
    text
}

/// The main board has the focus: a piece is to be placed, or the game is over.
pub open spec fn main_focus(state: GameState) -> bool {
    state == GameState::PlacePiece || state == GameState::GameOver
}

/// The place of the label of the pool: two columns right of the pool and one line above
/// it, both counted within 16 bits.
pub open spec fn pool_label_pos(layout: Layout) -> SPos {
    SPos {
        x: ((layout.pieces_board.x + 2) % 0x10000) as u16,
        y: ((layout.pieces_board.y - 1) % 0x10000) as u16,
    }
}

/// The width in which the status is centered: its own where that is more than 25.
pub open spec fn status_width(status: Seq<char>) -> u16 {
    if byte_len(status) > 25 {
        byte_len(status) as u16
    } else {
        25
    }
}

/// The status line of the game of a user interface.
pub open spec fn status_of(ui_state: UiState) -> Seq<char> {
    status_line(
        ui_state.game.state == GameState::GameOver,
        match ui_state.game.game_over_info {
            Some(info) => Some(info.property@),
            None => None,
        },
        ui_state.game.player_turn as nat,
    )
}

/// Everything has its place on the screen: both boards, the two labels and the box of
/// the selected piece.
pub open spec fn layout_fits(layout: Layout) -> bool {
    &&& board_fits(layout.main_board)
    &&& board_fits(layout.pieces_board)
    &&& pool_label_pos(layout).x + 4 <= u16::MAX
    &&& layout.status_label.x != 0 || layout.status_label.y != 0
    &&& layout.status_label.x + 12 <= u16::MAX
    &&& layout.curr_piece.x != 0 || layout.curr_piece.y != 0
    &&& layout.curr_piece.x + 1 <= u16::MAX
    &&& layout.curr_piece.y + 4 <= u16::MAX
}

/// The text that draws the whole scene: the screen is cleared, then come the main board,
/// the pool, the label of the pool, the status, the box of the selected piece while one is
/// to be placed, and at last the cursor goes to the start of the first line.
#[verifier::opaque]
pub open spec fn scene_text(ui_state: UiState, layout: Layout, paint: Seq<char>) -> Seq<char> {
    let focus = main_focus(ui_state.game.state);
    CLEAR@ + board_text(
        layout.main_board,
        ui_state.game.board@,
        ui_state.cursor_pos,
        focus,
        true,
        paint,
    ) + board_text(
        layout.pieces_board,
        ui_state.pieces_board@,
        ui_state.cursor_pos,
        !focus,
        false,
        paint,
    ) + label_text(pool_label_pos(layout), 25, PIECES_BOARD_LABEL@) + label_text(
        layout.status_label,
        status_width(status_of(ui_state)),
        status_of(ui_state),
    ) + when(
        ui_state.game.state == GameState::PlacePiece,
        selected_box(layout.curr_piece, ui_state.game.selected_piece, paint),
    ) + goto_text(0, 1)
}

/// The label of the pool takes sixteen bytes.
proof fn lemma_pool_label_len()
    ensures
        byte_len(PIECES_BOARD_LABEL@) == 16,
{
    reveal_strlit("Available Pieces");
    assert(vstd::string::is_ascii(PIECES_BOARD_LABEL));
    vstd::string::is_ascii_spec_bytes(PIECES_BOARD_LABEL);
}

/// The text that draws the whole scene in a given layout, with dark pieces painted with
/// `paint`.
pub fn scene(ui_state: &UiState, layout: &Layout, paint: &str) -> (text: String)
    requires
        layout_fits(*layout),
        ui_state.cursor_pos.x < u16::MAX,
        ui_state.cursor_pos.y < u16::MAX,
        byte_len(status_of(*ui_state)) <= u16::MAX,
    ensures
        text@ == scene_text(*ui_state, *layout, paint@),
{
    reveal(scene_text);
    let main_focus = ui_state.game.state == GameState::PlacePiece || ui_state.game.state
        == GameState::GameOver;
    let highlights = match &ui_state.game.game_over_info {
        Some(goi) => goi.positions.clone(),
        None => Vec::new(),
    };
    let mut text = clear_code();
    text.append(
        draw_board(
            layout.main_board,
            &ui_state.game.board,
            ui_state.cursor_pos,
            main_focus,
            true,
            highlights,
            paint,
        ).as_str(),
    );
    text.append(
        draw_board(
            layout.pieces_board,
            &ui_state.pieces_board,
            ui_state.cursor_pos,
            !main_focus,
            false,
            Vec::new(),
            paint,
        ).as_str(),
    );
    proof {
        lemma_pool_label_len();
    }
    let label_pos = layout.pieces_board.translated_i32(2, -1);
    text.append(draw_label(label_pos, 25, PIECES_BOARD_LABEL).as_str());
    let status_str = status_text(&ui_state.game);
    let width: u16 = if status_str.as_str().len() > 25 {
        status_str.as_str().len() as u16
    } else {
        25
    };
    text.append(draw_label(layout.status_label, width, status_str.as_str()).as_str());
    let selected = if ui_state.game.state == GameState::PlacePiece {
        draw_selected_piece(layout.curr_piece, ui_state.game.selected_piece, paint)
    } else {
        String::new()
    };
    text.append(selected.as_str());
    text.append(goto_code(0, 1).as_str());
    text
}

/// Everything has its place in the wide layout.
pub proof fn lemma_wide_layout_fits()
    ensures
        layout_fits(Layout::wide()),
{
}

/// The given layout, or the wide one where none is given.
pub open spec fn chosen_layout(layout: Option<&Layout>) -> Layout {
    match layout {
        Some(given) => *given,
        None => Layout::wide(),
    }
}

/// This function brings the whole game to live. Here the text is made that draws the
/// game scene, in the given layout or else in the wide one. Dark pieces are painted red
/// where the terminal's colours are in use, and not painted where they are switched off.
pub fn draw(ui_state: &UiState, layout: Option<&Layout>) -> (text: String)
    requires
        layout matches Some(given) ==> layout_fits(*given),
        ui_state.cursor_pos.x < u16::MAX,
        ui_state.cursor_pos.y < u16::MAX,
        byte_len(status_of(*ui_state)) <= u16::MAX,
    ensures
        text@ == scene_text(*ui_state, chosen_layout(layout), RED@) || text@ == scene_text(
            *ui_state,
            chosen_layout(layout),
            Seq::empty(),
        ),
{
    let wide = Layout::_wide();
    let chosen = match layout {
        Some(given) => given,
        None => &wide,
    };
    proof {
        lemma_wide_layout_fits();
    }
    let paint = red_code();
    scene(ui_state, chosen, paint.as_str())
}

} // verus!
