//! The web page that shows the game.
use vstd::prelude::*;
use crate::board::{BPos, Board, Piece};
use crate::game::GameState;
use crate::render::{
    class_names, decimal, decimal_text, gen_classlist_for_piece, gen_piece_string, piece_text,
    status_headline, status_message, texts,
};
use crate::ui_state::UiState;

verus! {

pub const PAGE_OPEN: &'static str =
    "\n      <html>\n    \t<head>\n          <title>Quart</title>\n          <link rel=\"stylesheet\" href=\"/s/style.css\" />\n        </head>\n        <body>\n          <h1>Quart</h1>\n          <div id=\"content\">\n          \t";

pub const PAGE_CENTER: &'static str =
    "\n\t\t\t<div id=\"center_view\">\n\t\t\t  <a href=\"/enter\" id=\"button_submit\"><span>\"Submit\"</span></a>\n\t\t\t  ";

pub const PAGE_BETWEEN: &'static str = "\n\t\t\t</div>\n\t\t\t";

pub const PAGE_STATUS: &'static str = "\n\t\t  </div>\n\t\t  <div id=\"status_msg\">\n\t\t\t";

pub const PAGE_CLOSE: &'static str = "\n\t\t  </div>\n        </body>\n      </html>";

pub const TABLE_OPEN: &'static str = "\n        <table id=";

pub const TABLE_CLASS: &'static str = " class=";

pub const TABLE_HEAD: &'static str =
    ">\n        \t<tr class=\"digits dig_u\">\n\t\t\t\t<th></th> <th>A</th> <th>B</th> <th>C</th> <th>D</th>\n        \t</tr>\n\t\t\t";

pub const TABLE_FOOT: &'static str =
    "\n        \t<tr class=\"digits dig_d\">\n\t\t\t\t<th></th> <th>A</th> <th>B</th> <th>C</th> <th>D</th>\n        \t</tr>\n\t\t</table>";

pub const ROW_OPEN: &'static str = "<tr><th class='numbers num_l'>";

pub const ROW_LEFT: &'static str = "</th>";

pub const ROW_RIGHT: &'static str = "<th class='numbers num_r'>";

pub const ROW_CLOSE: &'static str = "</th></tr>";

pub const CELL_OPEN: &'static str = "\n\t\t<td class='";

pub const CELL_HREF: &'static str = "'>\n\t\t\t<a href='";

pub const CELL_ID: &'static str = "' id='";

pub const CELL_TEXT: &'static str = "'>";

pub const CELL_CLOSE: &'static str = "</a>\n\t\t</td>";

pub const SELECTED_OPEN: &'static str = "\n\t  <div id=\"selected_piece\" class=\"";

pub const SELECTED_TEXT: &'static str = "\">\n\t\t<span>\n\t\t  ";

pub const SELECTED_CLOSE: &'static str = "\n\t\t</span>\n\t  </div>";

/// The texts in their order, with `sep` between each two of them and nothing around.
pub open spec fn joined(parts: Seq<Seq<char>>, sep: Seq<char>) -> Seq<char>
    decreases parts.len(),
{
    if parts.len() == 0 {
        Seq::empty()
    } else if parts.len() == 1 {
        parts[0]
    } else {
        joined(parts.drop_last(), sep) + sep + parts.last()
    }
}

/// Joins the texts of a list with `itertools::join`. That function writes the first item
/// as it is displayed, and then for each further item the separator and the item; of no
/// items it makes the empty text. A string slice is displayed as its own text.
#[verifier::external_body]
fn join_texts(list: &Vec<&'static str>, sep: &str) -> (text: String)
    ensures
        text@ == joined(texts(list@), sep@),
{
    itertools::join(list, sep)
}

/// The style classes of a cell: those of its piece, and one more under the cursor.
pub open spec fn cell_classes(field: Option<Piece>, under_cursor: bool) -> Seq<Seq<char>> {
    class_names(field) + if under_cursor {
        seq!["piece_cursor"@]
    } else {
        Seq::empty()
    }
}

/// The address that a cell links to: the request that moves the cursor to it where its
/// board is the active one, and nothing where it is not.
pub open spec fn cell_link(x: nat, y: nat, sel: bool) -> Seq<char> {
    if sel {
        "/move_cursor/to/"@ + decimal_text(x) + "/"@ + decimal_text(y)
    } else {
        Seq::empty()
    }
}

/// The cell of a table that shows the field at (`x`, `y`).
pub open spec fn cell_html(field: Option<Piece>, x: nat, y: nat, under_cursor: bool, sel: bool) -> Seq<
    char,
> {
    CELL_OPEN@ + joined(cell_classes(field, under_cursor), ", "@) + CELL_HREF@ + cell_link(
        x,
        y,
        sel,
    ) + CELL_ID@ + ("cell_"@ + decimal_text(x) + "_"@ + decimal_text(y)) + CELL_TEXT@ + piece_text(
        field,
    ) + CELL_CLOSE@
}

/// The first `n` cells of the table's line `x`: the fields (`x`, 0), (`x`, 1) and so on.
pub open spec fn cells_html(
    cells: Seq<Option<Piece>>,
    x: nat,
    cursor: BPos,
    sel: bool,
    n: nat,
) -> Seq<char>
    decreases n,
{
    if n == 0 {
        Seq::empty()
    } else {
        let y = (n - 1) as nat;
        cells_html(cells, x, cursor, sel, y) + cell_html(
            cells[(4 * y + x) as int],
            x,
            y,
            cursor == (BPos { x: x as u16, y: y as u16 }),
            sel,
        )
    }
}

/// The first `n` lines of the table, each with its number on both sides.
pub open spec fn rows_html(cells: Seq<Option<Piece>>, cursor: BPos, sel: bool, n: nat) -> Seq<
    char,
>
    decreases n,
{
    if n == 0 {
        Seq::empty()
    } else {
        let x = (n - 1) as nat;
        rows_html(cells, cursor, sel, x) + (ROW_OPEN@ + decimal_text(n) + ROW_LEFT@ + cells_html(
            cells,
            x,
            cursor,
            sel,
            4,
        ) + ROW_RIGHT@ + decimal_text(n) + ROW_CLOSE@)
    }
}

/// The table that shows a board.
pub open spec fn board_html(cells: Seq<Option<Piece>>, id: Seq<char>, cursor: BPos, sel: bool) -> Seq<
    char,
> {
    TABLE_OPEN@ + id + TABLE_CLASS@ + (if sel {
        "selected"@
    } else {
        Seq::empty()
    }) + TABLE_HEAD@ + rows_html(cells, cursor, sel, 4) + TABLE_FOOT@
}

/// The box that shows the selected piece.
pub open spec fn selected_html(piece: Option<Piece>) -> Seq<char> {
    SELECTED_OPEN@ + joined(class_names(piece), ", "@) + SELECTED_TEXT@ + piece_text(piece)
        + SELECTED_CLOSE@
}

/// The page: the main board, the selected piece, the pool and the status. The main board
/// is the active one unless a piece is to be selected.
pub open spec fn page_html(
    state: GameState,
    turn: nat,
    cells: Seq<Option<Piece>>,
    selected: Option<Piece>,
    pool: Seq<Option<Piece>>,
    cursor: BPos,
) -> Seq<char> {
    let main_act = state != GameState::SelectPiece;
    PAGE_OPEN@ + board_html(cells, "main_board"@, cursor, main_act) + PAGE_CENTER@ + selected_html(
        selected,
    ) + PAGE_BETWEEN@ + board_html(pool, "pieces_board"@, cursor, !main_act) + PAGE_STATUS@
        + status_headline(state == GameState::GameOver, turn) + PAGE_CLOSE@
}

/// Renders the page that shows the state of the user interface.
pub fn render(ui_state: &UiState) -> (page: String)
    ensures
        page@ == page_html(
            ui_state.game.state,
            ui_state.game.player_turn as nat,
            ui_state.game.board@,
            ui_state.game.selected_piece,
            ui_state.pieces_board@,
            ui_state.cursor_pos,
        ),
{
    // whether the main board is active
    let main_act = ui_state.game.state != GameState::SelectPiece;
    let status_msg = status_message(&ui_state.game);
    let cursor = ui_state.cursor_pos;
    let board1 = render_board(&ui_state.game.board, "main_board", cursor, main_act);
    let selected_piece = render_selected_piece(ui_state.game.selected_piece);
    let board2 = render_board(&ui_state.pieces_board, "pieces_board", cursor, !main_act);
    let mut page = PAGE_OPEN.to_owned();
    page.append(board1.as_str());
    page.append(PAGE_CENTER);
    page.append(selected_piece.as_str());
    page.append(PAGE_BETWEEN);
    page.append(board2.as_str());
    page.append(PAGE_STATUS);
    page.append(status_msg.as_str());
    page.append(PAGE_CLOSE);
    page
}

/// Renders the table that shows a board.
pub fn render_board(board: &Board, id: &'static str, cursor: BPos, sel: bool) -> (table: String)
    ensures
        table@ == board_html(board@, id@, cursor, sel),
{
    let class = if sel {
        "selected"
    } else {
        ""
    };
    proof {
        reveal_strlit("");
        assert(""@ =~= Seq::<char>::empty());
    }
    let mut rows = String::new();
    let mut x: u16 = 0;
    while x < 4
        invariant
            x <= 4,
            rows@ == rows_html(board@, cursor, sel, x as nat),
        decreases 4 - x,
    {
        let mut cells = String::new();
        let mut y: u16 = 0;
        while y < 4
            invariant
                x < 4,
                y <= 4,
                cells@ == cells_html(board@, x as nat, cursor, sel, y as nat),
            decreases 4 - y,
        {
            cells.append(render_cell(board, x, y, cursor, sel).as_str());
            y += 1;
        }
        let num = decimal((x + 1) as u32);
        let ghost before = rows@;
        rows.append(ROW_OPEN);
        rows.append(num.as_str());
        rows.append(ROW_LEFT);
        rows.append(cells.as_str());
        rows.append(ROW_RIGHT);
        rows.append(num.as_str());
        rows.append(ROW_CLOSE);
        assert(rows@ =~= before + (ROW_OPEN@ + num@ + ROW_LEFT@ + cells@ + ROW_RIGHT@ + num@
            + ROW_CLOSE@));
        x += 1;
    }
    let mut table = TABLE_OPEN.to_owned();
    table.append(id);
    table.append(TABLE_CLASS);
    table.append(class);
    table.append(TABLE_HEAD);
    table.append(rows.as_str());
    table.append(TABLE_FOOT);
    table
}

/// Renders the cell of a table that shows the field at (`x`, `y`).
pub fn render_cell(board: &Board, x: u16, y: u16, cursor: BPos, sel: bool) -> (cell: String)
    requires
        x < 4,
        y < 4,
    ensures
        cell@ == cell_html(
            board@[4 * y + x],
            x as nat,
            y as nat,
            cursor == (BPos { x, y }),
            sel,
        ),
{
    let pos = BPos::new(x, y);
    let piece = board.get(pos);
    let xs = decimal(x as u32);
    let ys = decimal(y as u32);
    let mut id = "cell_".to_owned();
    id.append(xs.as_str());
    id.append("_");
    id.append(ys.as_str());
    let mut href = String::new();
    if sel {
        href.append("/move_cursor/to/");
        href.append(xs.as_str());
        href.append("/");
        href.append(ys.as_str());
    }
    assert(href@ =~= cell_link(x as nat, y as nat, sel));
    let mut class_list = gen_classlist_for_piece(piece);
    if pos == cursor {
        class_list.push("piece_cursor");
    }
    assert(texts(class_list@) =~= cell_classes(piece, cursor == pos));
    let content = gen_piece_string(piece);
    let mut cell = CELL_OPEN.to_owned();
    cell.append(join_texts(&class_list, ", ").as_str());
    cell.append(CELL_HREF);
    cell.append(href.as_str());
    cell.append(CELL_ID);
    cell.append(id.as_str());
    cell.append(CELL_TEXT);
    cell.append(content.as_str());
    cell.append(CELL_CLOSE);
    cell
}

/// Renders the box that shows the selected piece.
pub fn render_selected_piece(piece: Option<Piece>) -> (text: String)
    ensures
        text@ == selected_html(piece),
{
    let class_list = gen_classlist_for_piece(piece);
    let content = gen_piece_string(piece);
    let mut text = SELECTED_OPEN.to_owned();
    text.append(join_texts(&class_list, ", ").as_str());
    text.append(SELECTED_TEXT);
    text.append(content.as_str());
    text.append(SELECTED_CLOSE);
    text
}

} // verus!
