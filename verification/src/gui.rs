//! What a user interface computes without touching the screen: events out of keys and
//! mouse presses, and the places of things on the screen.
use vstd::prelude::*;
use crate::board::BPos;
use crate::draw::{goto_code, goto_text};
use crate::game::GameState;
use crate::ui_state::UiState;

verus! {

/// Game UI Events
#[derive(Debug, PartialEq, Eq, Structural, Clone, Copy)]
pub enum Event {
    /// Exit Game
    Exit,
    /// Primary action, confirm, select, ..
    Enter,
    /// Move cursor up
    CursorUp,
    /// Move cursor down
    CursorDown,
    /// Move cursor left
    CursorLeft,
    /// Move cursor right
    CursorRight,
    /// Move cursor to specific x position
    CursorToX(u16),
    /// Move cursor to specific y position
    CursorToY(u16),
    /// Move cursor to specific position
    CursorToPos(BPos),
}

/// A key of the keyboard, as far as the game tells keys apart.
#[derive(Debug, PartialEq, Eq, Structural, Clone, Copy)]
pub enum Key {
    Esc,
    Up,
    Down,
    Left,
    Right,
    /// A key that stands for a character
    Char(char),
    /// Any other key
    Other,
}

/// What the terminal reports.
#[derive(Debug, PartialEq, Eq, Structural, Clone, Copy)]
pub enum Input {
    /// A key was pressed
    Key(Key),
    /// A mouse button was pressed at column `x` of line `y` of the screen
    MousePress { x: u16, y: u16 },
    /// Anything else
    Other,
}

/// A position on the screen
#[derive(Debug, PartialEq, Eq, Structural, Copy, Clone)]
pub struct SPos {
    pub x: u16,
    pub y: u16,
}

impl SPos {
    pub fn new(x: u16, y: u16) -> (pos: Self)
        ensures
            pos == (SPos { x, y }),
    {
        Self { x, y }
    }

    /// The sequence that moves the terminal's cursor to this position.
    pub fn to_goto(self) -> (code: String)
        requires
            self.x != 0 || self.y != 0,
        ensures
            code@ == goto_text(self.x as nat, self.y as nat),
    {
        goto_code(self.x, self.y)
    }

    /// The sequence that moves the terminal's cursor to this position translated by `dx`
    /// and `dy`.
    pub fn to_goto_t(self, dx: u16, dy: u16) -> (code: String)
        requires
            self.x + dx <= u16::MAX,
            self.y + dy <= u16::MAX,
            self.x + dx != 0 || self.y + dy != 0,
        ensures
            code@ == goto_text((self.x + dx) as nat, (self.y + dy) as nat),
    {
        goto_code(self.x + dx, self.y + dy)
    }

    /// Creates a copy of self, translated by `dx`/`dy`. A coordinate that leaves the
    /// range of 16 bits wraps around.
    pub fn translated_i32(self, dx: i32, dy: i32) -> (pos: Self)
        requires
            i32::MIN <= self.x + dx <= i32::MAX,
            i32::MIN <= self.y + dy <= i32::MAX,
        ensures
            pos.x == (self.x + dx) % 0x10000,
            pos.y == (self.y + dy) % 0x10000,
    {
        let x: i32 = self.x as i32 + dx;
        let y: i32 = self.y as i32 + dy;
        assert(x as u16 == x % 0x10000) by (bit_vector);
        assert(y as u16 == y % 0x10000) by (bit_vector);
        Self { x: #[verifier::truncate] (x as u16), y: #[verifier::truncate] (y as u16) }
    }

    /// Creates a copy of self, translated by `dx`/`dy`.
    /// Here `dx`, `dy` are unsigned, so only steps in down/right direction are possible
    pub fn translated(self, dx: u16, dy: u16) -> (pos: Self)
        requires
            self.x + dx <= u16::MAX,
            self.y + dy <= u16::MAX,
        ensures
            pos.x == self.x + dx,
            pos.y == self.y + dy,
    {
        Self { x: self.x + dx, y: self.y + dy }
    }
}

/// A layout determining what GUI-Element goes where
#[derive(Debug, PartialEq, Eq, Structural, Copy, Clone)]
pub struct Layout {
    pub main_board: SPos,
    pub curr_piece: SPos,
    pub pieces_board: SPos,
    pub status_label: SPos,
}

impl Layout {
    /// The layout for a wide screen.
    pub open spec fn wide() -> Layout {
        Layout {
            main_board: SPos { x: 2, y: 2 },
            curr_piece: SPos { x: 35, y: 3 },
            pieces_board: SPos { x: 45, y: 2 },
            status_label: SPos { x: 4, y: 22 },
        }
    }

    /// A default, wide screen layout
    pub fn _wide() -> (layout: Self)
        ensures
            layout == Layout::wide(),
    {
        Layout {
            main_board: SPos { x: 2, y: 2 },
            curr_piece: SPos { x: 35, y: 3 },
            pieces_board: SPos { x: 45, y: 2 },
            status_label: SPos { x: 4, y: 22 },
        }
    }

    /// The place of the first cell's corner, for a board that is drawn at `origin`.
    pub open spec fn corner(origin: SPos) -> SPos {
        SPos { x: (origin.x + 2) as u16, y: (origin.y + 1) as u16 }
    }

    /// Both boards are drawn so far from the screen's end that their corners have a place.
    pub open spec fn fits_screen(self) -> bool {
        &&& self.main_board.x + 2 <= u16::MAX
        &&& self.main_board.y + 1 <= u16::MAX
        &&& self.pieces_board.x + 2 <= u16::MAX
        &&& self.pieces_board.y + 1 <= u16::MAX
    }
}

/// The cell of a board whose corner is at `corner` that the screen position (`x`, `y`)
/// lies in. A cell is six columns wide and four lines high; the last column and the last
/// line of the board's frame still count for the last cells.
pub open spec fn cell_at(corner: SPos, x: u16, y: u16) -> Option<BPos> {
    if x < corner.x || y < corner.y {
        None
    } else {
        let bx = if x - corner.x == 24 {
            3
        } else {
            (x - corner.x) / 6
        };
        let by = if y - corner.y == 16 {
            3
        } else {
            (y - corner.y) / 4
        };
        if bx < 4 && by < 4 {
            Some(BPos { x: bx as u16, y: by as u16 })
        } else {
            None
        }
    }
}

/// The cell that a press at (`x`, `y`) of the screen means: one of the main board while a
/// piece is to be placed, one of the pool while a piece is to be selected, none when the
/// game is over.
pub open spec fn pressed_cell(state: GameState, layout: Layout, x: u16, y: u16) -> Option<BPos> {
    match state {
        GameState::PlacePiece => cell_at(Layout::corner(layout.main_board), x, y),
        GameState::SelectPiece => cell_at(Layout::corner(layout.pieces_board), x, y),
        GameState::GameOver => None,
    }
}

/// Returns the board position that lies at the screen position (`x`, `y`), if any.
/// Without a layout the wide one is taken.
pub fn screen_to_bpos(ui_state: &UiState, layout: Option<&Layout>, x: u16, y: u16) -> (pos: Option<
    BPos,
>)
    requires
        layout matches Some(given) ==> given.fits_screen(),
    ensures
        pos == pressed_cell(
            ui_state.game.state,
            match layout {
                Some(given) => *given,
                None => Layout::wide(),
            },
            x,
            y,
        ),
        pos matches Some(cell) ==> cell.wf(),
{
    let layout = match layout {
        Some(given) => *given,
        None => Layout::_wide(),
    };
    let offset = match ui_state.game.state {
        GameState::PlacePiece => layout.main_board,
        GameState::SelectPiece => layout.pieces_board,
        GameState::GameOver => {
            return None;
        },
    };
    // the space between offset and top-left of the real field
    let offset = offset.translated(2, 1);
    if x < offset.x || y < offset.y {
        return None;
    }
    let mut b_x: u16 = (x - offset.x) / 6;
    let mut b_y: u16 = (y - offset.y) / 4;
    // right/bottom edges should still match
    if x - offset.x == 24 {
        b_x = 3;
    }
    if y - offset.y == 16 {
        b_y = 3;
    }
    // field is 4x4 => position should be (0..3)x(0..3)
    if b_x < 4 && b_y < 4 {
        Some(BPos::new(b_x, b_y))
    } else {
        None
    }
}

/// The event that a key means, if any.
pub open spec fn key_event(key: Key) -> Option<Event> {
    match key {
        Key::Esc => Some(Event::Exit),
        Key::Up => Some(Event::CursorUp),
        Key::Down => Some(Event::CursorDown),
        Key::Left => Some(Event::CursorLeft),
        Key::Right => Some(Event::CursorRight),
        Key::Char(c) => if c == 'q' {
            Some(Event::Exit)
        } else if c == 'k' {
            Some(Event::CursorUp)
        } else if c == 'j' {
            Some(Event::CursorDown)
        } else if c == 'h' {
            Some(Event::CursorLeft)
        } else if c == 'l' {
            Some(Event::CursorRight)
        } else if 'a' <= c <= 'd' {
            Some(Event::CursorToX((c as u32 - 'a' as u32) as u16))
        } else if '1' <= c <= '4' {
            Some(Event::CursorToY((3 - (c as u32 - '1' as u32)) as u16))
        } else if c == '\n' {
            Some(Event::Enter)
        } else {
            None
        },
        Key::Other => None,
    }
}

/// The event that an input means, if any: a key by its meaning, a press of the mouse by
/// the cell that it hits in the wide layout.
pub open spec fn input_event(input: Input, state: GameState) -> Option<Event> {
    match input {
        Input::Key(key) => key_event(key),
        Input::MousePress { x, y } => match pressed_cell(state, Layout::wide(), x, y) {
            Some(pos) => Some(Event::CursorToPos(pos)),
            None => None,
        },
        Input::Other => None,
    }
}

/// Turns what the terminal reports into an event of the game, if it means one.
pub fn event_from_input(input: Input, ui_state: &UiState) -> (event: Option<Event>)
    ensures
        event == input_event(input, ui_state.game.state),
{
    match input {
        Input::Key(key) => match key {
            Key::Esc => Some(Event::Exit),
            Key::Up => Some(Event::CursorUp),
            Key::Down => Some(Event::CursorDown),
            Key::Left => Some(Event::CursorLeft),
            Key::Right => Some(Event::CursorRight),
            Key::Char(c) => {
                if c == 'q' {
                    Some(Event::Exit)
                } else if c == 'k' {
                    Some(Event::CursorUp)
                } else if c == 'j' {
                    Some(Event::CursorDown)
                } else if c == 'h' {
                    Some(Event::CursorLeft)
                } else if c == 'l' {
                    Some(Event::CursorRight)
                } else if 'a' <= c && c <= 'd' {
                    Some(Event::CursorToX((c as u32 - 'a' as u32) as u16))
                } else if '1' <= c && c <= '4' {
                    Some(Event::CursorToY((3 - (c as u32 - '1' as u32)) as u16))
                } else if c == '\n' {
                    Some(Event::Enter)
                } else {
                    None
                }
            },
            Key::Other => None,
        },
        Input::MousePress { x, y } => match screen_to_bpos(ui_state, None, x, y) {
            Some(pos) => Some(Event::CursorToPos(pos)),
            None => None,
        },
        Input::Other => None,
    }
}

/// How far from its origin a label starts that is centered inside the given width.
/// The label is not wider than the width.
pub fn label_offset(total_width: u16, label_len: u16) -> (offset: u16)
    requires
        label_len <= total_width,
    ensures
        offset == total_width / 2 - label_len / 2,
{
    (total_width / 2) - (label_len / 2)
}

} // verus!
