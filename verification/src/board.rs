//! Positions, pieces and the 4x4 board.
use vstd::prelude::*;

verus! {

/// A position on the board; both coordinates are kept below four.
#[derive(PartialEq, Eq, Structural, Clone, Copy, Debug)]
pub struct BPos {
    /// The x coordinate (left to right)
    pub x: u16,
    /// The y coordinate (top to bottom)
    pub y: u16,
}

impl BPos {
    /// Both coordinates name a cell of the board.
    pub open spec fn wf(self) -> bool {
        self.x < 4 && self.y < 4
    }

    /// The place of this position's cell, the cells counted row by row from the top left.
    pub open spec fn index(self) -> int {
        4 * self.y + self.x
    }

    /// Creates a position, wrapping each coordinate into the board.
    pub fn new(x: u16, y: u16) -> (pos: Self)
        ensures
            pos.x == x % 4,
            pos.y == y % 4,
            pos.wf(),
    {
        Self { x: x % 4, y: y % 4 }
    }
}

/// One game piece, with 4 distinctive properties
#[derive(PartialEq, Eq, Structural, Clone, Copy, Debug)]
pub struct Piece {
    /// Big or small
    pub big: bool,
    /// Dark or light
    pub dark: bool,
    /// Round or straight
    pub round: bool,
    /// Flat on top or with a hole
    pub flat: bool,
}

impl Default for Piece {
    /// The small, light, straight piece with a hole.
    fn default() -> (piece: Self)
        ensures
            piece == (Piece { big: false, dark: false, round: false, flat: false }),
    {
        Piece { big: false, dark: false, round: false, flat: false }
    }
}

impl Piece {
    /// The value of the property with the given rank: size, color, shape, top.
    pub open spec fn attr(self, rank: int) -> bool {
        if rank == 0 {
            self.big
        } else if rank == 1 {
            self.dark
        } else if rank == 2 {
            self.round
        } else {
            self.flat
        }
    }

    /// The piece that stands at place `k` of the sixteen, counted from zero.
    pub open spec fn nth(k: int) -> Piece {
        Piece { big: k / 4 <= 1, dark: (k / 4) % 2 == 0, round: k % 4 <= 1, flat: (k % 4) % 2 == 0 }
    }

    /// The place among the sixteen at which this piece stands.
    pub open spec fn rank(self) -> int {
        (if self.big { 0 } else { 8int }) + (if self.dark { 0 } else { 4int })
            + (if self.round { 0 } else { 2int }) + (if self.flat { 0 } else { 1int })
    }
}

/// A game board (array of rows)
#[derive(Debug, PartialEq)]
pub struct Board(pub [[Option<Piece>; 4]; 4]);

impl Clone for Board {
    fn clone(&self) -> (copy: Self)
        ensures
            copy == *self,
    {
        Board(self.0)
    }
}

impl View for Board {
    type V = Seq<Option<Piece>>;

    /// The sixteen cells, row by row from the top left.
    open spec fn view(&self) -> Seq<Option<Piece>> {
        Seq::new(16, |k: int| self.0[k / 4][k % 4])
    }
}

impl Default for Board {
    /// The empty board.
    fn default() -> (board: Self)
        ensures
            board@ == empty_cells(),
    {
        let board = Board(
            [
                [None, None, None, None],
                [None, None, None, None],
                [None, None, None, None],
                [None, None, None, None],
            ],
        );
        assert(board@ =~= empty_cells());
        board
    }
}

/// Sixteen empty cells.
pub open spec fn empty_cells() -> Seq<Option<Piece>> {
    Seq::new(16, |k: int| None)
}

/// Some cell holds `piece`.
pub open spec fn holds(cells: Seq<Option<Piece>>, piece: Piece) -> bool {
    exists|k: int| 0 <= k < cells.len() && cells[k] == Some(piece)
}

/// No piece stands in two cells.
pub open spec fn distinct(cells: Seq<Option<Piece>>) -> bool {
    forall|j: int, k: int|
        0 <= j < cells.len() && 0 <= k < cells.len() && j != k && cells[j] is Some ==> cells[j]
            != cells[k]
}

/// How many of the first `n` cells are occupied.
pub open spec fn occupied(cells: Seq<Option<Piece>>, n: int) -> int
    decreases n,
{
    if n <= 0 {
        0
    } else {
        occupied(cells, n - 1) + if cells[n - 1] is Some {
            1int
        } else {
            0int
        }
    }
}

/// Two boards with the same cells are the same board.
pub proof fn lemma_board_ext(a: Board, b: Board)
    requires
        a@ == b@,
    ensures
        a == b,
{
    assert forall|y: int| 0 <= y < 4 implies a.0[y] == b.0[y] by {
        assert forall|x: int| 0 <= x < 4 implies a.0[y][x] == b.0[y][x] by {
            assert(a@[4 * y + x] == b@[4 * y + x]);
        }
        assert(a.0[y] =~= b.0[y]);
    }
    assert(a.0 =~= b.0);
}

impl Board {
    /// Reads the cell at `pos`.
    pub fn get(&self, pos: BPos) -> (value: Option<Piece>)
        requires
            pos.wf(),
        ensures
            value == self@[pos.index()],
    {
        self.0[pos.y as usize][pos.x as usize]
    }

    /// Overwrites the cell at `pos` and leaves every other cell as it was.
    pub fn set(&mut self, pos: BPos, value: Option<Piece>)
        requires
            pos.wf(),
        ensures
            final(self)@ == old(self)@.update(pos.index(), value),
    {
        let mut row = self.0[pos.y as usize];
        row[pos.x as usize] = value;
        self.0[pos.y as usize] = row;
        assert(self@ =~= old(self)@.update(pos.index(), value));
    }
}

/// How many of the given fields are looked at: the first four, or all where they are fewer.
pub open spec fn span(fields: Seq<Option<Piece>>) -> int {
    if fields.len() < 4 {
        fields.len() as int
    } else {
        4
    }
}

/// Every field that is looked at holds a piece.
pub open spec fn all_present(fields: Seq<Option<Piece>>) -> bool {
    forall|i: int| 0 <= i < span(fields) ==> (#[trigger] fields[i]) is Some
}

/// The pieces that are looked at have the same value of the property with the given rank.
pub open spec fn agree(fields: Seq<Option<Piece>>, rank: int) -> bool {
    forall|i: int|
        0 <= i < span(fields) ==> (#[trigger] fields[i]).unwrap().attr(rank)
            == fields[0].unwrap().attr(rank)
}

/// The rank of the first property that the pieces share, where every field holds a piece.
pub open spec fn shared_property(fields: Seq<Option<Piece>>) -> Option<int> {
    if !all_present(fields) {
        None
    } else if agree(fields, 0) {
        Some(0)
    } else if agree(fields, 1) {
        Some(1)
    } else if agree(fields, 2) {
        Some(2)
    } else if agree(fields, 3) {
        Some(3)
    } else {
        None
    }
}

/// The name under which a property is reported.
pub open spec fn property_name(rank: int) -> Seq<char> {
    if rank == 0 {
        "Size"@
    } else if rank == 1 {
        "Color"@
    } else if rank == 2 {
        "Shape"@
    } else {
        "Top"@
    }
}

/// Check the first 4 fields whether they satisfy the conditions
/// (at least 1 property has to be equal on all 4).
/// Returns the name of the first property that matched, if any.
pub fn check_fields(fields: &[Option<Piece>]) -> (found: Option<String>)
    requires
        fields@.len() >= 1,
    ensures
        match shared_property(fields@) {
            Some(rank) => found is Some && found.unwrap()@ == property_name(rank),
            None => found is None,
        },
{
    let n: usize = if fields.len() < 4 {
        fields.len()
    } else {
        4
    };
    let first = match fields[0] {
        Some(piece) => piece,
        None => {
            return None;
        },
    };
    let mut size = true;
    let mut color = true;
    let mut shape = true;
    let mut top = true;
    let mut i: usize = 1;
    while i < n
        invariant
            1 <= i <= n,
            n == span(fields@),
            fields@[0] == Some(first),
            forall|k: int| 0 <= k < i ==> (#[trigger] fields@[k]) is Some,
            size == forall|k: int|
                0 <= k < i ==> (#[trigger] fields@[k]).unwrap().attr(0) == first.attr(0),
            color == forall|k: int|
                0 <= k < i ==> (#[trigger] fields@[k]).unwrap().attr(1) == first.attr(1),
            shape == forall|k: int|
                0 <= k < i ==> (#[trigger] fields@[k]).unwrap().attr(2) == first.attr(2),
            top == forall|k: int|
                0 <= k < i ==> (#[trigger] fields@[k]).unwrap().attr(3) == first.attr(3),
        decreases n - i,
    {
        match fields[i] {
            Some(piece) => {
                size = size && first.big == piece.big;
                color = color && first.dark == piece.dark;
                shape = shape && first.round == piece.round;
                top = top && first.flat == piece.flat;
            },
            None => {
                return None;
            },
        }
        i += 1;
    }
    if size {
        Some("Size".to_owned())
    } else if color {
        Some("Color".to_owned())
    } else if shape {
        Some("Shape".to_owned())
    } else if top {
        Some("Top".to_owned())
    } else {
        None
    }
}

/// The cell that stands at place `j` of a line. Lines 0 to 3 are the rows from the top,
/// lines 4 to 7 the columns from the left, line 8 the falling and line 9 the rising diagonal.
pub open spec fn line_pos(line: int, j: int) -> BPos {
    if line < 4 {
        BPos { x: j as u16, y: line as u16 }
    } else if line < 8 {
        BPos { x: (line - 4) as u16, y: j as u16 }
    } else if line == 8 {
        BPos { x: j as u16, y: j as u16 }
    } else {
        BPos { x: j as u16, y: (3 - j) as u16 }
    }
}

/// The four positions of a line.
pub open spec fn line_positions(line: int) -> Seq<BPos> {
    Seq::new(4, |j: int| line_pos(line, j))
}

/// What the four cells of a line hold.
pub open spec fn line_fields(cells: Seq<Option<Piece>>, line: int) -> Seq<Option<Piece>> {
    Seq::new(4, |j: int| cells[line_pos(line, j).index()])
}

/// The first line from `from` on whose four pieces share a property.
pub open spec fn first_win(cells: Seq<Option<Piece>>, from: int) -> Option<int>
    decreases 10 - from,
{
    if from >= 10 {
        None
    } else if shared_property(line_fields(cells, from)) is Some {
        Some(from)
    } else {
        first_win(cells, from + 1)
    }
}

/// The first of the ten lines whose four pieces share a property.
pub open spec fn winning_line(cells: Seq<Option<Piece>>) -> Option<int> {
    first_win(cells, 0)
}

/// Some line is filled with four pieces that share a property.
pub open spec fn wins(cells: Seq<Option<Piece>>) -> bool {
    winning_line(cells) is Some
}

/// Details to why the game is over
#[derive(Debug)]
pub struct GameOverInfo {
    /// Positions of the matching pieces
    pub positions: Vec<BPos>,
    /// What property they had in common
    pub property: String,
}

/// What a report of a win says: the four positions of the line and the shared property's name.
pub struct WinView {
    /// The positions of the winning line
    pub positions: Seq<BPos>,
    /// The name of the property that its pieces share
    pub property: Seq<char>,
}

impl View for GameOverInfo {
    type V = WinView;

    open spec fn view(&self) -> WinView {
        WinView { positions: self.positions@, property: self.property@ }
    }
}

/// The report on the given cells: the positions of their first winning line and the name
/// of the first property that its four pieces share. There is none where no line wins.
pub open spec fn win_report(cells: Seq<Option<Piece>>) -> Option<WinView> {
    match winning_line(cells) {
        Some(line) => Some(
            WinView {
                positions: line_positions(line),
                property: property_name(shared_property(line_fields(cells, line)).unwrap()),
            },
        ),
        None => None,
    }
}

/// The positions of one of the ten lines, in the order in which they are reported.
fn positions_of_line(line: u16) -> (positions: Vec<BPos>)
    requires
        line < 10,
    ensures
        positions@ == line_positions(line as int),
{
    let mut positions: Vec<BPos> = Vec::new();
    let mut j: u16 = 0;
    while j < 4
        invariant
            j <= 4,
            line < 10,
            positions@.len() == j,
            forall|k: int| 0 <= k < j ==> positions@[k] == line_pos(line as int, k),
        decreases 4 - j,
    {
        let pos = if line < 4 {
            BPos::new(j, line)
        } else if line < 8 {
            BPos::new(line - 4, j)
        } else if line == 8 {
            BPos::new(j, j)
        } else {
            BPos::new(j, 3 - j)
        };
        positions.push(pos);
        j += 1;
    }
    assert(positions@ =~= line_positions(line as int));
    positions
}

impl Board {
    /// Check for Game Over condition
    /// (at least 1 property has to be equal on all 4 fields of a row, column or diagonal).
    /// The rows are looked at first, then the columns, then the two diagonals, and the
    /// first line that matches is reported.
    pub fn check(&self) -> (found: Option<GameOverInfo>)
        ensures
            match found {
                Some(info) => win_report(self@) == Some(info@),
                None => win_report(self@) is None,
            },
    {
        let mut line: u16 = 0;
        while line < 10
            invariant
                line <= 10,
                winning_line(self@) == first_win(self@, line as int),
            decreases 10 - line,
        {
            let positions = positions_of_line(line);
            let mut fields: Vec<Option<Piece>> = Vec::new();
            let mut j: usize = 0;
            while j < 4
                invariant
                    j <= 4,
                    line < 10,
                    positions@ == line_positions(line as int),
                    fields@.len() == j,
                    forall|k: int|
                        0 <= k < j ==> fields@[k] == self@[line_pos(line as int, k).index()],
                decreases 4 - j,
            {
                fields.push(self.get(positions[j]));
                j += 1;
            }
            assert(fields@ =~= line_fields(self@, line as int));
            if let Some(property) = check_fields(fields.as_slice()) {
                return Some(GameOverInfo { positions, property });
            }
            line += 1;
        }
        None
    }
}

/// Cell `k` is the first that holds `piece`.
pub open spec fn is_first(cells: Seq<Option<Piece>>, piece: Piece, k: int) -> bool {
    &&& 0 <= k < cells.len()
    &&& cells[k] == Some(piece)
    &&& forall|j: int| 0 <= j < k ==> cells[j] != Some(piece)
}

/// The sixteen pieces, each in the cell of its own place.
pub open spec fn full_cells() -> Seq<Option<Piece>> {
    Seq::new(16, |k: int| Some(Piece::nth(k)))
}

/// The position of cell `k`, the cells counted row by row from the top left.
fn pos_of_cell(k: u16) -> (pos: BPos)
    requires
        k < 16,
    ensures
        pos.wf(),
        pos.index() == k,
{
    BPos::new(k % 4, k / 4)
}

impl Board {
    /// create a board with all different stones on it
    pub fn full() -> (board: Board)
        ensures
            board@ == full_cells(),
    {
        let mut board = Board::default();
        let mut k: u16 = 0;
        while k < 16
            invariant
                k <= 16,
                board@.len() == 16,
                forall|j: int| 0 <= j < k ==> board@[j] == Some(Piece::nth(j)),
            decreases 16 - k,
        {
            let row: u16 = k / 4;
            let col: u16 = k % 4;
            let piece = Piece {
                big: row <= 1,
                dark: row % 2 == 0,
                round: col <= 1,
                flat: col % 2 == 0,
            };
            board.set(pos_of_cell(k), Some(piece));
            k += 1;
        }
        assert(board@ =~= full_cells());
        board
    }

    /// True if `piece` already exists on the board
    pub fn contains(&self, piece: Piece) -> (found: bool)
        ensures
            found == holds(self@, piece),
    {
        let mut k: u16 = 0;
        while k < 16
            invariant
                k <= 16,
                forall|j: int| 0 <= j < k ==> self@[j] != Some(piece),
            decreases 16 - k,
        {
            if self.get(pos_of_cell(k)) == Some(piece) {
                return true;
            }
            k += 1;
        }
        false
    }

    /// Removes the first occurence of `piece`, returning `true` on success
    pub fn remove(&mut self, piece: Piece) -> (removed: bool)
        ensures
            removed == holds(old(self)@, piece),
            !removed ==> *final(self) == *old(self),
            removed ==> exists|k: int|
                is_first(old(self)@, piece, k) && final(self)@ == old(self)@.update(k, None),
    {
        let mut k: u16 = 0;
        while k < 16
            invariant
                k <= 16,
                *self == *old(self),
                forall|j: int| 0 <= j < k ==> self@[j] != Some(piece),
            decreases 16 - k,
        {
            let pos = pos_of_cell(k);
            if self.get(pos) == Some(piece) {
                self.set(pos, None);
                assert(is_first(old(self)@, piece, k as int));
                return true;
            }
            k += 1;
        }
        false
    }

    /// How many pieces there are on the board
    pub fn piece_count(&self) -> (count: usize)
        ensures
            count == occupied(self@, 16),
            count <= 16,
    {
        let mut count: usize = 0;
        let mut k: u16 = 0;
        while k < 16
            invariant
                k <= 16,
                count == occupied(self@, k as int),
                count <= k,
            decreases 16 - k,
        {
            if self.get(pos_of_cell(k)).is_some() {
                count += 1;
            }
            k += 1;
        }
        count
    }
}

/// The piece whose properties are given as numbers: zero for no, anything else for yes.
pub fn _new_piece(big: u8, dark: u8, round: u8, flat: u8) -> (piece: Option<Piece>)
    ensures
        piece == Some(Piece { big: big != 0, dark: dark != 0, round: round != 0, flat: flat != 0 }),
{
    Some(Piece { big: big != 0, dark: dark != 0, round: round != 0, flat: flat != 0 })
}

/// The four pieces of a line share a property: the line wins.
pub open spec fn line_wins(cells: Seq<Option<Piece>>, line: int) -> bool {
    shared_property(line_fields(cells, line)) is Some
}

/// `first_win` finds the least winning line from `from` on, and none where there is none.
pub proof fn lemma_first_win(cells: Seq<Option<Piece>>, from: int)
    requires
        0 <= from <= 10,
    ensures
        match first_win(cells, from) {
            Some(line) => from <= line < 10 && line_wins(cells, line) && forall|k: int|
                from <= k < line ==> !line_wins(cells, k),
            None => forall|k: int| from <= k < 10 ==> !line_wins(cells, k),
        },
    decreases 10 - from,
{
    if from < 10 && !line_wins(cells, from) {
        lemma_first_win(cells, from + 1);
    }
}

/// The winning line is the least of the ten lines that wins, and there is none exactly
/// where no line wins.
pub proof fn lemma_winning_line(cells: Seq<Option<Piece>>)
    ensures
        match winning_line(cells) {
            Some(line) => 0 <= line < 10 && line_wins(cells, line) && forall|k: int|
                0 <= k < line ==> !line_wins(cells, k),
            None => forall|k: int| 0 <= k < 10 ==> !line_wins(cells, k),
        },
        wins(cells) <==> exists|k: int| 0 <= k < 10 && line_wins(cells, k),
{
    lemma_first_win(cells, 0);
}

/// One of the four cells of the line is empty.
pub open spec fn has_gap(cells: Seq<Option<Piece>>, line: int) -> bool {
    exists|j: int| 0 <= j < 4 && cells[(#[trigger] line_pos(line, j)).index()] is None
}

/// A line with an empty cell does not win, whatever the other three cells hold.
pub proof fn lemma_gap_blocks_line(cells: Seq<Option<Piece>>, line: int, j: int)
    requires
        0 <= line < 10,
        0 <= j < 4,
        cells[line_pos(line, j).index()] is None,
    ensures
        !line_wins(cells, line),
{
    let fields = line_fields(cells, line);
    assert(fields[j] is None);
}

/// Where every one of the ten lines has an empty cell, nobody has won.
pub proof fn lemma_no_win_without_full_line(cells: Seq<Option<Piece>>)
    requires
        forall|line: int| 0 <= line < 10 ==> has_gap(cells, line),
    ensures
        !wins(cells),
        win_report(cells) is None,
{
    assert forall|line: int| 0 <= line < 10 implies !line_wins(cells, line) by {
        assert(has_gap(cells, line));
        let j = choose|j: int| 0 <= j < 4 && cells[(#[trigger] line_pos(line, j)).index()] is None;
        lemma_gap_blocks_line(cells, line, j);
    }
    lemma_winning_line(cells);
}

/// Four pieces that fill a line and agree on a property win the game. The report names
/// the first line that wins, which is this line or an earlier one, and a property that the
/// four pieces of the reported line share; where this line is reported, the property is
/// the given one or one of higher priority.
pub proof fn lemma_full_line_wins(cells: Seq<Option<Piece>>, line: int, rank: int)
    requires
        0 <= line < 10,
        0 <= rank < 4,
        all_present(line_fields(cells, line)),
        agree(line_fields(cells, line), rank),
    ensures
        wins(cells),
        match win_report(cells) {
            Some(report) => exists|first: int, shared: int|
                0 <= first <= line && 0 <= shared < 4 && (first == line ==> shared <= rank)
                    && report.positions == line_positions(first) && report.property
                    == property_name(shared) && all_present(line_fields(cells, first)) && agree(
                    line_fields(cells, first),
                    shared,
                ),
            None => false,
        },
{
    assert(line_wins(cells, line));
    lemma_winning_line(cells);
    let first = winning_line(cells).unwrap();
    let shared = shared_property(line_fields(cells, first)).unwrap();
    assert(0 <= first <= line && 0 <= shared < 4 && (first == line ==> shared <= rank)
        && win_report(cells).unwrap().positions == line_positions(first) && win_report(
        cells,
    ).unwrap().property == property_name(shared) && all_present(line_fields(cells, first))
        && agree(line_fields(cells, first), shared));
}

/// Nobody has won on the empty board.
pub proof fn lemma_empty_no_win()
    ensures
        !wins(empty_cells()),
        win_report(empty_cells()) is None,
        distinct(empty_cells()),
{
    assert forall|line: int| 0 <= line < 10 implies has_gap(empty_cells(), line) by {
        assert(empty_cells()[line_pos(line, 0).index()] is None);
    }
    lemma_no_win_without_full_line(empty_cells());
}

} // verus!
