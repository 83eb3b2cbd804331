//! Moves, and the enumeration of the moves that a board allows.
use vstd::prelude::*;
use crate::board::{distinct, full_cells, holds, occupied, wins, BPos, Board, Piece};
use crate::game::Game;

verus! {

/// Place `piece` at `pos`.
#[derive(Debug, PartialEq, Eq, Structural, Clone, Copy)]
pub struct Move {
    pub pos: BPos,
    pub piece: Piece,
}

impl Move {
    /// The move that places `piece` in column `at.0` of row `at.1`, both wrapped into the board.
    pub fn new(at: (u16, u16), piece: Piece) -> (mov: Self)
        ensures
            mov.pos.x == at.0 % 4,
            mov.pos.y == at.1 % 4,
            mov.pos.wf(),
            mov.piece == piece,
    {
        Self { pos: BPos::new(at.0, at.1), piece }
    }
}

/// The sixteen pieces in the order in which they are enumerated.
pub open spec fn all_pieces() -> Seq<Piece> {
    Seq::new(16, |k: int| Piece::nth(k))
}

/// The sixteen positions in the order in which they are enumerated: column by column
/// from the left, each column from the top.
pub open spec fn scan_order() -> Seq<BPos> {
    Seq::new(16, |j: int| BPos { x: (j / 4) as u16, y: (j % 4) as u16 })
}

/// The test for a position whose cell is empty.
pub open spec fn is_free(cells: Seq<Option<Piece>>) -> spec_fn(BPos) -> bool {
    |pos: BPos| cells[pos.index()] is None
}

/// The test for a piece that stands in no cell.
pub open spec fn is_spare(cells: Seq<Option<Piece>>) -> spec_fn(Piece) -> bool {
    |piece: Piece| !holds(cells, piece)
}

/// The positions of the empty cells, in the order of enumeration.
pub open spec fn empty_positions(cells: Seq<Option<Piece>>) -> Seq<BPos> {
    scan_order().filter(is_free(cells))
}

/// The pieces that stand in no cell, in the order of enumeration.
pub open spec fn unused_pieces(cells: Seq<Option<Piece>>) -> Seq<Piece> {
    all_pieces().filter(is_spare(cells))
}

/// The function that makes the move of a fixed piece out of a position.
pub open spec fn placing(piece: Piece) -> spec_fn(BPos) -> Move {
    |pos: BPos| Move { pos, piece }
}

/// The function that makes the move to a fixed position out of a piece.
pub open spec fn placing_at(pos: BPos) -> spec_fn(Piece) -> Move {
    |piece: Piece| Move { pos, piece }
}

/// The function that lists, for a position, the moves of every unused piece to it.
pub open spec fn replies_at(cells: Seq<Option<Piece>>) -> spec_fn(BPos) -> Seq<Move> {
    |pos: BPos| unused_pieces(cells).map_values(placing_at(pos))
}

/// The moves of the one who has to place `piece`: one for each empty cell.
pub open spec fn agent_moves(cells: Seq<Option<Piece>>, piece: Piece) -> Seq<Move> {
    empty_positions(cells).map_values(placing(piece))
}

/// Every move that could follow on a board: each empty cell with each unused piece.
pub open spec fn player_moves(cells: Seq<Option<Piece>>) -> Seq<Move> {
    empty_positions(cells).flat_map(replies_at(cells))
}

/// All 16 pieces in the game
pub fn get_all_pieces() -> (pieces: Vec<Piece>)
    ensures
        pieces@ == all_pieces(),
{
    let mut pieces: Vec<Piece> = Vec::new();
    let mut k: u16 = 0;
    while k < 16
        invariant
            k <= 16,
            pieces@.len() == k,
            forall|j: int| 0 <= j < k ==> pieces@[j] == Piece::nth(j),
        decreases 16 - k,
    {
        let a: u16 = k / 4;
        let b: u16 = k % 4;
        pieces.push(Piece { big: a <= 1, dark: a % 2 == 0, round: b <= 1, flat: b % 2 == 0 });
        k += 1;
    }
    assert(pieces@ =~= all_pieces());
    pieces
}

/// The positions of the empty cells of a board, column by column.
pub fn get_empty_positions(board: &Board) -> (free: Vec<BPos>)
    ensures
        free@ == empty_positions(board@),
        forall|i: int| 0 <= i < free@.len() ==> free@[i].wf() && board@[free@[i].index()] is None,
{
    let mut free: Vec<BPos> = Vec::new();
    let mut j: u16 = 0;
    while j < 16
        invariant
            j <= 16,
            free@ == scan_order().take(j as int).filter(is_free(board@)),
            forall|i: int|
                0 <= i < free@.len() ==> free@[i].wf() && board@[free@[i].index()] is None,
        decreases 16 - j,
    {
        let pos = BPos::new(j / 4, j % 4);
        proof {
            let seen = scan_order().take(j as int);
            assert(scan_order().take(j + 1) =~= seen.push(pos));
            seen.lemma_filter_push(pos, is_free(board@));
        }
        if board.get(pos).is_none() {
            free.push(pos);
        }
        j += 1;
    }
    assert(scan_order().take(16) =~= scan_order());
    free
}

/// The pieces that are not on a board, in the order of `get_all_pieces`.
pub fn get_unused_pieces(board: &Board) -> (spare: Vec<Piece>)
    ensures
        spare@ == unused_pieces(board@),
        forall|i: int| 0 <= i < spare@.len() ==> !holds(board@, spare@[i]),
{
    let pieces = get_all_pieces();
    let mut spare: Vec<Piece> = Vec::new();
    let mut k: usize = 0;
    while k < 16
        invariant
            k <= 16,
            pieces@ == all_pieces(),
            spare@ == all_pieces().take(k as int).filter(is_spare(board@)),
            forall|i: int| 0 <= i < spare@.len() ==> !holds(board@, spare@[i]),
        decreases 16 - k,
    {
        let piece = pieces[k];
        proof {
            let seen = all_pieces().take(k as int);
            assert(all_pieces().take(k + 1) =~= seen.push(piece));
            seen.lemma_filter_push(piece, is_spare(board@));
        }
        if !board.contains(piece) {
            spare.push(piece);
        }
        k += 1;
    }
    assert(all_pieces().take(16) =~= all_pieces());
    spare
}

/// All moves the agent could do with the given piece
pub fn get_all_agent_moves(game: &Game) -> (moves: Vec<Move>)
    requires
        game.selected_piece is Some,
    ensures
        moves@ == agent_moves(game.board@, game.selected_piece.unwrap()),
        forall|i: int| 0 <= i < moves@.len() ==> fits(game.board@, #[trigger] moves@[i]),
{
    let piece = match game.selected_piece {
        Some(piece) => piece,
        None => Piece::default(),
    };
    let free = get_empty_positions(&game.board);
    let mut moves: Vec<Move> = Vec::new();
    let mut i: usize = 0;
    while i < free.len()
        invariant
            i <= free@.len(),
            moves@ == free@.take(i as int).map_values(placing(piece)),
            forall|i: int|
                0 <= i < free@.len() ==> free@[i].wf() && game.board@[free@[i].index()] is None,
            forall|i: int| 0 <= i < moves@.len() ==> fits(game.board@, #[trigger] moves@[i]),
        decreases free@.len() - i,
    {
        proof {
            let seen = free@.take(i as int);
            assert(free@.take(i + 1) =~= seen.push(free@[i as int]));
            seen.lemma_push_map_commute(placing(piece), free@[i as int]);
        }
        moves.push(Move { pos: free[i], piece });
        i += 1;
    }
    assert(free@.take(free@.len() as int) =~= free@);
    moves
}

/// All moves the player could do on the given board
pub fn get_all_player_moves(board: &Board) -> (moves: Vec<Move>)
    ensures
        moves@ == player_moves(board@),
        forall|i: int|
            0 <= i < moves@.len() ==> fits(board@, #[trigger] moves@[i]) && !holds(
                board@,
                moves@[i].piece,
            ),
{
    let free = get_empty_positions(board);
    let spare = get_unused_pieces(board);
    let mut moves: Vec<Move> = Vec::new();
    let mut i: usize = 0;
    assert(free@.take(0).flat_map(replies_at(board@)) =~= Seq::<Move>::empty()) by {
        reveal_with_fuel(Seq::flatten, 1);
    }
    while i < free.len()
        invariant
            i <= free@.len(),
            spare@ == unused_pieces(board@),
            moves@ == free@.take(i as int).flat_map(replies_at(board@)),
            forall|i: int|
                0 <= i < free@.len() ==> free@[i].wf() && board@[free@[i].index()] is None,
            forall|i: int| 0 <= i < spare@.len() ==> !holds(board@, spare@[i]),
            forall|i: int|
                0 <= i < moves@.len() ==> fits(board@, #[trigger] moves@[i]) && !holds(
                    board@,
                    moves@[i].piece,
                ),
        decreases free@.len() - i,
    {
        let pos = free[i];
        let ghost before = moves@;
        let mut k: usize = 0;
        while k < spare.len()
            invariant
                k <= spare@.len(),
                moves@ == before + spare@.take(k as int).map_values(placing_at(pos)),
                pos.wf() && board@[pos.index()] is None,
                forall|i: int| 0 <= i < spare@.len() ==> !holds(board@, spare@[i]),
                forall|i: int|
                    0 <= i < moves@.len() ==> fits(board@, #[trigger] moves@[i]) && !holds(
                        board@,
                        moves@[i].piece,
                    ),
            decreases spare@.len() - k,
        {
            proof {
                let seen = spare@.take(k as int);
                assert(spare@.take(k + 1) =~= seen.push(spare@[k as int]));
                seen.lemma_push_map_commute(placing_at(pos), spare@[k as int]);
            }
            moves.push(Move { pos, piece: spare[k] });
            k += 1;
        }
        proof {
            assert(spare@.take(spare@.len() as int) =~= spare@);
            let seen = free@.take(i as int);
            assert(free@.take(i + 1) =~= seen.push(pos));
            seen.lemma_flat_map_push(replies_at(board@), pos);
        }
        i += 1;
    }
    assert(free@.take(free@.len() as int) =~= free@);
    moves
}

/// The cells after a move was made on them.
pub open spec fn applied(cells: Seq<Option<Piece>>, mov: Move) -> Seq<Option<Piece>> {
    cells.update(mov.pos.index(), Some(mov.piece))
}

/// The move can be made: it names a cell of the board, and the cell is empty.
pub open spec fn fits(cells: Seq<Option<Piece>>, mov: Move) -> bool {
    mov.pos.wf() && cells[mov.pos.index()] is None
}

/// The test for a move that completes a winning line on the given cells.
pub open spec fn is_winning(cells: Seq<Option<Piece>>) -> spec_fn(Move) -> bool {
    |mov: Move| wins(applied(cells, mov))
}

/// The test for a move that completes no winning line on the given cells.
pub open spec fn is_not_winning(cells: Seq<Option<Piece>>) -> spec_fn(Move) -> bool {
    |mov: Move| !wins(applied(cells, mov))
}

/// The board after `mov` was made on it.
pub fn apply_move(board: Board, mov: &Move) -> (after: Board)
    requires
        fits(board@, *mov),
    ensures
        after@ == applied(board@, *mov),
{
    let mut after = board;
    after.set(mov.pos, Some(mov.piece));
    after
}

/// Whether `mov` completes a winning line on `board`.
pub fn is_winning_move(board: Board, mov: &Move) -> (winning: bool)
    requires
        fits(board@, *mov),
    ensures
        winning == wins(applied(board@, *mov)),
{
    apply_move(board, mov).check().is_some()
}

/// Find a winning move, if any: the first of `moves` that completes a winning line.
pub fn find_winning_move<'m>(board: &Board, moves: &'m [Move]) -> (found: Option<&'m Move>)
    requires
        forall|i: int| 0 <= i < moves@.len() ==> fits(board@, #[trigger] moves@[i]),
    ensures
        match found {
            Some(mov) => moves@.filter(is_winning(board@)).len() > 0 && *mov == moves@.filter(
                is_winning(board@),
            )[0],
            None => moves@.filter(is_winning(board@)).len() == 0,
        },
        found matches Some(mov) ==> wins(applied(board@, *mov)) && moves@.contains(*mov),
{
    let mut i: usize = 0;
    while i < moves.len()
        invariant
            i <= moves@.len(),
            forall|i: int| 0 <= i < moves@.len() ==> fits(board@, #[trigger] moves@[i]),
            moves@.take(i as int).filter(is_winning(board@)).len() == 0,
        decreases moves@.len() - i,
    {
        proof {
            let seen = moves@.take(i as int);
            assert(moves@.take(i + 1) =~= seen.push(moves@[i as int]));
            seen.lemma_filter_push(moves@[i as int], is_winning(board@));
        }
        if is_winning_move(board.clone(), &moves[i]) {
            proof {
                let seen = moves@.take(i + 1);
                let rest = moves@.skip(i + 1);
                assert(moves@ =~= seen + rest);
                Seq::filter_distributes_over_add(seen, rest, is_winning(board@));
            }
            return Some(&moves[i]);
        }
        i += 1;
    }
    assert(moves@.take(moves@.len() as int) =~= moves@);
    None
}

/// Partition moves into (winning moves, not winning moves)
pub fn _partition_moves(board: &Board, moves: &[Move]) -> (parts: (Vec<Move>, Vec<Move>))
    requires
        forall|i: int| 0 <= i < moves@.len() ==> fits(board@, #[trigger] moves@[i]),
    ensures
        parts.0@ == moves@.filter(is_winning(board@)),
        parts.1@ == moves@.filter(is_not_winning(board@)),
{
    let mut winning: Vec<Move> = Vec::new();
    let mut others: Vec<Move> = Vec::new();
    let mut i: usize = 0;
    while i < moves.len()
        invariant
            i <= moves@.len(),
            forall|i: int| 0 <= i < moves@.len() ==> fits(board@, #[trigger] moves@[i]),
            winning@ == moves@.take(i as int).filter(is_winning(board@)),
            others@ == moves@.take(i as int).filter(is_not_winning(board@)),
        decreases moves@.len() - i,
    {
        proof {
            let seen = moves@.take(i as int);
            assert(moves@.take(i + 1) =~= seen.push(moves@[i as int]));
            seen.lemma_filter_push(moves@[i as int], is_winning(board@));
            seen.lemma_filter_push(moves@[i as int], is_not_winning(board@));
        }
        if is_winning_move(board.clone(), &moves[i]) {
            winning.push(moves[i]);
        } else {
            others.push(moves[i]);
        }
        i += 1;
    }
    assert(moves@.take(moves@.len() as int) =~= moves@);
    (winning, others)
}

/// Each of the sixteen pieces stands at the place of its rank.
pub proof fn lemma_rank_of_nth(k: int)
    requires
        0 <= k < 16,
    ensures
        Piece::nth(k).rank() == k,
{
}

/// Every piece is one of the sixteen: it stands at the place of its rank.
pub proof fn lemma_nth_of_rank(piece: Piece)
    ensures
        0 <= piece.rank() < 16,
        Piece::nth(piece.rank()) == piece,
{
}

/// How many of the first `n` of the sixteen pieces stand on the cells.
pub open spec fn pieces_held(cells: Seq<Option<Piece>>, n: int) -> int
    decreases n,
{
    if n <= 0 {
        0
    } else {
        pieces_held(cells, n - 1) + if holds(cells, Piece::nth(n - 1)) {
            1int
        } else {
            0int
        }
    }
}

/// One more cell brings at most one more piece.
proof fn lemma_held_grows_by_one(
    fewer: Seq<Option<Piece>>,
    more: Seq<Option<Piece>>,
    extra: Option<Piece>,
    n: int,
)
    requires
        0 <= n <= 16,
        forall|piece: Piece| holds(more, piece) ==> holds(fewer, piece) || extra == Some(piece),
    ensures
        pieces_held(more, n) <= pieces_held(fewer, n) + if extra is Some && extra.unwrap().rank()
            < n {
            1int
        } else {
            0int
        },
    decreases n,
{
    if n > 0 {
        lemma_held_grows_by_one(fewer, more, extra, n - 1);
        lemma_rank_of_nth(n - 1);
    }
}

/// The first `m` cells hold at most as many of the sixteen pieces as they have occupied cells.
proof fn lemma_held_at_most_occupied(cells: Seq<Option<Piece>>, m: int)
    requires
        0 <= m <= cells.len(),
    ensures
        pieces_held(cells.take(m), 16) <= occupied(cells, m),
    decreases m,
{
    if m == 0 {
        lemma_held_grows_by_one(Seq::empty(), cells.take(0), None, 16);
        lemma_held_by_none(16);
    } else {
        lemma_held_at_most_occupied(cells, m - 1);
        let fewer = cells.take(m - 1);
        let more = cells.take(m);
        assert forall|piece: Piece| holds(more, piece) implies holds(fewer, piece) || cells[m - 1]
            == Some(piece) by {
            let k = choose|k: int| 0 <= k < more.len() && more[k] == Some(piece);
            if k < m - 1 {
                assert(fewer[k] == Some(piece));
            }
        }
        lemma_held_grows_by_one(fewer, more, cells[m - 1], 16);
        if cells[m - 1] is Some {
            lemma_nth_of_rank(cells[m - 1].unwrap());
        }
    }
}

/// No piece stands on no cells.
proof fn lemma_held_by_none(n: int)
    ensures
        pieces_held(Seq::empty(), n) == 0,
    decreases n,
{
    if n > 0 {
        lemma_held_by_none(n - 1);
    }
}

/// Where each of the first `n` pieces stands on the cells, they are `n`.
proof fn lemma_held_all(cells: Seq<Option<Piece>>, n: int)
    requires
        0 <= n,
        forall|k: int| 0 <= k < n ==> holds(cells, #[trigger] Piece::nth(k)),
    ensures
        pieces_held(cells, n) == n,
    decreases n,
{
    if n > 0 {
        lemma_held_all(cells, n - 1);
    }
}

/// Where each of the first `n` cells is occupied, the occupied ones are `n`.
proof fn lemma_occupied_all(cells: Seq<Option<Piece>>, n: int)
    requires
        0 <= n,
        forall|k: int| 0 <= k < n ==> (#[trigger] cells[k]) is Some,
    ensures
        occupied(cells, n) == n,
    decreases n,
{
    if n > 0 {
        lemma_occupied_all(cells, n - 1);
    }
}

/// A board that is not full has an empty cell, and the enumeration finds it.
pub proof fn lemma_free_cell_exists(cells: Seq<Option<Piece>>)
    requires
        cells.len() == 16,
        occupied(cells, 16) < 16,
    ensures
        empty_positions(cells).len() > 0,
{
    if forall|k: int| 0 <= k < 16 ==> (#[trigger] cells[k]) is Some {
        lemma_occupied_all(cells, 16);
    }
    let k = choose|k: int| 0 <= k < 16 && !((#[trigger] cells[k]) is Some);
    let j = 4 * (k % 4) + k / 4;
    assert(scan_order()[j].index() == k);
    assert(is_free(cells)(scan_order()[j]));
    scan_order().lemma_filter_contains(is_free(cells), j);
}

/// A board that is not full lacks one of the sixteen pieces, and the enumeration finds it.
pub proof fn lemma_spare_piece_exists(cells: Seq<Option<Piece>>)
    requires
        cells.len() == 16,
        occupied(cells, 16) < 16,
    ensures
        unused_pieces(cells).len() > 0,
{
    if forall|k: int| 0 <= k < 16 ==> holds(cells, #[trigger] Piece::nth(k)) {
        lemma_held_all(cells, 16);
        lemma_held_at_most_occupied(cells, 16);
        assert(cells.take(16) =~= cells);
    }
    let k = choose|k: int| 0 <= k < 16 && !holds(cells, #[trigger] Piece::nth(k));
    assert(is_spare(cells)(all_pieces()[k]));
    all_pieces().lemma_filter_contains(is_spare(cells), k);
}

/// The sixteen pieces differ from each other, and each of them stands on the full board,
/// which holds none of them twice.
pub proof fn lemma_sixteen_pieces()
    ensures
        all_pieces().len() == 16,
        forall|j: int, k: int|
            0 <= j < 16 && 0 <= k < 16 && j != k ==> all_pieces()[j] != all_pieces()[k],
        forall|k: int| 0 <= k < 16 ==> holds(full_cells(), #[trigger] all_pieces()[k]),
        forall|piece: Piece| all_pieces().contains(piece) && holds(full_cells(), piece),
        distinct(full_cells()),
{
    assert forall|j: int, k: int| 0 <= j < 16 && 0 <= k < 16 && j != k implies all_pieces()[j]
        != all_pieces()[k] by {
        lemma_rank_of_nth(j);
        lemma_rank_of_nth(k);
    }
    assert forall|k: int| 0 <= k < 16 implies holds(full_cells(), #[trigger] all_pieces()[k]) by {
        assert(full_cells()[k] == Some(all_pieces()[k]));
    }
    assert forall|piece: Piece| all_pieces().contains(piece) && holds(full_cells(), piece) by {
        lemma_nth_of_rank(piece);
        assert(all_pieces()[piece.rank()] == piece);
        assert(full_cells()[piece.rank()] == Some(piece));
    }
    lemma_full_cells_distinct();
}

/// The full board holds no piece twice.
pub proof fn lemma_full_cells_distinct()
    ensures
        distinct(full_cells()),
{
    assert forall|j: int, k: int|
        0 <= j < 16 && 0 <= k < 16 && j != k && full_cells()[j] is Some implies full_cells()[j]
        != full_cells()[k] by {
        lemma_rank_of_nth(j);
        lemma_rank_of_nth(k);
    }
}

/// What one of the listed sequences holds, the flattened list holds too.
proof fn lemma_flat_map_contains<A, B>(s: Seq<A>, f: spec_fn(A) -> Seq<B>, i: int, x: B)
    requires
        0 <= i < s.len(),
        f(s[i]).contains(x),
    ensures
        s.flat_map(f).contains(x),
    decreases s.len(),
{
    let front = s.drop_last();
    let last = s.last();
    assert(s =~= front.push(last));
    front.lemma_flat_map_push(f, last);
    let before = front.flat_map(f);
    let tail = f(last);
    let joined = before + tail;
    assert(s.flat_map(f) =~= joined);
    if i == s.len() - 1 {
        let k = choose|k: int| 0 <= k < tail.len() && tail[k] == x;
        assert(joined[before.len() + k] == x);
    } else {
        lemma_flat_map_contains(front, f, i, x);
        let k = choose|k: int| 0 <= k < before.len() && before[k] == x;
        assert(joined[k] == x);
    }
}

/// What a filter lets through passes its test and was there before.
pub proof fn lemma_filter_keeps<A>(s: Seq<A>, pred: spec_fn(A) -> bool, i: int)
    requires
        0 <= i < s.filter(pred).len(),
    ensures
        pred(s.filter(pred)[i]),
        s.contains(s.filter(pred)[i]),
    decreases s.len(),
{
    if s.len() > 0 {
        let front = s.drop_last();
        let last = s.last();
        assert(s =~= front.push(last));
        front.lemma_filter_push(last, pred);
        if i < front.filter(pred).len() {
            lemma_filter_keeps(front, pred, i);
            let k = choose|k: int| 0 <= k < front.len() && front[k] == front.filter(pred)[i];
            assert(s[k] == s.filter(pred)[i]);
        } else {
            assert(s[s.len() - 1] == s.filter(pred)[i]);
        }
    } else {
        reveal_with_fuel(Seq::filter, 1);
    }
}

/// The enumeration of the empty cells misses none.
pub proof fn lemma_empty_positions_complete(cells: Seq<Option<Piece>>, pos: BPos)
    requires
        pos.wf(),
        cells[pos.index()] is None,
    ensures
        empty_positions(cells).contains(pos),
{
    let j = 4 * pos.x + pos.y;
    assert(scan_order()[j] == pos);
    assert(is_free(cells)(scan_order()[j]));
    scan_order().lemma_filter_contains(is_free(cells), j);
}

/// The enumeration of the unused pieces misses none.
pub proof fn lemma_unused_pieces_complete(cells: Seq<Option<Piece>>, piece: Piece)
    requires
        !holds(cells, piece),
    ensures
        unused_pieces(cells).contains(piece),
{
    lemma_nth_of_rank(piece);
    assert(all_pieces()[piece.rank()] == piece);
    assert(is_spare(cells)(all_pieces()[piece.rank()]));
    all_pieces().lemma_filter_contains(is_spare(cells), piece.rank());
}

/// The moves that are enumerated for a player are all the moves there are: every unused
/// piece on every empty cell is among them.
pub proof fn lemma_player_moves_complete(cells: Seq<Option<Piece>>, mov: Move)
    requires
        fits(cells, mov),
        !holds(cells, mov.piece),
    ensures
        player_moves(cells).contains(mov),
{
    lemma_empty_positions_complete(cells, mov.pos);
    lemma_unused_pieces_complete(cells, mov.piece);
    let free = empty_positions(cells);
    let spare = unused_pieces(cells);
    let i = choose|i: int| 0 <= i < free.len() && free[i] == mov.pos;
    let k = choose|k: int| 0 <= k < spare.len() && spare[k] == mov.piece;
    let replies = replies_at(cells)(free[i]);
    assert(replies[k] == mov);
    lemma_flat_map_contains(free, replies_at(cells), i, mov);
}

/// The moves that are enumerated for the one who has to place `piece` are all the moves
/// there are: the piece on every empty cell is among them.
pub proof fn lemma_agent_moves_complete(cells: Seq<Option<Piece>>, piece: Piece, pos: BPos)
    requires
        pos.wf(),
        cells[pos.index()] is None,
    ensures
        agent_moves(cells, piece).contains(Move { pos, piece }),
{
    lemma_empty_positions_complete(cells, pos);
    let free = empty_positions(cells);
    let i = choose|i: int| 0 <= i < free.len() && free[i] == pos;
    assert(agent_moves(cells, piece)[i] == Move { pos, piece });
}

/// Where no move of a list wins, none of its members does.
pub proof fn lemma_no_winner_among(cells: Seq<Option<Piece>>, moves: Seq<Move>, mov: Move)
    requires
        moves.filter(is_winning(cells)).len() == 0,
        moves.contains(mov),
    ensures
        !wins(applied(cells, mov)),
{
    let i = choose|i: int| 0 <= i < moves.len() && moves[i] == mov;
    if wins(applied(cells, mov)) {
        assert(is_winning(cells)(moves[i]));
        moves.lemma_filter_contains(is_winning(cells), i);
    }
}

} // verus!
