//! What holds of every game: facts about the model that the engine's
//! contracts are stated over.

use vstd::prelude::*;
use crate::board::{before, grid_marks, row_marks, AiPolicy, Board, Report};
use crate::geometry::{lemma_offset_bound, lemma_offset_step};
use crate::player::Player;

verus! {

/// At the start of a game no cell is marked and nobody has won, whatever
/// the size of the board. A board with at least one cell is then not full.
pub proof fn lemma_fresh_board(
    rows: nat,
    cols: nat,
    sep: nat,
    cell_size: nat,
    ai: Option<Player>,
    policy: AiPolicy,
)
    ensures
        Board::fresh(rows, cols, sep, cell_size, ai, policy).wf(),
        forall|i: int, j: int|
            0 <= i < rows && 0 <= j < cols ==> Board::fresh(
                rows,
                cols,
                sep,
                cell_size,
                ai,
                policy,
            ).cell(i, j) is None,
        rows > 0 && cols > 0 ==> !Board::fresh(rows, cols, sep, cell_size, ai, policy).full(),
        !Board::fresh(rows, cols, sep, cell_size, ai, policy).won(),
{
    let b = Board::fresh(rows, cols, sep, cell_size, ai, policy);
    if rows > 0 && cols > 0 {
        assert(b.in_bounds(0, 0));
        assert(!b.owns(0, 0));
        assert(!b.owns_across(0));
        assert forall|i: int| 0 <= i < rows implies !b.row_complete(i) by {
            assert(!b.owns(i, 0));
        }
        assert forall|j: int| 0 <= j < cols implies !b.col_complete(j) by {
            assert(!b.owns(0, j));
        }
    }
}

/// Marking a vacant cell succeeds and leaves the mover's mark there; a
/// second attempt on the same cell is refused, and the refusal names the
/// mover as the holder.
pub proof fn lemma_place_then_retry(b: Board, i: int, j: int)
    requires
        b.wf(),
        b.vacant(i, j),
    ensures
        b.placement(i, j) is Ok,
        b.place(i, j).wf(),
        b.place(i, j).cell(i, j) == Some(b.turn),
        b.place(i, j).placement(i, j) == Err::<(), Option<Player>>(Some(b.turn)),
{
}

/// Marking a cell changes no other cell, nor the turn, nor the
/// configuration of the board.
pub proof fn lemma_place_touches_one_cell(b: Board, i: int, j: int, k: int, l: int)
    requires
        b.wf(),
        b.in_bounds(i, j),
        b.in_bounds(k, l),
        k != i || l != j,
    ensures
        b.place(i, j).cell(k, l) == b.cell(k, l),
        b.place(i, j).turn == b.turn,
        b.place(i, j).restarted() == b.restarted(),
{
}

/// An attempt outside the grid is refused as out of bounds, whatever the
/// cells hold.
pub proof fn lemma_out_of_bounds(b: Board, i: int, j: int)
    requires
        i >= b.rows || j >= b.cols,
    ensures
        b.placement(i, j) == Err::<(), Option<Player>>(None),
        b.moved(i, j) == (b, None::<Option<Player>>),
{
}

/// The buttons of two different cells share no area.
pub proof fn lemma_buttons_apart(b: Board, i: int, j: int, k: int, l: int)
    requires
        b.fits(),
        b.in_bounds(i, j),
        b.in_bounds(k, l),
        i != k || j != l,
    ensures
        !b.hit_box(i, j).overlaps(b.hit_box(k, l)),
{
    let sep = b.sep as int;
    let cell = b.cell_size as int;
    lemma_offset_bound(i, b.rows as int, sep, cell);
    lemma_offset_bound(k, b.rows as int, sep, cell);
    lemma_offset_bound(j, b.cols as int, sep, cell);
    lemma_offset_bound(l, b.cols as int, sep, cell);
    if i < k {
        lemma_offset_step(i, k, sep, cell);
    } else if k < i {
        lemma_offset_step(k, i, sep, cell);
    } else if j < l {
        lemma_offset_step(j, l, sep, cell);
    } else {
        lemma_offset_step(l, j, sep, cell);
    }
}

/// A click on the pixel in the middle of a cell's button is taken for that
/// cell. Left out is the one layout in which the middle of a button lies on
/// the edge of the button before it: buttons at most one pixel wide with no
/// gap between them, for every cell but the first.
pub proof fn lemma_center_hits(b: Board, i: int, j: int)
    requires
        b.fits(),
        b.in_bounds(i, j),
        b.sep > 0 || b.cell_size > 1 || (i == 0 && j == 0),
    ensures
        b.first_hit(i, j, b.hit_box(i, j).center().0, b.hit_box(i, j).center().1),
{
    let sep = b.sep as int;
    let cell = b.cell_size as int;
    let x = b.hit_box(i, j).center().0;
    let y = b.hit_box(i, j).center().1;
    lemma_offset_bound(i, b.rows as int, sep, cell);
    lemma_offset_bound(j, b.cols as int, sep, cell);
    assert forall|k: int, l: int| b.in_bounds(k, l) && before(k, l, i, j) implies !b.hit_box(
        k,
        l,
    ).covers(x, y) by {
        lemma_offset_bound(k, b.rows as int, sep, cell);
        lemma_offset_bound(l, b.cols as int, sep, cell);
        if k < i {
            lemma_offset_step(k, i, sep, cell);
        } else {
            lemma_offset_step(l, j, sep, cell);
        }
    }
}

/// Who holds every cell of a row has won, when it is that player's turn. A
/// row without a cell is nobody's.
pub proof fn lemma_row_wins(b: Board, p: Player, i: int)
    requires
        b.turn == p,
        0 <= i < b.rows,
        b.cols > 0,
        forall|j: int| 0 <= j < b.cols ==> b.cell(i, j) == Some(p),
    ensures
        b.won(),
{
    assert(b.row_complete(i));
}

/// Who holds every cell of a column has won, when it is that player's turn.
/// A column without a cell is nobody's.
pub proof fn lemma_column_wins(b: Board, p: Player, j: int)
    requires
        b.turn == p,
        0 <= j < b.cols,
        b.rows > 0,
        forall|i: int| 0 <= i < b.rows ==> b.cell(i, j) == Some(p),
    ensures
        b.won(),
{
    assert(b.col_complete(j));
}

/// Who holds every cell from the top left to the bottom right corner of a
/// square board with at least one cell has won, when it is that player's
/// turn.
pub proof fn lemma_diagonal_wins(b: Board, p: Player)
    requires
        b.square(),
        b.has_cells(),
        b.turn == p,
        forall|k: int| 0 <= k < b.rows ==> b.cell(k, k) == Some(p),
    ensures
        b.won(),
{
    assert(b.diagonal_complete());
}

/// Who holds every cell from the top right to the bottom left corner of a
/// square board with at least one cell has won, when it is that player's
/// turn.
pub proof fn lemma_anti_diagonal_wins(b: Board, p: Player)
    requires
        b.square(),
        b.has_cells(),
        b.turn == p,
        forall|k: int, l: int| 0 <= k < b.rows && l == b.cols - 1 - k ==> b.cell(k, l) == Some(p),
    ensures
        b.won(),
{
    assert forall|k: int| 0 <= k < b.rows implies b.owns_across(k) by {
        assert(b.cell(k, b.cols - 1 - k) == Some(p));
    }
}

/// A draw: on a full board on which no row, no column and, where the board
/// is square, neither diagonal is the mover's from end to end, the mover has
/// not won.
pub proof fn lemma_draw(b: Board)
    requires
        b.full(),
        forall|i: int| 0 <= i < b.rows ==> !b.row_complete(i),
        forall|j: int| 0 <= j < b.cols ==> !b.col_complete(j),
        b.square() ==> !b.diagonal_complete(),
        b.square() ==> !b.anti_diagonal_complete(),
    ensures
        b.full() && !b.won(),
{
}

/// A move, taken or not, leaves the grid well formed and keeps its size and
/// the configuration of the board: no button ever moves.
pub proof fn lemma_move_keeps_layout(b: Board, i: int, j: int)
    requires
        b.wf(),
    ensures
        b.moved(i, j).0.wf(),
        b.moved(i, j).0.rows == b.rows,
        b.moved(i, j).0.cols == b.cols,
        b.moved(i, j).0.sep == b.sep,
        b.moved(i, j).0.cell_size == b.cell_size,
        b.moved(i, j).0.ai == b.ai,
        b.moved(i, j).0.policy == b.policy,
        forall|k: int, l: int| #[trigger] b.moved(i, j).0.hit_box(k, l) == b.hit_box(k, l),
{
}

/// A mark, once set, stays where it is for as long as the board is not
/// cleared after a draw.
pub proof fn lemma_marks_stay(b: Board, i: int, j: int, k: int, l: int)
    requires
        b.wf(),
        b.in_bounds(k, l),
        b.cell(k, l) is Some,
        b.moved(i, j).1 != Some(None::<Player>),
    ensures
        b.moved(i, j).0.cell(k, l) == b.cell(k, l),
{
}

/// A move on a vacant cell reports a win exactly when the mover then holds
/// a line, and the winner it names is the mover, with whom the turn stays.
/// It reports a draw exactly when the board has filled up without a win,
/// and the board is then as at the start. In every other case the turn
/// passes to the other player.
pub proof fn lemma_move_passes_turn(b: Board, i: int, j: int)
    requires
        b.wf(),
        b.vacant(i, j),
    ensures
        b.moved(i, j).1 is Some && b.moved(i, j).1->0 is Some <==> b.place(i, j).won(),
        b.place(i, j).won() ==> b.moved(i, j) == (b.place(i, j), Some(Some(b.turn))),
        b.moved(i, j).1 == Some(None::<Player>) <==> !b.place(i, j).won() && b.place(i, j).full(),
        b.moved(i, j).1 == Some(None::<Player>) ==> b.moved(i, j).0 == b.restarted(),
        b.moved(i, j).1 is None ==> b.moved(i, j).0 == b.place(i, j).switched(),
        b.moved(i, j).1 is None ==> b.moved(i, j).0.turn != b.turn,
{
}

/// After the computer's answer the turn is never the computer's again: one
/// call plays at most two cells.
pub proof fn lemma_single_reply(b: Board, i: int, j: int, a: int, c: int)
    requires
        b.wf(),
        b.reply_due(i, j),
        b.moved(i, j).0.vacant(a, c),
    ensures
        !b.moved(i, j).0.reply_due(a, c),
{
}

/// A row without a marked cell counts no mark.
pub proof fn lemma_row_marks_none(row: Seq<Option<Player>>)
    requires
        forall|j: int| 0 <= j < row.len() ==> row[j] is None,
    ensures
        row_marks(row) == 0,
    decreases row.len(),
{
    if row.len() > 0 {
        lemma_row_marks_none(row.drop_last());
    }
}

/// Marking an empty cell of a row adds one to its count.
pub proof fn lemma_row_marks_set(row: Seq<Option<Player>>, j: int, p: Player)
    requires
        0 <= j < row.len(),
        row[j] is None,
    ensures
        row_marks(row.update(j, Some(p))) == row_marks(row) + 1,
    decreases row.len(),
{
    let marked = row.update(j, Some(p));
    if j == row.len() - 1 {
        assert(marked.drop_last() =~= row.drop_last());
    } else {
        assert(marked.drop_last() =~= row.drop_last().update(j, Some(p)));
        lemma_row_marks_set(row.drop_last(), j, p);
    }
}

/// Replacing one row of a grid changes the count by what the new row counts
/// more, or less, than the old one.
pub proof fn lemma_grid_marks_set(
    cells: Seq<Seq<Option<Player>>>,
    i: int,
    row: Seq<Option<Player>>,
)
    requires
        0 <= i < cells.len(),
    ensures
        grid_marks(cells.update(i, row)) + row_marks(cells[i]) == grid_marks(cells) + row_marks(
            row,
        ),
    decreases cells.len(),
{
    let changed = cells.update(i, row);
    if i == cells.len() - 1 {
        assert(changed.drop_last() =~= cells.drop_last());
    } else {
        assert(changed.drop_last() =~= cells.drop_last().update(i, row));
        lemma_grid_marks_set(cells.drop_last(), i, row);
    }
}

/// A grid without a marked cell counts no mark.
pub proof fn lemma_grid_marks_none(cells: Seq<Seq<Option<Player>>>)
    requires
        forall|i: int, j: int| 0 <= i < cells.len() && 0 <= j < cells[i].len() ==> cells[i][j] is None,
    ensures
        grid_marks(cells) == 0,
    decreases cells.len(),
{
    if cells.len() > 0 {
        lemma_grid_marks_none(cells.drop_last());
        lemma_row_marks_none(cells.last());
    }
}

/// A mark on a vacant cell adds one to the count of marked cells; passing
/// the turn changes nothing of it; and a board at the start of a game
/// counts none.
pub proof fn lemma_marks_count(b: Board, i: int, j: int)
    requires
        b.wf(),
    ensures
        b.vacant(i, j) ==> b.place(i, j).marks() == b.marks() + 1,
        b.switched().marks() == b.marks(),
        b.restarted().marks() == 0,
{
    if b.vacant(i, j) {
        lemma_row_marks_set(b.cells[i], j, b.turn);
        lemma_grid_marks_set(b.cells, i, b.cells[i].update(j, Some(b.turn)));
    }
    lemma_grid_marks_none(b.restarted().cells);
}

/// Against the computer, a move that is taken and does not end the game is
/// answered by exactly one mark of the computer on a cell that was vacant:
/// when control comes back, two more cells are marked than before. Left out
/// is the answer that fills the board without a win, after which the board
/// is cleared.
pub proof fn lemma_reply_adds_one_mark(b: Board, i: int, j: int, board: Board, report: Report)
    requires
        b.wf(),
        b.vacant(i, j),
        b.ai == Some(b.turn.other()),
        b.moved(i, j).1 is None,
        b.plays_to(i, j, board, report),
        report != Some(None::<Player>),
    ensures
        board.marks() == b.marks() + 2,
        board.cell(i, j) == Some(b.turn),
        exists|a: int, c: int|
            {
                &&& #[trigger] b.vacant(a, c)
                &&& (a != i || c != j)
                &&& board.cell(a, c) == b.ai
                &&& forall|k: int, l: int|
                    b.in_bounds(k, l) && (k != i || l != j) && (k != a || l != c)
                        ==> #[trigger] board.cell(k, l) == b.cell(k, l)
            },
{
    let next = b.moved(i, j).0;
    assert(next == b.place(i, j).switched());
    assert(b.reply_due(i, j));
    let (a, c) = choose|a: int, c: int| #[trigger]
        next.may_choose(a, c) && (board, report) == next.moved(a, c);
    lemma_marks_count(b, i, j);
    lemma_marks_count(b.place(i, j), a, c);
    lemma_marks_count(next, a, c);
    lemma_marks_count(next.place(a, c), a, c);
    assert(b.vacant(a, c));
    assert(board.cells == next.place(a, c).cells);
}

} // verus!
