//! The mathematical model of a game: a grid of cells, the player to move and
//! the configuration the board was made with. Every contract of the engine
//! is stated over this model.

use vstd::prelude::*;
use crate::geometry::{button_at, extent, geometry_fits, HitBox};
use crate::player::Player;

verus! {

/// How the computer chooses its cell.
#[derive(Clone, Copy, PartialEq, Eq, Debug, Structural)]
pub enum AiPolicy {
    /// The first vacant cell, rows from the top, each row from the left.
    FirstEmpty,
    /// A vacant cell drawn at random.
    Random,
}

/// What a move reports: `None` when the game goes on (or nothing was
/// placed), `Some(Some(p))` when `p` has won, `Some(None)` when the board
/// filled up without a winner and was cleared.
pub type Report = Option<Option<Player>>;

/// Whether cell `(k, l)` comes before cell `(i, j)` when the grid is read
/// row by row, each row from the left.
pub open spec fn before(k: int, l: int, i: int, j: int) -> bool {
    k < i || (k == i && l < j)
}

/// How many cells of a row are marked.
pub open spec fn row_marks(row: Seq<Option<Player>>) -> nat
    decreases row.len(),
{
    if row.len() == 0 {
        0
    } else {
        row_marks(row.drop_last()) + if row.last() is Some {
            1nat
        } else {
            0nat
        }
    }
}

/// How many cells of a grid are marked.
pub open spec fn grid_marks(cells: Seq<Seq<Option<Player>>>) -> nat
    decreases cells.len(),
{
    if cells.len() == 0 {
        0
    } else {
        grid_marks(cells.drop_last()) + row_marks(cells.last())
    }
}

/// The state of a game.
pub struct Board {
    /// The number of rows.
    pub rows: nat,
    /// The number of columns.
    pub cols: nat,
    /// The cells, row by row: `None` for an empty cell.
    pub cells: Seq<Seq<Option<Player>>>,
    /// The player whose move is accepted next.
    pub turn: Player,
    /// The gap between neighbouring buttons, in pixels.
    pub sep: nat,
    /// The side of a button, in pixels.
    pub cell_size: nat,
    /// The player that the computer plays, if any.
    pub ai: Option<Player>,
    /// How the computer chooses its cell.
    pub policy: AiPolicy,
}

impl Board {
    /// The grid has `rows` rows of `cols` cells each.
    pub open spec fn wf(self) -> bool {
        &&& self.cells.len() == self.rows
        &&& forall|i: int| 0 <= i < self.rows ==> (#[trigger] self.cells[i]).len() == self.cols
    }

    /// The numbers of rows and of columns, the gap and the button side are
    /// machine integers, and the layout they describe can be laid out.
    pub open spec fn fits(self) -> bool {
        &&& self.rows <= u32::MAX
        &&& self.cols <= u32::MAX
        &&& self.sep <= u32::MAX
        &&& self.cell_size <= u32::MAX
        &&& geometry_fits((self.rows as u32, self.cols as u32), self.sep as u32, self.cell_size as u32)
    }

    /// Whether the size of the whole board in pixels can be told in `u32`
    /// along both axes.
    pub open spec fn screen_fits(self) -> bool {
        &&& extent(self.rows as int, self.sep as int, self.cell_size as int) <= u32::MAX
        &&& extent(self.cols as int, self.sep as int, self.cell_size as int) <= u32::MAX
    }

    /// Who moves first: the human, when the computer plays one side;
    /// otherwise `O`.
    pub open spec fn first_turn(ai: Option<Player>) -> Player {
        match ai {
            Some(p) => p.other(),
            None => Player::O,
        }
    }

    /// The board at the start of a game: every cell empty.
    pub open spec fn fresh(
        rows: nat,
        cols: nat,
        sep: nat,
        cell_size: nat,
        ai: Option<Player>,
        policy: AiPolicy,
    ) -> Board {
        Board {
            rows,
            cols,
            cells: Seq::new(rows, |i: int| Seq::new(cols, |j: int| None::<Player>)),
            turn: Self::first_turn(ai),
            sep,
            cell_size,
            ai,
            policy,
        }
    }

    /// A board of the same configuration at the start of a game.
    pub open spec fn restarted(self) -> Board {
        Self::fresh(self.rows, self.cols, self.sep, self.cell_size, self.ai, self.policy)
    }

    /// Whether `(i, j)` names a cell of the grid.
    pub open spec fn in_bounds(self, i: int, j: int) -> bool {
        0 <= i < self.rows && 0 <= j < self.cols
    }

    /// The content of cell `(i, j)`.
    pub open spec fn cell(self, i: int, j: int) -> Option<Player> {
        self.cells[i][j]
    }

    /// Whether `(i, j)` is a cell of the grid that nobody has marked.
    pub open spec fn vacant(self, i: int, j: int) -> bool {
        self.in_bounds(i, j) && self.cell(i, j) is None
    }

    /// Whether cell `(i, j)` holds the mark of the player to move.
    pub open spec fn owns(self, i: int, j: int) -> bool {
        self.cell(i, j) == Some(self.turn)
    }

    /// The board with the mark of the player to move in cell `(i, j)`.
    pub open spec fn place(self, i: int, j: int) -> Board {
        Board { cells: self.cells.update(i, self.cells[i].update(j, Some(self.turn))), ..self }
    }

    /// What an attempt to mark `(i, j)` answers: `Err(None)` outside the
    /// grid, `Err(Some(p))` where `p` already holds the cell, `Ok` on a
    /// vacant cell.
    pub open spec fn placement(self, i: int, j: int) -> Result<(), Option<Player>> {
        if !self.in_bounds(i, j) {
            Err(None)
        } else if self.cell(i, j) is Some {
            Err(self.cell(i, j))
        } else {
            Ok(())
        }
    }

    /// The board with the other player to move.
    pub open spec fn switched(self) -> Board {
        Board { turn: self.turn.other(), ..self }
    }

    /// The board with another way for the computer to choose.
    pub open spec fn with_policy(self, policy: AiPolicy) -> Board {
        Board { policy, ..self }
    }

    /// As many rows as columns.
    pub open spec fn square(self) -> bool {
        self.rows == self.cols
    }

    /// Every cell of row `i` holds the mark of the player to move.
    pub open spec fn row_complete(self, i: int) -> bool {
        forall|j: int| 0 <= j < self.cols ==> self.owns(i, j)
    }

    /// Every cell of column `j` holds the mark of the player to move.
    pub open spec fn col_complete(self, j: int) -> bool {
        forall|i: int| 0 <= i < self.rows ==> self.owns(i, j)
    }

    /// Every cell from the top left to the bottom right corner of a square
    /// board holds the mark of the player to move.
    pub open spec fn diagonal_complete(self) -> bool {
        forall|k: int| 0 <= k < self.rows ==> self.owns(k, k)
    }

    /// Every cell from the top right to the bottom left corner of a square
    /// board holds the mark of the player to move.
    pub open spec fn anti_diagonal_complete(self) -> bool {
        forall|k: int| 0 <= k < self.rows ==> self.owns_across(k)
    }

    /// Whether the cell of row `k` on the diagonal from the top right
    /// corner holds the mark of the player to move.
    pub open spec fn owns_across(self, k: int) -> bool {
        self.owns(k, self.cols - 1 - k)
    }

    /// Whether the player to move holds some row from end to end.
    pub open spec fn some_row_complete(self) -> bool {
        exists|i: int| 0 <= i < self.rows && self.row_complete(i)
    }

    /// Whether the player to move holds some column from end to end.
    pub open spec fn some_col_complete(self) -> bool {
        exists|j: int| 0 <= j < self.cols && self.col_complete(j)
    }

    /// Whether the grid has at least one cell.
    pub open spec fn has_cells(self) -> bool {
        self.rows > 0 && self.cols > 0
    }

    /// Whether the player to move holds a whole row or a whole column or,
    /// on a square board, one of the two diagonals. A board that is not
    /// square has no diagonals, and on a board without cells nobody has
    /// won: a line counts only where it has a cell.
    pub open spec fn won(self) -> bool {
        &&& self.has_cells()
        &&& {
            ||| self.some_row_complete()
            ||| self.some_col_complete()
            ||| self.square() && self.diagonal_complete()
            ||| self.square() && self.anti_diagonal_complete()
        }
    }

    /// How many cells are marked.
    pub open spec fn marks(self) -> nat {
        grid_marks(self.cells)
    }

    /// Whether no cell is left empty.
    pub open spec fn full(self) -> bool {
        forall|i: int, j: int| self.in_bounds(i, j) ==> self.cell(i, j) is Some
    }

    /// Whether `(i, j)` is the first vacant cell, rows from the top, each
    /// row from the left.
    pub open spec fn first_vacant(self, i: int, j: int) -> bool {
        &&& self.vacant(i, j)
        &&& forall|k: int, l: int|
            self.in_bounds(k, l) && before(k, l, i, j) ==> !self.vacant(k, l)
    }

    /// Whether the computer's policy allows it to choose `(i, j)`.
    pub open spec fn may_choose(self, i: int, j: int) -> bool {
        &&& self.vacant(i, j)
        &&& self.policy == AiPolicy::FirstEmpty ==> self.first_vacant(i, j)
    }

    /// The button of cell `(i, j)`.
    pub open spec fn hit_box(self, i: int, j: int) -> HitBox {
        button_at(i, j, self.sep as int, self.cell_size as int)
    }

    /// Whether `(i, j)` is the first cell, rows from the top, each row from
    /// the left, whose button covers the point `(x, y)`.
    pub open spec fn first_hit(self, i: int, j: int, x: int, y: int) -> bool {
        &&& self.in_bounds(i, j)
        &&& self.hit_box(i, j).covers(x, y)
        &&& forall|k: int, l: int|
            self.in_bounds(k, l) && before(k, l, i, j) ==> !self.hit_box(k, l).covers(x, y)
    }

    /// Whether no button covers the point `(x, y)`.
    pub open spec fn no_hit(self, x: int, y: int) -> bool {
        forall|k: int, l: int| self.in_bounds(k, l) ==> !self.hit_box(k, l).covers(x, y)
    }

    /// The board and the report once the player to move has marked the
    /// vacant cell `(i, j)`: a win leaves the board as it is, a draw clears
    /// it, and otherwise the turn passes on.
    pub open spec fn after_mark(self, i: int, j: int) -> (Board, Report) {
        let marked = self.place(i, j);
        if marked.won() {
            (marked, Some(Some(self.turn)))
        } else if marked.full() {
            (marked.restarted(), Some(None))
        } else {
            (marked.switched(), None)
        }
    }

    /// One move: on a vacant cell the mark is set and the game settled, and
    /// anywhere else nothing happens.
    pub open spec fn moved(self, i: int, j: int) -> (Board, Report) {
        if self.vacant(i, j) {
            self.after_mark(i, j)
        } else {
            (self, None)
        }
    }

    /// Whether the computer answers the move `(i, j)`: the move was taken,
    /// the game goes on, and the turn has come to the computer's side.
    pub open spec fn reply_due(self, i: int, j: int) -> bool {
        let (next, report) = self.moved(i, j);
        &&& self.vacant(i, j)
        &&& report is None
        &&& next.ai == Some(next.turn)
    }

    /// Whether a call to play `(i, j)` may end in `board` with `report`:
    /// the move itself, followed by one answer of the computer where it is
    /// due.
    pub open spec fn plays_to(self, i: int, j: int, board: Board, report: Report) -> bool {
        if self.reply_due(i, j) {
            let next = self.moved(i, j).0;
            exists|a: int, b: int| #[trigger]
                next.may_choose(a, b) && (board, report) == next.moved(a, b)
        } else {
            (board, report) == self.moved(i, j)
        }
    }

    /// Passing the turn does not change which cells are marked.
    pub proof fn lemma_full_ignores_turn(self)
        ensures
            self.switched().full() == self.full(),
    {
        let other = self.switched();
        if self.full() {
            assert forall|i: int, j: int| other.in_bounds(i, j) implies other.cell(i, j) is Some by {
                assert(self.in_bounds(i, j));
            }
        }
        if other.full() {
            assert forall|i: int, j: int| self.in_bounds(i, j) implies self.cell(i, j) is Some by {
                assert(other.in_bounds(i, j));
            }
        }
    }
}

} // verus!
