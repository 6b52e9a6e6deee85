//! The engine: the grid with its buttons, whose turn it is, and the moves.

use vstd::prelude::*;
use vstd::pervasive::unreached;
use crate::board::{grid_marks, row_marks, AiPolicy, Board};
use crate::chance::random_below;
use crate::geometry::{button_at, extent, geometry_fits, lemma_offset_bound, offset, HitBox};
use crate::player::Player;

verus! {

/// How many cells the computer draws at random before it settles for the
/// first vacant one.
pub const SAMPLE_LIMIT: u32 = 1_000_000;

/// A game of tic-tac-toe on a grid of buttons.
pub struct TicTacToe {
    whose_turn: Player,
    size: (u32, u32),
    grid: Vec<Vec<Option<Player>>>,
    buttons: Vec<Vec<HitBox>>,
    button_sep: u32,
    button_size: u32,
    ai_opponent: Option<Player>,
    ai_policy: AiPolicy,
}

impl View for TicTacToe {
    type V = Board;

    closed spec fn view(&self) -> Board {
        Board {
            rows: self.size.0 as nat,
            cols: self.size.1 as nat,
            cells: Seq::new(self.grid@.len(), |i: int| self.grid@[i]@),
            turn: self.whose_turn,
            sep: self.button_sep as nat,
            cell_size: self.button_size as nat,
            ai: self.ai_opponent,
            policy: self.ai_policy,
        }
    }
}

impl TicTacToe {
    /// The grid and the table of buttons have the declared dimensions, the
    /// corner of every button lies at coordinates that an `i32` holds, and
    /// each button lies where the layout puts it.
    pub closed spec fn wf(&self) -> bool {
        &&& geometry_fits(self.size, self.button_sep, self.button_size)
        &&& self.grid@.len() == self.size.0
        &&& self.buttons@.len() == self.size.0
        &&& forall|i: int|
            0 <= i < self.size.0 ==> (#[trigger] self.grid@[i])@.len() == self.size.1
        &&& forall|i: int|
            0 <= i < self.size.0 ==> (#[trigger] self.buttons@[i])@.len() == self.size.1
        &&& forall|i: int, j: int|
            0 <= i < self.size.0 && 0 <= j < self.size.1 ==> #[trigger] self.buttons@[i]@[j]
                == button_at(i, j, self.button_sep as int, self.button_size as int)
    }

    /// A well-formed game has a well-formed model, within the limits of the
    /// layout.
    pub proof fn lemma_view_wf(&self)
        requires
            self.wf(),
        ensures
            self@.wf(),
            self@.fits(),
    {
    }

    /// Tests whether the last button of a line of `n` starts at a
    /// coordinate that an `i32` holds.
    fn line_fits(n: u32, button_sep: u32, button_size: u32) -> (ok: bool)
        requires
            n >= 1,
        ensures
            ok == (offset(n - 1, button_sep as int, button_size as int) <= i32::MAX),
    {
        let last: u32 = n - 1;
        assert(button_size * last <= 0xffff_ffff * 0xffff_ffff) by (nonlinear_arith)
            requires
                button_size <= 0xffff_ffff,
                last <= 0xffff_ffff,
        ;
        assert(button_sep * n <= 0xffff_ffff * 0xffff_ffff) by (nonlinear_arith)
            requires
                button_sep <= 0xffff_ffff,
                n <= 0xffff_ffff,
        ;
        let buttons: u128 = button_size as u128 * last as u128;
        let gaps: u128 = button_sep as u128 * n as u128;
        buttons + gaps <= i32::MAX as u128
    }

    /// Tests whether a board of `size.0` rows and `size.1` columns, with
    /// the given gap between buttons and the given button side, can be
    /// laid out: whether the corner of every button lies at coordinates
    /// that an `i32` holds.
    pub fn fits(size: (u32, u32), button_sep: u32, button_size: u32) -> (ok: bool)
        ensures
            ok == geometry_fits(size, button_sep, button_size),
    {
        if size.0 == 0 || size.1 == 0 {
            return true;
        }
        Self::line_fits(size.0, button_sep, button_size) && Self::line_fits(
            size.1,
            button_sep,
            button_size,
        )
    }

    /// Starts a game on an empty grid of `size.0` rows and `size.1` columns,
    /// whose buttons are `button_size` pixels wide and `button_sep` pixels
    /// apart. Where the computer plays `ai_opponent`, the other side moves
    /// first; the computer draws its cells at random.
    ///
    /// The corner of every button must lie at coordinates that an `i32`
    /// holds, which `fits` tests.
    pub fn new_instance(
        size: (u32, u32),
        button_sep: u32,
        button_size: u32,
        ai_opponent: Option<Player>,
    ) -> (game: Self)
        requires
            geometry_fits(size, button_sep, button_size),
        ensures
            game.wf(),
            game@ == Board::fresh(
                size.0 as nat,
                size.1 as nat,
                button_sep as nat,
                button_size as nat,
                ai_opponent,
                AiPolicy::Random,
            ),
    {
        let mut grid: Vec<Vec<Option<Player>>> = Vec::with_capacity(size.0 as usize);
        let mut buttons: Vec<Vec<HitBox>> = Vec::with_capacity(size.0 as usize);
        let mut i: u32 = 0;
        while i < size.0
            invariant
                i <= size.0,
                geometry_fits(size, button_sep, button_size),
                grid@.len() == i,
                buttons@.len() == i,
                forall|k: int| 0 <= k < i ==> (#[trigger] grid@[k])@.len() == size.1,
                forall|k: int| 0 <= k < i ==> (#[trigger] buttons@[k])@.len() == size.1,
                forall|k: int, l: int|
                    0 <= k < i && 0 <= l < size.1 ==> (#[trigger] grid@[k]@[l]) is None,
                forall|k: int, l: int|
                    0 <= k < i && 0 <= l < size.1 ==> #[trigger] buttons@[k]@[l] == button_at(
                        k,
                        l,
                        button_sep as int,
                        button_size as int,
                    ),
            decreases size.0 - i,
        {
            let mut row: Vec<Option<Player>> = Vec::new();
            let mut boxes: Vec<HitBox> = Vec::new();
            let mut j: u32 = 0;
            while j < size.1
                invariant
                    i < size.0,
                    j <= size.1,
                    geometry_fits(size, button_sep, button_size),
                    row@.len() == j,
                    boxes@.len() == j,
                    forall|l: int| 0 <= l < j ==> (#[trigger] row@[l]) is None,
                    forall|l: int|
                        0 <= l < j ==> #[trigger] boxes@[l] == button_at(
                            i as int,
                            l,
                            button_sep as int,
                            button_size as int,
                        ),
                decreases size.1 - j,
            {
                proof {
                    lemma_offset_bound(
                        i as int,
                        size.0 as int,
                        button_sep as int,
                        button_size as int,
                    );
                    lemma_offset_bound(
                        j as int,
                        size.1 as int,
                        button_sep as int,
                        button_size as int,
                    );
                }
                row.push(None);
                boxes.push(
                    HitBox {
                        x: (button_size * j + button_sep * (j + 1)) as i32,
                        y: (button_size * i + button_sep * (i + 1)) as i32,
                        width: button_size,
                        height: button_size,
                    },
                );
                j += 1;
            }
            grid.push(row);
            buttons.push(boxes);
            i += 1;
        }
        let whose_turn = match ai_opponent {
            Some(opponent) => opponent.opposite(),
            None => Player::O,
        };
        let game = TicTacToe {
            whose_turn,
            size,
            grid,
            buttons,
            button_sep,
            button_size,
            ai_opponent,
            ai_policy: AiPolicy::Random,
        };
        assert(game@.cells =~~= Board::fresh(
            size.0 as nat,
            size.1 as nat,
            button_sep as nat,
            button_size as nat,
            ai_opponent,
            AiPolicy::Random,
        ).cells);
        game
    }

    /// Builds a new game with the configuration of this one: every cell
    /// empty, and the turn with the side that moves first. This game stays
    /// as it is.
    pub fn fresh(&self) -> (game: Self)
        requires
            self.wf(),
        ensures
            game.wf(),
            game@ == self@.restarted(),
    {
        let mut game = Self::new_instance(
            self.size,
            self.button_sep,
            self.button_size,
            self.ai_opponent,
        );
        game.ai_policy = self.ai_policy;
        game
    }

    /// Starts over: this game is replaced by a new one with the same
    /// configuration.
    pub fn restart(&mut self)
        requires
            old(self).wf(),
        ensures
            final(self).wf(),
            final(self)@ == old(self)@.restarted(),
    {
        *self = self.fresh();
    }

    /// Chooses how the computer picks its cell from now on.
    pub fn set_policy(&mut self, policy: AiPolicy)
        requires
            old(self).wf(),
        ensures
            final(self).wf(),
            final(self)@ == old(self)@.with_policy(policy),
    {
        self.ai_policy = policy;
    }

    /// Tests whether the size of the whole board in pixels can be told in
    /// `u32` along both axes.
    pub fn screen_fits(&self) -> (ok: bool)
        requires
            self.wf(),
        ensures
            ok == self@.screen_fits(),
    {
        let step: u64 = self.button_size as u64 + self.button_sep as u64;
        assert(self.size.0 * step <= 0xffff_ffff * 0x1_ffff_fffe) by (nonlinear_arith)
            requires
                self.size.0 <= 0xffff_ffff,
                step <= 0x1_ffff_fffe,
        ;
        assert(self.size.1 * step <= 0xffff_ffff * 0x1_ffff_fffe) by (nonlinear_arith)
            requires
                self.size.1 <= 0xffff_ffff,
                step <= 0x1_ffff_fffe,
        ;
        let first: u128 = self.size.0 as u128 * step as u128 + self.button_sep as u128;
        let second: u128 = self.size.1 as u128 * step as u128 + self.button_sep as u128;
        first <= u32::MAX as u128 && second <= u32::MAX as u128
    }

    /// Returns the size of the whole board in pixels, before any scaling:
    /// the extent of `size.0` buttons, then that of `size.1` buttons. Both
    /// must be numbers that a `u32` holds, which `screen_fits` tests.
    pub fn screen_size(&self) -> (pixels: (u32, u32))
        requires
            self.wf(),
            self@.screen_fits(),
        ensures
            pixels.0 == extent(self@.rows as int, self@.sep as int, self@.cell_size as int),
            pixels.1 == extent(self@.cols as int, self@.sep as int, self@.cell_size as int),
    {
        let step: u64 = self.button_size as u64 + self.button_sep as u64;
        assert(0 <= self.size.0 * step && 0 <= self.size.1 * step) by (nonlinear_arith)
            requires
                0 <= step,
        ;
        let first: u64 = self.size.0 as u64 * step + self.button_sep as u64;
        let second: u64 = self.size.1 as u64 * step + self.button_sep as u64;
        (first as u32, second as u32)
    }

    /// Finds the cell whose button was clicked at the pixel `(x, y)`: the
    /// first one that covers the point, rows from the top, each row from
    /// the left. `None` when the click missed every button.
    pub fn button_pressed(&self, x: i32, y: i32) -> (hit: Option<(usize, usize)>)
        requires
            self.wf(),
        ensures
            match hit {
                Some((i, j)) => self@.first_hit(i as int, j as int, x as int, y as int),
                None => self@.no_hit(x as int, y as int),
            },
    {
        let mut i: usize = 0;
        while i < self.buttons.len()
            invariant
                self.wf(),
                i <= self.buttons@.len(),
                forall|k: int, l: int|
                    0 <= k < i && 0 <= l < self@.cols ==> !self@.hit_box(k, l).covers(
                        x as int,
                        y as int,
                    ),
            decreases self.buttons@.len() - i,
        {
            let row = &self.buttons[i];
            let mut j: usize = 0;
            while j < row.len()
                invariant
                    self.wf(),
                    i < self.buttons@.len(),
                    row == self.buttons@[i as int],
                    j <= row@.len(),
                    forall|k: int, l: int|
                        0 <= k < i && 0 <= l < self@.cols ==> !self@.hit_box(k, l).covers(
                            x as int,
                            y as int,
                        ),
                    forall|l: int|
                        0 <= l < j ==> !self@.hit_box(i as int, l).covers(x as int, y as int),
                decreases row@.len() - j,
            {
                let button = &row[j];
                if button.contains(x, y) {
                    return Some((i, j));
                }
                j += 1;
            }
            i += 1;
        }
        None
    }

    /// Marks the cell `(i, j)` for the player to move. Outside the grid
    /// nothing is marked and `Err(None)` comes back; on a cell that `p`
    /// holds, `Err(Some(p))`. The turn stays where it is.
    pub fn try_place(&mut self, i: usize, j: usize) -> (placed: Result<(), Option<Player>>)
        requires
            old(self).wf(),
        ensures
            final(self).wf(),
            placed == old(self)@.placement(i as int, j as int),
            placed is Ok ==> final(self)@ == old(self)@.place(i as int, j as int),
            placed is Err ==> final(self)@ == old(self)@,
    {
        if i >= self.size.0 as usize || j >= self.size.1 as usize {
            Err(None)
        } else if let Some(player) = self.grid[i][j] {
            Err(Some(player))
        } else {
            self.grid[i][j] = Some(self.whose_turn);
            assert(self@.cells =~~= old(self)@.place(i as int, j as int).cells);
            Ok(())
        }
    }

    /// Tests whether every cell is marked.
    pub fn is_full(&self) -> (full: bool)
        requires
            self.wf(),
        ensures
            full == self@.full(),
    {
        let mut i: usize = 0;
        while i < self.size.0 as usize
            invariant
                self.wf(),
                i <= self.size.0,
                forall|k: int, l: int|
                    0 <= k < i && 0 <= l < self@.cols ==> self@.cell(k, l) is Some,
            decreases self.size.0 - i,
        {
            let mut j: usize = 0;
            while j < self.size.1 as usize
                invariant
                    self.wf(),
                    i < self.size.0,
                    j <= self.size.1,
                    forall|k: int, l: int|
                        0 <= k < i && 0 <= l < self@.cols ==> self@.cell(k, l) is Some,
                    forall|l: int| 0 <= l < j ==> self@.cell(i as int, l) is Some,
                decreases self.size.1 - j,
            {
                if self.grid[i][j].is_none() {
                    assert(self@.in_bounds(i as int, j as int));
                    return false;
                }
                j += 1;
            }
            i += 1;
        }
        true
    }

    /// Counts the marked cells.
    pub fn occupied(&self) -> (count: u64)
        requires
            self.wf(),
        ensures
            count == self@.marks(),
    {
        let mut count: u64 = 0;
        let mut i: usize = 0;
        while i < self.size.0 as usize
            invariant
                self.wf(),
                i <= self.size.0,
                count == grid_marks(self@.cells.take(i as int)),
                count <= i * 0xffff_ffff,
            decreases self.size.0 - i,
        {
            let mut in_row: u64 = 0;
            let mut j: usize = 0;
            while j < self.size.1 as usize
                invariant
                    self.wf(),
                    i < self.size.0,
                    j <= self.size.1,
                    in_row == row_marks(self@.cells[i as int].take(j as int)),
                    in_row <= j,
                decreases self.size.1 - j,
            {
                assert(self@.cells[i as int].take(j + 1).drop_last() =~= self@.cells[i as int].take(
                    j as int,
                ));
                if self.grid[i][j].is_some() {
                    in_row += 1;
                }
                j += 1;
            }
            assert(self@.cells[i as int].take(j as int) =~= self@.cells[i as int]);
            assert(self@.cells.take(i + 1).drop_last() =~= self@.cells.take(i as int));
            count += in_row;
            i += 1;
        }
        assert(self@.cells.take(i as int) =~= self@.cells);
        count
    }

    /// Passes the turn to the other player.
    pub fn switch_player(&mut self)
        requires
            old(self).wf(),
        ensures
            final(self).wf(),
            final(self)@ == old(self)@.switched(),
    {
        self.whose_turn = match self.whose_turn {
            Player::O => Player::X,
            Player::X => Player::O,
        };
    }

    /// Tests whether the player to move holds some row from end to end.
    fn has_full_row(&self) -> (found: bool)
        requires
            self.wf(),
        ensures
            found == self@.some_row_complete(),
    {
        let mut i: usize = 0;
        while i < self.size.0 as usize
            invariant
                self.wf(),
                i <= self.size.0,
                forall|k: int| 0 <= k < i ==> !self@.row_complete(k),
            decreases self.size.0 - i,
        {
            let mut row: bool = true;
            let mut j: usize = 0;
            while row && j < self.size.1 as usize
                invariant
                    self.wf(),
                    i < self.size.0,
                    j <= self.size.1,
                    row ==> forall|l: int| 0 <= l < j ==> self@.owns(i as int, l),
                    !row ==> !self@.row_complete(i as int),
                decreases self.size.1 - j,
            {
                if self.grid[i][j] != Some(self.whose_turn) {
                    assert(!self@.owns(i as int, j as int));
                    row = false;
                }
                j += 1;
            }
            if row {
                assert(self@.row_complete(i as int));
                return true;
            }
            i += 1;
        }
        false
    }

    /// Tests whether the player to move holds some column from end to end.
    fn has_full_column(&self) -> (found: bool)
        requires
            self.wf(),
        ensures
            found == self@.some_col_complete(),
    {
        let mut j: usize = 0;
        while j < self.size.1 as usize
            invariant
                self.wf(),
                j <= self.size.1,
                forall|l: int| 0 <= l < j ==> !self@.col_complete(l),
            decreases self.size.1 - j,
        {
            let mut column: bool = true;
            let mut i: usize = 0;
            while column && i < self.size.0 as usize
                invariant
                    self.wf(),
                    j < self.size.1,
                    i <= self.size.0,
                    column ==> forall|k: int| 0 <= k < i ==> self@.owns(k, j as int),
                    !column ==> !self@.col_complete(j as int),
                decreases self.size.0 - i,
            {
                if self.grid[i][j] != Some(self.whose_turn) {
                    assert(!self@.owns(i as int, j as int));
                    column = false;
                }
                i += 1;
            }
            if column {
                assert(self@.col_complete(j as int));
                return true;
            }
            j += 1;
        }
        false
    }

    /// Tests whether the player to move holds a whole row or a whole column
    /// or, on a square board, a whole diagonal. Meant to be asked right
    /// after that player's move, before the turn passes on. On a board
    /// without cells nobody has won.
    ///
    /// A square board is read in one pass: row `i` and column `i` together,
    /// with an early answer as soon as one of them is complete, and the two
    /// diagonals along the way. On any other board the rows are read first
    /// and the columns after them.
    pub fn has_won(&self) -> (won: bool)
        requires
            self.wf(),
        ensures
            won == self@.won(),
    {
        if self.size.0 == 0 || self.size.1 == 0 {
            return false;
        }
        if self.size.0 != self.size.1 {
            return self.has_full_row() || self.has_full_column();
        }
        let n: usize = self.size.0 as usize;
        let mut diagonal: bool = true;
        let mut across: bool = true;
        let mut i: usize = 0;
        while i < n
            invariant
                self.wf(),
                self@.square(),
                n == self.size.0,
                i <= n,
                diagonal == (forall|k: int| 0 <= k < i ==> self@.owns(k, k)),
                across == (forall|k: int| 0 <= k < i ==> self@.owns_across(k)),
                forall|k: int| 0 <= k < i ==> !self@.row_complete(k),
                forall|k: int| 0 <= k < i ==> !self@.col_complete(k),
            decreases n - i,
        {
            let mut row: bool = true;
            let mut column: bool = true;
            let mut j: usize = 0;
            while j < n
                invariant
                    self.wf(),
                    self@.square(),
                    n == self.size.0,
                    i < n,
                    j <= n,
                    row == (forall|l: int| 0 <= l < j ==> self@.owns(i as int, l)),
                    column == (forall|l: int| 0 <= l < j ==> self@.owns(l, i as int)),
                decreases n - j,
            {
                if row && self.grid[i][j] != Some(self.whose_turn) {
                    assert(!self@.owns(i as int, j as int));
                    row = false;
                }
                if column && self.grid[j][i] != Some(self.whose_turn) {
                    assert(!self@.owns(j as int, i as int));
                    column = false;
                }
                j += 1;
            }
            if row || column {
                assert(row ==> self@.row_complete(i as int));
                assert(column ==> self@.col_complete(i as int));
                return true;
            }
            if diagonal && self.grid[i][i] != Some(self.whose_turn) {
                assert(!self@.owns(i as int, i as int));
                diagonal = false;
            }
            if across && self.grid[i][n - 1 - i] != Some(self.whose_turn) {
                assert(!self@.owns_across(i as int));
                across = false;
            }
            i += 1;
        }
        diagonal || across
    }

    /// Tests whether `(i, j)` is a cell of the grid that nobody has marked.
    pub fn is_vacant(&self, i: usize, j: usize) -> (vacant: bool)
        requires
            self.wf(),
        ensures
            vacant == self@.vacant(i as int, j as int),
    {
        i < self.size.0 as usize && j < self.size.1 as usize && self.grid[i][j].is_none()
    }

    /// Finds the first vacant cell, rows from the top, each row from the
    /// left. `None` when the board is full.
    pub fn first_empty(&self) -> (found: Option<(usize, usize)>)
        requires
            self.wf(),
        ensures
            match found {
                Some((i, j)) => self@.first_vacant(i as int, j as int),
                None => self@.full(),
            },
    {
        let mut i: usize = 0;
        while i < self.size.0 as usize
            invariant
                self.wf(),
                i <= self.size.0,
                forall|k: int, l: int| 0 <= k < i && 0 <= l < self@.cols ==> !self@.vacant(k, l),
            decreases self.size.0 - i,
        {
            let mut j: usize = 0;
            while j < self.size.1 as usize
                invariant
                    self.wf(),
                    i < self.size.0,
                    j <= self.size.1,
                    forall|k: int, l: int|
                        0 <= k < i && 0 <= l < self@.cols ==> !self@.vacant(k, l),
                    forall|l: int| 0 <= l < j ==> !self@.vacant(i as int, l),
                decreases self.size.1 - j,
            {
                if self.grid[i][j].is_none() {
                    return Some((i, j));
                }
                j += 1;
            }
            i += 1;
        }
        assert forall|k: int, l: int| self@.in_bounds(k, l) implies self@.cell(k, l) is Some by {
            assert(!self@.vacant(k, l));
        }
        None
    }

    /// Chooses a vacant cell for the computer. Under `AiPolicy::FirstEmpty`
    /// it is the first vacant cell. Under `AiPolicy::Random` cells are drawn
    /// at random until a vacant one comes up; after `SAMPLE_LIMIT` draws
    /// without one, the first vacant cell is taken.
    pub fn optimal_move(&self) -> (choice: (usize, usize))
        requires
            self.wf(),
            !self@.full(),
        ensures
            self@.may_choose(choice.0 as int, choice.1 as int),
    {
        if self.ai_policy == AiPolicy::Random {
            let mut draws: u32 = 0;
            while draws < SAMPLE_LIMIT
                invariant
                    self.wf(),
                    !self@.full(),
                    self.ai_policy == AiPolicy::Random,
                decreases SAMPLE_LIMIT - draws,
            {
                let i: usize = random_below(self.size.0) as usize;
                let j: usize = random_below(self.size.1) as usize;
                if self.is_vacant(i, j) {
                    return (i, j);
                }
                draws += 1;
            }
        }
        match self.first_empty() {
            Some(cell) => cell,
            None => unreached(),
        }
    }

    /// Plays the cell `(i, j)` for the player to move. Where the cell
    /// cannot be marked, nothing happens and `None` comes back. Otherwise
    /// the mark is set; if that wins the game, `Some(Some(p))` names the
    /// winner `p` and the board stays as it is; if it fills the board, the
    /// board is cleared and `Some(None)` comes back; else the turn passes
    /// on, and where it passes to the computer, the computer plays one cell
    /// of its choice in the same way at once.
    pub fn play(&mut self, i: usize, j: usize) -> (report: Option<Option<Player>>)
        requires
            old(self).wf(),
        ensures
            final(self).wf(),
            old(self)@.plays_to(i as int, j as int, final(self)@, report),
        decreases
            (if old(self)@.ai == Some(old(self)@.turn.other()) {
                1nat
            } else {
                0nat
            }),
    {
        if self.try_place(i, j).is_ok() {
            if self.has_won() {
                Some(Some(self.whose_turn))
            } else if self.is_full() {
                self.restart();
                Some(None)
            } else {
                proof {
                    self@.lemma_full_ignores_turn();
                }
                self.switch_player();
                if Some(self.whose_turn) == self.ai_opponent {
                    let ai_move = self.optimal_move();
                    self.play(ai_move.0, ai_move.1)
                } else {
                    None
                }
            }
        } else {
            None
        }
    }

    /// The cells, row by row.
    pub fn grid(&self) -> (cells: &Vec<Vec<Option<Player>>>)
        requires
            self.wf(),
        ensures
            cells@.len() == self@.rows,
            forall|i: int| 0 <= i < self@.rows ==> (#[trigger] cells@[i])@ == self@.cells[i],
    {
        &self.grid
    }

    /// The buttons of the cells, row by row.
    pub fn buttons(&self) -> (boxes: &Vec<Vec<HitBox>>)
        requires
            self.wf(),
        ensures
            boxes@.len() == self@.rows,
            forall|i: int| 0 <= i < self@.rows ==> (#[trigger] boxes@[i])@.len() == self@.cols,
            forall|i: int, j: int|
                self@.in_bounds(i, j) ==> #[trigger] boxes@[i]@[j] == self@.hit_box(i, j),
    {
        &self.buttons
    }

    /// The player whose move is accepted next.
    pub fn whose_turn(&self) -> (p: Player)
        ensures
            p == self@.turn,
    {
        self.whose_turn
    }

    /// The numbers of rows and of columns.
    pub fn size(&self) -> (size: (u32, u32))
        ensures
            size.0 == self@.rows,
            size.1 == self@.cols,
    {
        self.size
    }

    /// The player that the computer plays, if any.
    pub fn ai_opponent(&self) -> (ai: Option<Player>)
        ensures
            ai == self@.ai,
    {
        self.ai_opponent
    }
}

} // verus!
