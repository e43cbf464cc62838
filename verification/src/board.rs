//! The board: a 4x4 grid of cells plus the current status, with gravity
//! insertion, the anchored win/draw check, and the placement operations.

use vstd::prelude::*;

use crate::model::{
    anti_line, col_full, col_line, diag_line, drop_row, grid_all_empty, grid_update, grid_wf,
    row_line, spec_check, spec_place, top_row_full, Cell, Error, GameState, Status,
};

verus! {

broadcast use vstd::array::group_array_axioms;

/// The board that the engine mutates: row 0 is the top row, row 3 the
/// bottom. Its abstract value is a [`GameState`].
#[derive(Clone, Copy, Debug)]
pub struct Board {
    pub grid: [[Cell; 4]; 4],
    pub status: Status,
}

impl View for Board {
    type V = GameState;

    open spec fn view(&self) -> GameState {
        GameState {
            grid: Seq::new(4, |r: int| Seq::new(4, |c: int| self.grid[r][c])),
            status: self.status,
        }
    }
}

impl Default for Board {
    /// The fresh board: all cells empty, game in progress.
    fn default() -> (r: Board)
        ensures
            r@.status == Status::InProgress,
            grid_all_empty(r@.grid),
            grid_wf(r@.grid),
    {
        let row = [Cell::Empty, Cell::Empty, Cell::Empty, Cell::Empty];
        let b = Board { grid: [row, row, row, row], status: Status::InProgress };
        proof {
            assert(forall|r: int, c: int|
                0 <= r < 4 && 0 <= c < 4 ==> #[trigger] b@.grid[r][c] == Cell::Empty);
        }
        b
    }
}

impl Board {
    /// Restore the fresh state: every cell empty, game in progress.
    pub fn reset(&mut self)
        ensures
            final(self)@.status == Status::InProgress,
            grid_all_empty(final(self)@.grid),
            grid_wf(final(self)@.grid),
    {
        *self = Board::default();
    }

    /// Drop a piece for `team` into column `col`: the piece settles into the
    /// lowest empty cell of the column and its row index comes back; a full
    /// column refuses the piece and leaves the board unchanged. The status is
    /// not consulted and not touched.
    #[verifier::rlimit(50)]
    pub fn insert(&mut self, team: Cell, col: usize) -> (r: Option<usize>)
        requires
            col < 4,
        ensures
            col_full(old(self)@.grid, col as int) ==> {
                &&& r is None
                &&& final(self)@ == old(self)@
            },
            !col_full(old(self)@.grid, col as int) ==> {
                &&& r == Some(drop_row(old(self)@.grid, col as int) as usize)
                &&& final(self)@.grid == grid_update(
                    old(self)@.grid,
                    drop_row(old(self)@.grid, col as int),
                    col as int,
                    team,
                )
                &&& final(self)@.status == old(self)@.status
            },
            grid_wf(old(self)@.grid) ==> grid_wf(final(self)@.grid),
    {
        let ghost g0 = self@.grid;
        proof {
            assert(g0[0][col as int] == self.grid[0][col as int]);
            assert(g0[1][col as int] == self.grid[1][col as int]);
            assert(g0[2][col as int] == self.grid[2][col as int]);
            assert(g0[3][col as int] == self.grid[3][col as int]);
        }
        let mut row: usize = 4;
        if self.grid[3][col] == Cell::Empty {
            row = 3;
        } else if self.grid[2][col] == Cell::Empty {
            row = 2;
        } else if self.grid[1][col] == Cell::Empty {
            row = 1;
        } else if self.grid[0][col] == Cell::Empty {
            row = 0;
        }
        if row == 4 {
            assert(col_full(g0, col as int));
            return None;
        }
        assert(!col_full(g0, col as int));
        assert(row as int == drop_row(g0, col as int));
        self.grid[row][col] = team;
        proof {
            assert(self@.grid =~~= grid_update(g0, row as int, col as int, team));
            if grid_wf(g0) {
                crate::laws::lemma_drop_preserves_wf(g0, col as int, team);
            }
        }
        Some(row)
    }

    /// Evaluate the win/draw status anchored at the cell (`row`, `col`) that
    /// received the most recent piece. Only the four lines through that cell
    /// are read, so the check is constant-time; a full top row with no line
    /// found is a draw when the anchor sits in row 0.
    pub fn check(&self, row: usize, col: usize) -> (s: Status)
        requires
            row < 4,
            col < 4,
        ensures
            s == spec_check(self@.grid, row as int, col as int),
    {
        let ghost g0 = self@.grid;
        proof {
            lemma_view_cells(*self);
        }
        let g = &self.grid;
        if g[row][0] != Cell::Empty && g[row][0] == g[row][1] && g[row][1] == g[row][2] && g[row][2]
            == g[row][3] {
            assert(row_line(g0, row as int));
            return Status::Finished(g[row][col]);
        }
        assert(!row_line(g0, row as int));
        if g[0][col] != Cell::Empty && g[0][col] == g[1][col] && g[1][col] == g[2][col] && g[2][col]
            == g[3][col] {
            assert(col_line(g0, col as int));
            return Status::Finished(g[row][col]);
        }
        assert(!col_line(g0, col as int));
        if row == col && g[0][0] != Cell::Empty && g[0][0] == g[1][1] && g[1][1] == g[2][2] && g[2][2]
            == g[3][3] {
            assert(diag_line(g0));
            return Status::Finished(g[row][col]);
        }
        if row + col == 3 && g[0][3] != Cell::Empty && g[0][3] == g[1][2] && g[1][2] == g[2][1]
            && g[2][1] == g[3][0] {
            assert(anti_line(g0));
            return Status::Finished(g[row][col]);
        }
        assert(row as int + col as int == 3 ==> !anti_line(g0));
        assert(row as int == col as int ==> !diag_line(g0));
        if row == 0 && g[0][0] != Cell::Empty && g[0][1] != Cell::Empty && g[0][2] != Cell::Empty
            && g[0][3] != Cell::Empty {
            assert(top_row_full(g0));
            return Status::Finished(Cell::Empty);
        }
        assert(row == 0 ==> !top_row_full(g0));
        Status::InProgress
    }

    /// Place a piece for `team` into (0-based) column `column`: a finished
    /// game or a full column refuses the move with `Conflict` and leaves the
    /// board unchanged; otherwise the piece settles at the column's drop row,
    /// whose index comes back, and the status is re-evaluated anchored there.
    pub fn place(&mut self, team: Cell, column: usize) -> (r: Result<usize, Error>)
        requires
            column < 4,
            team != Cell::Empty,
        ensures
            (final(self)@, r) == spec_place(old(self)@, team, column as int),
            r is Err <==> (old(self)@.status is Finished || col_full(
                old(self)@.grid,
                column as int,
            )),
            r is Err ==> r == Err::<usize, Error>(Error::Conflict) && final(self)@ == old(self)@,
            grid_wf(old(self)@.grid) ==> grid_wf(final(self)@.grid),
    {
        match self.status {
            Status::Finished(_) => {
                return Err(Error::Conflict);
            },
            Status::InProgress => {},
        }
        match self.insert(team, column) {
            Some(row) => {
                let s = self.check(row, column);
                self.status = s;
                proof {
                    assert(self@ =~~= spec_place(old(self)@, team, column as int).0);
                }
                Ok(row)
            },
            None => Err(Error::Conflict),
        }
    }
}

impl Board {
    /// Handle an external placement request: `team` is the parsed team token
    /// (`None` when the token named neither team) and `column` the external
    /// 1-based column index. Validation is the caller layer's and comes
    /// first: an out-of-range column, then a team that names neither side,
    /// are `InvalidInput` whatever the board holds; only a valid request
    /// reaches the engine, which answers `Conflict` on a finished game or a
    /// full column. The board is untouched unless the placement happens.
    pub fn place_request(&mut self, team: Option<Cell>, column: usize) -> (r: Result<usize, Error>)
        ensures
            (column < 1 || column > 4) ==> {
                &&& r == Err::<usize, Error>(Error::InvalidInput)
                &&& final(self)@ == old(self)@
            },
            1 <= column <= 4 && !(team matches Some(t) && t != Cell::Empty) ==> {
                &&& r == Err::<usize, Error>(Error::InvalidInput)
                &&& final(self)@ == old(self)@
            },
            1 <= column <= 4 && (team matches Some(t) && t != Cell::Empty) ==> (final(self)@, r)
                == spec_place(old(self)@, team.unwrap(), column as int - 1),
    {
        if column < 1 || column > 4 {
            return Err(Error::InvalidInput);
        }
        let t = match team {
            Some(Cell::Cookie) => Cell::Cookie,
            Some(Cell::Milk) => Cell::Milk,
            _ => {
                return Err(Error::InvalidInput);
            },
        };
        self.place(t, column - 1)
    }
}

/// Each cell of a board's abstract grid is the corresponding cell of its
/// concrete array.
proof fn lemma_view_cells(b: Board)
    ensures
        b@.grid[0][0] == b.grid[0][0],
        b@.grid[0][1] == b.grid[0][1],
        b@.grid[0][2] == b.grid[0][2],
        b@.grid[0][3] == b.grid[0][3],
        b@.grid[1][0] == b.grid[1][0],
        b@.grid[1][1] == b.grid[1][1],
        b@.grid[1][2] == b.grid[1][2],
        b@.grid[1][3] == b.grid[1][3],
        b@.grid[2][0] == b.grid[2][0],
        b@.grid[2][1] == b.grid[2][1],
        b@.grid[2][2] == b.grid[2][2],
        b@.grid[2][3] == b.grid[2][3],
        b@.grid[3][0] == b.grid[3][0],
        b@.grid[3][1] == b.grid[3][1],
        b@.grid[3][2] == b.grid[3][2],
        b@.grid[3][3] == b.grid[3][3],
{
}

} // verus!
