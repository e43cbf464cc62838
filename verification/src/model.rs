//! The mathematical model of the game: cells, statuses, the abstract grid
//! (a sequence of four rows of four cells), the gravity invariant, and the
//! win/draw rules as specification functions.

use vstd::prelude::*;

verus! {

/// One position of the grid: empty, or owned by one of the two teams.
#[derive(Clone, Copy, Debug, PartialEq, Eq, Structural)]
pub enum Cell {
    Empty,
    Cookie,
    Milk,
}

impl Default for Cell {
    fn default() -> (r: Cell)
        ensures
            r == Cell::Empty,
    {
        Cell::Empty
    }
}

/// The game status. `Finished(w)` with a non-`Empty` `w` names the winner;
/// `Finished(Cell::Empty)` is a draw.
#[derive(Clone, Copy, Debug, PartialEq, Eq, Structural)]
pub enum Status {
    InProgress,
    Finished(Cell),
}

impl Default for Status {
    fn default() -> (r: Status)
        ensures
            r == Status::InProgress,
    {
        Status::InProgress
    }
}

/// The two recoverable error kinds: a malformed team or column in a request,
/// and a placement that the current state refuses (full column, or a game
/// that already finished).
#[derive(Clone, Copy, Debug, PartialEq, Eq, Structural)]
pub enum Error {
    InvalidInput,
    Conflict,
}

/// The abstract grid: four rows (row 0 on top) of four cells each.
pub type Grid = Seq<Seq<Cell>>;

/// The abstract state of a board: its grid and its status.
#[verifier::ext_equal]
pub struct GameState {
    pub grid: Grid,
    pub status: Status,
}

/// The grid has four rows of four cells.
pub open spec fn grid_dims(g: Grid) -> bool {
    &&& g.len() == 4
    &&& forall|r: int| 0 <= r < 4 ==> (#[trigger] g[r]).len() == 4
}

/// Gravity: a cell is non-empty only if every cell below it in its column is
/// non-empty, i.e. the empty cells of a column sit contiguously on top.
pub open spec fn gravity_ok(g: Grid) -> bool {
    forall|r: int, c: int|
        0 <= r < 3 && 0 <= c < 4 && #[trigger] g[r][c] != Cell::Empty ==> g[r + 1][c] != Cell::Empty
}

/// A well-formed grid: right dimensions, and gravity respected.
pub open spec fn grid_wf(g: Grid) -> bool {
    grid_dims(g) && gravity_ok(g)
}

/// All sixteen cells are empty.
pub open spec fn grid_all_empty(g: Grid) -> bool {
    forall|r: int, c: int| 0 <= r < 4 && 0 <= c < 4 ==> #[trigger] g[r][c] == Cell::Empty
}

/// No cell of the grid is empty.
pub open spec fn grid_full(g: Grid) -> bool {
    forall|r: int, c: int| 0 <= r < 4 && 0 <= c < 4 ==> #[trigger] g[r][c] != Cell::Empty
}

/// The top row holds no empty cell.
pub open spec fn top_row_full(g: Grid) -> bool {
    forall|c: int| 0 <= c < 4 ==> #[trigger] g[0][c] != Cell::Empty
}

/// Column `c` holds no empty cell.
pub open spec fn col_full(g: Grid, c: int) -> bool {
    forall|r: int| 0 <= r < 4 ==> #[trigger] g[r][c] != Cell::Empty
}

/// Row `r` is a win line: its first cell is non-empty and all four are equal.
pub open spec fn row_line(g: Grid, r: int) -> bool {
    &&& g[r][0] != Cell::Empty
    &&& forall|c: int| 0 <= c < 4 ==> #[trigger] g[r][c] == g[r][0]
}

/// Column `c` is a win line: its top cell is non-empty and all four are equal.
pub open spec fn col_line(g: Grid, c: int) -> bool {
    &&& g[0][c] != Cell::Empty
    &&& forall|r: int| 0 <= r < 4 ==> #[trigger] g[r][c] == g[0][c]
}

/// The main diagonal (i, i) is a win line.
pub open spec fn diag_line(g: Grid) -> bool {
    &&& g[0][0] != Cell::Empty
    &&& forall|i: int| 0 <= i < 4 ==> #[trigger] g[i][i] == g[0][0]
}

/// The anti-diagonal — the cells (i, j) with i + j == 3 — is a win line.
pub open spec fn anti_line(g: Grid) -> bool {
    &&& g[0][3] != Cell::Empty
    &&& forall|i: int, j: int| 0 <= i < 4 && i + j == 3 ==> #[trigger] g[i][j] == g[0][3]
}

/// Some complete line of the grid consists of four `w` pieces.
pub open spec fn has_line(g: Grid, w: Cell) -> bool {
    ||| exists|r: int| 0 <= r < 4 && #[trigger] row_line(g, r) && g[r][0] == w
    ||| exists|c: int| 0 <= c < 4 && #[trigger] col_line(g, c) && g[0][c] == w
    ||| diag_line(g) && g[0][0] == w
    ||| anti_line(g) && g[0][3] == w
}

/// The win/draw detector, anchored at the most recently placed cell
/// (`row`, `col`). The four lines through that cell are tested in a fixed
/// order — row, column, main diagonal, anti-diagonal — and the first match
/// names the winner; with no match, a full top row at a row-0 anchor is a
/// draw, and anything else leaves the game in progress.
pub open spec fn spec_check(g: Grid, row: int, col: int) -> Status {
    if row_line(g, row) {
        Status::Finished(g[row][col])
    } else if col_line(g, col) {
        Status::Finished(g[row][col])
    } else if row == col && diag_line(g) {
        Status::Finished(g[row][col])
    } else if row + col == 3 && anti_line(g) {
        Status::Finished(g[row][col])
    } else if row == 0 && top_row_full(g) {
        Status::Finished(Cell::Empty)
    } else {
        Status::InProgress
    }
}

/// The row where a piece dropped into column `c` settles: the lowest empty
/// cell of the column (row 3 is the bottom). Meaningful only when the column
/// is not full.
pub open spec fn drop_row(g: Grid, c: int) -> int {
    if g[3][c] == Cell::Empty {
        3
    } else if g[2][c] == Cell::Empty {
        2
    } else if g[1][c] == Cell::Empty {
        1
    } else {
        0
    }
}

/// The grid with the cell at (`r`, `c`) replaced by `v`.
pub open spec fn grid_update(g: Grid, r: int, c: int, v: Cell) -> Grid {
    g.update(r, g[r].update(c, v))
}

/// One placement step on the abstract state: a finished game or a full
/// column refuses the move with `Conflict` and leaves the state unchanged;
/// otherwise the piece settles at the column's drop row and the status is
/// re-evaluated anchored there.
pub open spec fn spec_place(s: GameState, team: Cell, col: int) -> (GameState, Result<usize, Error>) {
    if !(s.status is InProgress) {
        (s, Err(Error::Conflict))
    } else if col_full(s.grid, col) {
        (s, Err(Error::Conflict))
    } else {
        let r = drop_row(s.grid, col);
        let g2 = grid_update(s.grid, r, col, team);
        (GameState { grid: g2, status: spec_check(g2, r, col) }, Ok(r as usize))
    }
}

} // verus!
