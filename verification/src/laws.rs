//! General properties of the engine, stated and proved over the abstract
//! model: gravity is preserved and makes the full-grid test a top-row test, a
//! column fills bottom-up and then refuses a fifth piece, a reported winner
//! always owns a complete line, and the random fill is total and a function
//! of the generator state alone.

use vstd::prelude::*;

use crate::fill::{fill_grid, fill_winner};
use crate::model::{
    anti_line, col_full, col_line, diag_line, drop_row, grid_all_empty, grid_dims, grid_full,
    grid_update, grid_wf, gravity_ok, has_line, row_line, spec_check, spec_place, top_row_full,
    Cell, Error, GameState, Grid, Status,
};
use crate::render::{rendered, rendered_status};
use crate::rng::RandomSource;

verus! {

/// A piece landing on a column's drop row preserves well-formedness:
/// everything below the landing cell is occupied, and everything above it
/// stays empty.
#[verifier::rlimit(50)]
pub proof fn lemma_drop_preserves_wf(g: Grid, col: int, team: Cell)
    requires
        grid_wf(g),
        0 <= col < 4,
        !col_full(g, col),
    ensures
        grid_wf(grid_update(g, drop_row(g, col), col, team)),
{
    let dr = drop_row(g, col);
    let g2 = grid_update(g, dr, col, team);
    assert(g[dr][col] == Cell::Empty);
    assert forall|r: int, c: int|
        0 <= r < 3 && 0 <= c < 4 && #[trigger] g2[r][c] != Cell::Empty implies g2[r + 1][c]
        != Cell::Empty by {
        assert(g2[r][c] == if r == dr && c == col { team } else { g[r][c] });
        assert(g2[r + 1][c] == if r + 1 == dr && c == col { team } else { g[r + 1][c] });
    }
    assert(grid_wf(g2));
}

/// Placement preserves well-formedness: a piece lands exactly on top of the
/// filled part of its column, so gravity still holds afterwards.
pub proof fn lemma_place_preserves_wf(s: GameState, team: Cell, col: int)
    requires
        grid_wf(s.grid),
        0 <= col < 4,
    ensures
        grid_wf(spec_place(s, team, col).0.grid),
{
    if s.status is InProgress && !col_full(s.grid, col) {
        lemma_drop_preserves_wf(s.grid, col, team);
    }
}

/// Under gravity, the grid is completely full exactly when its top row holds
/// no empty cell.
pub proof fn lemma_full_iff_top_row_full(g: Grid)
    requires
        grid_dims(g),
        gravity_ok(g),
    ensures
        grid_full(g) <==> top_row_full(g),
{
    if top_row_full(g) {
        assert forall|r: int, c: int| 0 <= r < 4 && 0 <= c < 4 implies #[trigger] g[r][c]
            != Cell::Empty by {
            assert(g[0][c] != Cell::Empty);
            if r >= 1 {
                assert(g[1][c] != Cell::Empty);
            }
            if r >= 2 {
                assert(g[2][c] != Cell::Empty);
            }
            if r >= 3 {
                assert(g[3][c] != Cell::Empty);
            }
        }
    }
}

/// The anchored check never names a winner without a complete line: when it
/// reports `Finished(w)` with a non-empty `w`, some full line of the grid
/// consists of `w` pieces.
pub proof fn lemma_winner_has_line(g: Grid, row: int, col: int)
    requires
        grid_dims(g),
        0 <= row < 4,
        0 <= col < 4,
    ensures
        spec_check(g, row, col) matches Status::Finished(w) ==> (w != Cell::Empty ==> has_line(
            g,
            w,
        )),
{
    if row_line(g, row) {
        assert(g[row][col] == g[row][0]);
        assert(has_line(g, g[row][col]));
    } else if col_line(g, col) {
        assert(g[row][col] == g[0][col]);
        assert(has_line(g, g[row][col]));
    } else if row == col && diag_line(g) {
        assert(g[row][col] == g[0][0]);
        assert(has_line(g, g[row][col]));
    } else if row + col == 3 && anti_line(g) {
        assert(g[row][col] == g[0][3]);
        assert(has_line(g, g[row][col]));
    }
}

/// A placement never reports a winner without a completed line of that team:
/// starting from a game in progress, if the placed-on state is `Finished(w)`
/// with a non-empty `w`, the new grid holds a full line of `w`.
pub proof fn lemma_place_winner_has_line(s: GameState, team: Cell, col: int)
    requires
        grid_dims(s.grid),
        s.status is InProgress,
        0 <= col < 4,
    ensures
        spec_place(s, team, col).0.status matches Status::Finished(w) ==> (w != Cell::Empty
            ==> has_line(spec_place(s, team, col).0.grid, w)),
{
    if !col_full(s.grid, col) {
        let dr = drop_row(s.grid, col);
        let g2 = grid_update(s.grid, dr, col, team);
        assert(grid_dims(g2));
        lemma_winner_has_line(g2, dr, col);
    }
}

/// The cells a single column holds after its first `filled` pieces, on a
/// board that is otherwise empty: exactly the lowest `filled` cells of the
/// column are occupied.
pub open spec fn single_column_partial(g: Grid, col: int, filled: int) -> bool {
    &&& grid_dims(g)
    &&& forall|r: int, c: int|
        0 <= r < 4 && 0 <= c < 4 ==> ((#[trigger] g[r][c]) != Cell::Empty <==> (c == col && r >= 4
            - filled))
}

/// While a lone column holds one to three pieces, the check anchored at its
/// topmost piece detects nothing.
proof fn lemma_single_column_check_in_progress(g: Grid, col: int, filled: int)
    requires
        0 <= col < 4,
        1 <= filled <= 3,
        single_column_partial(g, col, filled),
    ensures
        spec_check(g, 4 - filled, col) is InProgress,
{
    let row = 4 - filled;
    assert(g[row][1] == Cell::Empty || g[row][0] == Cell::Empty);
    assert(!row_line(g, row));
    assert(g[0][col] == Cell::Empty);
    assert(!col_line(g, col));
    assert(g[0][0] == Cell::Empty);
    assert(g[0][3] == Cell::Empty);
}

/// From the empty board, four successive placements into one column — by any
/// sequence of teams — fill it bottom-up, landing in rows 3, 2, 1 and 0, and
/// a fifth placement into the same column always fails with `Conflict` and
/// leaves the state unchanged.
pub proof fn lemma_column_fills_bottom_up(
    s0: GameState,
    col: int,
    t1: Cell,
    t2: Cell,
    t3: Cell,
    t4: Cell,
    t5: Cell,
)
    requires
        grid_dims(s0.grid),
        grid_all_empty(s0.grid),
        s0.status is InProgress,
        0 <= col < 4,
        t1 != Cell::Empty,
        t2 != Cell::Empty,
        t3 != Cell::Empty,
        t4 != Cell::Empty,
        t5 != Cell::Empty,
    ensures
        ({
            let (s1, r1) = spec_place(s0, t1, col);
            let (s2, r2) = spec_place(s1, t2, col);
            let (s3, r3) = spec_place(s2, t3, col);
            let (s4, r4) = spec_place(s3, t4, col);
            let (s5, r5) = spec_place(s4, t5, col);
            &&& r1 == Ok::<usize, Error>(3)
            &&& r2 == Ok::<usize, Error>(2)
            &&& r3 == Ok::<usize, Error>(1)
            &&& r4 == Ok::<usize, Error>(0)
            &&& r5 == Err::<usize, Error>(Error::Conflict)
            &&& s5 == s4
        }),
{
    let (s1, r1) = spec_place(s0, t1, col);
    assert(s0.grid[3][col] == Cell::Empty);
    assert(!col_full(s0.grid, col));
    assert(drop_row(s0.grid, col) == 3);
    assert(single_column_partial(s1.grid, col, 1));
    lemma_single_column_check_in_progress(s1.grid, col, 1);
    assert(s1.status is InProgress);

    let (s2, r2) = spec_place(s1, t2, col);
    assert(s1.grid[3][col] != Cell::Empty && s1.grid[2][col] == Cell::Empty);
    assert(drop_row(s1.grid, col) == 2);
    assert(single_column_partial(s2.grid, col, 2));
    lemma_single_column_check_in_progress(s2.grid, col, 2);
    assert(s2.status is InProgress);

    let (s3, r3) = spec_place(s2, t3, col);
    assert(s2.grid[3][col] != Cell::Empty && s2.grid[2][col] != Cell::Empty && s2.grid[1][col]
        == Cell::Empty);
    assert(drop_row(s2.grid, col) == 1);
    assert(single_column_partial(s3.grid, col, 3));
    lemma_single_column_check_in_progress(s3.grid, col, 3);
    assert(s3.status is InProgress);

    let (s4, r4) = spec_place(s3, t4, col);
    assert(s3.grid[3][col] != Cell::Empty && s3.grid[2][col] != Cell::Empty && s3.grid[1][col]
        != Cell::Empty && s3.grid[0][col] == Cell::Empty);
    assert(drop_row(s3.grid, col) == 0);
    assert(r4 == Ok::<usize, Error>(0));

    let (s5, r5) = spec_place(s4, t5, col);
    assert(col_full(s4.grid, col));
    assert(r5 == Err::<usize, Error>(Error::Conflict) && s5 == s4);
}

/// The trailing status line is empty exactly while the game is in progress.
pub proof fn lemma_status_line_empty_iff_in_progress(st: Status)
    ensures
        rendered_status(st).len() == 0 <==> st is InProgress,
{
    reveal_strlit("\n");
}

/// A fresh state — every cell empty, game in progress — renders as four rows
/// of empty cells inside the border, the border line, and no status line.
pub proof fn lemma_fresh_render(s: GameState)
    requires
        grid_dims(s.grid),
        grid_all_empty(s.grid),
        s.status is InProgress,
    ensures
        rendered(s) == "⬜⬛⬛⬛⬛⬜\n⬜⬛⬛⬛⬛⬜\n⬜⬛⬛⬛⬛⬜\n⬜⬛⬛⬛⬛⬜\n⬜⬜⬜⬜⬜⬜\n"@,
{
    reveal_strlit("⬜");
    reveal_strlit("⬛");
    reveal_strlit("⬜\n");
    reveal_strlit("⬜⬜⬜⬜⬜⬜\n");
    reveal_strlit("⬜⬛⬛⬛⬛⬜\n⬜⬛⬛⬛⬛⬜\n⬜⬛⬛⬛⬛⬜\n⬜⬛⬛⬛⬛⬜\n⬜⬜⬜⬜⬜⬜\n");
    assert(rendered(s) =~= "⬜⬛⬛⬛⬛⬜\n⬜⬛⬛⬛⬛⬜\n⬜⬛⬛⬛⬛⬜\n⬜⬛⬛⬛⬛⬜\n⬜⬜⬜⬜⬜⬜\n"@);
}

/// Random fills drawn from two generators in the same abstract state — as
/// after two resets with the fixed seed — yield the same grid, the same
/// winner, and hence the same rendered text.
pub proof fn lemma_fill_deterministic(a: RandomSource, b: RandomSource, s: GameState, t: GameState)
    requires
        a.seed() == b.seed(),
        a.count() == b.count(),
        s.grid == fill_grid(a.seed(), a.count(), 16),
        s.status == Status::Finished(fill_winner(a.seed(), a.count(), 16)),
        t.grid == fill_grid(b.seed(), b.count(), 16),
        t.status == Status::Finished(fill_winner(b.seed(), b.count(), 16)),
    ensures
        s == t,
        rendered(s) == rendered(t),
{
    assert(s =~= t);
}

/// The random fill is total: no cell of the filled grid is empty, and the
/// reported status renders as a non-empty status line — a winner's label or
/// the no-winner label.
pub proof fn lemma_fill_total(seed: u64, start: nat)
    ensures
        grid_full(fill_grid(seed, start, 16)),
        fill_winner(seed, start, 16) != Cell::Empty ==> has_line(
            fill_grid(seed, start, 16),
            fill_winner(seed, start, 16),
        ),
        rendered_status(Status::Finished(fill_winner(seed, start, 16))).len() > 0,
{
    reveal_strlit("\n");
    assert(grid_full(fill_grid(seed, start, 16)));
    lemma_fill_winner_has_line(seed, start, 16);
}

/// Every winner the running fill scan records owns a complete line of the
/// grid as filled so far — and the fill never unmakes a line, so the line
/// still stands in the final grid.
proof fn lemma_fill_winner_has_line(seed: u64, start: nat, n: nat)
    requires
        n <= 16,
    ensures
        fill_winner(seed, start, n) != Cell::Empty ==> has_line(
            fill_grid(seed, start, 16),
            fill_winner(seed, start, n),
        ),
    decreases n,
{
    if n != 0 {
        let k = (n - 1) as nat;
        let g = fill_grid(seed, start, n);
        assert(grid_dims(g));
        match spec_check(g, k as int / 4, k as int % 4) {
            Status::Finished(w) => {
                if w != Cell::Empty {
                    lemma_winner_has_line(g, k as int / 4, k as int % 4);
                    lemma_fill_extends_line(seed, start, n, w);
                }
            },
            Status::InProgress => {
                lemma_fill_winner_has_line(seed, start, k);
            },
        }
    }
}

/// A line of non-empty cells present after `n` fill steps is still present
/// in the fully filled grid: later steps only write cells that were empty.
proof fn lemma_fill_extends_line(seed: u64, start: nat, n: nat, w: Cell)
    requires
        n <= 16,
        w != Cell::Empty,
        has_line(fill_grid(seed, start, n), w),
    ensures
        has_line(fill_grid(seed, start, 16), w),
{
    let g = fill_grid(seed, start, n);
    let h = fill_grid(seed, start, 16);
    assert forall|r: int, c: int|
        0 <= r < 4 && 0 <= c < 4 && #[trigger] g[r][c] != Cell::Empty implies h[r][c] == g[r][
        c] by {}
    if exists|r: int| 0 <= r < 4 && #[trigger] row_line(g, r) && g[r][0] == w {
        let r = choose|r: int| 0 <= r < 4 && #[trigger] row_line(g, r) && g[r][0] == w;
        assert(forall|c: int| 0 <= c < 4 ==> #[trigger] h[r][c] == g[r][c]);
        assert(row_line(h, r) && h[r][0] == w);
    } else if exists|c: int| 0 <= c < 4 && #[trigger] col_line(g, c) && g[0][c] == w {
        let c = choose|c: int| 0 <= c < 4 && #[trigger] col_line(g, c) && g[0][c] == w;
        assert(forall|r: int| 0 <= r < 4 ==> #[trigger] h[r][c] == g[r][c]);
        assert(col_line(h, c) && h[0][c] == w);
    } else if diag_line(g) && g[0][0] == w {
        assert(forall|i: int| 0 <= i < 4 ==> #[trigger] h[i][i] == g[i][i]);
        assert(diag_line(h) && h[0][0] == w);
    } else {
        assert(anti_line(g) && g[0][3] == w);
        assert(forall|i: int, j: int|
            0 <= i < 4 && i + j == 3 ==> #[trigger] h[i][j] == g[i][j]);
        assert(anti_line(h) && h[0][3] == w);
    }
}

} // verus!
