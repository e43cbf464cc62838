//! The deterministic random fill: populate the whole grid row-major from the
//! top, one drawn boolean per cell, re-running the anchored status check
//! after each cell. Every positive detection overwrites the running winner,
//! so the final status reports the last line detected during the fill — or a
//! draw when the scan never detected one. The result is a function of the
//! generator's seed and position alone.

use vstd::prelude::*;

use crate::board::Board;
use crate::model::{grid_full, grid_update, grid_wf, spec_check, Cell, Grid, Status};
use crate::rng::{std_draw, RandomSource};

verus! {

broadcast use vstd::array::group_array_axioms;

/// The cell that fill step `k` writes: `Cookie` on a true draw, `Milk` on a
/// false one. `start` is the generator's position before the fill began.
pub open spec fn fill_cell(seed: u64, start: nat, k: nat) -> Cell {
    if std_draw(seed, (start + k) as nat) {
        Cell::Cookie
    } else {
        Cell::Milk
    }
}

/// The grid after the first `n` of the sixteen fill steps: the cells are
/// written row-major from the top, and the rest are still empty.
pub open spec fn fill_grid(seed: u64, start: nat, n: nat) -> Grid {
    Seq::new(
        4,
        |r: int|
            Seq::new(
                4,
                |c: int|
                    if 4 * r + c < n {
                        fill_cell(seed, start, (4 * r + c) as nat)
                    } else {
                        Cell::Empty
                    },
            ),
    )
}

/// The running winner after the first `n` fill steps. Each step runs the
/// anchored check on the grid so far, and every detection — winner or draw —
/// overwrites the value, so this is the outcome of the last step whose check
/// detected anything.
pub open spec fn fill_winner(seed: u64, start: nat, n: nat) -> Cell
    decreases n,
{
    if n == 0 {
        Cell::Empty
    } else {
        let k = (n - 1) as nat;
        match spec_check(fill_grid(seed, start, n), k as int / 4, k as int % 4) {
            Status::Finished(w) => w,
            Status::InProgress => fill_winner(seed, start, k),
        }
    }
}

/// Build a fully-populated board from sixteen draws of `rng`: no cell of the
/// result is empty, and its status is always `Finished` — with the winner of
/// the last line the anchored scan detected, or `Empty` (a draw) when it
/// never detected one. The result is pinned by the generator's seed and
/// position, which is what makes random fills after a reseed reproducible.
#[verifier::rlimit(30)]
pub fn random_fill(rng: &mut RandomSource) -> (b: Board)
    ensures
        final(rng).seed() == old(rng).seed(),
        final(rng).count() == old(rng).count() + 16,
        b@.grid == fill_grid(old(rng).seed(), old(rng).count(), 16),
        b@.status == Status::Finished(fill_winner(old(rng).seed(), old(rng).count(), 16)),
        grid_full(b@.grid),
        grid_wf(b@.grid),
{
    let ghost seed = rng.seed();
    let ghost start = rng.count();
    let mut board = Board::default();
    let mut winner = Cell::Empty;
    proof {
        assert(board@.grid =~~= fill_grid(seed, start, 0));
    }
    let mut k: usize = 0;
    while k < 16
        invariant
            k <= 16,
            rng.seed() == seed,
            rng.count() == start + k,
            board@.status == Status::InProgress,
            board@.grid == fill_grid(seed, start, k as nat),
            winner == fill_winner(seed, start, k as nat),
        decreases 16 - k,
    {
        let row = k / 4;
        let col = k % 4;
        assert(4 * row + col == k);
        let draw = rng.next_bool();
        let team = if draw {
            Cell::Cookie
        } else {
            Cell::Milk
        };
        assert(team == fill_cell(seed, start, k as nat));
        let ghost gpre = board@.grid;
        board.grid[row][col] = team;
        proof {
            assert(board@.grid =~~= grid_update(gpre, row as int, col as int, team));
            assert forall|r: int, c: int| 0 <= r < 4 && 0 <= c < 4 implies board@.grid[r][c]
                == fill_grid(seed, start, (k + 1) as nat)[r][c] by {
                if !(r == row as int && c == col as int) {
                    assert(4 * r + c != k);
                    assert(board@.grid[r][c] == fill_grid(seed, start, k as nat)[r][c]);
                }
            }
            assert(board@.grid =~~= fill_grid(seed, start, (k + 1) as nat));
        }
        match board.check(row, col) {
            Status::Finished(w) => {
                winner = w;
            },
            Status::InProgress => {},
        }
        k = k + 1;
    }
    board.status = Status::Finished(winner);
    proof {
        assert(grid_full(board@.grid));
    }
    board
}

} // verus!
