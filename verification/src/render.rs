//! Rendering a board as text: one line per row, each framed by a border
//! glyph, a full border line below, and a trailing status line — empty while
//! the game is in progress, otherwise the winner's label or the draw label.
//! The glyphs and labels are part of the external interface and must be
//! reproduced exactly.

use vstd::prelude::*;
use vstd::string::StringExecFns;

use crate::board::Board;
use crate::model::{Cell, GameState, Grid, Status};

verus! {

/// The glyph a cell renders as.
pub open spec fn cell_glyph(c: Cell) -> Seq<char> {
    match c {
        Cell::Empty => "⬛"@,
        Cell::Cookie => "🍪"@,
        Cell::Milk => "🥛"@,
    }
}

/// The label a finished game reports for `w`: the winning team's glyph, or a
/// fixed no-winner label when `w` is `Empty` (a draw).
pub open spec fn winner_label(w: Cell) -> Seq<char> {
    match w {
        Cell::Cookie => "🍪 wins!"@,
        Cell::Milk => "🥛 wins!"@,
        Cell::Empty => "No winner."@,
    }
}

/// One rendered grid row: a border glyph, the four cells, a border glyph and
/// a line break.
pub open spec fn rendered_row(g: Grid, r: int) -> Seq<char> {
    "⬜"@ + cell_glyph(g[r][0]) + cell_glyph(g[r][1]) + cell_glyph(g[r][2]) + cell_glyph(g[r][3])
        + "⬜\n"@
}

/// The trailing status line: empty while the game is in progress, otherwise
/// the winner label and a line break.
pub open spec fn rendered_status(s: Status) -> Seq<char> {
    match s {
        Status::InProgress => Seq::empty(),
        Status::Finished(w) => winner_label(w) + "\n"@,
    }
}

/// The full rendered text of a state: the four rows top to bottom, a full
/// border line, and the status line.
pub open spec fn rendered(s: GameState) -> Seq<char> {
    rendered_row(s.grid, 0) + rendered_row(s.grid, 1) + rendered_row(s.grid, 2) + rendered_row(
        s.grid,
        3,
    ) + "⬜⬜⬜⬜⬜⬜\n"@ + rendered_status(s.status)
}

impl Cell {
    /// The glyph this cell renders as.
    pub fn glyph(&self) -> (s: &'static str)
        ensures
            s@ == cell_glyph(*self),
    {
        match self {
            Cell::Empty => "⬛",
            Cell::Cookie => "🍪",
            Cell::Milk => "🥛",
        }
    }

    /// The status-line label reported when a finished game's outcome is this
    /// cell: the winning team's glyph, or the no-winner label for a draw.
    pub fn winner(&self) -> (s: String)
        ensures
            s@ == winner_label(*self),
    {
        match self {
            Cell::Cookie => String::from_str("🍪 wins!"),
            Cell::Milk => String::from_str("🥛 wins!"),
            Cell::Empty => String::from_str("No winner."),
        }
    }
}

impl Board {
    /// Render this board as its exact textual form.
    pub fn render(&self) -> (out: String)
        ensures
            out@ == rendered(self@),
    {
        let mut out = String::new();
        self.render_row_into(0, &mut out);
        self.render_row_into(1, &mut out);
        self.render_row_into(2, &mut out);
        self.render_row_into(3, &mut out);
        out.append("⬜⬜⬜⬜⬜⬜\n");
        match self.status {
            Status::InProgress => {},
            Status::Finished(w) => {
                let label = w.winner();
                out.append(label.as_str());
                out.append("\n");
            },
        }
        proof {
            assert(out@ =~= rendered(self@));
        }
        out
    }

    /// Append the rendered form of row `r` to `out`.
    fn render_row_into(&self, r: usize, out: &mut String)
        requires
            r < 4,
        ensures
            final(out)@ == old(out)@ + rendered_row(self@.grid, r as int),
    {
        out.append("⬜");
        out.append(self.grid[r][0].glyph());
        out.append(self.grid[r][1].glyph());
        out.append(self.grid[r][2].glyph());
        out.append(self.grid[r][3].glyph());
        out.append("⬜\n");
        proof {
            assert(self@.grid[r as int][0] == self.grid[r as int][0]);
            assert(self@.grid[r as int][1] == self.grid[r as int][1]);
            assert(self@.grid[r as int][2] == self.grid[r as int][2]);
            assert(self@.grid[r as int][3] == self.grid[r as int][3]);
            assert(out@ =~= old(out)@ + rendered_row(self@.grid, r as int));
        }
    }
}

} // verus!
