//! Board geometry: cells, the playable area and the header-row policy.

use vstd::prelude::*;

verus! {

/// A grid cell as (column, row).
pub type Position = (u16, u16);

/// How many rows at the top of the board the game keeps for itself.
#[derive(Clone, Copy, Debug, PartialEq, Eq, Structural)]
pub enum Layout {
    /// Every row is playable.
    FullBoard,
    /// Rows 0 and 1 hold the score line and its rule.
    ScoreHeader,
}

/// Number of rows that a score header takes.
pub const HEADER_ROWS: u16 = 2;

impl Layout {
    /// The first playable row.
    pub open spec fn top_spec(self) -> int {
        match self {
            Layout::FullBoard => 0,
            Layout::ScoreHeader => HEADER_ROWS as int,
        }
    }

    pub fn top(&self) -> (r: u16)
        ensures
            r as int == self.top_spec(),
    {
        match self {
            Layout::FullBoard => 0,
            Layout::ScoreHeader => HEADER_ROWS,
        }
    }
}

/// Whether the point (x, y) lies in the playable part of a board of the given size.
pub open spec fn in_board(x: int, y: int, width: u16, height: u16, layout: Layout) -> bool {
    &&& 0 <= x < width
    &&& layout.top_spec() <= y < height
}

/// Whether `p` is one of the cells of `body`.
pub open spec fn occupies(body: Seq<Position>, p: Position) -> bool {
    exists|i: int| 0 <= i < body.len() && body[i] == p
}

} // verus!
