//! The textual snapshot of a board.
//!
//! Each of the four rows is emitted top to bottom as a left border glyph,
//! the four tile glyphs, a right border glyph and a line break; then one
//! full border line; then, if and only if the game has ended, one trailing
//! message line.

use vstd::prelude::*;
use vstd::string::StrSliceExecFns;
use vstd::string::StringExecFns;
use crate::board::{BoardState, BoardView};
use crate::grid::Grid;
use crate::outcome::GameState;
use crate::tile::Tile;

verus! {

/// The glyph sequence a tile renders as.
pub open spec fn tile_glyph(t: Tile) -> Seq<char> {
    match t {
        Tile::Empty => "⬛"@,
        Tile::Cookie => "🍪"@,
        Tile::Milk => "🥛"@,
    }
}

/// One rendered row: border, four tiles, border, line break.
pub open spec fn render_row_spec(g: Seq<Seq<Tile>>, r: int) -> Seq<char> {
    "⬜"@ + tile_glyph(g[r][0]) + tile_glyph(g[r][1]) + tile_glyph(g[r][2]) + tile_glyph(g[r][3])
        + "⬜\n"@
}

/// The first `n` rendered rows, top to bottom.
pub open spec fn rows_prefix(g: Seq<Seq<Tile>>, n: int) -> Seq<char>
    decreases n,
{
    if n <= 0 {
        Seq::empty()
    } else {
        rows_prefix(g, n - 1) + render_row_spec(g, n - 1)
    }
}

/// The trailing line of the snapshot: empty while the game is open, a fixed
/// message once it has ended.
pub open spec fn message_spec(s: GameState) -> Seq<char> {
    match s {
        GameState::Playing => Seq::empty(),
        GameState::CookieWon => "🍪 wins!\n"@,
        GameState::MilkWon => "🥛 wins!\n"@,
        GameState::EndedNoWinner => "No winner!\n"@,
    }
}

/// The whole snapshot of a board value.
pub open spec fn render_spec(v: BoardView) -> Seq<char> {
    rows_prefix(v.grid, 4) + "⬜⬜⬜⬜⬜⬜\n"@ + message_spec(v.state)
}

/// The glyph of a tile, as a string slice.
pub fn tile_str(t: Tile) -> (s: &'static str)
    ensures
        s@ == tile_glyph(t),
{
    match t {
        Tile::Empty => "⬛",
        Tile::Cookie => "🍪",
        Tile::Milk => "🥛",
    }
}

/// Renders row `r` of the grid.
fn render_row(grid: &Grid, r: usize) -> (s: String)
    requires
        r < 4,
    ensures
        s@ == render_row_spec(grid@, r as int),
{
    let mut s = String::new();
    s.append("⬜");
    s.append(tile_str(grid.cell(r, 0)));
    s.append(tile_str(grid.cell(r, 1)));
    s.append(tile_str(grid.cell(r, 2)));
    s.append(tile_str(grid.cell(r, 3)));
    s.append("⬜\n");
    proof {
        assert(s@ =~= render_row_spec(grid@, r as int));
    }
    s
}

/// Renders the snapshot of a grid/state pair.
pub fn render_board(grid: &Grid, state: GameState) -> (s: String)
    ensures
        s@ == render_spec((BoardView { grid: grid@, state: state })),
{
    let mut s = String::new();
    let mut r: usize = 0;
    while r < 4
        invariant
            r <= 4,
            s@ == rows_prefix(grid@, r as int),
        decreases 4 - r,
    {
        let row = render_row(grid, r);
        s.append(row.as_str());
        proof {
            assert(s@ =~= rows_prefix(grid@, r as int + 1));
        }
        r = r + 1;
    }
    s.append("⬜⬜⬜⬜⬜⬜\n");
    match state {
        GameState::CookieWon => s.append("🍪 wins!\n"),
        GameState::MilkWon => s.append("🥛 wins!\n"),
        GameState::EndedNoWinner => s.append("No winner!\n"),
        GameState::Playing => {},
    }
    proof {
        assert(s@ =~= render_spec((BoardView { grid: grid@, state: state })));
    }
    s
}

impl BoardState {
    /// The snapshot of this pair. Reading never mutates: the receiver is a
    /// shared reference.
    pub fn render(&self) -> (s: String)
        ensures
            s@ == render_spec(self@),
    {
        render_board(&self.grid, self.state)
    }
}

} // verus!
