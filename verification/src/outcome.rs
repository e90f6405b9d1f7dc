//! The evaluator that derives the game state from a grid snapshot.

use vstd::prelude::*;
use crate::grid::Grid;
use crate::tile::Tile;

verus! {

/// The derived status of a game: still open, won by one of the markers, or
/// ended with a full grid and no winner.
#[derive(Clone, Copy, Debug, PartialEq, Eq, Structural)]
pub enum GameState {
    Playing,
    CookieWon,
    MilkWon,
    EndedNoWinner,
}

/// Whether row `r` is a complete line: four equal, non-empty tiles.
pub open spec fn row_complete(g: Seq<Seq<Tile>>, r: int) -> bool {
    &&& g[r][0] == g[r][1]
    &&& g[r][1] == g[r][2]
    &&& g[r][2] == g[r][3]
    &&& !(g[r][0] is Empty)
}

/// Whether column `c` is a complete line: four equal, non-empty tiles.
pub open spec fn col_complete(g: Seq<Seq<Tile>>, c: int) -> bool {
    &&& g[0][c] == g[1][c]
    &&& g[1][c] == g[2][c]
    &&& g[2][c] == g[3][c]
    &&& !(g[0][c] is Empty)
}

/// Whether the top-left to bottom-right diagonal is a complete line. This is
/// the only diagonal the evaluator looks at: four in the anti-diagonal never
/// end the game.
pub open spec fn diag_complete(g: Seq<Seq<Tile>>) -> bool {
    &&& g[0][0] == g[1][1]
    &&& g[1][1] == g[2][2]
    &&& g[2][2] == g[3][3]
    &&& !(g[0][0] is Empty)
}

/// Whether every cell of the grid is occupied.
pub open spec fn grid_full(g: Seq<Seq<Tile>>) -> bool {
    forall|r: int, c: int| 0 <= r < 4 && 0 <= c < 4 ==> !((#[trigger] g[r][c]) is Empty)
}

/// The winning state for the marker `t`.
pub open spec fn win_of(t: Tile) -> GameState {
    if t is Cookie {
        GameState::CookieWon
    } else {
        GameState::MilkWon
    }
}

/// The state the evaluator derives from a grid, with its fixed check order:
/// the diagonal first, then the rows from top to bottom, then the columns
/// from left to right; a grid without a complete line is a draw when full
/// and an open game otherwise.
pub open spec fn eval_grid(g: Seq<Seq<Tile>>) -> GameState {
    if diag_complete(g) {
        win_of(g[0][0])
    } else if row_complete(g, 0) {
        win_of(g[0][0])
    } else if row_complete(g, 1) {
        win_of(g[1][0])
    } else if row_complete(g, 2) {
        win_of(g[2][0])
    } else if row_complete(g, 3) {
        win_of(g[3][0])
    } else if col_complete(g, 0) {
        win_of(g[0][0])
    } else if col_complete(g, 1) {
        win_of(g[0][1])
    } else if col_complete(g, 2) {
        win_of(g[0][2])
    } else if col_complete(g, 3) {
        win_of(g[0][3])
    } else if grid_full(g) {
        GameState::EndedNoWinner
    } else {
        GameState::Playing
    }
}

/// The view of a raw tile matrix, as [`Grid`] itself views it.
pub open spec fn tiles_view(tiles: [[Tile; 4]; 4]) -> Seq<Seq<Tile>> {
    Seq::new(4, |r: int| Seq::new(4, |c: int| tiles[r][c]))
}

/// Computes the state of a grid snapshot: the first complete line decides
/// the winner, a full grid without one is a draw, anything else is an open
/// game.
pub fn get_game_state(grid: &[[Tile; 4]; 4]) -> (s: GameState)
    ensures
        s == eval_grid(tiles_view(*grid)),
{
    let ghost g = tiles_view(*grid);

    // check the top-left to bottom-right diagonal
    if grid[0][0] == grid[1][1] && grid[1][1] == grid[2][2] && grid[2][2] == grid[3][3]
        && grid[0][0] != Tile::Empty {
        return if grid[0][0] == Tile::Cookie {
            GameState::CookieWon
        } else {
            GameState::MilkWon
        };
    }

    // check the rows, top to bottom
    let mut i: usize = 0;
    while i < 4
        invariant
            i <= 4,
            g == tiles_view(*grid),
            !diag_complete(g),
            forall|j: int| 0 <= j < i ==> !row_complete(g, j),
        decreases 4 - i,
    {
        if grid[i][0] == grid[i][1] && grid[i][1] == grid[i][2] && grid[i][2] == grid[i][3]
            && grid[i][0] != Tile::Empty {
            return if grid[i][0] == Tile::Cookie {
                GameState::CookieWon
            } else {
                GameState::MilkWon
            };
        }
        i = i + 1;
    }

    // check the columns, left to right
    let mut i: usize = 0;
    while i < 4
        invariant
            i <= 4,
            g == tiles_view(*grid),
            !diag_complete(g),
            forall|j: int| 0 <= j < 4 ==> !row_complete(g, j),
            forall|j: int| 0 <= j < i ==> !col_complete(g, j),
        decreases 4 - i,
    {
        if grid[0][i] == grid[1][i] && grid[1][i] == grid[2][i] && grid[2][i] == grid[3][i]
            && grid[0][i] != Tile::Empty {
            return if grid[0][i] == Tile::Cookie {
                GameState::CookieWon
            } else {
                GameState::MilkWon
            };
        }
        i = i + 1;
    }

    // no complete line: a full grid is a draw, anything else an open game
    let mut r: usize = 0;
    while r < 4
        invariant
            r <= 4,
            g == tiles_view(*grid),
            !diag_complete(g),
            forall|j: int| 0 <= j < 4 ==> !row_complete(g, j),
            forall|j: int| 0 <= j < 4 ==> !col_complete(g, j),
            forall|rr: int, cc: int| 0 <= rr < r && 0 <= cc < 4 ==> !((#[trigger] g[rr][cc]) is Empty),
        decreases 4 - r,
    {
        let mut c: usize = 0;
        while c < 4
            invariant
                r < 4,
                c <= 4,
                g == tiles_view(*grid),
                !diag_complete(g),
                forall|j: int| 0 <= j < 4 ==> !row_complete(g, j),
                forall|j: int| 0 <= j < 4 ==> !col_complete(g, j),
                forall|rr: int, cc: int| 0 <= rr < r && 0 <= cc < 4 ==> !((#[trigger] g[rr][cc]) is Empty),
                forall|cc: int| 0 <= cc < c ==> !((#[trigger] g[r as int][cc]) is Empty),
            decreases 4 - c,
        {
            if grid[r][c] == Tile::Empty {
                proof {
                    assert(g[r as int][c as int] is Empty);
                    assert(!grid_full(g));
                }
                return GameState::Playing;
            }
            c = c + 1;
        }
        r = r + 1;
    }
    assert(grid_full(g));
    GameState::EndedNoWinner
}

/// Convenience form of the evaluator for a [`Grid`] value.
pub fn evaluate(grid: &Grid) -> (s: GameState)
    ensures
        s == eval_grid(grid@),
{
    let s = get_game_state(&grid.tiles);
    proof {
        assert(tiles_view(grid.tiles) =~~= grid@);
    }
    s
}

} // verus!
