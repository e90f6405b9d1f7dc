//! The 4x4 matrix of tiles and the gravity drop into a column.

use vstd::prelude::*;
use crate::tile::Tile;

verus! {

/// Whether `g` has the fixed dimensions of a grid: 4 rows of 4 tiles.
pub open spec fn grid_wf(g: Seq<Seq<Tile>>) -> bool {
    &&& g.len() == 4
    &&& forall|r: int| 0 <= r < 4 ==> (#[trigger] g[r]).len() == 4
}

/// The grid with every cell empty.
pub open spec fn empty_grid() -> Seq<Seq<Tile>> {
    seq![
        seq![Tile::Empty, Tile::Empty, Tile::Empty, Tile::Empty],
        seq![Tile::Empty, Tile::Empty, Tile::Empty, Tile::Empty],
        seq![Tile::Empty, Tile::Empty, Tile::Empty, Tile::Empty],
        seq![Tile::Empty, Tile::Empty, Tile::Empty, Tile::Empty],
    ]
}

/// The row that a marker dropped into column `c` lands in: the bottommost
/// empty cell of the column (row 3 is the visual bottom), or -1 when the
/// column holds no empty cell.
pub open spec fn drop_row_of(g: Seq<Seq<Tile>>, c: int) -> int {
    if g[3][c] is Empty {
        3
    } else if g[2][c] is Empty {
        2
    } else if g[1][c] is Empty {
        1
    } else if g[0][c] is Empty {
        0
    } else {
        -1
    }
}

/// The grid after dropping `t` into column `c`: the landing cell now holds
/// `t`, every other cell is unchanged.
pub open spec fn place_in_grid(g: Seq<Seq<Tile>>, c: int, t: Tile) -> Seq<Seq<Tile>> {
    let r = drop_row_of(g, c);
    g.update(r, g[r].update(c, t))
}

/// How many of the four cells of column `c` are empty.
pub open spec fn empties_in_column(g: Seq<Seq<Tile>>, c: int) -> int {
    (if g[0][c] is Empty { 1int } else { 0int })
    + (if g[1][c] is Empty { 1int } else { 0int })
    + (if g[2][c] is Empty { 1int } else { 0int })
    + (if g[3][c] is Empty { 1int } else { 0int })
}

/// The fixed 4x4 matrix of tiles. Row 0 is the visual top, row 3 the visual
/// bottom; a dropped marker fills the bottommost empty cell of its column.
#[derive(Clone, Copy)]
pub struct Grid {
    pub tiles: [[Tile; 4]; 4],
}

impl View for Grid {
    type V = Seq<Seq<Tile>>;

    open spec fn view(&self) -> Seq<Seq<Tile>> {
        Seq::new(4, |r: int| Seq::new(4, |c: int| self.tiles[r][c]))
    }
}

impl Grid {
    /// A fresh grid of empty cells.
    pub fn new() -> (g: Grid)
        ensures
            g@ == empty_grid(),
    {
        let g = Grid {
            tiles: [
                [Tile::Empty, Tile::Empty, Tile::Empty, Tile::Empty],
                [Tile::Empty, Tile::Empty, Tile::Empty, Tile::Empty],
                [Tile::Empty, Tile::Empty, Tile::Empty, Tile::Empty],
                [Tile::Empty, Tile::Empty, Tile::Empty, Tile::Empty],
            ],
        };
        proof {
            assert(g@ =~~= empty_grid());
        }
        g
    }

    /// The tile in row `r`, column `c`.
    pub fn cell(&self, r: usize, c: usize) -> (t: Tile)
        requires
            r < 4,
            c < 4,
        ensures
            t == self@[r as int][c as int],
    {
        self.tiles[r][c]
    }

    /// The row a marker dropped into column `c` would land in, scanning the
    /// column from the bottom row upward for the first empty cell; `None`
    /// when the column is full.
    pub fn drop_row(&self, c: usize) -> (r: Option<usize>)
        requires
            c < 4,
        ensures
            r is Some ==> r->0 == drop_row_of(self@, c as int),
            r is None ==> drop_row_of(self@, c as int) == -1,
    {
        let mut row: usize = 4;
        while row > 0
            invariant
                row <= 4,
                c < 4,
                forall|rr: int| row <= rr < 4 ==> !((#[trigger] self@[rr])[c as int] is Empty),
            decreases row,
        {
            row = row - 1;
            if self.tiles[row][c] == Tile::Empty {
                return Some(row);
            }
        }
        None
    }

    /// Overwrites the cell in row `r`, column `c` with `t`.
    pub fn set(&mut self, r: usize, c: usize, t: Tile)
        requires
            r < 4,
            c < 4,
        ensures
            final(self)@ == old(self)@.update(r as int, old(self)@[r as int].update(c as int, t)),
    {
        let mut row_tiles = self.tiles[r];
        row_tiles[c] = t;
        self.tiles[r] = row_tiles;
        proof {
            assert(self@ =~~= old(self)@.update(r as int, old(self)@[r as int].update(c as int, t)));
        }
    }
}

} // verus!
