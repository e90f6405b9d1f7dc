//! One cell of the grid: empty, or occupied by one of the two markers.

use vstd::prelude::*;

verus! {

/// The contents of one grid cell. A cell starts [`Tile::Empty`] and is filled
/// with the marker of whichever team drops into its column first.
#[derive(Clone, Copy, Debug, PartialEq, Eq, Structural)]
pub enum Tile {
    Empty,
    Cookie,
    Milk,
}

/// The glyph that stands for a tile in the rendered board.
pub open spec fn tile_char(t: Tile) -> char {
    match t {
        Tile::Empty => '⬛',
        Tile::Cookie => '🍪',
        Tile::Milk => '🥛',
    }
}

/// The marker named by a team token: exactly `"cookie"` and `"milk"` are
/// recognized, every other token maps to `None`.
pub open spec fn team_tile(s: Seq<char>) -> Option<Tile> {
    if s == "cookie"@ {
        Some(Tile::Cookie)
    } else if s == "milk"@ {
        Some(Tile::Milk)
    } else {
        None
    }
}

impl Tile {
    /// A tile that may be dropped by a team: one of the two markers.
    pub open spec fn is_marker(self) -> bool {
        self is Cookie || self is Milk
    }

    /// The glyph of this tile.
    pub fn to_emoji(self) -> (c: char)
        ensures
            c == tile_char(self),
    {
        match self {
            Tile::Empty => '⬛',
            Tile::Cookie => '🍪',
            Tile::Milk => '🥛',
        }
    }

    /// The marker named by `team`, or `None` for an unknown token.
    pub fn from_team(team: &str) -> (r: Option<Tile>)
        ensures
            r == team_tile(team@),
            r is Some ==> r->0.is_marker(),
    {
        if str_eq(team, "cookie") {
            Some(Tile::Cookie)
        } else if str_eq(team, "milk") {
            Some(Tile::Milk)
        } else {
            None
        }
    }
}

/// Character-wise equality of two string slices.
pub fn str_eq(a: &str, b: &str) -> (r: bool)
    ensures
        r == (a@ == b@),
{
    let a_len = a.unicode_len();
    let b_len = b.unicode_len();
    if a_len != b_len {
        return false;
    }
    let mut i: usize = 0;
    while i < a_len
        invariant
            0 <= i <= a_len,
            a_len == a@.len(),
            a_len == b@.len(),
            forall|j: int| 0 <= j < i ==> a@[j] == b@[j],
        decreases a_len - i,
    {
        if a.get_char(i) != b.get_char(i) {
            return false;
        }
        i = i + 1;
    }
    proof {
        assert(a@ =~= b@);
    }
    true
}

} // verus!
