//! Engine-wide properties, stated and proved over the spec-level model.

use vstd::prelude::*;
use crate::board::{board_wf, empty_board, place_step, BoardView, PlaceStatus};
use crate::grid::{drop_row_of, empties_in_column, place_in_grid};
use crate::outcome::{col_complete, eval_grid, win_of};
use crate::render::{message_spec, render_spec, rows_prefix, tile_glyph};
use crate::tile::{tile_char, Tile};

verus! {

/// A fresh board is well formed, its game is open, and every cell is empty.
pub proof fn lemma_empty_board_open()
    ensures
        board_wf(empty_board()),
        empty_board().state is Playing,
        forall|r: int, c: int|
            0 <= r < 4 && 0 <= c < 4 ==> (#[trigger] empty_board().grid[r][c]) is Empty,
{
}

/// The snapshot never shows a torn pair: on a well-formed board the trailing
/// line of the rendering is exactly the message for what the evaluator
/// derives from the rendered grid.
pub proof fn lemma_render_shows_eval(v: BoardView)
    requires
        board_wf(v),
    ensures
        render_spec(v) == rows_prefix(v.grid, 4) + "⬜⬜⬜⬜⬜⬜\n"@ + message_spec(
            eval_grid(v.grid),
        ),
{
}

/// A placement transition out of a well-formed board leaves a well-formed
/// board: the stored state never diverges from the evaluator.
pub proof fn lemma_place_preserves_wf(v: BoardView, t: Tile, c: int)
    requires
        board_wf(v),
        0 <= c < 4,
    ensures
        board_wf(place_step(v, t, c).0),
{
    if v.state is Playing && drop_row_of(v.grid, c) != -1 {
        let g2 = place_in_grid(v.grid, c, t);
        assert forall|r: int| 0 <= r < 4 implies (#[trigger] g2[r]).len() == 4 by {
            assert(v.grid[r].len() == 4);
        }
    }
}

/// Exactly one cell changes on a made move, and none on a refused one: a
/// placement succeeds if and only if the game is open and the column has
/// room; a success fills the landing cell, previously empty, with the
/// marker, leaves every other cell untouched, and takes exactly one empty
/// cell from its column and none from any other.
pub proof fn lemma_place_accounting(v: BoardView, t: Tile, c: int)
    requires
        board_wf(v),
        t.is_marker(),
        0 <= c < 4,
    ensures
        ({
            let (v2, st) = place_step(v, t, c);
            &&& (st is Placed) == (v.state is Playing && empties_in_column(v.grid, c) > 0)
            &&& !(st is Placed) ==> v2 == v
            &&& st is Placed ==> ({
                let dr = drop_row_of(v.grid, c);
                &&& 0 <= dr < 4
                &&& v.grid[dr][c] is Empty
                &&& v2.grid[dr][c] == t
                &&& forall|r2: int, c2: int|
                    0 <= r2 < 4 && 0 <= c2 < 4 && !(r2 == dr && c2 == c)
                        ==> #[trigger] v2.grid[r2][c2] == v.grid[r2][c2]
                &&& empties_in_column(v2.grid, c) == empties_in_column(v.grid, c) - 1
                &&& forall|c2: int|
                    0 <= c2 < 4 && c2 != c ==> #[trigger] empties_in_column(v2.grid, c2)
                        == empties_in_column(v.grid, c2)
            })
        }),
{
}

/// How a board value evolves under a serialized run of placement requests:
/// the lock admits the requests one at a time, so the run is a fold of
/// [`place_step`] transitions.
pub open spec fn run_places(v: BoardView, reqs: Seq<(Tile, int)>) -> BoardView
    decreases reqs.len(),
{
    if reqs.len() == 0 {
        v
    } else {
        run_places(place_step(v, reqs[0].0, reqs[0].1).0, reqs.subrange(1, reqs.len() as int))
    }
}

/// How many requests of a serialized run succeed in dropping into column `c`.
pub open spec fn successes_into(v: BoardView, reqs: Seq<(Tile, int)>, c: int) -> int
    decreases reqs.len(),
{
    if reqs.len() == 0 {
        0int
    } else {
        (if place_step(v, reqs[0].0, reqs[0].1).1 is Placed && reqs[0].1 == c {
            1int
        } else {
            0int
        }) + successes_into(
            place_step(v, reqs[0].0, reqs[0].1).0,
            reqs.subrange(1, reqs.len() as int),
            c,
        )
    }
}

/// No placement is lost and no cell double-filled under any serialized run
/// of requests: a column with K empty cells admits at most K successful
/// placements, and each success takes exactly one of them, so the empty
/// cells left in the column are exactly K minus the number of successes.
pub proof fn lemma_no_placement_lost(v: BoardView, reqs: Seq<(Tile, int)>, c: int)
    requires
        board_wf(v),
        0 <= c < 4,
        forall|i: int|
            0 <= i < reqs.len() ==> ((#[trigger] reqs[i]).0.is_marker() && 0 <= reqs[i].1 < 4),
    ensures
        board_wf(run_places(v, reqs)),
        0 <= successes_into(v, reqs, c) <= empties_in_column(v.grid, c),
        empties_in_column(run_places(v, reqs).grid, c) == empties_in_column(v.grid, c)
            - successes_into(v, reqs, c),
    decreases reqs.len(),
{
    if reqs.len() > 0 {
        let v1 = place_step(v, reqs[0].0, reqs[0].1).0;
        lemma_place_accounting(v, reqs[0].0, reqs[0].1);
        lemma_place_preserves_wf(v, reqs[0].0, reqs[0].1);
        let rest = reqs.subrange(1, reqs.len() as int);
        assert(forall|i: int|
            0 <= i < rest.len() ==> ((#[trigger] rest[i]).0.is_marker() && 0 <= rest[i].1 < 4));
        lemma_no_placement_lost(v1, rest, c);
    }
}

/// Dropping one marker into one column four times, starting from a fresh
/// board, fills that column from the bottom row upward, each of the first
/// three moves leaving the game open, and the fourth completes the column
/// and wins the game for that marker; after the win every further placement
/// request, whatever its marker and column, is refused as game over and
/// changes nothing.
pub proof fn lemma_column_fill_wins(t: Tile, c: int)
    requires
        t.is_marker(),
        0 <= c < 4,
    ensures
        ({
            let (v1, s1) = place_step(empty_board(), t, c);
            let (v2, s2) = place_step(v1, t, c);
            let (v3, s3) = place_step(v2, t, c);
            let (v4, s4) = place_step(v3, t, c);
            &&& s1 is Placed && v1.grid[3][c] == t && v1.state is Playing
            &&& s2 is Placed && v2.grid[2][c] == t && v2.state is Playing
            &&& s3 is Placed && v3.grid[1][c] == t && v3.state is Playing
            &&& s4 is Placed && v4.grid[0][c] == t && col_complete(v4.grid, c)
            &&& v4.state == win_of(t)
            &&& forall|t2: Tile, c2: int| #[trigger] place_step(v4, t2, c2) == (v4, PlaceStatus::GameOver)
        }),
{
}

/// The single-character form of a tile's glyph: rendering a tile emits
/// exactly the character that [`crate::tile::Tile::to_emoji`] returns.
pub proof fn lemma_glyph_is_emoji(t: Tile)
    ensures
        tile_glyph(t) == seq![tile_char(t)],
{
    reveal_strlit("⬛");
    reveal_strlit("🍪");
    reveal_strlit("🥛");
    assert(tile_glyph(t) =~= seq![tile_char(t)]);
}

} // verus!
