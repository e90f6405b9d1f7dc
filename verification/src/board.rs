//! The state machine over one grid/state pair, and the shared board that
//! guards that pair with a single lock.

use vstd::prelude::*;
use vstd::rwlock::{RwLock, RwLockPredicate};
use crate::grid::{drop_row_of, empty_grid, grid_wf, place_in_grid, Grid};
use crate::outcome::{eval_grid, evaluate, GameState};
use crate::render::render_spec;
use crate::tile::{team_tile, Tile};

verus! {

/// The mathematical value of a board: the cells of its grid and its derived
/// game state.
pub struct BoardView {
    pub grid: Seq<Seq<Tile>>,
    pub state: GameState,
}

/// A board is well formed when its grid has the fixed 4x4 dimensions and its
/// stored state is exactly what the evaluator derives from the grid. The
/// engine never lets the two diverge.
pub open spec fn board_wf(v: BoardView) -> bool {
    &&& grid_wf(v.grid)
    &&& v.state == eval_grid(v.grid)
}

/// The value of a fresh board: an empty grid and an open game.
pub open spec fn empty_board() -> BoardView {
    BoardView { grid: empty_grid(), state: GameState::Playing }
}

/// What a placement request that reached the engine came to.
#[derive(Clone, Copy, Debug, PartialEq, Eq, Structural)]
pub enum PlaceStatus {
    /// The marker was dropped into the column.
    Placed,
    /// The game had already ended; nothing changed.
    GameOver,
    /// The column held no empty cell; nothing changed.
    ColumnFull,
}

/// The transition a placement makes: placing is legal only while the game is
/// open and the column has room; a legal placement drops the marker and
/// re-derives the state from the new grid, an illegal one leaves the board
/// exactly as it was.
pub open spec fn place_step(v: BoardView, t: Tile, c: int) -> (BoardView, PlaceStatus) {
    if !(v.state is Playing) {
        (v, PlaceStatus::GameOver)
    } else if drop_row_of(v.grid, c) == -1 {
        (v, PlaceStatus::ColumnFull)
    } else {
        let g2 = place_in_grid(v.grid, c, t);
        (BoardView { grid: g2, state: eval_grid(g2) }, PlaceStatus::Placed)
    }
}

/// The grid/state pair itself: the composite that the shared board guards as
/// one unit.
#[derive(Clone, Copy)]
pub struct BoardState {
    pub grid: Grid,
    pub state: GameState,
}

impl View for BoardState {
    type V = BoardView;

    open spec fn view(&self) -> BoardView {
        BoardView { grid: self.grid@, state: self.state }
    }
}

impl BoardState {
    /// A fresh board: all cells empty, game open.
    pub fn new() -> (b: BoardState)
        ensures
            b@ == empty_board(),
            board_wf(b@),
    {
        let b = BoardState { grid: Grid::new(), state: GameState::Playing };
        proof {
            assert(eval_grid(empty_grid()) == GameState::Playing);
        }
        b
    }

    /// Replaces the pair with a fresh empty grid and an open game, whatever
    /// the board held before.
    pub fn reset(&mut self)
        ensures
            final(self)@ == empty_board(),
            board_wf(final(self)@),
    {
        self.grid = Grid::new();
        self.state = GameState::Playing;
        proof {
            assert(eval_grid(empty_grid()) == GameState::Playing);
        }
    }

    /// Drops `tile` into the column with index `column_index`, gravity-style,
    /// and re-derives the game state; fails without mutating anything when
    /// the game is over or the column is full.
    pub fn place(&mut self, tile: Tile, column_index: usize) -> (r: PlaceStatus)
        requires
            tile.is_marker(),
            column_index < 4,
            board_wf(old(self)@),
        ensures
            board_wf(final(self)@),
            (final(self)@, r) == place_step(old(self)@, tile, column_index as int),
    {
        if self.state != GameState::Playing {
            return PlaceStatus::GameOver;
        }
        match self.grid.drop_row(column_index) {
            None => PlaceStatus::ColumnFull,
            Some(row) => {
                self.grid.set(row, column_index, tile);
                self.state = evaluate(&self.grid);
                PlaceStatus::Placed
            },
        }
    }
}

/// The predicate the board's lock maintains: every pair it stores is well
/// formed, so no reader ever observes a grid whose stored state diverges
/// from what the evaluator would derive.
pub struct BoardPred;

impl RwLockPredicate<BoardState> for BoardPred {
    open spec fn inv(self, v: BoardState) -> bool {
        board_wf(v@)
    }
}

/// What a placement request came to, as the service layer sees it: either
/// the rendered board after the move, or the condition that stopped it.
#[derive(Debug)]
pub enum PlaceResponse {
    /// The move was made; holds the snapshot of the board after it.
    Placed(String),
    /// The team token named no marker; nothing changed.
    InvalidTeam,
    /// The column number was outside 1..=4; nothing changed.
    InvalidColumn,
    /// The game had already ended; nothing changed.
    GameOver,
    /// The column held no empty cell; nothing changed.
    ColumnFull,
}

/// Whether `r` is the response that one [`place_step`] transition out of the
/// board value `v` produces, snapshot included.
pub open spec fn place_observed(v: BoardView, t: Tile, c: int, r: PlaceResponse) -> bool {
    match place_step(v, t, c).1 {
        PlaceStatus::GameOver => r is GameOver,
        PlaceStatus::ColumnFull => r is ColumnFull,
        PlaceStatus::Placed => r matches PlaceResponse::Placed(s) && s@ == render_spec(
            place_step(v, t, c).0,
        ),
    }
}

/// The process-wide shared board: one grid/state pair, guarded as a single
/// unit by one exclusive lock. Every read and every write takes this one
/// lock, so the pair is mutated and observed atomically and the stored state
/// can never be seen out of step with the grid.
pub struct Board {
    lock: RwLock<BoardState, BoardPred>,
}

impl Board {
    /// Whether this board's lock guards well-formedness; true of every board
    /// that [`Board::new`] returns.
    pub closed spec fn wf(&self) -> bool {
        self.lock.pred() == BoardPred
    }

    /// A fresh shared board: empty grid, open game.
    pub fn new() -> (b: Board)
        ensures
            b.wf(),
    {
        let lock = RwLock::new(BoardState::new(), Ghost(BoardPred));
        Board { lock }
    }

    /// The snapshot of the pair at the instant of the read: some well-formed
    /// board value, rendered whole under the lock, never a torn mix.
    pub fn to_string(&self) -> (s: String)
        requires
            self.wf(),
        ensures
            exists|v: BoardView| board_wf(v) && s@ == render_spec(v),
    {
        let handle = self.lock.acquire_read();
        let st = handle.borrow();
        let s = st.render();
        proof {
            assert(board_wf(st@) && s@ == render_spec(st@));
        }
        handle.release_read();
        s
    }

    /// Replaces the pair with a fresh empty grid and an open game, whatever
    /// it held before, and returns the snapshot of the fresh board.
    pub fn reset(&self) -> (s: String)
        requires
            self.wf(),
        ensures
            s@ == render_spec(empty_board()),
    {
        let (_prior, write_handle) = self.lock.acquire_write();
        let fresh = BoardState::new();
        write_handle.release_write(fresh);
        fresh.render()
    }

    /// Handles one placement request. The team token and the column number
    /// are validated before the shared pair is touched; a valid request is
    /// then one [`place_step`] transition out of the pair as it stood when
    /// the lock was acquired, and a successful one returns the snapshot of
    /// the board right after the move.
    pub fn place(&self, team: &str, column: usize) -> (r: PlaceResponse)
        requires
            self.wf(),
        ensures
            team_tile(team@) is None ==> r is InvalidTeam,
            team_tile(team@) is Some && !(1 <= column <= 4) ==> r is InvalidColumn,
            team_tile(team@) is Some && 1 <= column <= 4 ==> exists|v: BoardView|
                board_wf(v) && place_observed(v, team_tile(team@)->0, column as int - 1, r),
    {
        let tile = match Tile::from_team(team) {
            Some(t) => t,
            None => {
                return PlaceResponse::InvalidTeam;
            },
        };
        if column < 1 || column > 4 {
            return PlaceResponse::InvalidColumn;
        }
        let column_index = column - 1;
        let (mut st, write_handle) = self.lock.acquire_write();
        let ghost v0 = st@;
        let status = st.place(tile, column_index);
        let r = match status {
            PlaceStatus::Placed => PlaceResponse::Placed(st.render()),
            PlaceStatus::GameOver => PlaceResponse::GameOver,
            PlaceStatus::ColumnFull => PlaceResponse::ColumnFull,
        };
        write_handle.release_write(st);
        proof {
            assert(board_wf(v0) && place_observed(v0, tile, column_index as int, r));
        }
        r
    }
}

impl PlaceResponse {
    /// The response body the service layer sends for this outcome: the
    /// snapshot for a made move, a fixed message otherwise.
    pub fn message(&self) -> (s: String)
        ensures
            self matches PlaceResponse::Placed(b) ==> s@ == b@,
            self is InvalidTeam ==> s@ == "Invalid team"@,
            self is InvalidColumn ==> s@ == "Invalid column"@,
            self is GameOver ==> s@ == "Game is over"@,
            self is ColumnFull ==> s@ == "Column is full"@,
    {
        match self {
            PlaceResponse::Placed(b) => b.clone(),
            PlaceResponse::InvalidTeam => String::from_str("Invalid team"),
            PlaceResponse::InvalidColumn => String::from_str("Invalid column"),
            PlaceResponse::GameOver => String::from_str("Game is over"),
            PlaceResponse::ColumnFull => String::from_str("Column is full"),
        }
    }
}

} // verus!
