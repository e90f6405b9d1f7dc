use board_game::board::{Board, BoardState, PlaceResponse, PlaceStatus};
use board_game::grid::Grid;
use board_game::outcome::{get_game_state, GameState};
use board_game::tile::Tile;

const EMPTY_ROW: &str = "⬜⬛⬛⬛⬛⬜\n";
const BORDER: &str = "⬜⬜⬜⬜⬜⬜\n";

fn empty_board_text() -> String {
    format!("{EMPTY_ROW}{EMPTY_ROW}{EMPTY_ROW}{EMPTY_ROW}{BORDER}")
}

fn place_ok(board: &Board, team: &str, column: usize) -> String {
    match board.place(team, column) {
        PlaceResponse::Placed(snapshot) => snapshot,
        other => panic!("placement refused: {:?}", other),
    }
}

#[test]
fn new_board_renders_empty() {
    let board = Board::new();
    assert_eq!(board.to_string(), empty_board_text());
}

#[test]
fn tile_emojis() {
    assert_eq!(Tile::Empty.to_emoji(), '⬛');
    assert_eq!(Tile::Cookie.to_emoji(), '🍪');
    assert_eq!(Tile::Milk.to_emoji(), '🥛');
}

#[test]
fn empty_grid_is_playing() {
    let grid = Grid::new();
    assert_eq!(get_game_state(&grid.tiles), GameState::Playing);
}

#[test]
fn board_state_place_reports_status() {
    let mut state = BoardState::new();
    assert_eq!(state.place(Tile::Cookie, 0), PlaceStatus::Placed);
    assert_eq!(state.place(Tile::Milk, 0), PlaceStatus::Placed);
    let text = state.render();
    assert_eq!(
        text,
        "⬜⬛⬛⬛⬛⬜\n\
         ⬜⬛⬛⬛⬛⬜\n\
         ⬜🥛⬛⬛⬛⬜\n\
         ⬜🍪⬛⬛⬛⬜\n\
         ⬜⬜⬜⬜⬜⬜\n"
    );
}

#[test]
fn column_fills_bottom_up_and_wins() {
    let board = Board::new();
    let after_first = place_ok(&board, "cookie", 1);
    assert_eq!(
        after_first,
        "⬜⬛⬛⬛⬛⬜\n\
         ⬜⬛⬛⬛⬛⬜\n\
         ⬜⬛⬛⬛⬛⬜\n\
         ⬜🍪⬛⬛⬛⬜\n\
         ⬜⬜⬜⬜⬜⬜\n"
    );
    let after_second = place_ok(&board, "cookie", 1);
    assert_eq!(
        after_second,
        "⬜⬛⬛⬛⬛⬜\n\
         ⬜⬛⬛⬛⬛⬜\n\
         ⬜🍪⬛⬛⬛⬜\n\
         ⬜🍪⬛⬛⬛⬜\n\
         ⬜⬜⬜⬜⬜⬜\n"
    );
    let after_third = place_ok(&board, "cookie", 1);
    assert_eq!(
        after_third,
        "⬜⬛⬛⬛⬛⬜\n\
         ⬜🍪⬛⬛⬛⬜\n\
         ⬜🍪⬛⬛⬛⬜\n\
         ⬜🍪⬛⬛⬛⬜\n\
         ⬜⬜⬜⬜⬜⬜\n"
    );
    let after_fourth = place_ok(&board, "cookie", 1);
    let won = "⬜🍪⬛⬛⬛⬜\n\
         ⬜🍪⬛⬛⬛⬜\n\
         ⬜🍪⬛⬛⬛⬜\n\
         ⬜🍪⬛⬛⬛⬜\n\
         ⬜⬜⬜⬜⬜⬜\n\
         🍪 wins!\n";
    assert_eq!(after_fourth, won);

    // the game has ended: every further placement is refused, nothing changes
    assert!(matches!(board.place("milk", 2), PlaceResponse::GameOver));
    assert!(matches!(board.place("cookie", 1), PlaceResponse::GameOver));
    assert_eq!(board.to_string(), won);
}

#[test]
fn full_mixed_column_rejects_fifth_drop() {
    let board = Board::new();
    place_ok(&board, "cookie", 3);
    place_ok(&board, "milk", 3);
    place_ok(&board, "cookie", 3);
    place_ok(&board, "milk", 3);
    let before = board.to_string();
    assert!(matches!(board.place("cookie", 3), PlaceResponse::ColumnFull));
    assert!(matches!(board.place("milk", 3), PlaceResponse::ColumnFull));
    assert_eq!(board.to_string(), before);
    // the game itself is still open: another column accepts a drop
    place_ok(&board, "cookie", 2);
}

#[test]
fn unknown_team_is_rejected() {
    let board = Board::new();
    let before = board.to_string();
    assert!(matches!(board.place("penguin", 2), PlaceResponse::InvalidTeam));
    assert!(matches!(board.place("", 2), PlaceResponse::InvalidTeam));
    assert!(matches!(board.place("Cookie", 2), PlaceResponse::InvalidTeam));
    assert_eq!(board.to_string(), before);
}

#[test]
fn out_of_range_column_is_rejected() {
    let board = Board::new();
    let before = board.to_string();
    assert!(matches!(board.place("cookie", 0), PlaceResponse::InvalidColumn));
    assert!(matches!(board.place("cookie", 5), PlaceResponse::InvalidColumn));
    assert!(matches!(board.place("milk", usize::MAX), PlaceResponse::InvalidColumn));
    assert_eq!(board.to_string(), before);
}

#[test]
fn reads_do_not_alter_the_game() {
    let watched = Board::new();
    let quiet = Board::new();
    let moves = [("cookie", 1), ("milk", 2), ("cookie", 1), ("milk", 2), ("cookie", 1)];
    for (team, column) in moves {
        for _ in 0..5 {
            watched.to_string();
        }
        place_ok(&watched, team, column);
        place_ok(&quiet, team, column);
        watched.to_string();
    }
    assert_eq!(watched.to_string(), quiet.to_string());
}

#[test]
fn reset_restores_the_empty_board() {
    let board = Board::new();
    // from an open, partly filled game
    place_ok(&board, "cookie", 2);
    place_ok(&board, "milk", 3);
    assert_eq!(board.reset(), empty_board_text());
    assert_eq!(board.to_string(), empty_board_text());

    // from a won game
    for _ in 0..4 {
        place_ok(&board, "milk", 4);
    }
    assert!(matches!(board.place("cookie", 1), PlaceResponse::GameOver));
    assert_eq!(board.reset(), empty_board_text());
    assert_eq!(board.to_string(), empty_board_text());
    place_ok(&board, "cookie", 1);
}

#[test]
fn filled_board_without_a_line_is_a_draw() {
    let board = Board::new();
    // columns 1 and 3 from the bottom: cookie, cookie, milk, milk;
    // columns 2 and 4 from the bottom: milk, milk, cookie, cookie
    for column in [1, 3] {
        place_ok(&board, "cookie", column);
        place_ok(&board, "cookie", column);
        place_ok(&board, "milk", column);
        place_ok(&board, "milk", column);
    }
    for column in [2, 4] {
        place_ok(&board, "milk", column);
        place_ok(&board, "milk", column);
        place_ok(&board, "cookie", column);
        place_ok(&board, "cookie", column);
    }
    let drawn = "⬜🥛🍪🥛🍪⬜\n\
         ⬜🥛🍪🥛🍪⬜\n\
         ⬜🍪🥛🍪🥛⬜\n\
         ⬜🍪🥛🍪🥛⬜\n\
         ⬜⬜⬜⬜⬜⬜\n\
         No winner!\n";
    assert_eq!(board.to_string(), drawn);
    assert!(matches!(board.place("cookie", 1), PlaceResponse::GameOver));

    // reset works from the drawn state too
    assert_eq!(board.reset(), empty_board_text());
}

#[test]
fn bottom_row_win() {
    let board = Board::new();
    place_ok(&board, "cookie", 1);
    place_ok(&board, "cookie", 2);
    place_ok(&board, "cookie", 3);
    let after_fourth = place_ok(&board, "cookie", 4);
    assert_eq!(
        after_fourth,
        "⬜⬛⬛⬛⬛⬜\n\
         ⬜⬛⬛⬛⬛⬜\n\
         ⬜⬛⬛⬛⬛⬜\n\
         ⬜🍪🍪🍪🍪⬜\n\
         ⬜⬜⬜⬜⬜⬜\n\
         🍪 wins!\n"
    );
}

#[test]
fn milk_column_win() {
    let board = Board::new();
    for _ in 0..3 {
        place_ok(&board, "milk", 2);
    }
    let after_fourth = place_ok(&board, "milk", 2);
    assert_eq!(
        after_fourth,
        "⬜⬛🥛⬛⬛⬜\n\
         ⬜⬛🥛⬛⬛⬜\n\
         ⬜⬛🥛⬛⬛⬜\n\
         ⬜⬛🥛⬛⬛⬜\n\
         ⬜⬜⬜⬜⬜⬜\n\
         🥛 wins!\n"
    );
}

#[test]
fn main_diagonal_win() {
    let board = Board::new();
    place_ok(&board, "cookie", 4);
    place_ok(&board, "milk", 3);
    place_ok(&board, "cookie", 3);
    place_ok(&board, "milk", 2);
    place_ok(&board, "milk", 2);
    place_ok(&board, "cookie", 2);
    place_ok(&board, "milk", 1);
    place_ok(&board, "milk", 1);
    place_ok(&board, "milk", 1);
    let after_last = place_ok(&board, "cookie", 1);
    assert_eq!(
        after_last,
        "⬜🍪⬛⬛⬛⬜\n\
         ⬜🥛🍪⬛⬛⬜\n\
         ⬜🥛🥛🍪⬛⬜\n\
         ⬜🥛🥛🥛🍪⬜\n\
         ⬜⬜⬜⬜⬜⬜\n\
         🍪 wins!\n"
    );
}

#[test]
fn anti_diagonal_does_not_win() {
    // four in the bottom-left to top-right diagonal: the evaluator never
    // looks at that line, so the game stays open
    let board = Board::new();
    place_ok(&board, "cookie", 1);
    place_ok(&board, "milk", 2);
    place_ok(&board, "cookie", 2);
    place_ok(&board, "milk", 3);
    place_ok(&board, "milk", 3);
    place_ok(&board, "cookie", 3);
    place_ok(&board, "milk", 4);
    place_ok(&board, "milk", 4);
    place_ok(&board, "milk", 4);
    let after_last = place_ok(&board, "cookie", 4);
    assert_eq!(
        after_last,
        "⬜⬛⬛⬛🍪⬜\n\
         ⬜⬛⬛🍪🥛⬜\n\
         ⬜⬛🍪🥛🥛⬜\n\
         ⬜🍪🥛🥛🥛⬜\n\
         ⬜⬜⬜⬜⬜⬜\n"
    );
    // still open: a further placement is accepted
    place_ok(&board, "milk", 1);
}

#[test]
fn response_messages() {
    let board = Board::new();
    assert_eq!(board.place("penguin", 2).message(), "Invalid team");
    assert_eq!(board.place("cookie", 9).message(), "Invalid column");
    for _ in 0..4 {
        place_ok(&board, "cookie", 3);
    }
    assert_eq!(board.place("milk", 2).message(), "Game is over");
    board.reset();
    for _ in 0..2 {
        place_ok(&board, "cookie", 1);
        place_ok(&board, "milk", 1);
    }
    assert_eq!(board.place("milk", 1).message(), "Column is full");
    let snapshot = board.place("milk", 2);
    let text = snapshot.message();
    assert!(matches!(snapshot, PlaceResponse::Placed(_)));
    assert_eq!(text, board.to_string());
}

#[test]
fn rendered_outcome_matches_evaluator() {
    // after every move, the trailing line of the snapshot is exactly what
    // the evaluator derives from the grid at that instant
    let mut state = BoardState::new();
    let moves = [
        (Tile::Cookie, 0),
        (Tile::Milk, 1),
        (Tile::Cookie, 0),
        (Tile::Milk, 1),
        (Tile::Cookie, 0),
        (Tile::Milk, 1),
        (Tile::Cookie, 0),
    ];
    for (tile, column) in moves {
        assert_eq!(state.place(tile, column), PlaceStatus::Placed);
        let text = state.render();
        match get_game_state(&state.grid.tiles) {
            GameState::Playing => {
                assert!(text.ends_with("⬜⬜⬜⬜⬜⬜\n"));
                assert!(!text.contains("wins") && !text.contains("winner"));
            }
            GameState::CookieWon => assert!(text.ends_with("🍪 wins!\n")),
            GameState::MilkWon => assert!(text.ends_with("🥛 wins!\n")),
            GameState::EndedNoWinner => assert!(text.ends_with("No winner!\n")),
        }
    }
    assert_eq!(get_game_state(&state.grid.tiles), GameState::CookieWon);
}

#[test]
fn exact_count_of_drops_fits_a_column() {
    // a column holds exactly four drops: of many attempts, four succeed and
    // the rest are refused, none lost, none doubled
    let board = Board::new();
    let mut successes = 0;
    let mut refused = 0;
    for attempt in 0..10 {
        let team = if attempt % 2 == 0 { "cookie" } else { "milk" };
        match board.place(team, 2) {
            PlaceResponse::Placed(_) => successes += 1,
            PlaceResponse::ColumnFull | PlaceResponse::GameOver => refused += 1,
            other => panic!("unexpected response: {:?}", other),
        }
    }
    assert_eq!(successes, 4);
    assert_eq!(refused, 6);
}
