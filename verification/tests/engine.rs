use four_in_a_row::board::Board;
use four_in_a_row::model::{Cell, Error, Status};

const EMPTY_BOARD: &str = "⬜⬛⬛⬛⬛⬜\n⬜⬛⬛⬛⬛⬜\n⬜⬛⬛⬛⬛⬜\n⬜⬛⬛⬛⬛⬜\n⬜⬜⬜⬜⬜⬜\n";

#[test]
fn fresh_board_renders_empty_grid_without_status_line() {
    let board = Board::default();
    assert_eq!(board.render(), EMPTY_BOARD);
}

#[test]
fn reset_restores_the_fresh_rendering() {
    let mut board = Board::default();
    board.place(Cell::Cookie, 0).unwrap();
    board.place(Cell::Milk, 2).unwrap();
    board.reset();
    assert_eq!(board.render(), EMPTY_BOARD);
}

#[test]
fn one_piece_settles_on_the_bottom_row() {
    let mut board = Board::default();
    let row = board.place(Cell::Cookie, 0).unwrap();
    assert_eq!(row, 3);
    assert_eq!(
        board.render(),
        "⬜⬛⬛⬛⬛⬜\n⬜⬛⬛⬛⬛⬜\n⬜⬛⬛⬛⬛⬜\n⬜🍪⬛⬛⬛⬜\n⬜⬜⬜⬜⬜⬜\n"
    );
}

#[test]
fn column_fills_bottom_up_and_fifth_placement_conflicts() {
    let mut board = Board::default();
    assert_eq!(board.place(Cell::Cookie, 2), Ok(3));
    assert_eq!(board.place(Cell::Milk, 2), Ok(2));
    assert_eq!(board.place(Cell::Cookie, 2), Ok(1));
    assert_eq!(board.place(Cell::Milk, 2), Ok(0));
    let before = board.render();
    assert_eq!(board.place(Cell::Cookie, 2), Err(Error::Conflict));
    assert_eq!(board.render(), before);
}

#[test]
fn bottom_row_win_is_reported_only_when_the_line_completes() {
    let mut board = Board::default();
    board.place(Cell::Cookie, 0).unwrap();
    board.place(Cell::Cookie, 0).unwrap();
    board.place(Cell::Cookie, 0).unwrap();
    assert!(!board.render().contains("wins!"));
    board.place(Cell::Cookie, 1).unwrap();
    assert!(!board.render().contains("wins!"));
    board.place(Cell::Cookie, 2).unwrap();
    assert!(!board.render().contains("wins!"));
    board.place(Cell::Cookie, 3).unwrap();
    assert!(board.render().ends_with("🍪 wins!\n"));
}

#[test]
fn column_of_four_milk_wins_and_then_conflicts() {
    let mut board = Board::default();
    board.place(Cell::Milk, 0).unwrap();
    board.place(Cell::Milk, 0).unwrap();
    board.place(Cell::Milk, 0).unwrap();
    board.place(Cell::Milk, 0).unwrap();
    assert!(board.render().ends_with("🥛 wins!\n"));
    assert_eq!(board.place(Cell::Milk, 0), Err(Error::Conflict));
}

#[test]
fn anti_diagonal_win_through_gravity() {
    let mut board = Board::default();
    assert_eq!(board.place(Cell::Cookie, 0), Ok(3));
    assert_eq!(board.place(Cell::Milk, 1), Ok(3));
    assert_eq!(board.place(Cell::Cookie, 1), Ok(2));
    assert_eq!(board.place(Cell::Milk, 2), Ok(3));
    assert_eq!(board.place(Cell::Milk, 2), Ok(2));
    assert_eq!(board.place(Cell::Cookie, 2), Ok(1));
    assert_eq!(board.place(Cell::Milk, 3), Ok(3));
    assert_eq!(board.place(Cell::Milk, 3), Ok(2));
    assert_eq!(board.place(Cell::Milk, 3), Ok(1));
    assert!(!board.render().contains("wins!"));
    assert_eq!(board.place(Cell::Cookie, 3), Ok(0));
    assert!(board.render().ends_with("🍪 wins!\n"));
}

#[test]
fn any_placement_after_the_game_ends_conflicts_without_change() {
    let mut board = Board::default();
    board.place(Cell::Milk, 1).unwrap();
    board.place(Cell::Milk, 1).unwrap();
    board.place(Cell::Milk, 1).unwrap();
    board.place(Cell::Milk, 1).unwrap();
    let won = board.render();
    assert_eq!(board.place(Cell::Cookie, 0), Err(Error::Conflict));
    assert_eq!(board.place(Cell::Cookie, 3), Err(Error::Conflict));
    assert_eq!(board.render(), won);
}

#[test]
fn full_board_without_a_line_is_a_draw() {
    // Checkered two-by-two blocks: no four-in-a-row anywhere.
    let mut board = Board::default();
    for col in 0..4 {
        let low = if col % 2 == 0 { Cell::Milk } else { Cell::Cookie };
        let high = if col % 2 == 0 { Cell::Cookie } else { Cell::Milk };
        board.place(low, col).unwrap();
        board.place(low, col).unwrap();
        board.place(high, col).unwrap();
        board.place(high, col).unwrap();
    }
    assert!(board.render().ends_with("No winner.\n"));
    assert_eq!(board.place(Cell::Cookie, 0), Err(Error::Conflict));
}

#[test]
fn insert_reports_the_landing_row_and_full_columns() {
    let mut board = Board::default();
    assert_eq!(board.insert(Cell::Cookie, 1), Some(3));
    assert_eq!(board.insert(Cell::Milk, 1), Some(2));
    assert_eq!(board.insert(Cell::Cookie, 1), Some(1));
    assert_eq!(board.insert(Cell::Milk, 1), Some(0));
    assert_eq!(board.insert(Cell::Cookie, 1), None);
    assert_eq!(board.status, Status::InProgress);
}

#[test]
fn check_detects_a_row_line_anchored_anywhere_in_it() {
    let mut board = Board::default();
    board.grid[2] = [Cell::Cookie, Cell::Cookie, Cell::Cookie, Cell::Cookie];
    assert_eq!(board.check(2, 0), Status::Finished(Cell::Cookie));
    assert_eq!(board.check(2, 3), Status::Finished(Cell::Cookie));
    assert_eq!(board.check(1, 0), Status::InProgress);
}

#[test]
fn check_detects_the_main_diagonal_only_on_it() {
    let mut board = Board::default();
    for i in 0..4 {
        board.grid[i][i] = Cell::Milk;
    }
    assert_eq!(board.check(1, 1), Status::Finished(Cell::Milk));
    assert_eq!(board.check(3, 3), Status::Finished(Cell::Milk));
    assert_eq!(board.check(1, 2), Status::InProgress);
}

#[test]
fn check_reports_a_draw_only_from_the_top_row() {
    let mut board = Board::default();
    board.grid = [
        [Cell::Cookie, Cell::Milk, Cell::Cookie, Cell::Milk],
        [Cell::Cookie, Cell::Milk, Cell::Cookie, Cell::Milk],
        [Cell::Milk, Cell::Cookie, Cell::Milk, Cell::Cookie],
        [Cell::Milk, Cell::Cookie, Cell::Milk, Cell::Cookie],
    ];
    assert_eq!(board.check(0, 0), Status::Finished(Cell::Empty));
    assert_eq!(board.check(1, 0), Status::InProgress);
}

#[test]
fn winner_labels_match_the_wire_contract() {
    assert_eq!(Cell::Cookie.winner(), "🍪 wins!");
    assert_eq!(Cell::Milk.winner(), "🥛 wins!");
    assert_eq!(Cell::Empty.winner(), "No winner.");
}

#[test]
fn cell_glyphs_match_the_wire_contract() {
    assert_eq!(Cell::Empty.glyph(), "⬛");
    assert_eq!(Cell::Cookie.glyph(), "🍪");
    assert_eq!(Cell::Milk.glyph(), "🥛");
}

#[test]
fn requests_with_bad_team_or_column_are_invalid_input() {
    let mut board = Board::default();
    assert_eq!(board.place_request(None, 2), Err(Error::InvalidInput));
    assert_eq!(board.place_request(Some(Cell::Empty), 2), Err(Error::InvalidInput));
    assert_eq!(board.place_request(Some(Cell::Cookie), 0), Err(Error::InvalidInput));
    assert_eq!(board.place_request(Some(Cell::Cookie), 5), Err(Error::InvalidInput));
    assert_eq!(board.render(), EMPTY_BOARD);
    assert_eq!(board.place_request(Some(Cell::Cookie), 1), Ok(3));
}

#[test]
fn malformed_requests_are_invalid_input_even_on_a_finished_game() {
    let mut board = Board::default();
    for _ in 0..4 {
        board.place(Cell::Milk, 0).unwrap();
    }
    // Validation is caller-level and precedes the engine: a bad column or a
    // bad team never reaches the board, whatever its state; only a valid
    // request on the finished game is a conflict.
    assert_eq!(board.place_request(None, 9), Err(Error::InvalidInput));
    assert_eq!(board.place_request(None, 2), Err(Error::InvalidInput));
    assert_eq!(board.place_request(Some(Cell::Cookie), 2), Err(Error::Conflict));
}
