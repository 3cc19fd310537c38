use tictactoe::game::{Cell, Game, GameState, MoveResult, Player};
use tictactoe::keypad::get_position_from_number;

/// Force the given player's mark onto the cell a keypad digit selects,
/// regardless of whose turn it is, by switching turns as needed.
fn force_mark(game: &mut Game, player: Player, digit: u8) {
    while game.turn != player {
        game.switch_turns();
    }
    let (row, col) = get_position_from_number(digit);
    assert_eq!(game.make_move(row, col), MoveResult::Success);
}

#[test]
fn new_game_is_empty_x_to_move() {
    let game = Game::new();
    assert_eq!(game.board.len(), 9);
    for cell in &game.board {
        assert_eq!(*cell, Cell::Empty);
    }
    assert_eq!(game.turn, Player::X);
    assert_eq!(game.state, GameState::Disputed);
    assert!(!game.is_over());
}

#[test]
fn empty_board_evaluates_in_progress() {
    let game = Game::new();
    assert_eq!(game.evaluate_outcome(), GameState::Disputed);
}

#[test]
fn move_on_empty_cell_sets_exactly_that_cell() {
    let mut game = Game::new();
    let result = game.make_move(1, 1);
    assert_eq!(result, MoveResult::Success);
    for idx in 0..9 {
        if idx == 3 * 1 + 1 {
            assert_eq!(game.board[idx], Cell::X);
        } else {
            assert_eq!(game.board[idx], Cell::Empty);
        }
    }
    // The turn never advances inside make_move.
    assert_eq!(game.turn, Player::X);
    assert_eq!(game.state, GameState::Disputed);
}

#[test]
fn move_on_occupied_cell_fails_and_changes_nothing() {
    let mut game = Game::new();
    assert_eq!(game.make_move(1, 1), MoveResult::Success);
    let board_before: Vec<Cell> = game.board.clone();
    let turn_before = game.turn;
    let state_before = game.state;

    let result = game.make_move(1, 1);
    assert_eq!(result, MoveResult::CellNotEmpty);
    assert_eq!(game.board, board_before);
    assert_eq!(game.turn, turn_before);
    assert_eq!(game.state, state_before);
}

#[test]
fn second_player_places_o() {
    let mut game = Game::new();
    game.switch_turns();
    assert_eq!(game.make_move(0, 0), MoveResult::Success);
    assert_eq!(game.board[0], Cell::O);
}

#[test]
fn switch_turns_twice_restores_turn() {
    let mut game = Game::new();
    assert_eq!(game.turn, Player::X);
    game.switch_turns();
    assert_eq!(game.turn, Player::O);
    game.switch_turns();
    assert_eq!(game.turn, Player::X);
}

#[test]
fn each_row_win_is_detected() {
    for row_digits in [[7u8, 8, 9], [4, 5, 6], [1, 2, 3]] {
        let mut game = Game::new();
        for digit in row_digits {
            force_mark(&mut game, Player::X, digit);
        }
        assert_eq!(game.state, GameState::Win);
        assert_eq!(game.evaluate_outcome(), GameState::Win);
        assert!(game.is_over());
    }
}

#[test]
fn each_column_win_is_detected() {
    for col_digits in [[7u8, 4, 1], [8, 5, 2], [9, 6, 3]] {
        let mut game = Game::new();
        for digit in col_digits {
            force_mark(&mut game, Player::O, digit);
        }
        assert_eq!(game.state, GameState::Win);
        assert_eq!(game.evaluate_outcome(), GameState::Win);
    }
}

#[test]
fn each_diagonal_win_is_detected() {
    for diag_digits in [[7u8, 5, 3], [9, 5, 1]] {
        let mut game = Game::new();
        for digit in diag_digits {
            force_mark(&mut game, Player::X, digit);
        }
        assert_eq!(game.state, GameState::Win);
        assert_eq!(game.evaluate_outcome(), GameState::Win);
    }
}

#[test]
fn two_marks_in_a_row_are_no_win() {
    let mut game = Game::new();
    force_mark(&mut game, Player::X, 7);
    force_mark(&mut game, Player::X, 8);
    assert_eq!(game.state, GameState::Disputed);
    assert_eq!(game.evaluate_outcome(), GameState::Disputed);
}

#[test]
fn bottom_row_of_x_wins() {
    // Moves 1, 2, 3 by X in succession fill the bottom row.
    let mut game = Game::new();
    for digit in [1u8, 2, 3] {
        let (row, col) = get_position_from_number(digit);
        assert_eq!(game.make_move(row, col), MoveResult::Success);
    }
    for col in 0..3 {
        assert_eq!(game.board[3 * 2 + col], Cell::X);
    }
    assert_eq!(game.evaluate_outcome(), GameState::Win);
    assert_eq!(game.state, GameState::Win);
}

#[test]
fn full_board_without_line_is_a_draw() {
    // X O X / X O O / O X X holds no three-in-a-row.
    let mut game = Game::new();
    for digit in [7u8, 9, 4, 2, 3] {
        force_mark(&mut game, Player::X, digit);
    }
    for digit in [8u8, 5, 6, 1] {
        force_mark(&mut game, Player::O, digit);
    }
    assert_eq!(game.board[8], Cell::X);
    assert_eq!(game.state, GameState::Draw);
    assert_eq!(game.evaluate_outcome(), GameState::Draw);
    assert!(game.is_over());
}

#[test]
fn scripted_game_reports_winner_by_double_switch() {
    // X takes the bottom row while O answers in the middle row; the driver
    // switches turns after every successful move, and once the game is over
    // switches once more to name the player who moved last.
    let mut game = Game::new();
    for digit in [1u8, 4, 2, 5, 3] {
        let (row, col) = get_position_from_number(digit);
        assert_eq!(game.make_move(row, col), MoveResult::Success);
        game.switch_turns();
        if game.is_over() {
            break;
        }
    }
    assert_eq!(game.state, GameState::Win);
    game.switch_turns();
    assert_eq!(game.turn, Player::X);
}

#[test]
fn win_beats_draw_on_a_full_board() {
    // A full board whose last move completes a line is a win, not a draw.
    let mut game = Game::new();
    for digit in [9u8, 6, 3, 5, 1] {
        force_mark(&mut game, Player::X, digit);
    }
    for digit in [7u8, 8, 4, 2] {
        force_mark(&mut game, Player::O, digit);
    }
    // Board: O O X / O X X / X O X with the right column all X.
    assert_eq!(game.evaluate_outcome(), GameState::Win);
    assert_eq!(game.state, GameState::Win);
}

#[test]
fn glyphs_match_the_printed_board() {
    assert_eq!(Cell::X.glyph(), 'X');
    assert_eq!(Cell::O.glyph(), 'O');
    assert_eq!(Cell::Empty.glyph(), '_');
}

#[test]
fn computer_move_is_always_on_the_board() {
    let game = Game::new();
    for _ in 0..200 {
        let (row, col) = game.get_computer_move();
        assert!(row < 3);
        assert!(col < 3);
    }
}

#[test]
fn computer_move_reaches_more_than_one_cell() {
    // A generator stuck on a single value would fail this with
    // overwhelming probability.
    let game = Game::new();
    let mut seen = [false; 9];
    for _ in 0..500 {
        let (row, col) = game.get_computer_move();
        seen[3 * row + col] = true;
    }
    assert!(seen.iter().filter(|s| **s).count() > 1);
}
