//! The game engine: board representation, move application, turn
//! alternation, and win/draw detection for 3x3 tic-tac-toe.

use vstd::prelude::*;

use crate::keypad::get_position_from_number;

verus! {

/// One cell of the board: a placed mark or still empty.
#[derive(PartialEq, Eq, Structural, Copy, Clone, Debug)]
pub enum Cell {
    X,
    O,
    Empty,
}

/// Whose mark is placed on the next move.
#[derive(PartialEq, Eq, Structural, Copy, Clone, Debug)]
pub enum Player {
    X,
    O,
}

/// The status derived from the board: a completed line (`Win`), a full
/// board without one (`Draw`), or a game still in progress (`Disputed`).
#[derive(PartialEq, Eq, Structural, Copy, Clone, Debug)]
pub enum GameState {
    Win,
    Draw,
    Disputed,
}

/// What an attempted move did.
#[derive(PartialEq, Eq, Structural, Copy, Clone, Debug)]
pub enum MoveResult {
    Success,
    CellNotEmpty,
}

/// The mark the given player places.
pub open spec fn mark_of(p: Player) -> Cell {
    match p {
        Player::X => Cell::X,
        Player::O => Cell::O,
    }
}

/// The player whose turn comes after the given one.
pub open spec fn other_player(p: Player) -> Player {
    match p {
        Player::X => Player::O,
        Player::O => Player::X,
    }
}

/// The single-character glyph a cell prints as.
pub open spec fn glyph_spec(c: Cell) -> char {
    match c {
        Cell::X => 'X',
        Cell::O => 'O',
        Cell::Empty => '_',
    }
}

/// The three cells at these board indices hold the same non-empty mark.
pub open spec fn line_complete(b: Seq<Cell>, i0: int, i1: int, i2: int) -> bool {
    b[i0] == b[i1] && b[i1] == b[i2] && b[i0] != Cell::Empty
}

/// Row `r` (cells are stored row-major) is a completed line.
pub open spec fn row_complete(b: Seq<Cell>, r: int) -> bool {
    line_complete(b, 3 * r, 3 * r + 1, 3 * r + 2)
}

/// Column `c` is a completed line.
pub open spec fn col_complete(b: Seq<Cell>, c: int) -> bool {
    line_complete(b, c, c + 3, c + 6)
}

/// The top-left-to-bottom-right diagonal is a completed line.
pub open spec fn main_diag_complete(b: Seq<Cell>) -> bool {
    line_complete(b, 0, 4, 8)
}

/// The top-right-to-bottom-left diagonal is a completed line.
pub open spec fn anti_diag_complete(b: Seq<Cell>) -> bool {
    line_complete(b, 2, 4, 6)
}

/// Some row, column, or diagonal holds three identical non-empty marks.
pub open spec fn has_winning_line(b: Seq<Cell>) -> bool {
    ||| row_complete(b, 0)
    ||| row_complete(b, 1)
    ||| row_complete(b, 2)
    ||| col_complete(b, 0)
    ||| col_complete(b, 1)
    ||| col_complete(b, 2)
    ||| main_diag_complete(b)
    ||| anti_diag_complete(b)
}

/// No cell of the board is empty.
pub open spec fn board_full(b: Seq<Cell>) -> bool {
    forall|i: int| 0 <= i < 9 ==> b[i] != Cell::Empty
}

/// The outcome a board determines: Win on a completed line, Draw on a full
/// board without one, Disputed otherwise.
pub open spec fn outcome_of(b: Seq<Cell>) -> GameState {
    if has_winning_line(b) {
        GameState::Win
    } else if board_full(b) {
        GameState::Draw
    } else {
        GameState::Disputed
    }
}

/// The whole game: the 3x3 board stored row-major (index `3 * row + col`),
/// whose turn it is, and the outcome computed after the latest move.
pub struct Game {
    pub board: Vec<Cell>,
    pub turn: Player,
    pub state: GameState,
}

impl Game {
    /// The board holds exactly the nine cells of the 3x3 grid.
    pub open spec fn wf(&self) -> bool {
        self.board@.len() == 9
    }

    /// A fresh game: an all-empty board, X to move, no outcome yet.
    pub fn new() -> (g: Game)
        ensures
            g.wf(),
            forall|i: int| 0 <= i < 9 ==> g.board@[i] == Cell::Empty,
            g.turn == Player::X,
            g.state == GameState::Disputed,
    {
        let mut board: Vec<Cell> = Vec::new();
        let mut i: usize = 0;
        while i < 9
            invariant
                i <= 9,
                board@.len() == i,
                forall|j: int| 0 <= j < i ==> board@[j] == Cell::Empty,
            decreases 9 - i,
        {
            board.push(Cell::Empty);
            i = i + 1;
        }
        Game { board, turn: Player::X, state: GameState::Disputed }
    }

    /// Scan the three rows, three columns, and two diagonals for three
    /// identical non-empty marks; report Win if one is found, Draw if the
    /// board is full without one, and Disputed otherwise.
    pub fn evaluate_outcome(&self) -> (r: GameState)
        requires
            self.wf(),
        ensures
            r == outcome_of(self.board@),
            r is Win <==> has_winning_line(self.board@),
            r is Draw <==> !has_winning_line(self.board@) && board_full(self.board@),
            r is Disputed <==> !has_winning_line(self.board@) && !board_full(self.board@),
    {
        let mut row: usize = 0;
        while row < 3
            invariant
                self.wf(),
                row <= 3,
                forall|k: int| 0 <= k < row ==> !row_complete(self.board@, k),
            decreases 3 - row,
        {
            if self.board[3 * row] == self.board[3 * row + 1] && self.board[3 * row + 1]
                == self.board[3 * row + 2] && self.board[3 * row] != Cell::Empty {
                return GameState::Win;
            }
            row = row + 1;
        }

        let mut col: usize = 0;
        while col < 3
            invariant
                self.wf(),
                col <= 3,
                forall|k: int| 0 <= k < 3 ==> !row_complete(self.board@, k),
                forall|k: int| 0 <= k < col ==> !col_complete(self.board@, k),
            decreases 3 - col,
        {
            if self.board[col] == self.board[col + 3] && self.board[col + 3] == self.board[col + 6]
                && self.board[col] != Cell::Empty {
                return GameState::Win;
            }
            col = col + 1;
        }

        if self.board[0] == self.board[4] && self.board[4] == self.board[8] && self.board[0]
            != Cell::Empty {
            return GameState::Win;
        }

        if self.board[2] == self.board[4] && self.board[4] == self.board[6] && self.board[2]
            != Cell::Empty {
            return GameState::Win;
        }

        let mut i: usize = 0;
        while i < 9
            invariant
                self.wf(),
                i <= 9,
                !has_winning_line(self.board@),
                forall|j: int| 0 <= j < i ==> self.board@[j] != Cell::Empty,
            decreases 9 - i,
        {
            if self.board[i] == Cell::Empty {
                return GameState::Disputed;
            }
            i = i + 1;
        }

        GameState::Draw
    }

    /// Recompute the outcome from the current board and store it; the board
    /// and the turn are untouched.
    pub fn update_state(&mut self)
        requires
            old(self).wf(),
        ensures
            final(self).wf(),
            final(self).board == old(self).board,
            final(self).turn == old(self).turn,
            final(self).state == outcome_of(old(self).board@),
    {
        let s = self.evaluate_outcome();
        self.state = s;
    }

    /// Place the current player's mark at (row, col) and recompute the
    /// outcome. An occupied target cell fails the move and leaves the game
    /// unchanged; the turn never advances here.
    pub fn make_move(&mut self, row: usize, col: usize) -> (r: MoveResult)
        requires
            old(self).wf(),
            row < 3,
            col < 3,
        ensures
            final(self).wf(),
            old(self).board@[3 * row + col] != Cell::Empty ==> r == MoveResult::CellNotEmpty
                && *final(self) == *old(self),
            old(self).board@[3 * row + col] == Cell::Empty ==> {
                &&& r == MoveResult::Success
                &&& final(self).board@ == old(self).board@.update(
                    3 * row + col,
                    mark_of(old(self).turn),
                )
                &&& final(self).turn == old(self).turn
                &&& final(self).state == outcome_of(final(self).board@)
            },
    {
        let idx = 3 * row + col;
        if self.board[idx] != Cell::Empty {
            return MoveResult::CellNotEmpty;
        }

        let mark = match self.turn {
            Player::X => Cell::X,
            Player::O => Cell::O,
        };
        self.board.set(idx, mark);
        self.update_state();
        MoveResult::Success
    }

    /// Toggle whose turn it is; board and outcome are untouched.
    pub fn switch_turns(&mut self)
        ensures
            final(self).turn == other_player(old(self).turn),
            final(self).board == old(self).board,
            final(self).state == old(self).state,
    {
        let next = match self.turn {
            Player::X => Player::O,
            Player::O => Player::X,
        };
        self.turn = next;
    }

    /// The game is over once the stored outcome is no longer Disputed.
    pub fn is_over(&self) -> (r: bool)
        ensures
            r == !(self.state is Disputed),
    {
        self.state != GameState::Disputed
    }

    /// Draw a random keypad digit and map it to the board position it
    /// selects; the position always lies on the board, occupied or not.
    pub fn get_computer_move(&self) -> (p: (usize, usize))
        ensures
            p.0 < 3,
            p.1 < 3,
    {
        let digit = random_keypad_digit();
        get_position_from_number(digit)
    }
}

impl Cell {
    /// The single-character glyph this cell prints as.
    pub fn glyph(&self) -> (c: char)
        ensures
            c == glyph_spec(*self),
    {
        match self {
            Cell::X => 'X',
            Cell::O => 'O',
            Cell::Empty => '_',
        }
    }
}

/// Switching the turn twice restores the original turn: the toggle is its
/// own inverse.
pub proof fn lemma_switch_turn_involutive(p: Player)
    ensures
        other_player(other_player(p)) == p,
{
}

/// Relies on rand::random_range: a value sampled from the inclusive range
/// 1..=9 lies within that range, and the range is nonempty so the call
/// returns normally.
#[verifier::external_body]
fn random_keypad_digit() -> (r: u8)
    ensures
        1 <= r <= 9,
{
    rand::random_range(1u8..=9u8)
}

} // verus!
