//! A verified tic-tac-toe engine: a 3x3 board, move validation, turn
//! alternation, and win/draw detection, together with the numeric-keypad
//! mapping both players select cells by and the classification of the human
//! player's input lines. The computer opponent draws its candidate cells
//! uniformly at random.

pub mod game;
pub mod input;
pub mod keypad;
