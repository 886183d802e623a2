//! A verified engine for two-player tic-tac-toe on a fixed 3x3 grid.
//!
//! The board holds one `Token` per cell; players address cells with a
//! `Point` in a player-facing coordinate frame that is rotated relative
//! to the storage array. Win detection (rows, columns, diagonals),
//! fullness detection, rendering, turn alternation, and the parsing of
//! coordinate input lines are all verified here; reading from and
//! writing to the console is left to the surrounding program.

pub mod board;
pub mod parse;
pub mod token;
