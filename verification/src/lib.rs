//! A two-player chess board engine for an interactive terminal session.
//!
//! The library keeps the board state, computes the squares a selected piece
//! may move to or attack, and advances a selection state machine driven by
//! directional input intents. Rendering and raw input decoding live outside
//! the library and talk to it through plain values.

pub mod board;
pub mod chess_board;
pub mod pieces;
