//! Core logic of a falling-block puzzle game: the playing-field grid, the
//! catalog of piece shapes, the piece-supply bag, placement validation, and
//! the session state machine that the periodic tick and render tasks drive.

pub mod bag;
pub mod board;
pub mod cell;
pub mod mino;
pub mod point;
pub mod rng;
pub mod session;
pub mod valid;
