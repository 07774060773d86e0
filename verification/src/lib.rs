//! A chess rules engine: given a board and a proposed move, it decides whether
//! the move obeys the movement rules of the piece and keeps the mover's king
//! out of check.
//!
//! [`board`] holds the position model, [`geometry`] the movement rules of the
//! pieces, [`check`] the check test, [`legality`] the questions that callers
//! ask, and [`laws`] general facts that follow from the rules.

pub mod pieces;
pub mod board;
pub mod geometry;
pub mod check;
pub mod legality;
pub mod laws;
