//! Rules core of a chess board: the board model, per-piece move geometry,
//! path obstruction, and turn ownership, with every function proved against
//! its contract.

pub mod board;
pub mod chess;
pub mod engine;
pub mod laws;
pub mod path;

pub use board::Board;
pub use chess::{BoardState, Color, Error, File, MoveError, Piece, Position, Rank, Square, SquareOccupied, Troop};
