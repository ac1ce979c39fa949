//! Position and movement geometry of Glinski's hexagonal chess: the 91-cell
//! board, the pieces, the algebraic notation of cells and the step tables of
//! each kind of piece.
//!
//! The board keeps its cells in the hash map of `bevy::utils` and takes the
//! cells of the hexagon from `hexx`; what it relies on there is stated in
//! `store`. Everything else is proved.

pub mod board;
pub mod engine;
pub mod hex;
pub mod highlight;
pub mod notation;
pub mod piece;
pub mod start;
pub mod store;
pub mod tiles;

pub use board::{ChessBoard, GlinskiBoard};
pub use hex::HexCoordinate;
pub use piece::{ChessPiece, Color, PieceType};
