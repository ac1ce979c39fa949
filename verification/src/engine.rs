//! Records of a game in progress. They carry data only: whose turn it is
//! and which moves were made. Nothing here applies a rule of the game.

use crate::piece::PieceType;
use vstd::prelude::*;

verus! {

/// A move as it is written down: the names of two cells, and the kind that
/// a pawn turns into where it is promoted.
pub struct ChessMove {
    pub from: String,
    pub to: String,
    pub promotion: Option<PieceType>,
}

/// The side that is to move.
pub enum Turn {
    White,
    Black,
}

/// A game: the side to move and the moves made so far, oldest first.
pub struct Game {
    pub turn: Turn,
    pub history: Vec<ChessMove>,
}

} // verus!
