//! The three colours of the cells. No two cells that share an edge have the
//! same colour.

use crate::hex::HexCoordinate;
use vstd::prelude::*;

verus! {

/// Colour of a cell.
#[derive(Default, Clone, Copy, Debug, PartialEq, Eq, Structural)]
pub enum TileColor {
    Black,
    Grey,
    #[default]
    White,
}

/// The colour of `hex`: it goes by the remainder of `x - y` on division by
/// three, which is never negative.
pub open spec fn color_at(hex: HexCoordinate) -> TileColor {
    let class = (hex.x - hex.y) % 3;
    if class == 0 {
        TileColor::Grey
    } else if class == 1 {
        TileColor::Black
    } else {
        TileColor::White
    }
}

/// The colour of the tile of `hex`.
pub fn tile_color(hex: HexCoordinate) -> (color: TileColor)
    ensures
        color == color_at(hex),
{
    let difference: i64 = hex.x() as i64 - hex.y() as i64;
    let class: i64 = ((difference % 3) + 3) % 3;
    if class == 0 {
        TileColor::Grey
    } else if class == 1 {
        TileColor::Black
    } else {
        TileColor::White
    }
}

/// A step along an axis of the grid changes the colour.
pub proof fn law_neighbours_differ(hex: HexCoordinate, step: HexCoordinate)
    requires
        crate::piece::rook_steps().contains(step),
        hex.can_add(step),
    ensures
        color_at(hex.plus(step)) != color_at(hex),
{
    let steps = crate::piece::rook_steps();
    let i = choose|i: int| 0 <= i < steps.len() && steps[i] == step;
    assert(steps[i] == step);
}

} // verus!
