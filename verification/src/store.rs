//! What the board takes on trust from `hexx` and from `bevy::utils`: the
//! cells of a hexagon, and a hash map from cells to what stands on them.
//!
//! Nothing in this file is proved. Each contract says what the crate it
//! calls is relied on to do.

use crate::hex::HexCoordinate;
use crate::piece::ChessPiece;
use vstd::prelude::*;

verus! {

/// Cells with what stands on each, kept in a `bevy::utils::HashMap` under
/// `hexx::Hex` keys. A cell can have an entry that holds no piece.
#[verifier::external_body]
pub struct CellStore {
    cells: bevy::utils::HashMap<hexx::Hex, Option<ChessPiece>>,
}

/// The entries of a store: each cell that has one, with what stands on it.
pub uninterp spec fn stored(store: CellStore) -> Map<HexCoordinate, Option<ChessPiece>>;

impl CellStore {
    /// `HashMap::default` of `hashbrown`: a map without entries.
    #[verifier::external_body]
    pub(crate) fn empty() -> (fresh: CellStore)
        ensures
            stored(fresh) == (Map::<HexCoordinate, Option<ChessPiece>>::empty()),
    {
        CellStore { cells: bevy::utils::HashMap::default() }
    }

    /// `HashMap::insert` of `hashbrown`: afterwards the key holds the value,
    /// whether or not it had an entry, and every other entry is as before.
    /// Keys are `hexx::Hex` values, equal when both coordinates are.
    #[verifier::external_body]
    pub(crate) fn insert(&mut self, hex: HexCoordinate, piece: Option<ChessPiece>)
        ensures
            stored(*final(self)) == stored(*old(self)).insert(hex, piece),
    {
        self.cells.insert(hexx::Hex::new(hex.x, hex.y), piece);
    }

    /// `HashMap::get` of `hashbrown`: the value under the key, or `None` for
    /// a key without an entry.
    #[verifier::external_body]
    pub(crate) fn get(&self, hex: HexCoordinate) -> (entry: Option<Option<ChessPiece>>)
        ensures
            entry == if stored(*self).dom().contains(hex) {
                Some(stored(*self)[hex])
            } else {
                None
            },
    {
        self.cells.get(&hexx::Hex::new(hex.x, hex.y)).copied()
    }

    /// `HashMap::get_mut` of `hashbrown`: the place of the value under the
    /// key, or `None` for a key without an entry. What is written to the
    /// place is what the key holds afterwards; nothing else changes.
    #[verifier::external_body]
    pub(crate) fn get_mut(&mut self, hex: HexCoordinate) -> (entry: Option<
        &mut Option<ChessPiece>,
    >)
        ensures
            match entry {
                Some(place) => {
                    &&& stored(*old(self)).dom().contains(hex)
                    &&& *place == stored(*old(self))[hex]
                    &&& stored(*final(self)) == stored(*old(self)).insert(hex, *final(place))
                },
                None => {
                    &&& !stored(*old(self)).dom().contains(hex)
                    &&& stored(*final(self)) == stored(*old(self))
                },
            },
    {
        self.cells.get_mut(&hexx::Hex::new(hex.x, hex.y))
    }
}

/// `hexx::shapes::hexagon` around the origin: the cells at most `radius`
/// steps away from it, `3 * radius * (radius + 1) + 1` of them. The bound on
/// `radius` keeps that count within `u32`, in which `hexx` computes it.
#[verifier::external_body]
pub(crate) fn hexagon(radius: u32) -> (cells: Vec<HexCoordinate>)
    requires
        3 * radius * (radius + 1) + 1 <= u32::MAX,
    ensures
        forall|hex: HexCoordinate| cells@.contains(hex) <==> hex.length() <= radius,
        cells@.len() == 3 * radius * (radius + 1) + 1,
{
    hexx::shapes::hexagon(hexx::Hex::ZERO, radius)
        .map(|hex| HexCoordinate::new(hex.x, hex.y))
        .collect()
}

} // verus!
