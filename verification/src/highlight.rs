//! The cells that are shown highlighted: the one under the pointer, a path
//! and the cells under attack.

use crate::hex::HexCoordinate;
use vstd::prelude::*;

verus! {

/// The highlighted cells. Nothing is highlighted where `hovered` is the
/// origin and both lists are empty.
pub struct HighlightedHexes {
    pub hovered: HexCoordinate,
    pub path: Vec<HexCoordinate>,
    pub attack: Vec<HexCoordinate>,
}

impl Default for HighlightedHexes {
    fn default() -> (highlights: HighlightedHexes)
        ensures
            highlights.is_clear(),
    {
        HighlightedHexes { hovered: HexCoordinate::new(0, 0), path: Vec::new(), attack: Vec::new() }
    }
}

impl HighlightedHexes {
    /// Whether nothing is highlighted.
    pub open spec fn is_clear(&self) -> bool {
        &&& self.hovered == (HexCoordinate { x: 0, y: 0 })
        &&& self.path@.len() == 0
        &&& self.attack@.len() == 0
    }

    /// Every highlighted cell: the hovered one, then the path, then the
    /// cells under attack.
    pub open spec fn cells(&self) -> Seq<HexCoordinate> {
        seq![self.hovered] + self.path@ + self.attack@
    }

    /// Takes every highlight away and returns the cells that had one, so
    /// that their tiles can be given their own colour again.
    pub fn reset(&mut self) -> (restore: Vec<HexCoordinate>)
        ensures
            restore@ == old(self).cells(),
            final(self).is_clear(),
    {
        let mut restore: Vec<HexCoordinate> = Vec::new();
        restore.push(self.hovered);
        self.hovered = HexCoordinate::new(0, 0);
        restore.append(&mut self.path);
        restore.append(&mut self.attack);
        restore
    }

    /// Makes `hex` the hovered cell.
    pub fn hover(&mut self, hex: HexCoordinate)
        ensures
            final(self).hovered == hex,
            final(self).path == old(self).path,
            final(self).attack == old(self).attack,
    {
        self.hovered = hex;
    }

    /// Adds `hex` at the end of the path.
    pub fn add_to_path(&mut self, hex: HexCoordinate)
        ensures
            final(self).path@ == old(self).path@.push(hex),
            final(self).hovered == old(self).hovered,
            final(self).attack == old(self).attack,
    {
        self.path.push(hex);
    }

    /// Adds `hex` at the end of the cells under attack.
    pub fn add_to_attack(&mut self, hex: HexCoordinate)
        ensures
            final(self).attack@ == old(self).attack@.push(hex),
            final(self).hovered == old(self).hovered,
            final(self).path == old(self).path,
    {
        self.attack.push(hex);
    }
}

} // verus!
