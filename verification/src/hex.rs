//! Axial coordinates of hexagonal cells.

use vstd::prelude::*;

verus! {

/// Number of rings of cells around the centre of the board.
pub const RADIUS: u32 = 5;

/// A cell of the hexagonal grid in axial coordinates.
///
/// The third cube coordinate is not stored: it is `z()`, so that the three
/// always add up to zero. Two coordinates are equal when `x` and `y` are.
#[derive(Clone, Copy, Debug, PartialEq, Eq, Hash, Structural)]
pub struct HexCoordinate {
    pub x: i32,
    pub y: i32,
}

/// Absolute value of an integer.
pub open spec fn abs(v: int) -> int {
    if v < 0 {
        -v
    } else {
        v
    }
}

impl HexCoordinate {
    /// The third cube coordinate.
    pub open spec fn cube_z(self) -> int {
        -self.x - self.y
    }

    /// Number of steps between the cell and the origin: the largest absolute
    /// value among the three cube coordinates.
    pub open spec fn length(self) -> int {
        let ax = abs(self.x as int);
        let ay = abs(self.y as int);
        let az = abs(self.x + self.y);
        if ax >= ay && ax >= az {
            ax
        } else if ay >= az {
            ay
        } else {
            az
        }
    }

    /// Whether the cell is one of the 91 cells of the board.
    pub open spec fn on_board(self) -> bool {
        self.length() <= RADIUS
    }

    /// Whether the sum with `rhs` can be represented.
    pub open spec fn can_add(self, rhs: HexCoordinate) -> bool {
        &&& i32::MIN <= self.x + rhs.x <= i32::MAX
        &&& i32::MIN <= self.y + rhs.y <= i32::MAX
    }

    /// The coordinate-wise sum with `rhs`.
    pub open spec fn plus(self, rhs: HexCoordinate) -> HexCoordinate {
        HexCoordinate { x: (self.x + rhs.x) as i32, y: (self.y + rhs.y) as i32 }
    }

    /// The cell with the axial coordinates `x` and `y`.
    pub fn new(x: i32, y: i32) -> (hex: HexCoordinate)
        ensures
            hex.x == x,
            hex.y == y,
    {
        HexCoordinate { x, y }
    }

    /// The first axial coordinate.
    pub fn x(self) -> (x: i32)
        ensures
            x == self.x,
    {
        self.x
    }

    /// The second axial coordinate.
    pub fn y(self) -> (y: i32)
        ensures
            y == self.y,
    {
        self.y
    }

    /// The third cube coordinate, in a type wide enough for every cell.
    pub fn z(self) -> (z: i64)
        ensures
            z == self.cube_z(),
            self.x + self.y + z == 0,
    {
        -(self.x as i64) - (self.y as i64)
    }

    /// Tells whether the cell lies on the board.
    pub fn is_on_board(self) -> (on: bool)
        ensures
            on == self.on_board(),
    {
        let x: i64 = self.x as i64;
        let y: i64 = self.y as i64;
        let r: i64 = RADIUS as i64;
        -r <= x && x <= r && -r <= y && y <= r && -r <= x + y && x + y <= r
    }
}

impl core::ops::Add for HexCoordinate {
    type Output = HexCoordinate;

    /// The coordinate-wise sum. Both sums have to fit in `i32`.
    fn add(self, rhs: HexCoordinate) -> (sum: HexCoordinate) {
        HexCoordinate { x: self.x + rhs.x, y: self.y + rhs.y }
    }
}

impl vstd::std_specs::ops::AddSpecImpl for HexCoordinate {
    open spec fn obeys_add_spec() -> bool {
        true
    }

    open spec fn add_req(self, rhs: HexCoordinate) -> bool {
        self.can_add(rhs)
    }

    open spec fn add_spec(self, rhs: HexCoordinate) -> HexCoordinate {
        self.plus(rhs)
    }
}

/// Adding coordinates adds each of the three cube coordinates, and the order
/// of the two does not matter.
pub proof fn law_addition_is_coordinate_wise(a: HexCoordinate, b: HexCoordinate)
    requires
        a.can_add(b),
    ensures
        a.plus(b).x == a.x + b.x,
        a.plus(b).y == a.y + b.y,
        a.plus(b).cube_z() == a.cube_z() + b.cube_z(),
        a.plus(b) == b.plus(a),
{
}

} // verus!
