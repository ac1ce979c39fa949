//! Pieces: colour, kind, material value, sprite index and step tables.

use crate::hex::HexCoordinate;
use vstd::prelude::*;

verus! {

/// Side that a piece belongs to.
#[derive(Clone, Copy, Debug, PartialEq, Eq, Hash, Structural)]
pub enum Color {
    White,
    Black,
}

/// Kind of a piece.
#[derive(Clone, Copy, Debug, PartialEq, Eq, Hash, Structural)]
pub enum PieceType {
    Pawn,
    Knight,
    Bishop,
    Rook,
    Queen,
    King,
}

/// A piece: a kind of one colour.
#[derive(Clone, Copy, Debug, PartialEq, Eq, Hash, Structural)]
pub struct ChessPiece {
    pub color: Color,
    pub kind: PieceType,
}

/// The cell offset `(x, y)`.
pub open spec fn offset(x: int, y: int) -> HexCoordinate {
    HexCoordinate { x: x as i32, y: y as i32 }
}

/// The six steps along the axes of the grid.
pub open spec fn rook_steps() -> Seq<HexCoordinate> {
    seq![
        offset(1, 0),
        offset(1, -1),
        offset(0, 1),
        offset(0, -1),
        offset(-1, 0),
        offset(-1, 1),
    ]
}

/// The four diagonal steps.
pub open spec fn bishop_steps() -> Seq<HexCoordinate> {
    seq![offset(1, 1), offset(1, -1), offset(-1, -1), offset(-1, 1)]
}

/// The eight jumps of a knight.
pub open spec fn knight_steps() -> Seq<HexCoordinate> {
    seq![
        offset(1, 2),
        offset(2, 1),
        offset(2, -1),
        offset(1, -2),
        offset(-1, -2),
        offset(-2, -1),
        offset(-2, 1),
        offset(-1, 2),
    ]
}

/// The eight steps that queen and king share.
pub open spec fn royal_steps() -> Seq<HexCoordinate> {
    seq![
        offset(1, 0),
        offset(0, 1),
        offset(-1, 0),
        offset(0, -1),
        offset(1, 1),
        offset(1, -1),
        offset(-1, -1),
        offset(-1, 1),
    ]
}

/// The single step of a pawn: up the board for White, down for Black.
pub open spec fn pawn_steps(color: Color) -> Seq<HexCoordinate> {
    match color {
        Color::White => seq![offset(0, 1)],
        Color::Black => seq![offset(0, -1)],
    }
}

/// The colour that a flag `white` stands for.
pub open spec fn color_of(white: bool) -> Color {
    if white {
        Color::White
    } else {
        Color::Black
    }
}

impl PieceType {
    /// Material value of the kind; the king's is the largest `i32`.
    pub open spec fn material(self) -> int {
        match self {
            PieceType::Pawn => 2,
            PieceType::Knight => 6,
            PieceType::Bishop => 7,
            PieceType::Rook => 10,
            PieceType::Queen => 18,
            PieceType::King => i32::MAX as int,
        }
    }

    /// Position of the kind in a row of the sprite sheet.
    pub open spec fn ordinal(self) -> int {
        match self {
            PieceType::Pawn => 0,
            PieceType::Knight => 1,
            PieceType::Bishop => 2,
            PieceType::Rook => 3,
            PieceType::Queen => 4,
            PieceType::King => 5,
        }
    }

    /// Index of the sprite: White fills the first row of six, Black the second.
    pub open spec fn sprite(self, color: Color) -> int {
        match color {
            Color::White => self.ordinal(),
            Color::Black => self.ordinal() + 6,
        }
    }

    /// The single steps that a piece of this kind and colour may take, as
    /// offsets from the cell it stands on. Only the pawn's depend on `color`.
    pub open spec fn steps(self, color: Color) -> Seq<HexCoordinate> {
        match self {
            PieceType::Pawn => pawn_steps(color),
            PieceType::Knight => knight_steps(),
            PieceType::Bishop => bishop_steps(),
            PieceType::Rook => rook_steps(),
            PieceType::Queen => royal_steps(),
            PieceType::King => royal_steps(),
        }
    }

    /// Whether every step of this kind and colour can be taken from
    /// `position` without leaving the range of the coordinates.
    pub open spec fn steps_fit(self, color: Color, position: HexCoordinate) -> bool {
        forall|i: int|
            0 <= i < self.steps(color).len() ==> position.can_add(#[trigger] self.steps(color)[i])
    }

    /// The cells one step away from `position`, in the order of `steps`.
    pub open spec fn targets(self, color: Color, position: HexCoordinate) -> Seq<HexCoordinate> {
        Seq::new(self.steps(color).len(), |i: int| position.plus(self.steps(color)[i]))
    }

    /// Material value of the kind.
    pub fn value(self) -> (value: i32)
        ensures
            value == self.material(),
    {
        match self {
            PieceType::Pawn => 2,
            PieceType::Knight => 6,
            PieceType::Bishop => 7,
            PieceType::Rook => 10,
            PieceType::Queen => 18,
            PieceType::King => i32::MAX,
        }
    }

    /// Index of the sprite that shows the kind in the colour that `white`
    /// stands for.
    pub fn index(self, white: bool) -> (index: usize)
        ensures
            index == self.sprite(color_of(white)),
            index < 12,
    {
        let mut index: usize = match self {
            PieceType::Pawn => 0,
            PieceType::Knight => 1,
            PieceType::Bishop => 2,
            PieceType::Rook => 3,
            PieceType::Queen => 4,
            PieceType::King => 5,
        };
        if !white {
            index += 6
        }
        index
    }

    /// The step table of the kind for the colour that `white` stands for.
    pub fn offsets(self, white: bool) -> (steps: Vec<HexCoordinate>)
        ensures
            steps@ == self.steps(color_of(white)),
    {
        let steps = match self {
            PieceType::Pawn => {
                if white {
                    vec![HexCoordinate::new(0, 1)]
                } else {
                    vec![HexCoordinate::new(0, -1)]
                }
            },
            PieceType::Knight => vec![
                HexCoordinate::new(1, 2),
                HexCoordinate::new(2, 1),
                HexCoordinate::new(2, -1),
                HexCoordinate::new(1, -2),
                HexCoordinate::new(-1, -2),
                HexCoordinate::new(-2, -1),
                HexCoordinate::new(-2, 1),
                HexCoordinate::new(-1, 2),
            ],
            PieceType::Bishop => vec![
                HexCoordinate::new(1, 1),
                HexCoordinate::new(1, -1),
                HexCoordinate::new(-1, -1),
                HexCoordinate::new(-1, 1),
            ],
            PieceType::Rook => vec![
                HexCoordinate::new(1, 0),
                HexCoordinate::new(1, -1),
                HexCoordinate::new(0, 1),
                HexCoordinate::new(0, -1),
                HexCoordinate::new(-1, 0),
                HexCoordinate::new(-1, 1),
            ],
            PieceType::Queen | PieceType::King => vec![
                HexCoordinate::new(1, 0),
                HexCoordinate::new(0, 1),
                HexCoordinate::new(-1, 0),
                HexCoordinate::new(0, -1),
                HexCoordinate::new(1, 1),
                HexCoordinate::new(1, -1),
                HexCoordinate::new(-1, -1),
                HexCoordinate::new(-1, 1),
            ],
        };
        assert(steps@ =~= self.steps(color_of(white)));
        steps
    }

    /// The cells that a piece of this kind, of the colour that `white` stands
    /// for, reaches from `position` in one step. Cells off the board are not
    /// left out.
    pub fn successors(self, position: HexCoordinate, white: bool) -> (cells: Vec<HexCoordinate>)
        requires
            self.steps_fit(color_of(white), position),
        ensures
            cells@ == self.targets(color_of(white), position),
    {
        let steps = self.offsets(white);
        let mut cells: Vec<HexCoordinate> = Vec::new();
        let mut i: usize = 0;
        while i < steps.len()
            invariant
                i <= steps.len(),
                steps@ == self.steps(color_of(white)),
                self.steps_fit(color_of(white), position),
                cells.len() == i,
                forall|j: int| 0 <= j < i ==> cells[j] == position.plus(#[trigger] steps[j]),
            decreases steps.len() - i,
        {
            cells.push(position + steps[i]);
            i += 1;
        }
        assert(cells@ =~= self.targets(color_of(white), position));
        cells
    }
}

/// Number of steps in the table of `kind`.
pub open spec fn step_count(kind: PieceType) -> nat {
    match kind {
        PieceType::Pawn => 1,
        PieceType::Knight => 8,
        PieceType::Bishop => 4,
        PieceType::Rook => 6,
        PieceType::Queen => 8,
        PieceType::King => 8,
    }
}

/// The table of a kind holds as many steps as `step_count` says, each of
/// them once, whatever the colour.
pub proof fn law_step_counts(kind: PieceType, color: Color)
    ensures
        kind.steps(color).len() == step_count(kind),
        kind.steps(color).no_duplicates(),
        kind.steps(color).to_set().len() == step_count(kind),
{
    let steps = kind.steps(color);
    assert(steps.len() == step_count(kind));
    assert(steps.no_duplicates());
    steps.unique_seq_to_set();
}

/// The pawns of the two colours step in opposite directions along the
/// column: each one's step is the other's with both signs turned.
pub proof fn law_pawn_steps_oppose()
    ensures
        PieceType::Pawn.steps(Color::White) == seq![offset(0, 1)],
        PieceType::Pawn.steps(Color::Black) == seq![offset(0, -1)],
        PieceType::Pawn.steps(Color::White)[0].x == -PieceType::Pawn.steps(Color::Black)[0].x,
        PieceType::Pawn.steps(Color::White)[0].y == -PieceType::Pawn.steps(Color::Black)[0].y,
        PieceType::Pawn.steps(Color::White)[0] != PieceType::Pawn.steps(Color::Black)[0],
{
}

/// Queen and king step as a rook or as a bishop does: their table holds the
/// steps of both, and no other.
pub proof fn law_royal_steps_join(step: HexCoordinate)
    ensures
        royal_steps().contains(step) <==> rook_steps().contains(step) || bishop_steps().contains(
            step,
        ),
{
    let royal = royal_steps();
    let rook = rook_steps();
    let bishop = bishop_steps();
    if royal.contains(step) {
        let i = choose|i: int| 0 <= i < royal.len() && royal[i] == step;
        assert(royal[i] == step);
        assert(step == rook[0] || step == rook[2] || step == rook[4] || step == rook[3] || step
            == bishop[0] || step == bishop[1] || step == bishop[2] || step == bishop[3]);
    }
    if rook.contains(step) {
        let i = choose|i: int| 0 <= i < rook.len() && rook[i] == step;
        assert(rook[i] == step);
        assert(step == royal[0] || step == royal[5] || step == royal[1] || step == royal[3]
            || step == royal[2] || step == royal[7]);
    }
    if bishop.contains(step) {
        let i = choose|i: int| 0 <= i < bishop.len() && bishop[i] == step;
        assert(bishop[i] == step);
        assert(step == royal[4] || step == royal[5] || step == royal[6] || step == royal[7]);
    }
}

/// From a cell of the board every step of every kind can be taken: the sum
/// is a coordinate, on the board or off it.
pub proof fn law_steps_fit_on_board(kind: PieceType, color: Color, position: HexCoordinate)
    requires
        position.on_board(),
    ensures
        kind.steps_fit(color, position),
        kind.targets(color, position).len() == step_count(kind),
{
}

impl ChessPiece {
    /// A pawn: black where `black` is set, white otherwise.
    pub fn pawn(black: bool) -> (piece: ChessPiece)
        ensures
            piece == (ChessPiece { color: color_of(!black), kind: PieceType::Pawn }),
    {
        ChessPiece { color: if black { Color::Black } else { Color::White }, kind: PieceType::Pawn }
    }

    /// A knight: black where `black` is set, white otherwise.
    pub fn knight(black: bool) -> (piece: ChessPiece)
        ensures
            piece == (ChessPiece { color: color_of(!black), kind: PieceType::Knight }),
    {
        ChessPiece {
            color: if black { Color::Black } else { Color::White },
            kind: PieceType::Knight,
        }
    }

    /// A bishop: black where `black` is set, white otherwise.
    pub fn bishop(black: bool) -> (piece: ChessPiece)
        ensures
            piece == (ChessPiece { color: color_of(!black), kind: PieceType::Bishop }),
    {
        ChessPiece {
            color: if black { Color::Black } else { Color::White },
            kind: PieceType::Bishop,
        }
    }

    /// A rook: black where `black` is set, white otherwise.
    pub fn rook(black: bool) -> (piece: ChessPiece)
        ensures
            piece == (ChessPiece { color: color_of(!black), kind: PieceType::Rook }),
    {
        ChessPiece { color: if black { Color::Black } else { Color::White }, kind: PieceType::Rook }
    }

    /// A queen: black where `black` is set, white otherwise.
    pub fn queen(black: bool) -> (piece: ChessPiece)
        ensures
            piece == (ChessPiece { color: color_of(!black), kind: PieceType::Queen }),
    {
        ChessPiece {
            color: if black { Color::Black } else { Color::White },
            kind: PieceType::Queen,
        }
    }

    /// A king: black where `black` is set, white otherwise.
    pub fn king(black: bool) -> (piece: ChessPiece)
        ensures
            piece == (ChessPiece { color: color_of(!black), kind: PieceType::King }),
    {
        ChessPiece { color: if black { Color::Black } else { Color::White }, kind: PieceType::King }
    }

    /// The kind of the piece, without its colour.
    pub fn piece(self) -> (kind: PieceType)
        ensures
            kind == self.kind,
    {
        self.kind
    }

    /// The colour of the piece, without its kind.
    pub fn color(self) -> (color: Color)
        ensures
            color == self.color,
    {
        self.color
    }

    /// Material value of the piece, which goes by its kind alone.
    pub fn value(self) -> (value: i32)
        ensures
            value == self.kind.material(),
    {
        self.kind.value()
    }

    /// Index of the sprite that shows the piece.
    pub fn index(self) -> (index: usize)
        ensures
            index == self.kind.sprite(self.color),
            index < 12,
    {
        match self.color {
            Color::White => self.kind.index(true),
            Color::Black => self.kind.index(false),
        }
    }

    /// The cells that the piece reaches from `position` in one step. Cells
    /// off the board are not left out.
    pub fn successors(self, position: HexCoordinate) -> (cells: Vec<HexCoordinate>)
        requires
            self.kind.steps_fit(self.color, position),
        ensures
            cells@ == self.kind.targets(self.color, position),
    {
        match self.color {
            Color::White => self.kind.successors(position, true),
            Color::Black => self.kind.successors(position, false),
        }
    }
}

} // verus!
