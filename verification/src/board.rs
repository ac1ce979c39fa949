//! The board: which piece, if any, stands on each of its cells.

use crate::hex::{HexCoordinate, RADIUS};
use crate::notation::{
    cell_at, column_index, column_position, column_text, decode, encode,
    lemma_notation_is_ascii, parse_integer, push_decimal, row_number, COLUMN_OFFSET, ROW_OFFSET,
};
use crate::piece::ChessPiece;
use crate::store::{hexagon, stored, CellStore};
use vstd::prelude::*;
use vstd::string::StrSliceExecFns;
use vstd::string::StringExecFns;

verus! {

/// A position: the cells that can be addressed, each with the piece on it.
pub type Position = Map<HexCoordinate, Option<ChessPiece>>;

/// The piece that `position` has on `hex`; none where `hex` cannot be
/// addressed.
pub open spec fn piece_at(position: Position, hex: HexCoordinate) -> Option<ChessPiece> {
    if position.dom().contains(hex) {
        position[hex]
    } else {
        None
    }
}

/// `position` after `piece` was written to `hex`. A cell that cannot be
/// addressed takes nothing: the position stays as it is.
pub open spec fn with_piece(
    position: Position,
    hex: HexCoordinate,
    piece: Option<ChessPiece>,
) -> Position {
    if position.dom().contains(hex) {
        position.insert(hex, piece)
    } else {
        position
    }
}

/// `position` after what stood on `from` was written to `to` and `from` was
/// cleared, in that order.
pub open spec fn relocated(position: Position, from: HexCoordinate, to: HexCoordinate) -> Position {
    with_piece(with_piece(position, to, piece_at(position, from)), from, None)
}

/// The cells of the board.
pub open spec fn board_cells() -> Set<HexCoordinate> {
    Set::new(|hex: HexCoordinate| hex.on_board())
}

/// The board without any piece.
pub open spec fn empty_position() -> Position {
    Map::new(|hex: HexCoordinate| hex.on_board(), |hex: HexCoordinate| None::<ChessPiece>)
}

/// The piece that `position` has on the cell that `notation` names; none
/// where it names no cell.
pub open spec fn piece_named(position: Position, notation: Seq<char>) -> Option<ChessPiece> {
    match decode(notation) {
        Some(hex) => piece_at(position, hex),
        None => None,
    }
}

/// `position` after `piece` was written to the cell that `notation` names.
/// Where it names no cell the position stays as it is.
pub open spec fn with_piece_named(
    position: Position,
    notation: Seq<char>,
    piece: Option<ChessPiece>,
) -> Position {
    match decode(notation) {
        Some(hex) => with_piece(position, hex, piece),
        None => position,
    }
}

/// The cells of `position` on which a piece stands.
pub open spec fn occupied(position: Position) -> Set<HexCoordinate> {
    Set::new(|hex: HexCoordinate| position.dom().contains(hex) && position[hex] is Some)
}

/// The cells of `position` on which nothing stands.
pub open spec fn vacant(position: Position) -> Set<HexCoordinate> {
    Set::new(|hex: HexCoordinate| position.dom().contains(hex) && position[hex] is None)
}

/// What every board offers: reading a cell, writing a cell, and moving what
/// stands on one cell to another.
pub trait ChessBoard {
    /// The position that the board holds.
    spec fn position(&self) -> Position;

    /// The piece on `hex`; none where the cell is empty or cannot be
    /// addressed.
    fn get_piece(&self, hex: HexCoordinate) -> (piece: Option<ChessPiece>)
        ensures
            piece == piece_at(self.position(), hex),
    ;

    /// Writes `piece` to `hex`, or clears the cell where `piece` is none.
    /// Nothing happens where `hex` cannot be addressed.
    fn set_piece(&mut self, hex: HexCoordinate, piece: Option<ChessPiece>)
        ensures
            final(self).position() == with_piece(old(self).position(), hex, piece),
            final(self).position().dom() == old(self).position().dom(),
    ;

    /// Moves what stands on `from` to `to`, over whatever stood there, and
    /// clears `from`. No rule of the game is applied.
    fn move_piece(&mut self, from: HexCoordinate, to: HexCoordinate)
        ensures
            final(self).position() == relocated(old(self).position(), from, to),
            final(self).position().dom() == old(self).position().dom(),
    {
        let piece = self.get_piece(from);
        self.set_piece(to, piece);
        self.set_piece(from, None);
    }
}

/// The board of Glinski's hexagonal chess.
pub struct GlinskiBoard {
    pieces: CellStore,
}

impl View for GlinskiBoard {
    type V = Position;

    closed spec fn view(&self) -> Position {
        stored(self.pieces)
    }
}

impl GlinskiBoard {
    /// The cells that the board holds are the 91 cells of the hexagon. Every
    /// board is made so, and no operation changes it.
    pub open spec fn wf(&self) -> bool {
        self@.dom() == board_cells()
    }

    /// The cell that `notation` names.
    pub fn from_glinski_notation(notation: &str) -> (hex: Option<HexCoordinate>)
        ensures
            hex == decode(notation@),
    {
        if !notation.is_ascii() {
            proof {
                if decode(notation@) is Some {
                    lemma_notation_is_ascii(notation@);
                }
            }
            return None;
        }
        let len = notation.unicode_len();
        if len < 2 {
            return None;
        }
        let column_char = notation.get_char(0);
        let row_part = notation.substring_ascii(1, len);
        let row: i64 = parse_integer(row_part)? as i64;
        let column_index = column_position(column_char)?;
        let x: i64 = column_index as i64 - COLUMN_OFFSET as i64;
        let y: i64 = if column_index < COLUMN_OFFSET as usize {
            row - x - ROW_OFFSET as i64
        } else {
            row - ROW_OFFSET as i64
        };
        if y < i32::MIN as i64 || y > i32::MAX as i64 {
            return None;
        }
        Some(HexCoordinate::new(x as i32, y as i32))
    }

    /// The text that names `hex`.
    pub fn to_glinski_notation(hex: HexCoordinate) -> (notation: Option<String>)
        ensures
            match notation {
                Some(name) => encode(hex) == Some(name@),
                None => encode(hex) is None,
            },
    {
        // The middle column, F, is the one with x = 0.
        let column_index: i64 = hex.x() as i64 + COLUMN_OFFSET as i64;
        if column_index < 0 || column_index > 10 {
            return None;
        }
        let row: i64 = if column_index < COLUMN_OFFSET as i64 {
            hex.y() as i64 + hex.x() as i64 + ROW_OFFSET as i64
        } else {
            hex.y() as i64 + ROW_OFFSET as i64
        };
        if row < 1 || row > 11 {
            return None;
        }
        let mut name = String::from_str(column_text(column_index as usize));
        push_decimal(&mut name, row as u32);
        Some(name)
    }

    /// A board on which no piece stands.
    pub(crate) fn cleared() -> (board: GlinskiBoard)
        ensures
            board@ == empty_position(),
            board.wf(),
    {
        let cells = hexagon(RADIUS);
        let mut pieces = CellStore::empty();
        let mut i: usize = 0;
        while i < cells.len()
            invariant
                i <= cells.len(),
                forall|hex: HexCoordinate| cells@.contains(hex) <==> hex.on_board(),
                forall|hex: HexCoordinate|
                    stored(pieces).dom().contains(hex) <==> cells@.take(i as int).contains(hex),
                forall|hex: HexCoordinate|
                    stored(pieces).dom().contains(hex) ==> stored(pieces)[hex] is None,
            decreases cells.len() - i,
        {
            let hex = cells[i];
            pieces.insert(hex, None);
            proof {
                let before = cells@.take(i as int);
                let after = cells@.take(i + 1);
                assert(after == before.push(hex));
                assert forall|other: HexCoordinate|
                    after.contains(other) <==> before.contains(other) || other == hex by {
                    if before.contains(other) {
                        let j = choose|j: int| 0 <= j < before.len() && before[j] == other;
                        assert(after[j] == other);
                    }
                    if other == hex {
                        assert(after[i as int] == hex);
                    }
                }
            }
            i += 1;
        }
        assert(cells@.take(cells.len() as int) == cells@);
        assert(stored(pieces) =~= empty_position());
        GlinskiBoard { pieces }
    }

    /// The piece on the cell that `notation` names; none where it names no
    /// cell of the board.
    pub fn get_piece_notation(&self, notation: &str) -> (piece: Option<ChessPiece>)
        ensures
            piece == piece_named(self@, notation@),
    {
        if let Some(hex) = Self::from_glinski_notation(notation) {
            self.get_piece(hex)
        } else {
            None
        }
    }

    /// Writes `piece` to the cell that `notation` names. Nothing happens
    /// where it names no cell of the board.
    pub fn set_piece_notation(&mut self, notation: &str, piece: Option<ChessPiece>)
        ensures
            final(self)@ == with_piece_named(old(self)@, notation@, piece),
            final(self)@.dom() == old(self)@.dom(),
    {
        if let Some(hex) = Self::from_glinski_notation(notation) {
            self.set_piece(hex, piece);
        }
    }
}

impl ChessBoard for GlinskiBoard {
    open spec fn position(&self) -> Position {
        self@
    }

    fn get_piece(&self, hex: HexCoordinate) -> (piece: Option<ChessPiece>)
        ensures
            self.wf() && !hex.on_board() ==> piece is None,
    {
        match self.pieces.get(hex) {
            Some(entry) => entry,
            None => None,
        }
    }

    fn set_piece(&mut self, hex: HexCoordinate, piece: Option<ChessPiece>)
        ensures
            old(self).wf() ==> final(self).wf(),
            old(self).wf() && !hex.on_board() ==> final(self)@ == old(self)@,
    {
        if let Some(maybe_piece) = self.pieces.get_mut(hex) {
            *maybe_piece = piece;
        }
        assert(self@.dom() =~= old(self)@.dom());
    }
}

/// A cell off the board is out of reach: writing to it leaves the position
/// as it is, and reading it finds no piece.
pub proof fn law_off_board_is_out_of_reach(
    position: Position,
    hex: HexCoordinate,
    piece: Option<ChessPiece>,
)
    requires
        position.dom() == board_cells(),
        !hex.on_board(),
    ensures
        with_piece(position, hex, piece) == position,
        piece_at(position, hex) is None,
{
}

/// Moving between two different cells of the board puts what stood on the
/// first onto the second, whatever stood there, leaves the first empty and
/// touches no other cell.
pub proof fn law_move_relocates(position: Position, from: HexCoordinate, to: HexCoordinate)
    requires
        position.dom() == board_cells(),
        from.on_board(),
        to.on_board(),
        from != to,
    ensures
        piece_at(relocated(position, from, to), to) == piece_at(position, from),
        piece_at(relocated(position, from, to), from) is None,
        forall|other: HexCoordinate|
            other != from && other != to ==> piece_at(relocated(position, from, to), other)
                == piece_at(position, other),
{
}

/// Moving from a cell to itself clears the cell: the piece is written and
/// then taken away again.
pub proof fn law_move_onto_itself_clears(position: Position, hex: HexCoordinate)
    requires
        position.dom() == board_cells(),
        hex.on_board(),
    ensures
        piece_at(relocated(position, hex, hex), hex) is None,
{
}

/// Number of cells in column `column`, counted from 0: six in the outermost
/// columns, one more with each column towards the middle, eleven there.
pub open spec fn column_length(column: int) -> int {
    if column <= 5 {
        6 + column
    } else {
        16 - column
    }
}

/// Of the 121 pairs of a column and a row from 1 to 11, those name a cell of
/// the board whose row is within the length of the column.
pub proof fn law_rows_within_columns(column: int, row: int)
    requires
        0 <= column <= 10,
        1 <= row <= 11,
    ensures
        cell_at(column, row).on_board() <==> row <= column_length(column),
{
}

/// A cell of the board lies in one of the eleven columns, in a row within
/// the length of the column.
pub proof fn law_board_cells_have_rows(hex: HexCoordinate)
    requires
        hex.on_board(),
    ensures
        0 <= column_index(hex) <= 10,
        1 <= row_number(hex) <= column_length(column_index(hex)),
        cell_at(column_index(hex), row_number(hex)) == hex,
{
}

/// Number of cells in the columns before `column`: the lengths of those
/// columns added up.
spec fn cells_before(column: int) -> int {
    if column <= 5 {
        column * (column + 11) / 2
    } else {
        91 - (11 - column) * (22 - column) / 2
    }
}

/// Place of a cell of the board when the cells are counted column by
/// column, and from the first row up within a column: a number from 0 to 90.
spec fn cell_number(hex: HexCoordinate) -> int {
    cells_before(column_index(hex)) + row_number(hex) - 1
}

/// The column in which the cell with the number `number` lies.
spec fn column_holding(number: int) -> int {
    if number < 6 {
        0
    } else if number < 13 {
        1
    } else if number < 21 {
        2
    } else if number < 30 {
        3
    } else if number < 40 {
        4
    } else if number < 51 {
        5
    } else if number < 61 {
        6
    } else if number < 70 {
        7
    } else if number < 78 {
        8
    } else if number < 85 {
        9
    } else {
        10
    }
}

/// The cell that `cell_number` gives the number `number`.
spec fn numbered_cell(number: int) -> HexCoordinate {
    let column = column_holding(number);
    cell_at(column, number - cells_before(column) + 1)
}

/// Counting the cells of the board gives each of them one of the numbers
/// from 0 to 90, and each number to one cell.
proof fn lemma_cells_are_numbered(hex: HexCoordinate, number: int)
    ensures
        hex.on_board() ==> 0 <= cell_number(hex) <= 90 && numbered_cell(cell_number(hex)) == hex,
        0 <= number <= 90 ==> numbered_cell(number).on_board() && cell_number(
            numbered_cell(number),
        ) == number,
{
    lemma_cells_before();
}

/// The numbers at which the columns begin.
proof fn lemma_cells_before()
    ensures
        cells_before(0) == 0,
        cells_before(1) == 6,
        cells_before(2) == 13,
        cells_before(3) == 21,
        cells_before(4) == 30,
        cells_before(5) == 40,
        cells_before(6) == 51,
        cells_before(7) == 61,
        cells_before(8) == 70,
        cells_before(9) == 78,
        cells_before(10) == 85,
        cells_before(11) == 91,
{
}

/// The board has 91 cells.
pub proof fn law_board_has_91_cells()
    ensures
        board_cells().finite(),
        board_cells().len() == 91,
{
    let numbers = vstd::set_lib::set_int_range(0, 91);
    let number_to_cell = |number: int| numbered_cell(number);
    vstd::set_lib::lemma_int_range(0, 91);
    assert forall|a: int, b: int|
        numbers.contains(a) && numbers.contains(b) && #[trigger] number_to_cell(a)
            == #[trigger] number_to_cell(b) implies a == b by {
        lemma_cells_are_numbered(numbered_cell(a), a);
        lemma_cells_are_numbered(numbered_cell(b), b);
    }
    assert(numbers.map(number_to_cell) =~= board_cells()) by {
        assert forall|hex: HexCoordinate| board_cells().contains(hex) implies numbers.map(
            number_to_cell,
        ).contains(hex) by {
            lemma_cells_are_numbered(hex, 0);
            assert(numbers.contains(cell_number(hex)));
            assert(number_to_cell(cell_number(hex)) == hex);
        }
        assert forall|hex: HexCoordinate|
            numbers.map(number_to_cell).contains(hex) implies board_cells().contains(hex) by {
            let number = choose|number: int|
                numbers.contains(number) && number_to_cell(number) == hex;
            lemma_cells_are_numbered(hex, number);
        }
    }
    vstd::set_lib::lemma_map_size(numbers, board_cells(), number_to_cell);
}

} // verus!
