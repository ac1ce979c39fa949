//! The position at the beginning of a game.

use crate::board::{
    board_cells, law_board_has_91_cells, occupied, piece_named, vacant, GlinskiBoard, Position,
};
use crate::hex::HexCoordinate;
use crate::notation::{
    cell_at, column_index, column_of, columns, decimal, decode, encode, integer,
    law_decode_inverts_encode, row_number,
};
use crate::piece::{ChessPiece, Color, PieceType};
use vstd::prelude::*;

verus! {

/// A piece of the given colour and kind.
pub open spec fn piece_of(color: Color, kind: PieceType) -> Option<ChessPiece> {
    Some(ChessPiece { color, kind })
}

/// The piece that stands in column `column`, row `row`, when a game begins:
/// for each side nine pawns, three bishops, two rooks, two knights, a queen
/// and a king.
pub open spec fn start_piece(column: char, row: int) -> Option<ChessPiece> {
    let at = |c: char, r: int| column == c && row == r;
    if at('B', 1) || at('C', 2) || at('D', 3) || at('E', 4) || at('F', 5) || at('G', 4)
        || at('H', 3) || at('I', 2) || at('K', 1) {
        piece_of(Color::White, PieceType::Pawn)
    } else if at('C', 1) || at('I', 1) {
        piece_of(Color::White, PieceType::Rook)
    } else if at('D', 1) || at('H', 1) {
        piece_of(Color::White, PieceType::Knight)
    } else if at('E', 1) {
        piece_of(Color::White, PieceType::Queen)
    } else if at('F', 1) || at('F', 2) || at('F', 3) {
        piece_of(Color::White, PieceType::Bishop)
    } else if at('G', 1) {
        piece_of(Color::White, PieceType::King)
    } else if at('B', 7) || at('C', 7) || at('D', 7) || at('E', 7) || at('F', 7) || at('G', 7)
        || at('H', 7) || at('I', 7) || at('K', 7) {
        piece_of(Color::Black, PieceType::Pawn)
    } else if at('C', 8) || at('I', 8) {
        piece_of(Color::Black, PieceType::Rook)
    } else if at('D', 9) || at('H', 9) {
        piece_of(Color::Black, PieceType::Knight)
    } else if at('E', 10) {
        piece_of(Color::Black, PieceType::Queen)
    } else if at('F', 9) || at('F', 10) || at('F', 11) {
        piece_of(Color::Black, PieceType::Bishop)
    } else if at('G', 10) {
        piece_of(Color::Black, PieceType::King)
    } else {
        None
    }
}

/// The position at the beginning of a game: each cell of the board holds
/// what `start_piece` gives for its column letter and its row.
pub open spec fn start_position() -> Position {
    Map::new(
        |hex: HexCoordinate| hex.on_board(),
        |hex: HexCoordinate| start_piece(columns()[column_index(hex)], row_number(hex)),
    )
}

/// A letter and a number written after it name the cell in that column and
/// row, and the cell has that name.
proof fn lemma_named_cell(name: Seq<char>, column: int, row: int)
    requires
        0 <= column <= 10,
        1 <= row <= 11,
        name.len() == if row < 10 {
            2int
        } else {
            3int
        },
        name[0] == columns()[column],
        row < 10 ==> name[1] == ('0' as int + row) as char,
        row >= 10 ==> name[1] == '1' && name[2] == ('0' as int + row - 10) as char,
    ensures
        decode(name) == Some(cell_at(column, row)),
        encode(cell_at(column, row)) == Some(name),
{
    reveal_with_fuel(decimal, 2);
    assert(name =~= seq![columns()[column]] + decimal(row as nat));
    law_decode_inverts_encode(cell_at(column, row));
}

impl GlinskiBoard {
    /// A board set up for the beginning of a game.
    pub fn new() -> (board: GlinskiBoard)
        ensures
            board@ == start_position(),
            board.wf(),
    {
        let mut s = Self::cleared();
        s.seat_white_pawns();
        s.seat_white_officers();
        s.seat_black_pawns();
        s.seat_black_officers();
        assert(s@ =~= start_position());
        s
    }

    /// Puts the white pawns on their cells.
    fn seat_white_pawns(&mut self)
        requires
            old(self).wf(),
        ensures
            final(self).wf(),
            final(self)@ == old(self)@
                .insert(cell_at(1, 1), piece_of(Color::White, PieceType::Pawn))
                .insert(cell_at(2, 2), piece_of(Color::White, PieceType::Pawn))
                .insert(cell_at(3, 3), piece_of(Color::White, PieceType::Pawn))
                .insert(cell_at(4, 4), piece_of(Color::White, PieceType::Pawn))
                .insert(cell_at(5, 5), piece_of(Color::White, PieceType::Pawn))
                .insert(cell_at(6, 4), piece_of(Color::White, PieceType::Pawn))
                .insert(cell_at(7, 3), piece_of(Color::White, PieceType::Pawn))
                .insert(cell_at(8, 2), piece_of(Color::White, PieceType::Pawn))
                .insert(cell_at(9, 1), piece_of(Color::White, PieceType::Pawn)),
    {
        proof {
            reveal_strlit("B1");
            lemma_named_cell("B1"@, 1, 1);
            reveal_strlit("C2");
            lemma_named_cell("C2"@, 2, 2);
            reveal_strlit("D3");
            lemma_named_cell("D3"@, 3, 3);
            reveal_strlit("E4");
            lemma_named_cell("E4"@, 4, 4);
            reveal_strlit("F5");
            lemma_named_cell("F5"@, 5, 5);
            reveal_strlit("G4");
            lemma_named_cell("G4"@, 6, 4);
            reveal_strlit("H3");
            lemma_named_cell("H3"@, 7, 3);
            reveal_strlit("I2");
            lemma_named_cell("I2"@, 8, 2);
            reveal_strlit("K1");
            lemma_named_cell("K1"@, 9, 1);
        }
        self.set_piece_notation("B1", Some(ChessPiece::pawn(false)));
        self.set_piece_notation("C2", Some(ChessPiece::pawn(false)));
        self.set_piece_notation("D3", Some(ChessPiece::pawn(false)));
        self.set_piece_notation("E4", Some(ChessPiece::pawn(false)));
        self.set_piece_notation("F5", Some(ChessPiece::pawn(false)));
        self.set_piece_notation("G4", Some(ChessPiece::pawn(false)));
        self.set_piece_notation("H3", Some(ChessPiece::pawn(false)));
        self.set_piece_notation("I2", Some(ChessPiece::pawn(false)));
        self.set_piece_notation("K1", Some(ChessPiece::pawn(false)));
    }

    /// Puts the white pieces other than pawns on their cells.
    fn seat_white_officers(&mut self)
        requires
            old(self).wf(),
        ensures
            final(self).wf(),
            final(self)@ == old(self)@
                .insert(cell_at(2, 1), piece_of(Color::White, PieceType::Rook))
                .insert(cell_at(3, 1), piece_of(Color::White, PieceType::Knight))
                .insert(cell_at(4, 1), piece_of(Color::White, PieceType::Queen))
                .insert(cell_at(5, 3), piece_of(Color::White, PieceType::Bishop))
                .insert(cell_at(5, 2), piece_of(Color::White, PieceType::Bishop))
                .insert(cell_at(5, 1), piece_of(Color::White, PieceType::Bishop))
                .insert(cell_at(6, 1), piece_of(Color::White, PieceType::King))
                .insert(cell_at(7, 1), piece_of(Color::White, PieceType::Knight))
                .insert(cell_at(8, 1), piece_of(Color::White, PieceType::Rook)),
    {
        proof {
            reveal_strlit("C1");
            lemma_named_cell("C1"@, 2, 1);
            reveal_strlit("D1");
            lemma_named_cell("D1"@, 3, 1);
            reveal_strlit("E1");
            lemma_named_cell("E1"@, 4, 1);
            reveal_strlit("F3");
            lemma_named_cell("F3"@, 5, 3);
            reveal_strlit("F2");
            lemma_named_cell("F2"@, 5, 2);
            reveal_strlit("F1");
            lemma_named_cell("F1"@, 5, 1);
            reveal_strlit("G1");
            lemma_named_cell("G1"@, 6, 1);
            reveal_strlit("H1");
            lemma_named_cell("H1"@, 7, 1);
            reveal_strlit("I1");
            lemma_named_cell("I1"@, 8, 1);
        }
        self.set_piece_notation("C1", Some(ChessPiece::rook(false)));
        self.set_piece_notation("D1", Some(ChessPiece::knight(false)));
        self.set_piece_notation("E1", Some(ChessPiece::queen(false)));
        self.set_piece_notation("F3", Some(ChessPiece::bishop(false)));
        self.set_piece_notation("F2", Some(ChessPiece::bishop(false)));
        self.set_piece_notation("F1", Some(ChessPiece::bishop(false)));
        self.set_piece_notation("G1", Some(ChessPiece::king(false)));
        self.set_piece_notation("H1", Some(ChessPiece::knight(false)));
        self.set_piece_notation("I1", Some(ChessPiece::rook(false)));
    }

    /// Puts the black pawns on their cells.
    fn seat_black_pawns(&mut self)
        requires
            old(self).wf(),
        ensures
            final(self).wf(),
            final(self)@ == old(self)@
                .insert(cell_at(1, 7), piece_of(Color::Black, PieceType::Pawn))
                .insert(cell_at(2, 7), piece_of(Color::Black, PieceType::Pawn))
                .insert(cell_at(3, 7), piece_of(Color::Black, PieceType::Pawn))
                .insert(cell_at(4, 7), piece_of(Color::Black, PieceType::Pawn))
                .insert(cell_at(5, 7), piece_of(Color::Black, PieceType::Pawn))
                .insert(cell_at(6, 7), piece_of(Color::Black, PieceType::Pawn))
                .insert(cell_at(7, 7), piece_of(Color::Black, PieceType::Pawn))
                .insert(cell_at(8, 7), piece_of(Color::Black, PieceType::Pawn))
                .insert(cell_at(9, 7), piece_of(Color::Black, PieceType::Pawn)),
    {
        proof {
            reveal_strlit("B7");
            lemma_named_cell("B7"@, 1, 7);
            reveal_strlit("C7");
            lemma_named_cell("C7"@, 2, 7);
            reveal_strlit("D7");
            lemma_named_cell("D7"@, 3, 7);
            reveal_strlit("E7");
            lemma_named_cell("E7"@, 4, 7);
            reveal_strlit("F7");
            lemma_named_cell("F7"@, 5, 7);
            reveal_strlit("G7");
            lemma_named_cell("G7"@, 6, 7);
            reveal_strlit("H7");
            lemma_named_cell("H7"@, 7, 7);
            reveal_strlit("I7");
            lemma_named_cell("I7"@, 8, 7);
            reveal_strlit("K7");
            lemma_named_cell("K7"@, 9, 7);
        }
        self.set_piece_notation("B7", Some(ChessPiece::pawn(true)));
        self.set_piece_notation("C7", Some(ChessPiece::pawn(true)));
        self.set_piece_notation("D7", Some(ChessPiece::pawn(true)));
        self.set_piece_notation("E7", Some(ChessPiece::pawn(true)));
        self.set_piece_notation("F7", Some(ChessPiece::pawn(true)));
        self.set_piece_notation("G7", Some(ChessPiece::pawn(true)));
        self.set_piece_notation("H7", Some(ChessPiece::pawn(true)));
        self.set_piece_notation("I7", Some(ChessPiece::pawn(true)));
        self.set_piece_notation("K7", Some(ChessPiece::pawn(true)));
    }

    /// Puts the black pieces other than pawns on their cells.
    fn seat_black_officers(&mut self)
        requires
            old(self).wf(),
        ensures
            final(self).wf(),
            final(self)@ == old(self)@
                .insert(cell_at(2, 8), piece_of(Color::Black, PieceType::Rook))
                .insert(cell_at(3, 9), piece_of(Color::Black, PieceType::Knight))
                .insert(cell_at(4, 10), piece_of(Color::Black, PieceType::Queen))
                .insert(cell_at(5, 9), piece_of(Color::Black, PieceType::Bishop))
                .insert(cell_at(5, 10), piece_of(Color::Black, PieceType::Bishop))
                .insert(cell_at(5, 11), piece_of(Color::Black, PieceType::Bishop))
                .insert(cell_at(6, 10), piece_of(Color::Black, PieceType::King))
                .insert(cell_at(7, 9), piece_of(Color::Black, PieceType::Knight))
                .insert(cell_at(8, 8), piece_of(Color::Black, PieceType::Rook)),
    {
        proof {
            reveal_strlit("C8");
            lemma_named_cell("C8"@, 2, 8);
            reveal_strlit("D9");
            lemma_named_cell("D9"@, 3, 9);
            reveal_strlit("E10");
            lemma_named_cell("E10"@, 4, 10);
            reveal_strlit("F9");
            lemma_named_cell("F9"@, 5, 9);
            reveal_strlit("F10");
            lemma_named_cell("F10"@, 5, 10);
            reveal_strlit("F11");
            lemma_named_cell("F11"@, 5, 11);
            reveal_strlit("G10");
            lemma_named_cell("G10"@, 6, 10);
            reveal_strlit("H9");
            lemma_named_cell("H9"@, 7, 9);
            reveal_strlit("I8");
            lemma_named_cell("I8"@, 8, 8);
        }
        self.set_piece_notation("C8", Some(ChessPiece::rook(true)));
        self.set_piece_notation("D9", Some(ChessPiece::knight(true)));
        self.set_piece_notation("E10", Some(ChessPiece::queen(true)));
        self.set_piece_notation("F9", Some(ChessPiece::bishop(true)));
        self.set_piece_notation("F10", Some(ChessPiece::bishop(true)));
        self.set_piece_notation("F11", Some(ChessPiece::bishop(true)));
        self.set_piece_notation("G10", Some(ChessPiece::king(true)));
        self.set_piece_notation("H9", Some(ChessPiece::knight(true)));
        self.set_piece_notation("I8", Some(ChessPiece::rook(true)));
    }
}

impl Default for GlinskiBoard {
    fn default() -> (board: GlinskiBoard)
        ensures
            board@ == start_position(),
            board.wf(),
    {
        GlinskiBoard::new()
    }
}

/// At the beginning of a game the cell that a text names holds what the
/// table gives for the text's letter and row.
pub proof fn law_start_by_name(notation: Seq<char>)
    requires
        decode(notation) is Some,
        decode(notation)->0.on_board(),
    ensures
        piece_named(start_position(), notation) == start_piece(
            notation[0],
            integer(notation.subrange(1, notation.len() as int))->0 as int,
        ),
{
    let column = column_of(notation[0])->0;
    assert(columns()[column] == notation[0]);
}

/// The cells on which White's pieces start.
spec fn white_start_cells() -> Set<HexCoordinate> {
    set![
        cell_at(1, 1), cell_at(2, 2), cell_at(3, 3),
        cell_at(4, 4), cell_at(5, 5), cell_at(6, 4),
        cell_at(7, 3), cell_at(8, 2), cell_at(9, 1),
        cell_at(2, 1), cell_at(3, 1), cell_at(4, 1),
        cell_at(5, 3), cell_at(5, 2), cell_at(5, 1),
        cell_at(6, 1), cell_at(7, 1), cell_at(8, 1),
    ]
}

/// The cells on which Black's pieces start.
spec fn black_start_cells() -> Set<HexCoordinate> {
    set![
        cell_at(1, 7), cell_at(2, 7), cell_at(3, 7),
        cell_at(4, 7), cell_at(5, 7), cell_at(6, 7),
        cell_at(7, 7), cell_at(8, 7), cell_at(9, 7),
        cell_at(2, 8), cell_at(3, 9), cell_at(4, 10),
        cell_at(5, 9), cell_at(5, 10), cell_at(5, 11),
        cell_at(6, 10), cell_at(7, 9), cell_at(8, 8),
    ]
}

/// The cells of `position` on which a piece of the colour `color` stands.
pub open spec fn held_by(position: Position, color: Color) -> Set<HexCoordinate> {
    Set::new(
        |hex: HexCoordinate|
            {
                &&& position.dom().contains(hex)
                &&& position[hex] matches Some(piece)
                &&& piece.color == color
            },
    )
}

/// When a game begins 36 cells of the board hold a piece, 18 of each colour,
/// and the other 55 hold none.
pub proof fn law_start_counts()
    ensures
        held_by(start_position(), Color::White).len() == 18,
        held_by(start_position(), Color::Black).len() == 18,
        occupied(start_position()).len() == 36,
        vacant(start_position()).len() == 55,
{
    let white = white_start_cells();
    let black = black_start_cells();
    let taken = occupied(start_position());
    let free = vacant(start_position());
    assert(white.finite() && white.len() == 18);
    assert(black.finite() && black.len() == 18);
    assert(held_by(start_position(), Color::White) =~= white);
    assert(held_by(start_position(), Color::Black) =~= black);
    assert(white.disjoint(black));
    vstd::set_lib::lemma_set_disjoint_lens(white, black);
    assert(taken =~= white + black);

    law_board_has_91_cells();
    assert(free.subset_of(board_cells()));
    vstd::set_lib::lemma_set_subset_finite(board_cells(), free);
    assert(taken + free =~= board_cells());
    assert(taken.disjoint(free));
    vstd::set_lib::lemma_set_disjoint_lens(taken, free);
}

} // verus!
