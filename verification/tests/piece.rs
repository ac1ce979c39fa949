use hexachess::hex::HexCoordinate;
use hexachess::piece::{ChessPiece, Color, PieceType};

const KINDS: [PieceType; 6] = [
    PieceType::Pawn,
    PieceType::Knight,
    PieceType::Bishop,
    PieceType::Rook,
    PieceType::Queen,
    PieceType::King,
];

fn cells(pairs: &[(i32, i32)]) -> Vec<HexCoordinate> {
    pairs.iter().map(|&(x, y)| HexCoordinate::new(x, y)).collect()
}

#[test]
fn constructors_give_kind_and_colour() {
    assert_eq!(ChessPiece::pawn(false), ChessPiece { color: Color::White, kind: PieceType::Pawn });
    assert_eq!(ChessPiece::pawn(true), ChessPiece { color: Color::Black, kind: PieceType::Pawn });
    assert_eq!(
        ChessPiece::knight(false),
        ChessPiece { color: Color::White, kind: PieceType::Knight }
    );
    assert_eq!(
        ChessPiece::knight(true),
        ChessPiece { color: Color::Black, kind: PieceType::Knight }
    );
    assert_eq!(
        ChessPiece::bishop(false),
        ChessPiece { color: Color::White, kind: PieceType::Bishop }
    );
    assert_eq!(
        ChessPiece::bishop(true),
        ChessPiece { color: Color::Black, kind: PieceType::Bishop }
    );
    assert_eq!(ChessPiece::rook(false), ChessPiece { color: Color::White, kind: PieceType::Rook });
    assert_eq!(ChessPiece::rook(true), ChessPiece { color: Color::Black, kind: PieceType::Rook });
    assert_eq!(
        ChessPiece::queen(false),
        ChessPiece { color: Color::White, kind: PieceType::Queen }
    );
    assert_eq!(ChessPiece::queen(true), ChessPiece { color: Color::Black, kind: PieceType::Queen });
    assert_eq!(ChessPiece::king(false), ChessPiece { color: Color::White, kind: PieceType::King });
    assert_eq!(ChessPiece::king(true), ChessPiece { color: Color::Black, kind: PieceType::King });
}

#[test]
fn piece_and_color_take_the_piece_apart() {
    let piece = ChessPiece::bishop(true);
    assert_eq!(piece.piece(), PieceType::Bishop);
    assert_eq!(piece.color(), Color::Black);
    let piece = ChessPiece::rook(false);
    assert_eq!(piece.piece(), PieceType::Rook);
    assert_eq!(piece.color(), Color::White);
}

#[test]
fn material_values() {
    assert_eq!(PieceType::Pawn.value(), 2);
    assert_eq!(PieceType::Knight.value(), 6);
    assert_eq!(PieceType::Bishop.value(), 7);
    assert_eq!(PieceType::Rook.value(), 10);
    assert_eq!(PieceType::Queen.value(), 18);
    assert_eq!(PieceType::King.value(), i32::MAX);
}

#[test]
fn material_value_ignores_the_colour() {
    assert_eq!(ChessPiece::pawn(false).value(), 2);
    assert_eq!(ChessPiece::pawn(true).value(), 2);
    assert_eq!(ChessPiece::knight(true).value(), 6);
    assert_eq!(ChessPiece::bishop(false).value(), 7);
    assert_eq!(ChessPiece::bishop(true).value(), 7);
    assert_eq!(ChessPiece::rook(true).value(), 10);
    assert_eq!(ChessPiece::queen(false).value(), 18);
    assert_eq!(ChessPiece::queen(true).value(), 18);
    assert_eq!(ChessPiece::king(false).value(), i32::MAX);
    assert_eq!(ChessPiece::king(true).value(), 2_147_483_647);
}

#[test]
fn sprite_index_of_each_piece() {
    assert_eq!(ChessPiece::pawn(false).index(), 0);
    assert_eq!(ChessPiece::knight(false).index(), 1);
    assert_eq!(ChessPiece::bishop(false).index(), 2);
    assert_eq!(ChessPiece::rook(false).index(), 3);
    assert_eq!(ChessPiece::queen(false).index(), 4);
    assert_eq!(ChessPiece::king(false).index(), 5);
    assert_eq!(ChessPiece::pawn(true).index(), 6);
    assert_eq!(ChessPiece::knight(true).index(), 7);
    assert_eq!(ChessPiece::bishop(true).index(), 8);
    assert_eq!(ChessPiece::rook(true).index(), 9);
    assert_eq!(ChessPiece::queen(true).index(), 10);
    assert_eq!(ChessPiece::king(true).index(), 11);
}

#[test]
fn sprite_index_of_each_kind() {
    for (ordinal, kind) in KINDS.into_iter().enumerate() {
        assert_eq!(kind.index(true), ordinal);
        assert_eq!(kind.index(false), ordinal + 6);
    }
}

#[test]
fn step_tables_have_the_known_sizes() {
    let sizes = [1, 8, 4, 6, 8, 8];
    for (kind, size) in KINDS.into_iter().zip(sizes) {
        for white in [true, false] {
            let steps = kind.offsets(white);
            assert_eq!(steps.len(), size);
            for (i, a) in steps.iter().enumerate() {
                for b in &steps[i + 1..] {
                    assert_ne!(a, b);
                }
            }
        }
    }
}

#[test]
fn pawn_steps_oppose_each_other() {
    assert_eq!(PieceType::Pawn.offsets(true), cells(&[(0, 1)]));
    assert_eq!(PieceType::Pawn.offsets(false), cells(&[(0, -1)]));
}

#[test]
fn knight_steps() {
    let steps = cells(&[(1, 2), (2, 1), (2, -1), (1, -2), (-1, -2), (-2, -1), (-2, 1), (-1, 2)]);
    assert_eq!(PieceType::Knight.offsets(true), steps);
    assert_eq!(PieceType::Knight.offsets(false), steps);
}

#[test]
fn bishop_steps() {
    let steps = cells(&[(1, 1), (1, -1), (-1, -1), (-1, 1)]);
    assert_eq!(PieceType::Bishop.offsets(true), steps);
    assert_eq!(PieceType::Bishop.offsets(false), steps);
}

#[test]
fn rook_steps() {
    let steps = cells(&[(1, 0), (1, -1), (0, 1), (0, -1), (-1, 0), (-1, 1)]);
    assert_eq!(PieceType::Rook.offsets(true), steps);
    assert_eq!(PieceType::Rook.offsets(false), steps);
}

#[test]
fn queen_and_king_steps() {
    let steps = cells(&[(1, 0), (0, 1), (-1, 0), (0, -1), (1, 1), (1, -1), (-1, -1), (-1, 1)]);
    for white in [true, false] {
        assert_eq!(PieceType::Queen.offsets(white), steps);
        assert_eq!(PieceType::King.offsets(white), steps);
    }
}

#[test]
fn queen_steps_are_those_of_rook_and_bishop() {
    let queen = PieceType::Queen.offsets(true);
    let rook = PieceType::Rook.offsets(true);
    let bishop = PieceType::Bishop.offsets(true);
    for step in &queen {
        assert!(rook.contains(step) || bishop.contains(step));
    }
    for step in rook.iter().chain(&bishop) {
        assert!(queen.contains(step));
    }
}

#[test]
fn successors_from_the_origin_are_the_steps() {
    let origin = HexCoordinate::new(0, 0);
    for kind in KINDS {
        for white in [true, false] {
            assert_eq!(kind.successors(origin, white), kind.offsets(white));
        }
    }
}

#[test]
fn successors_shift_the_steps() {
    let position = HexCoordinate::new(2, -3);
    assert_eq!(ChessPiece::pawn(false).successors(position), cells(&[(2, -2)]));
    assert_eq!(ChessPiece::pawn(true).successors(position), cells(&[(2, -4)]));
    assert_eq!(
        ChessPiece::knight(false).successors(position),
        cells(&[(3, -1), (4, -2), (4, -4), (3, -5), (1, -5), (0, -4), (0, -2), (1, -1)])
    );
    assert_eq!(
        ChessPiece::bishop(true).successors(position),
        cells(&[(3, -2), (3, -4), (1, -4), (1, -2)])
    );
    assert_eq!(
        ChessPiece::rook(false).successors(position),
        cells(&[(3, -3), (3, -4), (2, -2), (2, -4), (1, -3), (1, -2)])
    );
    let royal = cells(&[(3, -3), (2, -2), (1, -3), (2, -4), (3, -2), (3, -4), (1, -4), (1, -2)]);
    assert_eq!(ChessPiece::queen(true).successors(position), royal);
    assert_eq!(ChessPiece::king(false).successors(position), royal);
}

#[test]
fn successors_may_leave_the_board() {
    let corner = HexCoordinate::new(5, 0);
    let reached = ChessPiece::rook(false).successors(corner);
    assert_eq!(reached.len(), 6);
    assert_eq!(reached.iter().filter(|hex| hex.is_on_board()).count(), 3);
    assert!(reached.contains(&HexCoordinate::new(6, 0)));
}

#[test]
fn successors_of_kind_and_piece_agree() {
    let position = HexCoordinate::new(-1, 4);
    for kind in KINDS {
        let white = ChessPiece { color: Color::White, kind };
        let black = ChessPiece { color: Color::Black, kind };
        assert_eq!(white.successors(position), kind.successors(position, true));
        assert_eq!(black.successors(position), kind.successors(position, false));
    }
}
