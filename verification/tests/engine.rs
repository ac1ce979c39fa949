use hexachess::engine::{ChessMove, Game, Turn};
use hexachess::piece::PieceType;

#[test]
fn a_game_records_turn_and_moves() {
    let mut game = Game { turn: Turn::White, history: Vec::new() };
    game.history.push(ChessMove {
        from: String::from("F5"),
        to: String::from("F6"),
        promotion: None,
    });
    game.history.push(ChessMove {
        from: String::from("B7"),
        to: String::from("B1"),
        promotion: Some(PieceType::Queen),
    });
    game.turn = Turn::Black;
    assert!(matches!(game.turn, Turn::Black));
    assert_eq!(game.history.len(), 2);
    assert_eq!(game.history[0].from, "F5");
    assert_eq!(game.history[0].to, "F6");
    assert_eq!(game.history[0].promotion, None);
    assert_eq!(game.history[1].promotion, Some(PieceType::Queen));
}
