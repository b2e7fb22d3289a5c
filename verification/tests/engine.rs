use rusty_checkers::{
    Board, Coordinate, EngineError, GameEngine, GamePiece, Move, PieceColor,
};

fn count(engine: &GameEngine, color: PieceColor) -> usize {
    let mut n = 0;
    for y in 0..8usize {
        for x in 0..8usize {
            if let Ok(Some(p)) = engine.get_piece(Coordinate(x, y)) {
                if p.color == color {
                    n += 1;
                }
            }
        }
    }
    n
}

fn empty_board() -> Board {
    let mut board = Board::new();
    for y in 0..8usize {
        for x in 0..8usize {
            board.set(Coordinate(x, y), None).unwrap();
        }
    }
    board
}

#[test]
fn initial_turn_is_black() {
    let engine = GameEngine::new();
    assert_eq!(engine.current_turn(), PieceColor::Black);
    assert_eq!(count(&engine, PieceColor::Black), 12);
    assert_eq!(count(&engine, PieceColor::White), 12);
}

#[test]
fn get_piece_out_of_bounds() {
    let engine = GameEngine::new();
    assert_eq!(engine.get_piece(Coordinate(8, 0)), Err(EngineError::OutOfBounds));
    assert_eq!(engine.get_piece(Coordinate(3, 9)), Err(EngineError::OutOfBounds));
}

#[test]
fn move_from_empty_source_fails() {
    let mut engine = GameEngine::new();
    let r = engine.move_piece(&Move::new((3, 3), (4, 4)));
    assert_eq!(r, Err(EngineError::NoPieceAtSource));
    assert_eq!(engine.current_turn(), PieceColor::Black);
    assert_eq!(count(&engine, PieceColor::Black), 12);
    assert_eq!(count(&engine, PieceColor::White), 12);
}

#[test]
fn move_by_side_not_on_turn_fails() {
    let mut engine = GameEngine::new();
    let r = engine.move_piece(&Move::new((1, 5), (2, 4)));
    assert_eq!(r, Err(EngineError::WrongTurn));
    assert_eq!(engine.current_turn(), PieceColor::Black);
    assert_eq!(
        engine.get_piece(Coordinate(1, 5)),
        Ok(Some(GamePiece::new(PieceColor::White)))
    );
}

#[test]
fn move_with_unplayable_endpoint_fails() {
    let mut engine = GameEngine::new();
    assert_eq!(
        engine.move_piece(&Move::new((0, 1), (1, 2))),
        Err(EngineError::InvalidCoordinate)
    );
    assert_eq!(
        engine.move_piece(&Move::new((2, 2), (3, 2))),
        Err(EngineError::InvalidCoordinate)
    );
    assert_eq!(
        engine.move_piece(&Move::new((8, 8), (7, 7))),
        Err(EngineError::InvalidCoordinate)
    );
}

#[test]
fn move_onto_occupied_square_fails() {
    let mut engine = GameEngine::new();
    let r = engine.move_piece(&Move::new((2, 2), (1, 1)));
    assert_eq!(r, Err(EngineError::DestinationOccupied));
    assert_eq!(engine.current_turn(), PieceColor::Black);
}

#[test]
fn non_diagonal_move_fails() {
    let mut engine = GameEngine::new();
    let r = engine.move_piece(&Move::new((2, 2), (2, 4)));
    assert_eq!(r, Err(EngineError::IllegalMove));
}

#[test]
fn jump_over_empty_square_fails() {
    let mut engine = GameEngine::new();
    let r = engine.move_piece(&Move::new((2, 2), (4, 4)));
    assert_eq!(r, Err(EngineError::IllegalMove));
}

#[test]
fn backward_step_for_uncrowned_fails() {
    let mut board = empty_board();
    board.set(Coordinate(4, 4), Some(GamePiece::new(PieceColor::Black))).unwrap();
    let mut engine = GameEngine::from_parts(board, PieceColor::Black);
    let r = engine.move_piece(&Move::new((4, 4), (3, 3)));
    assert_eq!(r, Err(EngineError::IllegalMove));
    assert_eq!(engine.current_turn(), PieceColor::Black);
}

#[test]
fn simple_move_flips_turn_and_keeps_count() {
    let mut engine = GameEngine::new();
    let r = engine.move_piece(&Move::new((2, 2), (3, 3))).unwrap();
    assert!(!r.crowned);
    assert_eq!(r.mv.from, Coordinate(2, 2));
    assert_eq!(r.mv.to, Coordinate(3, 3));
    assert_eq!(engine.current_turn(), PieceColor::White);
    assert_eq!(engine.get_piece(Coordinate(2, 2)), Ok(None));
    assert_eq!(
        engine.get_piece(Coordinate(3, 3)),
        Ok(Some(GamePiece::new(PieceColor::Black)))
    );
    assert_eq!(count(&engine, PieceColor::Black), 12);
    assert_eq!(count(&engine, PieceColor::White), 12);
}

#[test]
fn capture_is_mandatory() {
    let mut engine = GameEngine::new();
    engine.move_piece(&Move::new((2, 2), (3, 3))).unwrap();
    engine.move_piece(&Move::new((1, 5), (2, 4))).unwrap();
    assert!(engine.has_capture(PieceColor::Black));
    let r = engine.move_piece(&Move::new((4, 2), (5, 3)));
    assert_eq!(r, Err(EngineError::MustCapture));
    assert_eq!(engine.current_turn(), PieceColor::Black);
}

#[test]
fn capture_removes_exactly_one_opponent_piece() {
    let mut engine = GameEngine::new();
    engine.move_piece(&Move::new((2, 2), (3, 3))).unwrap();
    engine.move_piece(&Move::new((1, 5), (2, 4))).unwrap();
    let r = engine.move_piece(&Move::new((3, 3), (1, 5))).unwrap();
    assert!(!r.crowned);
    assert_eq!(engine.get_piece(Coordinate(3, 3)), Ok(None));
    assert_eq!(engine.get_piece(Coordinate(2, 4)), Ok(None));
    assert_eq!(
        engine.get_piece(Coordinate(1, 5)),
        Ok(Some(GamePiece::new(PieceColor::Black)))
    );
    assert_eq!(count(&engine, PieceColor::Black), 12);
    assert_eq!(count(&engine, PieceColor::White), 11);
    assert_eq!(engine.current_turn(), PieceColor::White);
}

#[test]
fn no_capture_available_in_starting_position() {
    let engine = GameEngine::new();
    assert!(!engine.has_capture(PieceColor::Black));
    assert!(!engine.has_capture(PieceColor::White));
}

#[test]
fn multi_jump_retains_turn() {
    let mut board = empty_board();
    board.set(Coordinate(1, 1), Some(GamePiece::new(PieceColor::Black))).unwrap();
    board.set(Coordinate(2, 2), Some(GamePiece::new(PieceColor::White))).unwrap();
    board.set(Coordinate(4, 4), Some(GamePiece::new(PieceColor::White))).unwrap();
    let mut engine = GameEngine::from_parts(board, PieceColor::Black);
    let r = engine.move_piece(&Move::new((1, 1), (3, 3))).unwrap();
    assert!(!r.crowned);
    assert_eq!(engine.current_turn(), PieceColor::Black);
    assert_eq!(engine.get_piece(Coordinate(2, 2)), Ok(None));
    assert_eq!(count(&engine, PieceColor::White), 1);
    let r = engine.move_piece(&Move::new((3, 3), (5, 5))).unwrap();
    assert!(!r.crowned);
    assert_eq!(engine.current_turn(), PieceColor::White);
    assert_eq!(count(&engine, PieceColor::White), 0);
    assert!(engine.has_lost(PieceColor::White));
    assert!(!engine.has_lost(PieceColor::Black));
}

#[test]
fn reaching_farthest_row_crowns_exactly_once() {
    let mut board = empty_board();
    board.set(Coordinate(4, 6), Some(GamePiece::new(PieceColor::Black))).unwrap();
    board.set(Coordinate(0, 6), Some(GamePiece::new(PieceColor::White))).unwrap();
    let mut engine = GameEngine::from_parts(board, PieceColor::Black);
    let r = engine.move_piece(&Move::new((4, 6), (5, 7))).unwrap();
    assert!(r.crowned);
    assert_eq!(
        engine.get_piece(Coordinate(5, 7)),
        Ok(Some(GamePiece { color: PieceColor::Black, crowned: true }))
    );
    let r = engine.move_piece(&Move::new((0, 6), (1, 5))).unwrap();
    assert!(!r.crowned);
    let r = engine.move_piece(&Move::new((5, 7), (4, 6))).unwrap();
    assert!(!r.crowned);
    assert_eq!(
        engine.get_piece(Coordinate(4, 6)),
        Ok(Some(GamePiece { color: PieceColor::Black, crowned: true }))
    );
}

#[test]
fn capture_onto_farthest_row_crowns() {
    let mut board = empty_board();
    board.set(Coordinate(3, 5), Some(GamePiece::new(PieceColor::Black))).unwrap();
    board.set(Coordinate(4, 6), Some(GamePiece::new(PieceColor::White))).unwrap();
    let mut engine = GameEngine::from_parts(board, PieceColor::Black);
    let r = engine.move_piece(&Move::new((3, 5), (5, 7))).unwrap();
    assert!(r.crowned);
    assert_eq!(engine.get_piece(Coordinate(4, 6)), Ok(None));
    assert_eq!(
        engine.get_piece(Coordinate(5, 7)),
        Ok(Some(GamePiece { color: PieceColor::Black, crowned: true }))
    );
    assert_eq!(count(&engine, PieceColor::White), 0);
}

#[test]
fn cornered_uncrowned_piece_has_no_move() {
    let mut board = empty_board();
    board.set(Coordinate(0, 0), Some(GamePiece::new(PieceColor::White))).unwrap();
    board.set(Coordinate(2, 2), Some(GamePiece::new(PieceColor::Black))).unwrap();
    let engine = GameEngine::from_parts(board, PieceColor::White);
    assert!(!engine.can_move(PieceColor::White));
    assert!(engine.has_lost(PieceColor::White));
    assert!(engine.can_move(PieceColor::Black));
}

#[test]
fn end_to_end_scenario() {
    let mut engine = GameEngine::new();
    let r = engine.move_piece(&Move::new((2, 2), (3, 3))).unwrap();
    assert!(!r.crowned);
    assert_eq!(engine.current_turn(), PieceColor::White);

    engine.move_piece(&Move::new((1, 5), (0, 4))).unwrap();
    engine.move_piece(&Move::new((4, 2), (5, 3))).unwrap();
    engine.move_piece(&Move::new((2, 6), (1, 5))).unwrap();
    engine.move_piece(&Move::new((6, 2), (7, 3))).unwrap();
    assert_eq!(engine.current_turn(), PieceColor::White);

    // A backward jump by an uncrowned white piece onto the vacated square.
    let r = engine.move_piece(&Move::new((0, 4), (2, 6)));
    assert_eq!(r, Err(EngineError::IllegalMove));
    assert_eq!(engine.current_turn(), PieceColor::White);
    assert_eq!(
        engine.get_piece(Coordinate(0, 4)),
        Ok(Some(GamePiece::new(PieceColor::White)))
    );
    assert_eq!(engine.get_piece(Coordinate(2, 6)), Ok(None));

    engine.move_piece(&Move::new((5, 5), (4, 4))).unwrap();
    assert_eq!(engine.current_turn(), PieceColor::Black);

    let r = engine.move_piece(&Move::new((3, 3), (5, 5))).unwrap();
    assert!(!r.crowned);
    assert_eq!(engine.get_piece(Coordinate(4, 4)), Ok(None));
    assert_eq!(engine.get_piece(Coordinate(3, 3)), Ok(None));
    assert_eq!(
        engine.get_piece(Coordinate(5, 5)),
        Ok(Some(GamePiece::new(PieceColor::Black)))
    );
    assert_eq!(count(&engine, PieceColor::White), 11);
    assert_eq!(count(&engine, PieceColor::Black), 12);
    assert_eq!(engine.current_turn(), PieceColor::White);
}
