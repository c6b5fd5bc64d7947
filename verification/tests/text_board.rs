use chess::board::Board;
use chess::game::{Color, Field, Move, Piece};

#[test]
fn board_starts_in_the_initial_layout() {
    let board = Board::new(String::from("James"), String::from("Jeff"), 900);
    assert_eq!(board.get_current_player(), Color::White);
    let (white, black) = board.get_players();
    assert_eq!(white.get_name(), "James");
    assert_eq!(white.get_color(), Color::White);
    assert_eq!(white.get_remaining_time(), 900);
    assert_eq!(black.get_name(), "Jeff");
    assert_eq!(black.get_color(), Color::Black);
    assert_eq!(black.get_remaining_time(), 900);
    let fields = board.get_fields();
    assert_eq!(fields[0][4], Some(Field::new(Piece::King, Color::Black)));
    assert_eq!(fields[7][4], Some(Field::new(Piece::King, Color::White)));
    assert_eq!(fields[1][0], Some(Field::new(Piece::Pawn, Color::Black)));
    assert_eq!(fields[6][7], Some(Field::new(Piece::Pawn, Color::White)));
    assert_eq!(fields[3][3], None);
}

#[test]
fn board_move_relocates_and_passes_the_turn() {
    let mut board = Board::new(String::from("James"), String::from("Jeff"), 900);
    assert_eq!(board.move_piece(String::from("D2D4")), Ok(()));
    assert_eq!(board.get_current_player(), Color::Black);
    let fields = board.get_fields();
    assert_eq!(fields[6][3], None);
    assert_eq!(fields[4][3], Some(Field::new(Piece::Pawn, Color::White)));
    assert_eq!(board.move_piece(String::from("E7E5")), Ok(()));
    assert_eq!(board.get_current_player(), Color::White);
    assert_eq!(board.move_piece(String::from("D4E5")), Ok(()));
    let fields = board.get_fields();
    assert_eq!(fields[3][4], Some(Field::new(Piece::Pawn, Color::White)));
    assert_eq!(fields[4][3], None);
}

#[test]
fn board_refusals() {
    let mut board = Board::new(String::from("James"), String::from("Jeff"), 900);
    assert_eq!(board.move_piece(String::from("E7E5")), Err("not an own piece to move"));
    assert_eq!(board.move_piece(String::from("D2D5")), Err("invalid move"));
    assert_eq!(board.move_piece(String::from("D2E3")), Err("invalid move"));
    assert_eq!(board.move_piece(String::from("A1A3")), Err("invalid move"));
    assert_eq!(board.move_piece(String::from("D2D2")), Err("you have to move"));
    assert_eq!(board.move_piece(String::from("D2D9")), Err("move outside of the board"));
    assert_eq!(board.move_piece(String::from("D2")), Err("invalid move format"));
    assert_eq!(board.move_piece(String::from("D2Z4")), Err("piece not found"));
    assert_eq!(board.get_current_player(), Color::White);
    assert_eq!(board.get_fields()[6][3], Some(Field::new(Piece::Pawn, Color::White)));
    assert!(board.check_move(&Move::new(3, 6, 3, 5)));
    assert!(!board.check_move(&Move::new(3, 6, 3, 3)));
    assert!(!board.check_move(&Move::new(3, 1, 3, 2)));
}
