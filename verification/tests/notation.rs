use chess::check::has_one_king;
use chess::config::Config;
use chess::game::{initial_board, Color, Field, Move, Piece};
use chess::notation::{
    file_column, file_letter, fmt_color, fmt_field, judge_text, matching, parse_move, rank_digit,
    read_move, read_request, Refusal, Request, TextError,
};
use chess::rules::Rejection;
use chess::Player;

#[test]
fn a_move_is_read_from_four_characters() {
    assert_eq!(parse_move("D2D4"), Some(Move::new(3, 6, 3, 4)));
    assert_eq!(parse_move("d2d4"), Some(Move::new(3, 6, 3, 4)));
    assert_eq!(parse_move("a8h1"), Some(Move::new(0, 0, 7, 7)));
    assert_eq!(parse_move("H1A8"), Some(Move::new(7, 7, 0, 0)));
    assert_eq!(parse_move("e7E5"), Some(Move::new(4, 1, 4, 3)));
    assert_eq!(read_move("b1c3"), Ok(Move::new(1, 7, 2, 5)));
}

#[test]
fn ranks_off_the_board_are_read_as_rows_off_the_board() {
    assert_eq!(parse_move("a0a9"), Some(Move::new(0, 8, 0, 255)));
    assert_eq!(matching(Some('0')), Ok(8));
    assert_eq!(matching(Some('9')), Ok(255));
}

#[test]
fn faults_in_the_text() {
    assert_eq!(read_move(""), Err(TextError::MalformedMoveText));
    assert_eq!(read_move("D2D"), Err(TextError::MalformedMoveText));
    assert_eq!(read_move("D2D4 "), Err(TextError::MalformedMoveText));
    assert_eq!(read_move("resign"), Err(TextError::MalformedMoveText));
    assert_eq!(read_move("i2d4"), Err(TextError::UnknownSquareLetter));
    assert_eq!(read_move("22d4"), Err(TextError::UnknownSquareLetter));
    assert_eq!(read_move(" 2d4"), Err(TextError::UnknownSquareLetter));
    assert_eq!(read_move("dad4"), Err(TextError::MalformedMoveText));
    assert_eq!(read_move("d2i4"), Err(TextError::UnknownSquareLetter));
    assert_eq!(read_move("d2d-"), Err(TextError::MalformedMoveText));
    assert_eq!(read_move("xxxx"), Err(TextError::UnknownSquareLetter));
    assert_eq!(read_move("dxxx"), Err(TextError::MalformedMoveText));
    assert_eq!(read_move("d2\u{e9}"), Err(TextError::UnknownSquareLetter));
    assert_eq!(read_move("d\u{e9}4"), Err(TextError::MalformedMoveText));
    assert_eq!(read_move("\u{212a}2"), Err(TextError::UnknownSquareLetter));
    assert_eq!(read_move("d2d\u{664}"), Err(TextError::MalformedMoveText));
    assert_eq!(parse_move("D2D"), None);
    assert_eq!(parse_move("i2d4"), None);
    assert_eq!(parse_move("d2d\u{e9}"), None);
    assert_eq!(TextError::MalformedMoveText.message(), "invalid move format");
    assert_eq!(TextError::UnknownSquareLetter.message(), "piece not found");
}

#[test]
fn files_and_ranks() {
    let letters = ['a', 'b', 'c', 'd', 'e', 'f', 'g', 'h'];
    let capitals = ['A', 'B', 'C', 'D', 'E', 'F', 'G', 'H'];
    let digits = ['8', '7', '6', '5', '4', '3', '2', '1'];
    for i in 0..8usize {
        assert_eq!(file_column(Some(letters[i])), Some(i as u8));
        assert_eq!(file_column(Some(capitals[i])), Some(i as u8));
        assert_eq!(matching(Some(digits[i])), Ok(i as u8));
        assert_eq!(file_letter(i), letters[i]);
        assert_eq!(rank_digit(i), digits[i]);
        assert_eq!(file_column(Some(file_letter(i))), Some(i as u8));
        assert_eq!(matching(Some(rank_digit(i))), Ok(i as u8));
    }
    assert_eq!(file_column(Some('i')), None);
    assert_eq!(file_column(Some('`')), None);
    assert_eq!(file_column(Some('@')), None);
    assert_eq!(file_column(Some('I')), None);
    assert_eq!(file_column(Some('1')), None);
    assert_eq!(file_column(None), None);
    assert_eq!(matching(Some('a')), Err("invalid move format"));
    assert_eq!(matching(Some('/')), Err("invalid move format"));
    assert_eq!(matching(Some(':')), Err("invalid move format"));
    assert_eq!(matching(None), Err("invalid move format"));
}

#[test]
fn moves_given_as_text_are_judged() {
    let board = initial_board();
    assert!(has_one_king(&board, Color::White));
    assert!(has_one_king(&board, Color::Black));
    assert_eq!(judge_text(&board, Color::White, "D2D4"), Ok(Move::new(3, 6, 3, 4)));
    assert_eq!(judge_text(&board, Color::Black, "e7e5"), Ok(Move::new(4, 1, 4, 3)));
    assert_eq!(
        judge_text(&board, Color::White, "E7E5"),
        Err(Refusal::Rule(Rejection::NotOwnPiece))
    );
    assert_eq!(
        judge_text(&board, Color::White, "D2D5"),
        Err(Refusal::Rule(Rejection::IllegalPieceMove))
    );
    assert_eq!(
        judge_text(&board, Color::White, "D2D9"),
        Err(Refusal::Rule(Rejection::OutOfBounds))
    );
    assert_eq!(
        judge_text(&board, Color::White, "D2D0"),
        Err(Refusal::Rule(Rejection::OutOfBounds))
    );
    assert_eq!(
        judge_text(&board, Color::White, "D9D2"),
        Err(Refusal::Rule(Rejection::OutOfBounds))
    );
    assert_eq!(
        judge_text(&board, Color::White, "D2D2"),
        Err(Refusal::Rule(Rejection::NullMove))
    );
    assert_eq!(
        judge_text(&board, Color::White, "D2"),
        Err(Refusal::Text(TextError::MalformedMoveText))
    );
    assert_eq!(
        judge_text(&board, Color::White, "Z2D4"),
        Err(Refusal::Text(TextError::UnknownSquareLetter))
    );
    assert_eq!(Refusal::Rule(Rejection::NotOwnPiece).message(), "not an own piece to move");
    assert_eq!(Refusal::Rule(Rejection::IllegalPieceMove).message(), "invalid move");
    assert_eq!(Refusal::Rule(Rejection::OutOfBounds).message(), "move outside of the board");
    assert_eq!(Refusal::Rule(Rejection::NullMove).message(), "you have to move");
    assert_eq!(
        Refusal::Rule(Rejection::SelfCheckExposure).message(),
        "player would be chess after move"
    );
    assert_eq!(
        Refusal::Rule(Rejection::GameAlreadyEnded).message(),
        "the game has already ended"
    );
    assert_eq!(Refusal::Text(TextError::MalformedMoveText).message(), "invalid move format");
    assert_eq!(Refusal::Text(TextError::UnknownSquareLetter).message(), "piece not found");
}

#[test]
fn pieces_and_colors_have_their_symbols() {
    assert_eq!(fmt_field(&Field::new(Piece::King, Color::White)), "\u{265a}");
    assert_eq!(fmt_field(&Field::new(Piece::Queen, Color::White)), "\u{265b}");
    assert_eq!(fmt_field(&Field::new(Piece::Rook, Color::White)), "\u{265c}");
    assert_eq!(fmt_field(&Field::new(Piece::Bishop, Color::White)), "\u{265d}");
    assert_eq!(fmt_field(&Field::new(Piece::Knight, Color::White)), "\u{265e}");
    assert_eq!(fmt_field(&Field::new(Piece::Pawn, Color::White)), "\u{265f}");
    assert_eq!(fmt_field(&Field::new(Piece::King, Color::Black)), "\u{2654}");
    assert_eq!(fmt_field(&Field::new(Piece::Queen, Color::Black)), "\u{2655}");
    assert_eq!(fmt_field(&Field::new(Piece::Rook, Color::Black)), "\u{2656}");
    assert_eq!(fmt_field(&Field::new(Piece::Bishop, Color::Black)), "\u{2657}");
    assert_eq!(fmt_field(&Field::new(Piece::Knight, Color::Black)), "\u{2658}");
    assert_eq!(fmt_field(&Field::new(Piece::Pawn, Color::Black)), "\u{2659}");
    assert_eq!(fmt_color(Color::White), "White");
    assert_eq!(fmt_color(Color::Black), "Black");
}

#[test]
fn players_and_configuration() {
    let player = Player::new(String::from("Ann"));
    assert_eq!(player.get_name(), "Ann");
    let config = Config::new(String::from("Ann"), String::from("Bob"));
    assert_eq!(config.white.get_name(), "Ann");
    assert_eq!(config.black.get_name(), "Bob");
    let timed = chess::timed::Player::new(String::from("Cleo"), 42, Color::Black);
    assert_eq!(timed.get_name(), "Cleo");
    assert_eq!(timed.get_remaining_time(), 42);
    assert_eq!(timed.get_color(), Color::Black);
    assert_eq!(timed.charge(2).get_remaining_time(), 40);
    assert_eq!(timed.charge(42).get_remaining_time(), 0);
    assert_eq!(timed.charge(43).get_remaining_time(), 0);
    assert_eq!(timed.charge(u64::MAX).get_remaining_time(), 0);
    assert_eq!(timed.duplicate().get_name(), "Cleo");
    assert_eq!(timed.duplicate().get_remaining_time(), 42);
}

#[test]
fn a_request_is_a_move_or_the_word_resign() {
    assert_eq!(read_request("resign"), Some(Request::Resign));
    assert_eq!(read_request("RESIGN"), Some(Request::Resign));
    assert_eq!(read_request("Resign"), Some(Request::Resign));
    assert_eq!(read_request("d2d4"), Some(Request::Move(Move::new(3, 6, 3, 4))));
    assert_eq!(read_request("D2D4"), Some(Request::Move(Move::new(3, 6, 3, 4))));
    assert_eq!(read_request("resigns"), None);
    assert_eq!(read_request("resig"), None);
    assert_eq!(read_request("resigm"), None);
    assert_eq!(read_request("design"), None);
    assert_eq!(read_request("res\u{130}gn"), None);
    assert_eq!(read_request("d2d"), None);
    assert_eq!(read_request(""), None);
}
