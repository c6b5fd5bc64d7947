use chess::game::{Color, Field, Move, Piece};
use chess::timed::{Game, GameStatus};

fn create_game() -> Game {
    Game::new(String::from("James"), String::from("Jeff"), 15 * 60)
}

#[test]
fn move_not_allowed() {
    assert_eq!(
        create_game().move_piece(String::from("E7E5")),
        Err("not an own piece to move")
    );
}

#[test]
fn valid() {
    let mut game = create_game();
    assert_eq!(game.move_piece(String::from("D2D4")), Ok(()));
}

#[test]
fn invalid() {
    let mut game = create_game();
    assert_eq!(
        game.move_piece(String::from("D2D5")),
        Err("invalid move")
    );
    assert_eq!(
        game.move_piece(String::from("D2E3")),
        Err("invalid move")
    );
    assert_eq!(
        game.move_piece(String::from("D2D5")),
        Err("invalid move")
    );
}

#[test]
fn timed_game_starts_with_white_to_move() {
    let game = create_game();
    assert_eq!(game.get_status(), GameStatus::Running);
    let players = game.get_players_clone();
    let current = players.get_current();
    assert_eq!(current.get_name(), "James");
    assert_eq!(current.get_color(), Color::White);
    assert_eq!(current.get_remaining_time(), 900);
    let waiting = players.get_waiting();
    assert_eq!(waiting.get_name(), "Jeff");
    assert_eq!(waiting.get_color(), Color::Black);
    assert_eq!(waiting.get_remaining_time(), 900);
}

#[test]
fn timed_move_relocates_the_pawn_and_swaps_the_players() {
    let mut game = create_game();
    assert_eq!(game.move_piece(String::from("d2d4")), Ok(()));
    let fields = game.get_fields();
    assert_eq!(fields[6][3], None);
    assert_eq!(fields[4][3], Some(Field::new(Piece::Pawn, Color::White)));
    let players = game.get_players_clone();
    assert_eq!(players.get_current().get_name(), "Jeff");
    assert_eq!(players.get_current().get_color(), Color::Black);
    assert_eq!(players.get_waiting().get_name(), "James");
    assert_eq!(players.get_waiting().get_remaining_time(), 900);
    assert_eq!(game.get_status(), GameStatus::Running);
}

#[test]
fn timed_move_runs_the_elapsed_seconds_off_the_movers_clock() {
    let mut game = create_game();
    assert_eq!(game.move_piece_timed(String::from("D2D4"), 10), Ok(()));
    let players = game.get_players_clone();
    assert_eq!(players.get_waiting().get_name(), "James");
    assert_eq!(players.get_waiting().get_remaining_time(), 890);
    assert_eq!(players.get_current().get_remaining_time(), 900);
    assert_eq!(game.move_piece_timed(String::from("E7E5"), 900), Ok(()));
    let players = game.get_players_clone();
    assert_eq!(players.get_waiting().get_name(), "Jeff");
    assert_eq!(players.get_waiting().get_remaining_time(), 0);
    assert_eq!(players.get_current().get_remaining_time(), 890);
}

#[test]
fn timed_clock_stops_at_zero() {
    let mut game = create_game();
    assert_eq!(game.move_piece_timed(String::from("D2D4"), 5000), Ok(()));
    assert_eq!(game.get_players_clone().get_waiting().get_remaining_time(), 0);
}

#[test]
fn timed_rejection_changes_nothing() {
    let mut game = create_game();
    assert_eq!(
        game.move_piece_timed(String::from("D2D5"), 30),
        Err("invalid move")
    );
    let players = game.get_players_clone();
    assert_eq!(players.get_current().get_name(), "James");
    assert_eq!(players.get_current().get_remaining_time(), 900);
    assert_eq!(game.get_fields()[6][3], Some(Field::new(Piece::Pawn, Color::White)));
}

#[test]
fn timed_faults_in_the_text_are_named() {
    let mut game = create_game();
    assert_eq!(game.move_piece(String::from("D2D")), Err("invalid move format"));
    assert_eq!(game.move_piece(String::from("D2D44")), Err("invalid move format"));
    assert_eq!(game.move_piece(String::from("")), Err("invalid move format"));
    assert_eq!(game.move_piece(String::from("X2D4")), Err("piece not found"));
    assert_eq!(game.move_piece(String::from("D2X4")), Err("piece not found"));
    assert_eq!(game.move_piece(String::from("DXD4")), Err("invalid move format"));
    assert_eq!(game.move_piece(String::from("D2DX")), Err("invalid move format"));
    assert_eq!(game.move_piece(String::from("12D4")), Err("piece not found"));
    assert_eq!(game.move_piece(String::from("\u{e9}2D")), Err("piece not found"));
    assert_eq!(game.move_piece(String::from("D\u{e9}4")), Err("invalid move format"));
    assert_eq!(game.move_piece(String::from("\u{e9}2D4")), Err("invalid move format"));
}

#[test]
fn timed_ranks_off_the_board_are_outside_of_the_board() {
    let mut game = create_game();
    assert_eq!(game.move_piece(String::from("D2D0")), Err("move outside of the board"));
    assert_eq!(game.move_piece(String::from("D2D9")), Err("move outside of the board"));
    assert_eq!(game.move_piece(String::from("D0D1")), Err("move outside of the board"));
    assert_eq!(game.move_piece(String::from("D4D9")), Err("move outside of the board"));
}

#[test]
fn timed_rule_rejections_give_the_reason_of_the_rule() {
    let mut game = create_game();
    assert_eq!(game.move_piece(String::from("D2D2")), Err("you have to move"));
    assert_eq!(game.move_piece(String::from("D4D5")), Err("not an own piece to move"));
    assert_eq!(game.move_piece(String::from("E7E5")), Err("not an own piece to move"));
    assert_eq!(game.move_piece(String::from("A1A3")), Err("invalid move"));
    assert_eq!(game.move_piece(String::from("B1D2")), Err("invalid move"));
    for text in ["E2E4", "D7D5", "E1E2", "D5D4"] {
        assert_eq!(game.move_piece(String::from(text)), Ok(()));
    }
    assert_eq!(
        game.move_piece(String::from("E2E3")),
        Err("player would be chess after move")
    );
    let fields = game.get_fields();
    assert_eq!(fields[6][4], Some(Field::new(Piece::King, Color::White)));
    assert_eq!(game.get_players_clone().get_current().get_color(), Color::White);
}

#[test]
fn timed_check_move_agrees_with_move_piece() {
    let mut game = create_game();
    assert!(game.check_move(&Move::new(3, 6, 3, 4)));
    assert!(game.check_move(&Move::new(1, 7, 2, 5)));
    assert!(!game.check_move(&Move::new(3, 6, 3, 3)));
    assert!(!game.check_move(&Move::new(4, 1, 4, 3)));
    assert!(!game.check_move(&Move::new(3, 6, 3, 8)));
    assert_eq!(game.check_chess(), None);
    assert_eq!(game.move_piece(String::from("B1C3")), Ok(()));
    assert!(game.check_move(&Move::new(4, 1, 4, 3)));
    assert!(!game.check_move(&Move::new(3, 6, 3, 4)));
}

#[test]
fn timed_game_finds_the_check() {
    let mut game = create_game();
    for text in ["E2E4", "D7D5", "F1B5"] {
        assert_eq!(game.move_piece(String::from(text)), Ok(()));
    }
    assert_eq!(game.check_chess(), Some(Color::Black));
    match game.checked_player() {
        Some(player) => {
            assert_eq!(player.get_name(), "Jeff");
            assert_eq!(player.get_color(), Color::Black);
        }
        None => panic!("no player in check"),
    }
    assert_eq!(
        game.move_piece(String::from("A7A6")),
        Err("player would be chess after move")
    );
    assert_eq!(game.move_piece(String::from("C7C6")), Ok(()));
    assert_eq!(game.check_chess(), None);
    assert!(game.checked_player().is_none());
}
