//! What holds of every game and every move, proved from the rules.

use vstd::prelude::*;
use crate::check::{
    attackable, color_in_check, first_check, gives_check, king_on, lemma_king_square,
    scanned_before, threatens,
};
use crate::game::{
    Board, Color, GameState, GameView, Move, initial_occupant, is_initial, lemma_initial_kings,
    lemma_relocated, occupant, relocated,
};
use crate::board::BoardView;
use crate::reach::can_reach;
use crate::rules::{in_words, lemma_king_survives};
use crate::timed::TimedGameView;

verus! {

/// On the board a game starts on, a pawn reaches the square one step ahead
/// of it and the square two steps ahead of it, and no other square.
pub proof fn lemma_initial_pawn_moves(board: Board, color: Color, m: Move)
    requires
        is_initial(board),
        m.start_x < 8,
        m.start_y == color.pawn_row(),
    ensures
        can_reach(board, m) <==> m.dx() == 0 && (m.dy() == color.forward() || m.dy() == 2
            * color.forward()),
{
    assert(occupant(board, m.start_x as int, m.start_y as int) == initial_occupant(
        m.start_x as int,
        m.start_y as int,
    ));
    assert(occupant(board, m.start_x as int, m.start_y + color.forward()) == initial_occupant(
        m.start_x as int,
        m.start_y + color.forward(),
    ));
    if m.in_bounds() {
        assert(occupant(board, m.end_x as int, m.end_y as int) == initial_occupant(
            m.end_x as int,
            m.end_y as int,
        ));
    }
}

/// When a game starts on the initial board, the player to move may push
/// each of the player's pawns one step or two steps ahead, and may not move
/// it anywhere else.
pub proof fn lemma_initial_pawn_moves_accepted(g: GameView, m: Move)
    requires
        is_initial(g.board),
        g.state == GameState::Running,
        m.start_x < 8,
        m.start_y == g.current_player.pawn_row(),
    ensures
        g.judgement(m) is Ok <==> m.dx() == 0 && (m.dy() == g.current_player.forward() || m.dy()
            == 2 * g.current_player.forward()),
{
    let player = g.current_player;
    lemma_initial_pawn_moves(g.board, player, m);
    assert(occupant(g.board, m.start_x as int, m.start_y as int) == initial_occupant(
        m.start_x as int,
        m.start_y as int,
    ));
    if m.dx() == 0 && (m.dy() == player.forward() || m.dy() == 2 * player.forward()) {
        assert(occupant(g.board, m.end_x as int, m.end_y as int) == initial_occupant(
            m.end_x as int,
            m.end_y as int,
        ));
        let after = relocated(g.board, m);
        let home: int = if player == Color::White {
            7
        } else {
            0
        };
        lemma_initial_kings(g.board);
        lemma_king_survives(g.board, m, player);
        lemma_king_square(after, player);
        lemma_relocated(g.board, m, 4, home);
        assert(king_on(after, player, 4, home));
        assert forall|x: int, y: int| !threatens(after, x, y, player) by {
            if threatens(after, x, y, player) {
                lemma_relocated(g.board, m, x, y);
            }
        }
    }
}

/// The answer to a move is a function of the game and the move: asked
/// twice of the same game, the same move gets the same answer.
pub proof fn lemma_same_answer(
    g: GameView,
    m: Move,
    first: Result<(), &'static str>,
    second: Result<(), &'static str>,
)
    requires
        first == in_words(g.judgement(m)),
        second == in_words(g.judgement(m)),
    ensures
        first == second,
{
}

/// A move that is turned down leaves the game as it was, so that the same
/// move is turned down again, for the same reason.
pub proof fn lemma_rejection_repeats(g: GameView, m: Move)
    requires
        g.judgement(m) is Err,
    ensures
        g.after_move(m) == g,
        g.after_move(m).judgement(m) == g.judgement(m),
{
}

/// After a move that was accepted it is the other player's turn, the piece
/// that stood on the start square stands on the end square, and the start
/// square is empty.
pub proof fn lemma_accepted_move(g: GameView, m: Move)
    requires
        g.judgement(m) is Ok,
    ensures
        g.after_move(m).current_player == g.current_player.opponent(),
        g.after_move(m).current_player != g.current_player,
        occupant(g.board, m.start_x as int, m.start_y as int) is Some,
        occupant(g.after_move(m).board, m.end_x as int, m.end_y as int) == occupant(
            g.board,
            m.start_x as int,
            m.start_y as int,
        ),
        occupant(g.after_move(m).board, m.start_x as int, m.start_y as int) is None,
{
    lemma_relocated(g.board, m, m.end_x as int, m.end_y as int);
    lemma_relocated(g.board, m, m.start_x as int, m.start_y as int);
}

/// A color that the check scan names is in check.
pub proof fn lemma_named_color_is_attackable(board: Board, color: Color)
    requires
        color_in_check(board) == Some(color),
    ensures
        attackable(board, color),
{
    let (x, y) = choose|x: int, y: int| first_check(board, x, y);
    assert(threatens(board, x, y, color));
}

/// Where some piece gives check, some piece is the first to do so when the
/// board is read row by row.
pub proof fn lemma_some_check_is_first(board: Board, x: int, y: int)
    requires
        gives_check(board, x, y),
    ensures
        exists|i: int, j: int| first_check(board, i, j),
    decreases y * 8 + x,
{
    if exists|i: int, j: int| scanned_before(i, j, x, y) && gives_check(board, i, j) {
        let (i, j) = choose|i: int, j: int| scanned_before(i, j, x, y) && gives_check(board, i, j);
        lemma_some_check_is_first(board, i, j);
    } else {
        assert(first_check(board, x, y));
    }
}

/// The check scan names a color exactly when a king is in check.
pub proof fn lemma_check_named_iff_attackable(board: Board)
    ensures
        color_in_check(board) is Some <==> attackable(board, Color::White) || attackable(
            board,
            Color::Black,
        ),
{
    if color_in_check(board) is Some {
        lemma_named_color_is_attackable(board, color_in_check(board)->0);
    }
    if attackable(board, Color::White) {
        let (x, y) = choose|x: int, y: int| threatens(board, x, y, Color::White);
        lemma_some_check_is_first(board, x, y);
    }
    if attackable(board, Color::Black) {
        let (x, y) = choose|x: int, y: int| threatens(board, x, y, Color::Black);
        lemma_some_check_is_first(board, x, y);
    }
}

/// No move that was accepted leaves the king of the player who made it in
/// check: no piece of the other player can reach it, and the check scan
/// does not name the mover's color.
pub proof fn lemma_no_self_check(g: GameView, m: Move)
    requires
        g.judgement(m) is Ok,
    ensures
        !attackable(g.after_move(m).board, g.current_player),
        color_in_check(g.after_move(m).board) != Some(g.current_player),
{
    if color_in_check(g.after_move(m).board) == Some(g.current_player) {
        lemma_named_color_is_attackable(g.after_move(m).board, g.current_player);
    }
}

/// A game that is over stays as it is: it takes no move and cannot be
/// given up again.
pub proof fn lemma_ended_game_stays(g: GameView, m: Move)
    requires
        g.state is End,
    ensures
        g.after_move(m) == g,
        g.after_resign() == g,
{
}

/// A move never ends a game and never starts one again, and giving a game
/// up ends it.
pub proof fn lemma_state_moves_one_way(g: GameView, m: Move)
    ensures
        g.after_move(m).state == g.state,
        g.after_resign().state is End,
{
}

/// A board with exactly one king of each color has them still after every
/// request for a move, accepted or not.
pub proof fn lemma_kings_stay(g: GameView, m: Move)
    requires
        g.well_formed(),
    ensures
        g.after_move(m).well_formed(),
{
    if g.judgement(m) is Ok {
        lemma_king_survives(g.board, m, Color::White);
        lemma_king_survives(g.board, m, Color::Black);
    }
}

/// A move that a board takes from its text is a move that the rules allow:
/// afterwards it is the other color's turn, the piece has gone from the
/// start square to the end square, and the mover's king is not in check.
pub proof fn lemma_text_move_on_board(b: BoardView, text: Seq<char>)
    requires
        b.judgement(text) is Ok,
    ensures
        b.after_move(text).current_player == b.current_player.opponent(),
        occupant(
            b.after_move(text).fields,
            b.judgement(text)->Ok_0.end_x as int,
            b.judgement(text)->Ok_0.end_y as int,
        ) == occupant(
            b.fields,
            b.judgement(text)->Ok_0.start_x as int,
            b.judgement(text)->Ok_0.start_y as int,
        ),
        occupant(
            b.after_move(text).fields,
            b.judgement(text)->Ok_0.start_x as int,
            b.judgement(text)->Ok_0.start_y as int,
        ) is None,
        !attackable(b.after_move(text).fields, b.current_player),
{
    let m = b.judgement(text)->Ok_0;
    lemma_relocated(b.fields, m, m.end_x as int, m.end_y as int);
    lemma_relocated(b.fields, m, m.start_x as int, m.start_y as int);
}

/// A move that a game on the clock takes from its text is a move that the
/// rules allow: afterwards the players have changed places, so that the
/// other color is to move, the mover's king is not in check, only the
/// mover's clock has run, and the game is well formed as before.
pub proof fn lemma_text_move_on_clock(g: TimedGameView, text: Seq<char>, elapsed: u64)
    requires
        g.well_formed(),
        g.judgement(text) is Ok,
    ensures
        g.after_move(text, elapsed).well_formed(),
        g.after_move(text, elapsed).players.current == g.players.waiting,
        g.after_move(text, elapsed).players.current.color == g.players.current.color.opponent(),
        g.after_move(text, elapsed).players.waiting.name == g.players.current.name,
        g.after_move(text, elapsed).players.waiting.remaining_time
            <= g.players.current.remaining_time,
        !attackable(g.after_move(text, elapsed).fields, g.players.current.color),
{
    let m = g.judgement(text)->Ok_0;
    lemma_king_survives(g.fields, m, Color::White);
    lemma_king_survives(g.fields, m, Color::Black);
}

/// A text whose move is not made leaves a board as it was, so that the same
/// text is refused again, for the same reason.
pub proof fn lemma_refused_text_on_board(b: BoardView, text: Seq<char>)
    requires
        b.judgement(text) is Err,
    ensures
        b.after_move(text) == b,
        b.after_move(text).judgement(text) == b.judgement(text),
{
}

/// A text whose move is not made leaves a game on the clock as it was,
/// clocks included, so that the same text is refused again, for the same
/// reason.
pub proof fn lemma_refused_text_on_clock(g: TimedGameView, text: Seq<char>, elapsed: u64)
    requires
        g.judgement(text) is Err,
    ensures
        g.after_move(text, elapsed) == g,
        g.after_move(text, elapsed).judgement(text) == g.judgement(text),
{
}

} // verus!
