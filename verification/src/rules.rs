//! The rules that decide whether a player may make a move on a board.

use vstd::prelude::*;
use crate::check::{attackable, king_on, king_square, lemma_king_square, one_king, sole_king};
use crate::game::{Board, Color, Game, Move, Piece, lemma_relocated, occupant, relocated};
use crate::reach::can_reach;

verus! {

/// Why a move was turned down.
#[derive(Copy, Clone, PartialEq, Eq, Structural, Debug)]
pub enum Rejection {
    /// The game is over.
    GameAlreadyEnded,
    /// The start square or the end square lies off the board.
    OutOfBounds,
    /// The move starts and ends on the same square.
    NullMove,
    /// The start square is empty or holds a piece of the other player.
    NotOwnPiece,
    /// The piece cannot reach the end square, or may not land on what
    /// stands there.
    IllegalPieceMove,
    /// The move would leave the mover's own king in check.
    SelfCheckExposure,
}

impl Rejection {
    /// The words in which the rejection is reported.
    pub open spec fn text(self) -> &'static str {
        match self {
            Rejection::GameAlreadyEnded => "the game has already ended",
            Rejection::OutOfBounds => "move outside of the board",
            Rejection::NullMove => "you have to move",
            Rejection::NotOwnPiece => "not an own piece to move",
            Rejection::IllegalPieceMove => "invalid move",
            Rejection::SelfCheckExposure => "player would be chess after move",
        }
    }

    /// Returns the words in which the rejection is reported.
    pub fn message(self) -> (r: &'static str)
        ensures
            r == self.text(),
    {
        match self {
            Rejection::GameAlreadyEnded => "the game has already ended",
            Rejection::OutOfBounds => "move outside of the board",
            Rejection::NullMove => "you have to move",
            Rejection::NotOwnPiece => "not an own piece to move",
            Rejection::IllegalPieceMove => "invalid move",
            Rejection::SelfCheckExposure => "player would be chess after move",
        }
    }
}

/// A verdict with its rejection put into words.
pub open spec fn in_words(v: Result<(), Rejection>) -> Result<(), &'static str> {
    match v {
        Ok(()) => Ok(()),
        Err(e) => Err(e.text()),
    }
}

/// Puts the rejection of a verdict into words.
pub fn put_in_words(v: Result<(), Rejection>) -> (r: Result<(), &'static str>)
    ensures
        r == in_words(v),
{
    match v {
        Ok(()) => Ok(()),
        Err(e) => Err(e.message()),
    }
}

/// The start square of `m` holds a piece of `player`.
pub open spec fn own_piece_at_start(board: Board, player: Color, m: Move) -> bool {
    &&& occupant(board, m.start_x as int, m.start_y as int) matches Some(f)
    &&& f.color == player
}

/// The end square of `m` holds a piece on which `player` may not land: one
/// of the player's own, or a king.
pub open spec fn target_barred(board: Board, player: Color, m: Move) -> bool {
    &&& occupant(board, m.end_x as int, m.end_y as int) matches Some(f)
    &&& (f.color == player || f.piece == Piece::King)
}

/// Whether `player` may make the move `m` on `board`, and if not, why. The
/// tests are made in this order and the first that fails decides: both
/// squares lie on the board; they differ; the start square holds a piece of
/// `player`; that piece can reach the end square and may land there; the
/// player's own king is not in check once the move is made.
pub open spec fn verdict(board: Board, player: Color, m: Move) -> Result<(), Rejection> {
    if !m.in_bounds() {
        Err(Rejection::OutOfBounds)
    } else if m.is_null() {
        Err(Rejection::NullMove)
    } else if !own_piece_at_start(board, player, m) {
        Err(Rejection::NotOwnPiece)
    } else if !can_reach(board, m) || target_barred(board, player, m) {
        Err(Rejection::IllegalPieceMove)
    } else if attackable(relocated(board, m), player) {
        Err(Rejection::SelfCheckExposure)
    } else {
        Ok(())
    }
}

/// A move that does not land on the king of `color` leaves the board with
/// exactly one king of `color`.
pub proof fn lemma_king_survives(board: Board, m: Move, color: Color)
    requires
        one_king(board, color),
        m.in_bounds(),
        !king_on(board, color, m.end_x as int, m.end_y as int),
    ensures
        one_king(relocated(board, m), color),
{
    lemma_king_square(board, color);
    let (kx, ky) = king_square(board, color);
    let after = relocated(board, m);
    let (nx, ny) = if kx == m.start_x && ky == m.start_y {
        (m.end_x as int, m.end_y as int)
    } else {
        (kx, ky)
    };
    lemma_relocated(board, m, nx, ny);
    assert forall|i: int, j: int| #[trigger] king_on(after, color, i, j) implies i == nx && j
        == ny by {
        lemma_relocated(board, m, i, j);
        if i == m.end_x && j == m.end_y {
            assert(king_on(board, color, m.start_x as int, m.start_y as int));
        } else {
            assert(king_on(board, color, i, j));
        }
    }
    assert(sole_king(after, color, nx, ny));
}

impl Game {
    /// Decides whether `player` may make `the_move` on `board`.
    pub fn judge(board: &Board, player: Color, the_move: &Move) -> (r: Result<(), Rejection>)
        requires
            one_king(*board, player),
        ensures
            r == verdict(*board, player, *the_move),
    {
        let (start_x, start_y, end_x, end_y) = the_move.inner();
        if start_x >= 8 || start_y >= 8 || end_x >= 8 || end_y >= 8 {
            return Err(Rejection::OutOfBounds);
        }
        if start_x == end_x && start_y == end_y {
            return Err(Rejection::NullMove);
        }
        match board[start_y][start_x] {
            Some(field) => {
                if field.color != player {
                    return Err(Rejection::NotOwnPiece);
                }
            },
            None => {
                return Err(Rejection::NotOwnPiece);
            },
        }
        if !Game::check_move_possibility_to(*board, the_move) {
            return Err(Rejection::IllegalPieceMove);
        }
        match board[end_y][end_x] {
            Some(field) => {
                if field.color == player || field.piece == Piece::King {
                    return Err(Rejection::IllegalPieceMove);
                }
            },
            None => {},
        }
        let after: Board = Game::move_piece(the_move, *board);
        proof {
            lemma_king_survives(*board, *the_move, player);
        }
        if Game::king_in_check(&after, player) {
            return Err(Rejection::SelfCheckExposure);
        }
        Ok(())
    }
}

} // verus!
