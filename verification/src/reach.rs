//! Piece movement: whether the piece on a move's start square can reach its
//! end square by its own movement rule. Check is not considered here.

use vstd::prelude::*;
use crate::game::{Board, Color, Field, Game, Move, Piece, occupant};

verus! {

/// The absolute value of `i`.
pub open spec fn abs(i: int) -> int {
    if i < 0 {
        -i
    } else {
        i
    }
}

/// The coordinate `i` steps away from `from` in the direction of `to`.
pub open spec fn toward(from: int, to: int, i: int) -> int {
    if to > from {
        from + i
    } else if to < from {
        from - i
    } else {
        from
    }
}

impl Move {
    /// The number of steps from the start square to the end square along a
    /// row, a column or a diagonal.
    pub open spec fn span(self) -> int {
        if abs(self.dx()) >= abs(self.dy()) {
            abs(self.dx())
        } else {
            abs(self.dy())
        }
    }

    /// The move runs along a row or a column.
    pub open spec fn is_straight(self) -> bool {
        (self.dx() == 0) != (self.dy() == 0)
    }

    /// The move runs along a diagonal.
    pub open spec fn is_diagonal(self) -> bool {
        abs(self.dx()) == abs(self.dy()) && self.dx() != 0
    }
}

/// What stands `i` steps from the start square of `m` on the way to its end
/// square.
pub open spec fn waypoint(board: Board, m: Move, i: int) -> Option<Field> {
    occupant(
        board,
        toward(m.start_x as int, m.end_x as int, i),
        toward(m.start_y as int, m.end_y as int, i),
    )
}

/// Every square strictly between the start and the end of `m` is empty.
pub open spec fn path_clear(board: Board, m: Move) -> bool {
    forall|i: int| 0 < i < m.span() ==> (#[trigger] waypoint(board, m, i)) is None
}

/// The pawn rule for a pawn of `color` on the start square of `m`: one step
/// forward onto an empty square, two steps forward from the starting row
/// over an empty square onto an empty square, or one step diagonally
/// forward onto a square held by the other color.
pub open spec fn pawn_reach(board: Board, m: Move, color: Color) -> bool {
    let target = occupant(board, m.end_x as int, m.end_y as int);
    ||| m.dx() == 0 && m.dy() == color.forward() && target is None
    ||| {
        &&& m.dx() == 0
        &&& m.start_y == color.pawn_row()
        &&& m.dy() == 2 * color.forward()
        &&& occupant(board, m.start_x as int, m.start_y + color.forward()) is None
        &&& target is None
    }
    ||| {
        &&& abs(m.dx()) == 1
        &&& m.dy() == color.forward()
        &&& target matches Some(f)
        &&& f.color != color
    }
}

/// The knight rule: an L-shaped jump.
pub open spec fn knight_reach(m: Move) -> bool {
    (abs(m.dx()) == 1 && abs(m.dy()) == 2) || (abs(m.dx()) == 2 && abs(m.dy()) == 1)
}

/// The king rule: one step along a row or a column.
pub open spec fn king_reach(m: Move) -> bool {
    abs(m.dx()) + abs(m.dy()) == 1
}

/// The rook rule: along a row or a column, over empty squares only.
pub open spec fn rook_reach(board: Board, m: Move) -> bool {
    m.is_straight() && path_clear(board, m)
}

/// The bishop rule: along a diagonal, over empty squares only.
pub open spec fn bishop_reach(board: Board, m: Move) -> bool {
    m.is_diagonal() && path_clear(board, m)
}

/// Whether the piece on the start square of `m` can reach the end square by
/// its own movement rule. No piece reaches a square off the board, and an
/// empty start square reaches nothing. What stands on the end square matters
/// to pawns only.
pub open spec fn can_reach(board: Board, m: Move) -> bool {
    &&& m.in_bounds()
    &&& match occupant(board, m.start_x as int, m.start_y as int) {
        None => false,
        Some(f) => match f.piece {
            Piece::Pawn => pawn_reach(board, m, f.color),
            Piece::Knight => knight_reach(m),
            Piece::King => king_reach(m),
            Piece::Rook => rook_reach(board, m),
            Piece::Bishop => bishop_reach(board, m),
            Piece::Queen => rook_reach(board, m) || bishop_reach(board, m),
        },
    }
}

/// The distance between two coordinates.
pub fn distance(a: usize, b: usize) -> (r: usize)
    ensures
        r == abs(b - a),
{
    if a <= b {
        b - a
    } else {
        a - b
    }
}

/// Steps `i` squares from `from` towards `to`.
fn step_toward(from: usize, to: usize, i: usize) -> (r: usize)
    requires
        i <= abs(to - from),
    ensures
        r == toward(from as int, to as int, i as int),
{
    if to > from {
        from + i
    } else if to < from {
        from - i
    } else {
        from
    }
}

/// Walks from the start square of `m` towards its end square and tells
/// whether every square strictly between them is empty.
pub fn path_is_clear(board: &Board, m: &Move) -> (r: bool)
    requires
        m.in_bounds(),
        m.is_straight() || m.is_diagonal(),
    ensures
        r == path_clear(*board, *m),
{
    let adx: usize = distance(m.start_x, m.end_x);
    let ady: usize = distance(m.start_y, m.end_y);
    let n: usize = if adx >= ady { adx } else { ady };
    let mut i: usize = 1;
    while i < n
        invariant
            1 <= i,
            n == m.span(),
            m.in_bounds(),
            m.is_straight() || m.is_diagonal(),
            forall|j: int| 0 < j < i ==> (#[trigger] waypoint(*board, *m, j)) is None,
        decreases n - i,
    {
        let x: usize = step_toward(m.start_x, m.end_x, if m.start_x == m.end_x { 0 } else { i });
        let y: usize = step_toward(m.start_y, m.end_y, if m.start_y == m.end_y { 0 } else { i });
        if board[y][x].is_some() {
            assert(waypoint(*board, *m, i as int) is Some);
            return false;
        }
        i = i + 1;
    }
    true
}

/// Whether a pawn of `player` on the start square of `m` can reach its end
/// square.
fn pawn_can_reach(board: &Board, m: &Move, player: Color) -> (r: bool)
    requires
        m.in_bounds(),
    ensures
        r == pawn_reach(*board, *m, player),
{
    let ahead: usize = match player {
        Color::White => {
            if m.start_y == 0 {
                return false;
            }
            m.start_y - 1
        },
        Color::Black => {
            if m.start_y == 7 {
                return false;
            }
            m.start_y + 1
        },
    };
    if m.end_y == ahead {
        if m.end_x == m.start_x {
            board[m.end_y][m.end_x].is_none()
        } else if distance(m.start_x, m.end_x) == 1 {
            match board[m.end_y][m.end_x] {
                Some(f) => f.color != player,
                None => false,
            }
        } else {
            false
        }
    } else if m.end_x == m.start_x {
        let (home, two): (usize, usize) = match player {
            Color::White => (6, 4),
            Color::Black => (1, 3),
        };
        m.start_y == home && m.end_y == two && board[ahead][m.start_x].is_none()
            && board[m.end_y][m.end_x].is_none()
    } else {
        false
    }
}

impl Game {
    /// Tells whether the piece on the start square of `the_move` can reach
    /// its end square by its own movement rule, whoever is to move and
    /// whether or not a king is left in check.
    pub fn check_move_possibility_to(board: Board, the_move: &Move) -> (r: bool)
        ensures
            r == can_reach(board, *the_move),
    {
        let (start_x, start_y, end_x, end_y) = the_move.inner();
        if start_x >= 8 || start_y >= 8 || end_x >= 8 || end_y >= 8 {
            return false;
        }
        let field: Field = match board[start_y][start_x] {
            Some(p) => p,
            None => return false,
        };
        let adx: usize = distance(start_x, end_x);
        let ady: usize = distance(start_y, end_y);
        let straight: bool = (adx == 0) != (ady == 0);
        let diagonal: bool = adx == ady && adx != 0;
        match field.piece {
            Piece::Pawn => pawn_can_reach(&board, the_move, field.color),
            Piece::Knight => (adx == 1 && ady == 2) || (adx == 2 && ady == 1),
            Piece::King => adx + ady == 1,
            Piece::Rook => straight && path_is_clear(&board, the_move),
            Piece::Bishop => diagonal && path_is_clear(&board, the_move),
            Piece::Queen => (straight || diagonal) && path_is_clear(&board, the_move),
        }
    }
}

} // verus!
