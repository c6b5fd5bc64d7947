//! Check detection: whether a king stands on a square that a piece of the
//! other color can reach.

use vstd::prelude::*;
use crate::game::{Board, Color, Field, Game, Move, Piece, occupant, on_board};
use crate::reach::can_reach;

verus! {

/// The king of `color` stands on column `x`, row `y`.
pub open spec fn king_on(board: Board, color: Color, x: int, y: int) -> bool {
    on_board(x, y) && occupant(board, x, y) == Some(Field { piece: Piece::King, color })
}

/// The king of `color` stands on column `x`, row `y`, and nowhere else.
pub open spec fn sole_king(board: Board, color: Color, x: int, y: int) -> bool {
    &&& king_on(board, color, x, y)
    &&& forall|i: int, j: int| #[trigger] king_on(board, color, i, j) ==> i == x && j == y
}

/// The board holds exactly one king of `color`.
pub open spec fn one_king(board: Board, color: Color) -> bool {
    exists|x: int, y: int| sole_king(board, color, x, y)
}

/// The board holds exactly one king of each color.
pub open spec fn kings_in_place(board: Board) -> bool {
    one_king(board, Color::White) && one_king(board, Color::Black)
}

/// The square `(column, row)` of the king of `color`, on a board that holds
/// exactly one.
pub open spec fn king_square(board: Board, color: Color) -> (int, int) {
    choose|x: int, y: int| sole_king(board, color, x, y)
}

/// The move that carries what stands on column `x`, row `y` onto the square
/// of the king of `victim`.
pub open spec fn strike(board: Board, x: int, y: int, victim: Color) -> Move {
    let k = king_square(board, victim);
    Move { start_x: x as usize, start_y: y as usize, end_x: k.0 as usize, end_y: k.1 as usize }
}

/// On column `x`, row `y` stands a piece, not a king, of the color opposed
/// to `victim`, and it can reach the square of the king of `victim`.
pub open spec fn threatens(board: Board, x: int, y: int, victim: Color) -> bool {
    &&& on_board(x, y)
    &&& occupant(board, x, y) matches Some(f)
    &&& f.piece != Piece::King
    &&& f.color != victim
    &&& can_reach(board, strike(board, x, y, victim))
}

/// The king of `victim` is in check: some piece threatens it.
pub open spec fn attackable(board: Board, victim: Color) -> bool {
    exists|x: int, y: int| threatens(board, x, y, victim)
}

/// The piece on column `x`, row `y` gives check to the king of the other
/// color.
pub open spec fn gives_check(board: Board, x: int, y: int) -> bool {
    &&& occupant(board, x, y) matches Some(f)
    &&& threatens(board, x, y, f.color.opponent())
}

/// The square `(i, j)` comes before `(x, y)` when the board is read row by
/// row from row 0, each row from column 0.
pub open spec fn scanned_before(i: int, j: int, x: int, y: int) -> bool {
    j < y || (j == y && i < x)
}

/// The piece on column `x`, row `y` gives check, and no piece on an earlier
/// square does.
pub open spec fn first_check(board: Board, x: int, y: int) -> bool {
    &&& gives_check(board, x, y)
    &&& forall|i: int, j: int|
        scanned_before(i, j, x, y) ==> !#[trigger] gives_check(board, i, j)
}

/// The color whose king is in check, if any. Where both are, it is the
/// color checked by the first checking piece met when the board is read row
/// by row.
pub open spec fn color_in_check(board: Board) -> Option<Color> {
    if exists|x: int, y: int| first_check(board, x, y) {
        let (x, y) = choose|x: int, y: int| first_check(board, x, y);
        Some(occupant(board, x, y)->0.color.opponent())
    } else {
        None
    }
}

/// A board with exactly one king of `color` has it on `king_square`.
pub proof fn lemma_king_square(board: Board, color: Color)
    requires
        one_king(board, color),
    ensures
        sole_king(board, color, king_square(board, color).0, king_square(board, color).1),
{
}

/// No two squares hold the first checking piece.
pub proof fn lemma_first_check_unique(board: Board, x: int, y: int, i: int, j: int)
    requires
        first_check(board, x, y),
        first_check(board, i, j),
    ensures
        x == i && y == j,
{
    assert(!scanned_before(i, j, x, y));
    assert(!scanned_before(x, y, i, j));
}

/// Tells whether the board holds exactly one king of `color`.
pub fn has_one_king(board: &Board, color: Color) -> (r: bool)
    ensures
        r == one_king(*board, color),
{
    let mut found: Option<(usize, usize)> = None;
    let mut y: usize = 0;
    while y < 8
        invariant
            y <= 8,
            match found {
                Some(k) => king_on(*board, color, k.0 as int, k.1 as int) && k.1 < y,
                None => true,
            },
            forall|i: int, j: int|
                0 <= j < y && #[trigger] king_on(*board, color, i, j) ==> found == Some(
                    (i as usize, j as usize),
                ),
        decreases 8 - y,
    {
        let mut x: usize = 0;
        while x < 8
            invariant
                x <= 8,
                y < 8,
                match found {
                    Some(k) => king_on(*board, color, k.0 as int, k.1 as int) && (k.1 < y || (k.1
                        == y && k.0 < x)),
                    None => true,
                },
                forall|i: int, j: int|
                    0 <= j < y && #[trigger] king_on(*board, color, i, j) ==> found == Some(
                        (i as usize, j as usize),
                    ),
                forall|i: int|
                    0 <= i < x && #[trigger] king_on(*board, color, i, y as int) ==> found == Some(
                        (i as usize, y),
                    ),
            decreases 8 - x,
        {
            match board[y][x] {
                Some(f) => {
                    if f.piece == Piece::King && f.color == color {
                        match found {
                            Some(k) => {
                                proof {
                                    assert(king_on(*board, color, x as int, y as int));
                                    assert(king_on(*board, color, k.0 as int, k.1 as int));
                                }
                                return false;
                            },
                            None => {
                                found = Some((x, y));
                            },
                        }
                    }
                },
                None => {},
            }
            x = x + 1;
        }
        y = y + 1;
    }
    match found {
        Some(k) => {
            proof {
                assert(sole_king(*board, color, k.0 as int, k.1 as int));
            }
            true
        },
        None => false,
    }
}

/// Finds the king of `color`.
pub fn find_king(board: &Board, color: Color) -> (p: (usize, usize))
    requires
        one_king(*board, color),
    ensures
        king_square(*board, color) == (p.0 as int, p.1 as int),
        sole_king(*board, color, p.0 as int, p.1 as int),
{
    proof {
        lemma_king_square(*board, color);
    }
    let mut y: usize = 0;
    while y < 8
        invariant
            y <= 8,
            forall|i: int, j: int| 0 <= j < y ==> !#[trigger] king_on(*board, color, i, j),
            sole_king(*board, color, king_square(*board, color).0, king_square(*board, color).1),
        decreases 8 - y,
    {
        let mut x: usize = 0;
        while x < 8
            invariant
                x <= 8,
                y < 8,
                forall|i: int, j: int| 0 <= j < y ==> !#[trigger] king_on(*board, color, i, j),
                forall|i: int| 0 <= i < x ==> !#[trigger] king_on(*board, color, i, y as int),
                sole_king(
                    *board,
                    color,
                    king_square(*board, color).0,
                    king_square(*board, color).1,
                ),
            decreases 8 - x,
        {
            match board[y][x] {
                Some(f) => {
                    if f.piece == Piece::King && f.color == color {
                        assert(king_on(*board, color, x as int, y as int));
                        return (x, y);
                    }
                },
                None => {},
            }
            x = x + 1;
        }
        y = y + 1;
    }
    proof {
        let k = king_square(*board, color);
        assert(king_on(*board, color, k.0, k.1));
        assert(false);
    }
    (0, 0)
}

/// Tells whether the piece on column `x`, row `y` threatens the king of
/// `victim`, which stands on column `kx`, row `ky`.
fn threat_at(board: &Board, x: usize, y: usize, victim: Color, kx: usize, ky: usize) -> (r: bool)
    requires
        x < 8,
        y < 8,
        king_square(*board, victim) == (kx as int, ky as int),
    ensures
        r == threatens(*board, x as int, y as int, victim),
{
    match board[y][x] {
        Some(f) => f.piece != Piece::King && f.color != victim
            && Game::check_move_possibility_to(*board, &Move::new(x, y, kx, ky)),
        None => false,
    }
}

impl Game {
    /// Tells whether the king of `victim` is in check on `board`.
    pub fn king_in_check(board: &Board, victim: Color) -> (r: bool)
        requires
            one_king(*board, victim),
        ensures
            r == attackable(*board, victim),
    {
        let (kx, ky) = find_king(board, victim);
        let mut y: usize = 0;
        while y < 8
            invariant
                y <= 8,
                king_square(*board, victim) == (kx as int, ky as int),
                forall|i: int, j: int| 0 <= j < y ==> !#[trigger] threatens(*board, i, j, victim),
            decreases 8 - y,
        {
            let mut x: usize = 0;
            while x < 8
                invariant
                    x <= 8,
                    y < 8,
                    king_square(*board, victim) == (kx as int, ky as int),
                    forall|i: int, j: int|
                        0 <= j < y ==> !#[trigger] threatens(*board, i, j, victim),
                    forall|i: int|
                        0 <= i < x ==> !#[trigger] threatens(*board, i, y as int, victim),
                decreases 8 - x,
            {
                if threat_at(board, x, y, victim, kx, ky) {
                    return true;
                }
                x = x + 1;
            }
            y = y + 1;
        }
        false
    }

    /// Tells which color's king is in check on `board`, if any. The board is
    /// read row by row; the first piece found that gives check decides.
    pub fn check_chess_of_board(board: Board) -> (r: Option<Color>)
        requires
            kings_in_place(board),
        ensures
            r == color_in_check(board),
    {
        let white_king: (usize, usize) = find_king(&board, Color::White);
        let black_king: (usize, usize) = find_king(&board, Color::Black);
        let mut y: usize = 0;
        while y < 8
            invariant
                y <= 8,
                king_square(board, Color::White) == (white_king.0 as int, white_king.1 as int),
                king_square(board, Color::Black) == (black_king.0 as int, black_king.1 as int),
                forall|i: int, j: int| 0 <= j < y ==> !#[trigger] gives_check(board, i, j),
            decreases 8 - y,
        {
            let mut x: usize = 0;
            while x < 8
                invariant
                    x <= 8,
                    y < 8,
                    king_square(board, Color::White) == (white_king.0 as int, white_king.1 as int),
                    king_square(board, Color::Black) == (black_king.0 as int, black_king.1 as int),
                    forall|i: int, j: int| 0 <= j < y ==> !#[trigger] gives_check(board, i, j),
                    forall|i: int| 0 <= i < x ==> !#[trigger] gives_check(board, i, y as int),
                decreases 8 - x,
            {
                match board[y][x] {
                    Some(f) => {
                        let victim: Color = f.color.other();
                        let (kx, ky): (usize, usize) = match victim {
                            Color::White => white_king,
                            Color::Black => black_king,
                        };
                        if threat_at(&board, x, y, victim, kx, ky) {
                            proof {
                                assert(first_check(board, x as int, y as int));
                                let (cx, cy) = choose|cx: int, cy: int| first_check(board, cx, cy);
                                lemma_first_check_unique(board, x as int, y as int, cx, cy);
                            }
                            return Some(victim);
                        }
                    },
                    None => {},
                }
                x = x + 1;
            }
            y = y + 1;
        }
        proof {
            assert forall|i: int, j: int| !first_check(board, i, j) by {
                assert(gives_check(board, i, j) ==> on_board(i, j));
            }
        }
        None
    }
}

} // verus!
