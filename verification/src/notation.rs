//! Moves and pieces as text.
//!
//! A move is written as four characters: the file letter and the rank digit
//! of the start square, then those of the end square, as in `D2D4`. Files
//! `a` to `h`, in either case, are the columns 0 to 7. Rank 8 is row 0 and
//! rank 1 is row 7, so that White's pieces start on ranks 1 and 2.

use vstd::prelude::*;
use crate::check::one_king;
use crate::game::{Board, Color, Field, Game, Move, Piece};
use crate::rules::{Rejection, verdict};

verus! {

/// Why a text names no move.
#[derive(Copy, Clone, PartialEq, Eq, Structural, Debug)]
pub enum TextError {
    /// The text is not four bytes long, or a rank is not a digit.
    MalformedMoveText,
    /// A file is not one of the letters `a` to `h`.
    UnknownSquareLetter,
}

impl TextError {
    /// The words in which the error is reported.
    pub open spec fn text(self) -> &'static str {
        match self {
            TextError::MalformedMoveText => "invalid move format",
            TextError::UnknownSquareLetter => "piece not found",
        }
    }

    /// Returns the words in which the error is reported.
    pub fn message(self) -> (r: &'static str)
        ensures
            r == self.text(),
    {
        match self {
            TextError::MalformedMoveText => "invalid move format",
            TextError::UnknownSquareLetter => "piece not found",
        }
    }
}

/// The character at position `i` of `text`, if it has one.
pub open spec fn char_at(text: Seq<char>, i: int) -> Option<char> {
    if 0 <= i < text.len() {
        Some(text[i])
    } else {
        None
    }
}

/// The column that a file letter names.
pub open spec fn column_of(c: Option<char>) -> Option<u8> {
    match c {
        Some(ch) => if 'a' <= ch && ch <= 'h' {
            Some((ch as int - 'a' as int) as u8)
        } else if 'A' <= ch && ch <= 'H' {
            Some((ch as int - 'A' as int) as u8)
        } else {
            None
        },
        None => None,
    }
}

/// The row of the rank with the number `rank`. The ranks 1 to 8 are the
/// rows 7 to 0. Rank 0 is row 8 and rank 9 is row 255: both lie off the
/// board.
pub open spec fn rank_row(rank: int) -> u8 {
    if rank <= 8 {
        (8 - rank) as u8
    } else {
        255
    }
}

/// The row that a rank digit names.
pub open spec fn row_of(c: Option<char>) -> Option<u8> {
    match c {
        Some(ch) => if '0' <= ch && ch <= '9' {
            Some(rank_row(ch as int - '0' as int))
        } else {
            None
        },
        None => None,
    }
}

/// The move that `text` names. The text is read from the left, and the
/// first fault found decides the error: a length other than four bytes, a
/// start file that is no file letter, a start rank that is no digit, then
/// the same for the end square.
pub open spec fn parsed(text: Seq<char>) -> Result<Move, TextError> {
    if vstd::utf8::encode_utf8(text).len() != 4 {
        Err(TextError::MalformedMoveText)
    } else if column_of(char_at(text, 0)) is None {
        Err(TextError::UnknownSquareLetter)
    } else if row_of(char_at(text, 1)) is None {
        Err(TextError::MalformedMoveText)
    } else if column_of(char_at(text, 2)) is None {
        Err(TextError::UnknownSquareLetter)
    } else if row_of(char_at(text, 3)) is None {
        Err(TextError::MalformedMoveText)
    } else {
        Ok(
            Move {
                start_x: column_of(char_at(text, 0))->0 as usize,
                start_y: row_of(char_at(text, 1))->0 as usize,
                end_x: column_of(char_at(text, 2))->0 as usize,
                end_y: row_of(char_at(text, 3))->0 as usize,
            },
        )
    }
}

/// The letter of the file that is column `column`.
pub fn file_letter(column: usize) -> (r: char)
    requires
        column < 8,
    ensures
        'a' <= r && r <= 'h',
        column_of(Some(r)) == Some(column as u8),
{
    (97u8 + column as u8) as char
}

/// The digit of the rank that is row `row`.
pub fn rank_digit(row: usize) -> (r: char)
    requires
        row < 8,
    ensures
        '1' <= r && r <= '8',
        row_of(Some(r)) == Some(row as u8),
{
    (56u8 - row as u8) as char
}

/// Reads a file letter.
pub fn file_column(c: Option<char>) -> (r: Option<u8>)
    ensures
        r == column_of(c),
{
    match c {
        Some(ch) => if ch >= 'a' && ch <= 'h' {
            Some(ch as u8 - 97)
        } else if ch >= 'A' && ch <= 'H' {
            Some(ch as u8 - 65)
        } else {
            None
        },
        None => None,
    }
}

/// Reads a rank digit and gives its row.
pub fn matching(inp: Option<char>) -> (r: Result<u8, &'static str>)
    ensures
        r == match row_of(inp) {
            Some(row) => Ok::<u8, &'static str>(row),
            None => Err::<u8, &'static str>(TextError::MalformedMoveText.text()),
        },
{
    match inp {
        Some(x) => if x >= '0' && x <= '9' {
            let rank: u8 = x as u8 - 48;
            if rank <= 8 {
                Ok(8 - rank)
            } else {
                Ok(255)
            }
        } else {
            Err(TextError::MalformedMoveText.message())
        },
        None => Err(TextError::MalformedMoveText.message()),
    }
}

/// The character at position `i` of `text`, if it has one.
fn nth_char(text: &str, i: usize) -> (r: Option<char>)
    ensures
        r == char_at(text@, i as int),
{
    if i < text.unicode_len() {
        Some(text.get_char(i))
    } else {
        None
    }
}

/// Reads a move from its text.
pub fn read_move(text: &str) -> (r: Result<Move, TextError>)
    ensures
        r == parsed(text@),
{
    if text.as_bytes().len() != 4 {
        return Err(TextError::MalformedMoveText);
    }
    let start_x: u8 = match file_column(nth_char(text, 0)) {
        Some(c) => c,
        None => return Err(TextError::UnknownSquareLetter),
    };
    let start_y: u8 = match matching(nth_char(text, 1)) {
        Ok(c) => c,
        Err(_) => return Err(TextError::MalformedMoveText),
    };
    let end_x: u8 = match file_column(nth_char(text, 2)) {
        Some(c) => c,
        None => return Err(TextError::UnknownSquareLetter),
    };
    let end_y: u8 = match matching(nth_char(text, 3)) {
        Ok(c) => c,
        Err(_) => return Err(TextError::MalformedMoveText),
    };
    Ok(Move::new(start_x as usize, start_y as usize, end_x as usize, end_y as usize))
}

/// Reads a move from its text, if the text names one.
pub fn parse_move(the_move: &str) -> (r: Option<Move>)
    ensures
        r == match parsed(the_move@) {
            Ok(m) => Some(m),
            Err(_) => None,
        },
{
    match read_move(the_move) {
        Ok(m) => Some(m),
        Err(_) => None,
    }
}

/// What a player asks for at the board.
#[derive(Copy, Clone, PartialEq, Eq, Structural, Debug)]
pub enum Request {
    /// To make a move.
    Move(Move),
    /// To give the game up.
    Resign,
}

/// The small letter for a capital letter of `A` to `Z`; any other character
/// as it is.
pub open spec fn small(c: char) -> char {
    if 'A' <= c && c <= 'Z' {
        (c as int + 32) as char
    } else {
        c
    }
}

/// The text is the word `resign`, in small or capital letters.
pub open spec fn spells_resign(text: Seq<char>) -> bool {
    &&& text.len() == 6
    &&& small(text[0]) == 'r'
    &&& small(text[1]) == 'e'
    &&& small(text[2]) == 's'
    &&& small(text[3]) == 'i'
    &&& small(text[4]) == 'g'
    &&& small(text[5]) == 'n'
}

/// What `text` asks for: to give the game up, to make the move that it
/// names, or nothing that is understood.
pub open spec fn requested(text: Seq<char>) -> Option<Request> {
    if spells_resign(text) {
        Some(Request::Resign)
    } else {
        match parsed(text) {
            Ok(m) => Some(Request::Move(m)),
            Err(_) => None,
        }
    }
}

/// Turns a capital letter into the small one.
fn to_small(c: char) -> (r: char)
    ensures
        r == small(c),
{
    if c >= 'A' && c <= 'Z' {
        (c as u8 + 32) as char
    } else {
        c
    }
}

/// Tells whether the text is the word `resign`.
fn is_resign(text: &str) -> (r: bool)
    ensures
        r == spells_resign(text@),
{
    text.unicode_len() == 6 && to_small(text.get_char(0)) == 'r' && to_small(text.get_char(1))
        == 'e' && to_small(text.get_char(2)) == 's' && to_small(text.get_char(3)) == 'i'
        && to_small(text.get_char(4)) == 'g' && to_small(text.get_char(5)) == 'n'
}

/// Reads what a player asks for.
pub fn read_request(text: &str) -> (r: Option<Request>)
    ensures
        r == requested(text@),
{
    if is_resign(text) {
        Some(Request::Resign)
    } else {
        match read_move(text) {
            Ok(m) => Some(Request::Move(m)),
            Err(_) => None,
        }
    }
}

/// Why a move given as text was not made.
#[derive(Copy, Clone, PartialEq, Eq, Structural, Debug)]
pub enum Refusal {
    /// The text names no move.
    Text(TextError),
    /// The text names a move that the rules turn down.
    Rule(Rejection),
}

impl Refusal {
    /// The words in which the refusal is reported: those of the fault in
    /// the text, or those of the rule that turned the move down.
    pub open spec fn text(self) -> &'static str {
        match self {
            Refusal::Text(e) => e.text(),
            Refusal::Rule(e) => e.text(),
        }
    }

    /// Returns the words in which the refusal is reported.
    pub fn message(self) -> (r: &'static str)
        ensures
            r == self.text(),
    {
        match self {
            Refusal::Text(e) => e.message(),
            Refusal::Rule(e) => e.message(),
        }
    }
}

/// Whether `player` may make on `board` the move that `text` names: the
/// move, or why it is not made.
pub open spec fn text_verdict(board: Board, player: Color, text: Seq<char>) -> Result<
    Move,
    Refusal,
> {
    match parsed(text) {
        Err(e) => Err(Refusal::Text(e)),
        Ok(m) => match verdict(board, player, m) {
            Ok(()) => Ok(m),
            Err(e) => Err(Refusal::Rule(e)),
        },
    }
}

/// The outcome of a move given as text, as it is reported.
pub open spec fn text_answer(v: Result<Move, Refusal>) -> Result<(), &'static str> {
    match v {
        Ok(_) => Ok(()),
        Err(e) => Err(e.text()),
    }
}

/// Reads a move from its text and decides whether `player` may make it on
/// `board`.
pub fn judge_text(board: &Board, player: Color, text: &str) -> (r: Result<Move, Refusal>)
    requires
        one_king(*board, player),
    ensures
        r == text_verdict(*board, player, text@),
{
    match read_move(text) {
        Err(e) => Err(Refusal::Text(e)),
        Ok(m) => match Game::judge(board, player, &m) {
            Ok(()) => Ok(m),
            Err(e) => Err(Refusal::Rule(e)),
        },
    }
}

/// The symbol of a piece of a color.
pub open spec fn glyph(piece: Piece, color: Color) -> &'static str {
    match color {
        Color::White => match piece {
            Piece::King => "♚",
            Piece::Queen => "♛",
            Piece::Rook => "♜",
            Piece::Bishop => "♝",
            Piece::Knight => "♞",
            Piece::Pawn => "♟",
        },
        Color::Black => match piece {
            Piece::King => "♔",
            Piece::Queen => "♕",
            Piece::Rook => "♖",
            Piece::Bishop => "♗",
            Piece::Knight => "♘",
            Piece::Pawn => "♙",
        },
    }
}

/// The symbol that shows what stands on a square.
pub fn fmt_field(field: &Field) -> (r: &'static str)
    ensures
        r == glyph(field.piece, field.color),
{
    let (piece, color) = field.inner();
    match color {
        Color::White => match piece {
            Piece::King => "♚",
            Piece::Queen => "♛",
            Piece::Rook => "♜",
            Piece::Bishop => "♝",
            Piece::Knight => "♞",
            Piece::Pawn => "♟",
        },
        Color::Black => match piece {
            Piece::King => "♔",
            Piece::Queen => "♕",
            Piece::Rook => "♖",
            Piece::Bishop => "♗",
            Piece::Knight => "♘",
            Piece::Pawn => "♙",
        },
    }
}

/// The name of a color.
pub open spec fn color_name(color: Color) -> &'static str {
    match color {
        Color::White => "White",
        Color::Black => "Black",
    }
}

/// The name of a color.
pub fn fmt_color(color: Color) -> (r: &'static str)
    ensures
        r == color_name(color),
{
    match color {
        Color::White => "White",
        Color::Black => "Black",
    }
}

} // verus!
