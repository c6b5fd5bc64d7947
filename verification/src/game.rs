//! The data model of the engine (pieces, colors, squares, the board and
//! moves) and the game that is played on it.

use vstd::prelude::*;
use crate::Player;
use crate::check::{color_in_check, kings_in_place, sole_king};
use crate::config::Config;
use crate::notation::Request;
use crate::rules::{Rejection, in_words, lemma_king_survives, put_in_words, verdict};

verus! {

/// The six kinds of chess piece.
#[derive(Copy, Clone, PartialEq, Eq, Structural, Debug)]
pub enum Piece {
    King,
    Queen,
    Rook,
    Bishop,
    Knight,
    Pawn,
}

/// The colors of the two players.
#[derive(Copy, Clone, PartialEq, Eq, Structural, Debug)]
pub enum Color {
    Black,
    White,
}

impl Color {
    /// The other color.
    pub open spec fn opponent(self) -> Color {
        match self {
            Color::Black => Color::White,
            Color::White => Color::Black,
        }
    }

    /// The row step of this color's pawns: White walks towards row 0,
    /// Black towards row 7.
    pub open spec fn forward(self) -> int {
        match self {
            Color::White => -1,
            Color::Black => 1,
        }
    }

    /// The row on which this color's pawns start.
    pub open spec fn pawn_row(self) -> int {
        match self {
            Color::White => 6,
            Color::Black => 1,
        }
    }

    /// Returns the other color.
    pub fn other(self) -> (r: Color)
        ensures
            r == self.opponent(),
    {
        match self {
            Color::Black => Color::White,
            Color::White => Color::Black,
        }
    }
}

/// A non-empty square of the board: a piece and the color that owns it.
#[derive(Copy, Clone, PartialEq, Eq, Structural, Debug)]
pub struct Field {
    pub piece: Piece,
    pub color: Color,
}

impl Field {
    /// A square that holds `piece` of `color`.
    pub fn new(piece: Piece, color: Color) -> (r: Field)
        ensures
            r == (Field { piece, color }),
    {
        Field { piece, color }
    }

    /// Splits the field into its piece and its color.
    pub fn inner(&self) -> (r: (Piece, Color))
        ensures
            r == (self.piece, self.color),
    {
        (self.piece, self.color)
    }
}

/// The chess board: eight rows of eight squares, indexed `board[row][column]`.
pub type Board = [[Option<Field>; 8]; 8];

/// Whether column `x` and row `y` name a square of the board.
pub open spec fn on_board(x: int, y: int) -> bool {
    0 <= x < 8 && 0 <= y < 8
}

/// What stands on column `x`, row `y`.
pub open spec fn occupant(board: Board, x: int, y: int) -> Option<Field> {
    board[y][x]
}

/// Reads what stands on column `x`, row `y`.
pub fn occupant_at(board: &Board, x: usize, y: usize) -> (r: Option<Field>)
    requires
        on_board(x as int, y as int),
    ensures
        r == occupant(*board, x as int, y as int),
{
    board[y][x]
}

/// The board with the square at column `x`, row `y` replaced by `v`.
pub open spec fn with_square(board: Board, x: int, y: int, v: Option<Field>) -> Board {
    vstd::array::spec_array_update(board, y, vstd::array::spec_array_update(board[y], x, v))
}

/// A single move from a start square to an end square.
#[derive(Copy, Clone, PartialEq, Eq, Structural, Debug)]
pub struct Move {
    pub start_x: usize,
    pub start_y: usize,
    pub end_x: usize,
    pub end_y: usize,
}

impl Move {
    /// The move from column `start_x`, row `start_y` to column `end_x`, row
    /// `end_y`.
    pub fn new(start_x: usize, start_y: usize, end_x: usize, end_y: usize) -> (r: Move)
        ensures
            r == (Move { start_x, start_y, end_x, end_y }),
    {
        Move { start_x, start_y, end_x, end_y }
    }

    /// Splits the move into `(start_x, start_y, end_x, end_y)`.
    pub fn inner(&self) -> (r: (usize, usize, usize, usize))
        ensures
            r == (self.start_x, self.start_y, self.end_x, self.end_y),
    {
        (self.start_x, self.start_y, self.end_x, self.end_y)
    }

    /// Both squares of the move lie on the board.
    pub open spec fn in_bounds(self) -> bool {
        self.start_x < 8 && self.start_y < 8 && self.end_x < 8 && self.end_y < 8
    }

    /// The move starts and ends on the same square.
    pub open spec fn is_null(self) -> bool {
        self.start_x == self.end_x && self.start_y == self.end_y
    }

    /// Columns travelled, positive towards column 7.
    pub open spec fn dx(self) -> int {
        self.end_x - self.start_x
    }

    /// Rows travelled, positive towards row 7.
    pub open spec fn dy(self) -> int {
        self.end_y - self.start_y
    }
}

/// The board after the piece on the start square of `m` was carried to its
/// end square: the start square is empty and whatever stood on the end
/// square is gone.
pub open spec fn relocated(board: Board, m: Move) -> Board {
    with_square(
        with_square(board, m.start_x as int, m.start_y as int, None),
        m.end_x as int,
        m.end_y as int,
        occupant(board, m.start_x as int, m.start_y as int),
    )
}

/// Reading a square of a board in which one square was replaced.
pub proof fn lemma_with_square(board: Board, x: int, y: int, v: Option<Field>, i: int, j: int)
    requires
        on_board(x, y),
        on_board(i, j),
    ensures
        occupant(with_square(board, x, y, v), i, j) == if i == x && j == y {
            v
        } else {
            occupant(board, i, j)
        },
{
}

/// Reading a square of a board after a move was applied to it.
pub proof fn lemma_relocated(board: Board, m: Move, i: int, j: int)
    requires
        m.in_bounds(),
        on_board(i, j),
    ensures
        occupant(relocated(board, m), i, j) == if i == m.end_x && j == m.end_y {
            occupant(board, m.start_x as int, m.start_y as int)
        } else if i == m.start_x && j == m.start_y {
            None
        } else {
            occupant(board, i, j)
        },
{
    let cleared = with_square(board, m.start_x as int, m.start_y as int, None);
    lemma_with_square(board, m.start_x as int, m.start_y as int, None, i, j);
    lemma_with_square(
        cleared,
        m.end_x as int,
        m.end_y as int,
        occupant(board, m.start_x as int, m.start_y as int),
        i,
        j,
    );
}

/// Whether a game is still being played.
#[derive(Copy, Clone, PartialEq, Eq, Structural, Debug)]
pub enum GameState {
    Running,
    End(GameEnd),
}

/// How a game ended.
#[derive(Copy, Clone, PartialEq, Eq, Structural, Debug)]
pub enum GameEnd {
    Checkmate(Color),
    Resign(Color),
    Draw,
}

/// The piece that starts on column `x` of a player's back row.
pub open spec fn back_row_piece(x: int) -> Piece {
    if x == 0 || x == 7 {
        Piece::Rook
    } else if x == 1 || x == 6 {
        Piece::Knight
    } else if x == 2 || x == 5 {
        Piece::Bishop
    } else if x == 3 {
        Piece::Queen
    } else {
        Piece::King
    }
}

/// What stands on column `x`, row `y` when a game starts: Black's pieces on
/// row 0 and pawns on row 1, White's pawns on row 6 and pieces on row 7.
pub open spec fn initial_occupant(x: int, y: int) -> Option<Field> {
    if y == 0 {
        Some(Field { piece: back_row_piece(x), color: Color::Black })
    } else if y == 1 {
        Some(Field { piece: Piece::Pawn, color: Color::Black })
    } else if y == 6 {
        Some(Field { piece: Piece::Pawn, color: Color::White })
    } else if y == 7 {
        Some(Field { piece: back_row_piece(x), color: Color::White })
    } else {
        None
    }
}

/// The board is the one a game starts on.
pub open spec fn is_initial(board: Board) -> bool {
    forall|x: int, y: int|
        on_board(x, y) ==> #[trigger] occupant(board, x, y) == initial_occupant(x, y)
}

/// The board a game starts on holds exactly one king of each color.
pub proof fn lemma_initial_kings(board: Board)
    requires
        is_initial(board),
    ensures
        kings_in_place(board),
{
    assert(sole_king(board, Color::Black, 4, 0));
    assert(sole_king(board, Color::White, 4, 7));
}

/// The back row of `color`.
fn back_row(color: Color) -> (row: [Option<Field>; 8])
    ensures
        forall|x: int|
            0 <= x < 8 ==> #[trigger] row[x] == Some(Field { piece: back_row_piece(x), color }),
{
    [
        Some(Field::new(Piece::Rook, color)),
        Some(Field::new(Piece::Knight, color)),
        Some(Field::new(Piece::Bishop, color)),
        Some(Field::new(Piece::Queen, color)),
        Some(Field::new(Piece::King, color)),
        Some(Field::new(Piece::Bishop, color)),
        Some(Field::new(Piece::Knight, color)),
        Some(Field::new(Piece::Rook, color)),
    ]
}

/// Sets up the board a game starts on.
pub fn initial_board() -> (board: Board)
    ensures
        is_initial(board),
{
    let mut board: Board = [[None; 8]; 8];
    board[0] = back_row(Color::Black);
    board[1] = [Some(Field::new(Piece::Pawn, Color::Black)); 8];
    board[6] = [Some(Field::new(Piece::Pawn, Color::White)); 8];
    board[7] = back_row(Color::White);
    board
}

/// A game of chess: the board, the two players, whose turn it is and
/// whether the game is still running.
pub struct Game {
    board: Board,
    black: Player,
    white: Player,
    current_player: Color,
    state: GameState,
}

/// What a game is, as far as the rules are concerned.
pub struct GameView {
    pub board: Board,
    pub white: Seq<char>,
    pub black: Seq<char>,
    pub current_player: Color,
    pub state: GameState,
}

impl GameView {
    /// The board holds exactly one king of each color.
    pub open spec fn well_formed(self) -> bool {
        kings_in_place(self.board)
    }

    /// Whether the game still takes moves.
    pub open spec fn running(self) -> Result<(), Rejection> {
        if self.state is End {
            Err(Rejection::GameAlreadyEnded)
        } else {
            Ok(())
        }
    }

    /// Whether the player to move may make the move `m`, and if not, why.
    /// A game that is over takes no move; otherwise the rules decide.
    pub open spec fn judgement(self, m: Move) -> Result<(), Rejection> {
        if self.state is End {
            Err(Rejection::GameAlreadyEnded)
        } else {
            verdict(self.board, self.current_player, m)
        }
    }

    /// The game after the player to move made the move `m`: the piece was
    /// carried over and it is the other player's turn.
    pub open spec fn played(self, m: Move) -> GameView {
        GameView {
            board: relocated(self.board, m),
            white: self.white,
            black: self.black,
            current_player: self.current_player.opponent(),
            state: self.state,
        }
    }

    /// The game after the player to move asked for the move `m`: played if
    /// the rules allow the move, unchanged if they do not.
    pub open spec fn after_move(self, m: Move) -> GameView {
        if self.judgement(m) is Ok {
            self.played(m)
        } else {
            self
        }
    }

    /// The game after the player to move gave it up.
    pub open spec fn resigned(self) -> GameView {
        GameView {
            board: self.board,
            white: self.white,
            black: self.black,
            current_player: self.current_player,
            state: GameState::End(GameEnd::Resign(self.current_player)),
        }
    }

    /// The game after the player to move asked to give it up: resigned if
    /// it was running, unchanged if it was over.
    pub open spec fn after_resign(self) -> GameView {
        if self.state is End {
            self
        } else {
            self.resigned()
        }
    }

    /// The answer to what the player to move asks for.
    pub open spec fn answer(self, request: Request) -> Result<(), Rejection> {
        match request {
            Request::Move(m) => self.judgement(m),
            Request::Resign => self.running(),
        }
    }

    /// The game after the player to move asked for `request`.
    pub open spec fn after_request(self, request: Request) -> GameView {
        match request {
            Request::Move(m) => self.after_move(m),
            Request::Resign => self.after_resign(),
        }
    }
}

impl View for Game {
    type V = GameView;

    closed spec fn view(&self) -> GameView {
        GameView {
            board: self.board,
            white: self.white@,
            black: self.black@,
            current_player: self.current_player,
            state: self.state,
        }
    }
}

impl Game {
    #[verifier::type_invariant]
    spec fn kings_present(self) -> bool {
        kings_in_place(self.board)
    }

    /// Starts a game on the initial board, with White to move.
    pub fn new(config: Config) -> (r: Game)
        ensures
            is_initial(r@.board),
            r@.white == config.white@,
            r@.black == config.black@,
            r@.current_player == Color::White,
            r@.state == GameState::Running,
    {
        let board: Board = initial_board();
        proof {
            lemma_initial_kings(board);
        }
        Game {
            board,
            white: config.white,
            black: config.black,
            current_player: Color::White,
            state: GameState::Running,
        }
    }

    /// Carries the piece on the start square of `the_move` to its end
    /// square. The start square is left empty and whatever stood on the end
    /// square is gone. No rule is checked.
    pub fn move_piece(the_move: &Move, board: Board) -> (r: Board)
        requires
            the_move.in_bounds(),
        ensures
            r == relocated(board, *the_move),
    {
        let mut board = board;
        let piece: Option<Field> = board[the_move.start_y][the_move.start_x];
        board[the_move.start_y][the_move.start_x] = None;
        board[the_move.end_y][the_move.end_x] = piece;
        board
    }

    /// The two players, White first.
    pub fn get_players(&self) -> (r: (Player, Player))
        ensures
            r.0@ == self@.white,
            r.1@ == self@.black,
    {
        (Player::new(self.white.get_name()), Player::new(self.black.get_name()))
    }

    /// Tells which color's king is in check, if any.
    pub fn check_chess(&self) -> (r: Option<Color>)
        ensures
            r == color_in_check(self@.board),
    {
        proof {
            use_type_invariant(self);
        }
        Game::check_chess_of_board(self.board)
    }

    /// Decides whether the player to move may make `the_move`.
    pub fn judge_move(&self, the_move: &Move) -> (r: Result<(), Rejection>)
        ensures
            r == self@.judgement(*the_move),
    {
        proof {
            use_type_invariant(self);
        }
        match self.state {
            GameState::End(_) => Err(Rejection::GameAlreadyEnded),
            GameState::Running => Game::judge(&self.board, self.current_player, the_move),
        }
    }

    /// Decides whether the player to move may make `the_move`, and reports
    /// a rejection in words. The game is left as it is.
    pub fn check_move(&self, the_move: &Move) -> (r: Result<(), &'static str>)
        ensures
            r == in_words(self@.judgement(*the_move)),
    {
        put_in_words(self.judge_move(the_move))
    }

    /// Makes `the_move` for the player to move if the rules allow it, and
    /// passes the turn to the other player. A move that is turned down
    /// leaves the game as it was.
    pub fn do_move(&mut self, the_move: Move) -> (r: Result<(), &'static str>)
        ensures
            r == in_words(old(self)@.judgement(the_move)),
            final(self)@ == old(self)@.after_move(the_move),
    {
        proof {
            use_type_invariant(&*self);
        }
        self.unwrap_end()?;
        self.check_move(&the_move)?;
        proof {
            lemma_king_survives(self.board, the_move, Color::White);
            lemma_king_survives(self.board, the_move, Color::Black);
        }
        self.board = Game::move_piece(&the_move, self.board);
        self.current_player = self.current_player.other();
        Ok(())
    }

    /// Does what the player to move asks for: makes the move, or gives the
    /// game up.
    pub fn serve(&mut self, request: Request) -> (r: Result<(), &'static str>)
        ensures
            r == in_words(old(self)@.answer(request)),
            final(self)@ == old(self)@.after_request(request),
    {
        match request {
            Request::Move(the_move) => self.do_move(the_move),
            Request::Resign => self.resign(),
        }
    }

    /// Whether the game is still running, and how it ended if it is not.
    pub fn state(&mut self) -> (r: GameState)
        ensures
            r == old(self)@.state,
            final(self)@ == old(self)@,
    {
        self.state
    }

    /// The board as it stands.
    pub fn get_board(&self) -> (r: Board)
        ensures
            r == self@.board,
            kings_in_place(r),
    {
        proof {
            use_type_invariant(self);
        }
        self.board
    }

    /// The color of the player to move.
    pub fn get_current_player(&self) -> (r: Color)
        ensures
            r == self@.current_player,
    {
        self.current_player
    }

    /// Reports in words that the game is over, if it is.
    pub fn unwrap_end(&self) -> (r: Result<(), &'static str>)
        ensures
            r == in_words(self@.running()),
    {
        match self.state {
            GameState::End(_) => Err(Rejection::GameAlreadyEnded.message()),
            GameState::Running => Ok(()),
        }
    }

    /// The player to move gives the game up. A game that is over cannot be
    /// given up again.
    pub fn resign(&mut self) -> (r: Result<(), &'static str>)
        ensures
            r == in_words(old(self)@.running()),
            final(self)@ == old(self)@.after_resign(),
    {
        proof {
            use_type_invariant(&*self);
        }
        self.unwrap_end()?;
        self.state = GameState::End(GameEnd::Resign(self.current_player));
        Ok(())
    }
}

} // verus!
