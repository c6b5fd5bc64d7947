//! A game between two players on the clock, played by moves given as text.

use vstd::prelude::*;
use crate::check::{color_in_check, kings_in_place};
use crate::game::{Board, Color, Move, initial_board, is_initial, lemma_initial_kings, relocated};
use crate::notation::{Refusal, judge_text, text_answer, text_verdict};
use crate::rules::{lemma_king_survives, verdict};

verus! {

/// A player: a name, a color and the seconds left on the player's clock.
#[derive(Clone, Debug)]
pub struct Player {
    name: String,
    remaining_time: u64,
    color: Color,
}

/// What a player is.
pub struct PlayerView {
    pub name: Seq<char>,
    pub remaining_time: u64,
    pub color: Color,
}

impl View for Player {
    type V = PlayerView;

    closed spec fn view(&self) -> PlayerView {
        PlayerView { name: self.name@, remaining_time: self.remaining_time, color: self.color }
    }
}

/// The seconds left on a clock that showed `remaining` after `elapsed` more
/// have passed. A clock stops at zero.
pub open spec fn time_left(remaining: u64, elapsed: u64) -> u64 {
    if elapsed >= remaining {
        0
    } else {
        (remaining - elapsed) as u64
    }
}

impl PlayerView {
    /// The player after `elapsed` seconds have run off the clock.
    pub open spec fn charged(self, elapsed: u64) -> PlayerView {
        PlayerView {
            name: self.name,
            remaining_time: time_left(self.remaining_time, elapsed),
            color: self.color,
        }
    }
}

impl Player {
    /// A player of `color` with `time` seconds on the clock.
    pub fn new(name: String, time: u64, color: Color) -> (r: Player)
        ensures
            r@ == (PlayerView { name: name@, remaining_time: time, color }),
    {
        Player { name, remaining_time: time, color }
    }

    /// The player's name.
    pub fn get_name(&self) -> (r: String)
        ensures
            r@ == self@.name,
    {
        self.name.clone()
    }

    /// The seconds left on the player's clock.
    pub fn get_remaining_time(&self) -> (r: u64)
        ensures
            r == self@.remaining_time,
    {
        self.remaining_time
    }

    /// The player's color.
    pub fn get_color(&self) -> (r: Color)
        ensures
            r == self@.color,
    {
        self.color
    }

    /// A copy of the player.
    pub fn duplicate(&self) -> (r: Player)
        ensures
            r@ == self@,
    {
        Player { name: self.name.clone(), remaining_time: self.remaining_time, color: self.color }
    }

    /// A copy of the player with `elapsed` seconds run off the clock.
    pub fn charge(&self, elapsed: u64) -> (r: Player)
        ensures
            r@ == self@.charged(elapsed),
    {
        let left: u64 = if elapsed >= self.remaining_time {
            0
        } else {
            self.remaining_time - elapsed
        };
        Player { name: self.name.clone(), remaining_time: left, color: self.color }
    }
}

/// The two players of a game: the one to move and the one who waits.
#[derive(Clone, Debug)]
pub struct Players {
    current: Player,
    waiting: Player,
}

/// What the two players of a game are.
pub struct PlayersView {
    pub current: PlayerView,
    pub waiting: PlayerView,
}

impl View for Players {
    type V = PlayersView;

    closed spec fn view(&self) -> PlayersView {
        PlayersView { current: self.current@, waiting: self.waiting@ }
    }
}

impl Players {
    /// The player to move.
    pub fn get_current(&self) -> (r: Player)
        ensures
            r@ == self@.current,
    {
        self.current.duplicate()
    }

    /// The player who waits.
    pub fn get_waiting(&self) -> (r: Player)
        ensures
            r@ == self@.waiting,
    {
        self.waiting.duplicate()
    }
}

/// Whether a game is being played.
#[derive(Copy, Clone, PartialEq, Eq, Structural, Debug)]
pub enum GameStatus {
    Running,
    Won,
    Paused,
}

/// A game on the clock: the board, the two players and the status.
pub struct Game {
    fields: Board,
    status: GameStatus,
    players: Players,
}

/// What a game on the clock is.
pub struct TimedGameView {
    pub fields: Board,
    pub status: GameStatus,
    pub players: PlayersView,
}

impl TimedGameView {
    /// The board holds exactly one king of each color, and the two players
    /// have the two colors.
    pub open spec fn well_formed(self) -> bool {
        &&& kings_in_place(self.fields)
        &&& self.players.waiting.color == self.players.current.color.opponent()
    }

    /// The player who has `color`: the player to move if that is the
    /// color to move, the player who waits if not.
    pub open spec fn player_of(self, color: Color) -> PlayerView {
        if self.players.current.color == color {
            self.players.current
        } else {
            self.players.waiting
        }
    }

    /// The player whose king is in check, if any.
    pub open spec fn in_check(self) -> Option<PlayerView> {
        match color_in_check(self.fields) {
            Some(color) => Some(self.player_of(color)),
            None => None,
        }
    }

    /// Whether the player to move may make the move that `text` names.
    pub open spec fn judgement(self, text: Seq<char>) -> Result<Move, Refusal> {
        text_verdict(self.fields, self.players.current.color, text)
    }

    /// The game after the player to move made the move `m` and took
    /// `elapsed` seconds over it: the piece was carried over, the time has
    /// run off the mover's clock, the game is running and the players have
    /// changed places.
    pub open spec fn played(self, m: Move, elapsed: u64) -> TimedGameView {
        TimedGameView {
            fields: relocated(self.fields, m),
            status: GameStatus::Running,
            players: PlayersView {
                current: self.players.waiting,
                waiting: self.players.current.charged(elapsed),
            },
        }
    }

    /// The game after the player to move asked for the move that `text`
    /// names, `elapsed` seconds after the move before: played if the move
    /// is made, unchanged if it is not.
    pub open spec fn after_move(self, text: Seq<char>, elapsed: u64) -> TimedGameView {
        match self.judgement(text) {
            Ok(m) => self.played(m, elapsed),
            Err(_) => self,
        }
    }
}

impl View for Game {
    type V = TimedGameView;

    closed spec fn view(&self) -> TimedGameView {
        TimedGameView { fields: self.fields, status: self.status, players: self.players@ }
    }
}

impl Game {
    #[verifier::type_invariant]
    spec fn well_formed(self) -> bool {
        self@.well_formed()
    }

    /// Starts a game on the initial board. The first player has White and
    /// moves first; each player has `time` seconds on the clock.
    pub fn new(player_name1: String, player_name2: String, time: u64) -> (r: Game)
        ensures
            is_initial(r@.fields),
            r@.status == GameStatus::Running,
            r@.players.current == (PlayerView {
                name: player_name1@,
                remaining_time: time,
                color: Color::White,
            }),
            r@.players.waiting == (PlayerView {
                name: player_name2@,
                remaining_time: time,
                color: Color::Black,
            }),
    {
        let fields: Board = initial_board();
        proof {
            lemma_initial_kings(fields);
        }
        Game {
            fields,
            status: GameStatus::Running,
            players: Players {
                current: Player::new(player_name1, time, Color::White),
                waiting: Player::new(player_name2, time, Color::Black),
            },
        }
    }

    /// Tells whether the player to move may make `the_move`.
    pub fn check_move(&self, the_move: &Move) -> (r: bool)
        ensures
            r == (verdict(self@.fields, self@.players.current.color, *the_move) is Ok),
    {
        proof {
            use_type_invariant(self);
        }
        crate::game::Game::judge(&self.fields, self.players.current.color, the_move).is_ok()
    }

    /// Tells which color's king is in check, if any.
    pub fn check_chess(&self) -> (r: Option<Color>)
        ensures
            r == color_in_check(self@.fields),
    {
        proof {
            use_type_invariant(self);
        }
        crate::game::Game::check_chess_of_board(self.fields)
    }

    /// Tells which player's king is in check, if any.
    pub fn checked_player(&self) -> (r: Option<Player>)
        ensures
            match r {
                Some(p) => self@.in_check() == Some(p@),
                None => self@.in_check() is None,
            },
    {
        match self.check_chess() {
            Some(color) => if self.players.current.color == color {
                Some(self.players.current.duplicate())
            } else {
                Some(self.players.waiting.duplicate())
            },
            None => None,
        }
    }

    /// Makes the move that `the_move` names for the player to move, who
    /// took `elapsed` seconds over it, and lets the players change places.
    /// A move that is not made leaves the game as it was, and the fault in
    /// the text or the rule that turned the move down is reported in words.
    pub fn move_piece_timed(&mut self, the_move: String, elapsed: u64) -> (r: Result<
        (),
        &'static str,
    >)
        ensures
            r == text_answer(old(self)@.judgement(the_move@)),
            final(self)@ == old(self)@.after_move(the_move@, elapsed),
    {
        proof {
            use_type_invariant(&*self);
        }
        let m: Move = match judge_text(&self.fields, self.players.current.color, the_move.as_str()) {
            Ok(m) => m,
            Err(e) => return Err(e.message()),
        };
        proof {
            lemma_king_survives(self.fields, m, Color::White);
            lemma_king_survives(self.fields, m, Color::Black);
        }
        self.fields = crate::game::Game::move_piece(&m, self.fields);
        self.status = GameStatus::Running;
        let mover: Player = self.players.current.charge(elapsed);
        let next: Player = self.players.waiting.duplicate();
        self.players = Players { current: next, waiting: mover };
        Ok(())
    }

    /// Makes the move that `the_move` names for the player to move and lets
    /// the players change places; the clocks are left alone. A move that is
    /// not made leaves the game as it was.
    pub fn move_piece(&mut self, the_move: String) -> (r: Result<(), &'static str>)
        ensures
            r == text_answer(old(self)@.judgement(the_move@)),
            final(self)@ == old(self)@.after_move(the_move@, 0),
    {
        self.move_piece_timed(the_move, 0)
    }

    /// Whether the game is being played.
    pub fn get_status(&self) -> (r: GameStatus)
        ensures
            r == self@.status,
    {
        self.status
    }

    /// The two players.
    pub fn get_players_clone(&self) -> (r: Players)
        ensures
            r@ == self@.players,
    {
        Players {
            current: self.players.current.duplicate(),
            waiting: self.players.waiting.duplicate(),
        }
    }

    /// The board as it stands.
    pub fn get_fields(&self) -> (r: Board)
        ensures
            r == self@.fields,
            kings_in_place(r),
    {
        proof {
            use_type_invariant(self);
        }
        self.fields
    }
}

} // verus!
