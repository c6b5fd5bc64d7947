//! A board with its two players, played by moves given as text.

use vstd::prelude::*;
use crate::check::kings_in_place;
use crate::game::{Color, Game, Move, initial_board, is_initial, lemma_initial_kings, relocated};
use crate::notation::{Refusal, judge_text, text_answer, text_verdict};
use crate::rules::{lemma_king_survives, verdict};
use crate::timed::{Player, PlayerView};

verus! {

/// A board, the two players at it and the color that is to move.
pub struct Board {
    fields: crate::game::Board,
    white: Player,
    black: Player,
    current_player: Color,
}

/// What a board with its players is.
pub struct BoardView {
    pub fields: crate::game::Board,
    pub white: PlayerView,
    pub black: PlayerView,
    pub current_player: Color,
}

impl BoardView {
    /// Whether the player to move may make the move that `text` names.
    pub open spec fn judgement(self, text: Seq<char>) -> Result<Move, Refusal> {
        text_verdict(self.fields, self.current_player, text)
    }

    /// The board after the player to move made the move `m`: the piece was
    /// carried over and it is the other player's turn.
    pub open spec fn played(self, m: Move) -> BoardView {
        BoardView {
            fields: relocated(self.fields, m),
            white: self.white,
            black: self.black,
            current_player: self.current_player.opponent(),
        }
    }

    /// The board after the player to move asked for the move that `text`
    /// names: played if the move is made, unchanged if it is not.
    pub open spec fn after_move(self, text: Seq<char>) -> BoardView {
        match self.judgement(text) {
            Ok(m) => self.played(m),
            Err(_) => self,
        }
    }
}

impl View for Board {
    type V = BoardView;

    closed spec fn view(&self) -> BoardView {
        BoardView {
            fields: self.fields,
            white: self.white@,
            black: self.black@,
            current_player: self.current_player,
        }
    }
}

impl Board {
    #[verifier::type_invariant]
    spec fn kings_present(self) -> bool {
        kings_in_place(self.fields)
    }

    /// Sets up the initial board. The first player has White and moves
    /// first; each player has `time` seconds on the clock.
    pub fn new(player_name1: String, player_name2: String, time: u16) -> (r: Board)
        ensures
            is_initial(r@.fields),
            r@.current_player == Color::White,
            r@.white == (PlayerView {
                name: player_name1@,
                remaining_time: time as u64,
                color: Color::White,
            }),
            r@.black == (PlayerView {
                name: player_name2@,
                remaining_time: time as u64,
                color: Color::Black,
            }),
    {
        let fields: crate::game::Board = initial_board();
        proof {
            lemma_initial_kings(fields);
        }
        Board {
            fields,
            white: Player::new(player_name1, time as u64, Color::White),
            black: Player::new(player_name2, time as u64, Color::Black),
            current_player: Color::White,
        }
    }

    /// Tells whether the player to move may make `the_move`.
    pub fn check_move(&self, the_move: &Move) -> (r: bool)
        ensures
            r == (verdict(self@.fields, self@.current_player, *the_move) is Ok),
    {
        proof {
            use_type_invariant(self);
        }
        Game::judge(&self.fields, self.current_player, the_move).is_ok()
    }

    /// Makes the move that `the_move` names for the player to move and
    /// passes the turn to the other player. A move that is not made leaves
    /// the board as it was, and the fault in the text or the rule that
    /// turned the move down is reported in words.
    pub fn move_piece(&mut self, the_move: String) -> (r: Result<(), &'static str>)
        ensures
            r == text_answer(old(self)@.judgement(the_move@)),
            final(self)@ == old(self)@.after_move(the_move@),
    {
        proof {
            use_type_invariant(&*self);
        }
        let m: Move = match judge_text(&self.fields, self.current_player, the_move.as_str()) {
            Ok(m) => m,
            Err(e) => return Err(e.message()),
        };
        proof {
            lemma_king_survives(self.fields, m, Color::White);
            lemma_king_survives(self.fields, m, Color::Black);
        }
        self.fields = Game::move_piece(&m, self.fields);
        self.current_player = self.current_player.other();
        Ok(())
    }

    /// The squares as they stand.
    pub fn get_fields(&self) -> (r: crate::game::Board)
        ensures
            r == self@.fields,
            kings_in_place(r),
    {
        proof {
            use_type_invariant(self);
        }
        self.fields
    }

    /// The color of the player to move.
    pub fn get_current_player(&self) -> (r: Color)
        ensures
            r == self@.current_player,
    {
        self.current_player
    }

    /// The two players, White first.
    pub fn get_players(&self) -> (r: (Player, Player))
        ensures
            r.0@ == self@.white,
            r.1@ == self@.black,
    {
        (self.white.duplicate(), self.black.duplicate())
    }
}

} // verus!
