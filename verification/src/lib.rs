//! A two-player chess rule engine.
//!
//! The crate decides whether a proposed move is legal on a given board,
//! applies accepted moves, detects check and tracks whose turn it is.
//! Every executable function carries a contract that Verus proves.
//!
//! - [`game`] holds the data model and the game itself: a board, two
//!   players, the color to move and the state of the game.
//! - [`reach`] says where each kind of piece can go.
//! - [`check`] finds the kings and tells whether one is in check.
//! - [`rules`] decides whether a player may make a move, and why not.
//! - [`notation`] reads moves written as text and names pieces and colors.
//! - [`board`] and [`timed`] play a game from moves given as text, the
//!   second with a clock for each player.
//! - [`laws`] proves what holds of every game and every move.
//!
//! Castling, en passant, promotion and the detection of checkmate or of a
//! draw are not part of the rules. A king moves one step along a row or a
//! column, never diagonally, and no king is ever taken: every board of a
//! game holds exactly one king of each color.

pub mod board;
pub mod check;
pub mod config;
pub mod game;
pub mod laws;
pub mod notation;
pub mod reach;
pub mod rules;
pub mod timed;

use vstd::prelude::*;

verus! {

/// A player, known by name.
#[derive(Clone, Debug)]
pub struct Player {
    name: String,
}

impl View for Player {
    type V = Seq<char>;

    /// The player's name.
    closed spec fn view(&self) -> Seq<char> {
        self.name@
    }
}

impl Player {
    /// A player with the name `name`.
    pub fn new(name: String) -> (r: Player)
        ensures
            r@ == name@,
    {
        Player { name }
    }

    /// The player's name.
    pub fn get_name(&self) -> (r: String)
        ensures
            r@ == self@,
    {
        self.name.clone()
    }
}

} // verus!

