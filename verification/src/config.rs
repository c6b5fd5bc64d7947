//! The configuration a game is started from.

use vstd::prelude::*;
use crate::Player;

verus! {

/// The two players of a game.
pub struct Config {
    pub white: Player,
    pub black: Player,
}

impl Config {
    /// A configuration for two players, given by name.
    pub fn new(white: String, black: String) -> (r: Config)
        ensures
            r.white@ == white@,
            r.black@ == black@,
    {
        let white = Player::new(white);
        let black = Player::new(black);
        Config { white, black }
    }
}

} // verus!
