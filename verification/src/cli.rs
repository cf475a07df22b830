//! The configuration a game is started with: how many seats take part and
//! how many cards each seat is dealt.  Reading these from the command
//! line is the hosting shell's part.

use vstd::prelude::*;

verus! {

/// The game configuration.
#[derive(Debug, Clone, Copy, PartialEq, Eq, Structural)]
pub struct Args {
    /// Number of players in the game.
    pub num_of_players: usize,

    /// Number of cards dealt to each player at the start of the game.
    pub num_of_cards: usize,
}

impl Default for Args {
    /// The default game: two players, seven cards each.
    fn default() -> (a: Args)
        ensures
            a.num_of_players == 2,
            a.num_of_cards == 7,
    {
        Args { num_of_players: 2, num_of_cards: 7 }
    }
}

} // verus!
