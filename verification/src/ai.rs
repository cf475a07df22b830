//! The automated actor: a strategy that tries its hand left to right and
//! picks the wild colour it holds most cards of.

use vstd::prelude::*;
use crate::actor::{Actor, UserAction};
use crate::card::{Card, Colour};
use crate::player::Player;

verus! {

/// An automated seat.  It proposes the cards of its hand one index at a
/// time (the engine rejects illegal ones and asks again), draws once it
/// has run out of candidates, and starts over on its next turn.
pub struct AiActor {
    id: usize,
    next_card_to_play: usize,
    player: Player,
}

/// How many cards of `hand` have the colour `c`.
pub open spec fn count_colour(hand: Seq<Card>, c: Colour) -> nat
    decreases hand.len(),
{
    if hand.len() == 0 {
        0
    } else {
        count_colour(hand.drop_last(), c) + (if hand.last().colour == c {
            1nat
        } else {
            0nat
        })
    }
}

/// The colour the automated strategy picks for a wild card: the real
/// colour it holds most cards of, later entries of (red, green, blue,
/// yellow) winning ties.
pub open spec fn ai_colour_choice(hand: Seq<Card>) -> Colour {
    let r = count_colour(hand, Colour::Red);
    let g = count_colour(hand, Colour::Green);
    let b = count_colour(hand, Colour::Blue);
    let y = count_colour(hand, Colour::Yellow);
    if y >= b && y >= g && y >= r {
        Colour::Yellow
    } else if b >= g && b >= r {
        Colour::Blue
    } else if g >= r {
        Colour::Green
    } else {
        Colour::Red
    }
}

impl AiActor {
    /// The index of the card the strategy will propose next.
    pub closed spec fn spec_next_card(&self) -> usize {
        self.next_card_to_play
    }

    /// Creates an automated actor for the given seat, with an empty hand.
    pub fn new(id: usize) -> (a: AiActor)
        ensures
            a.spec_id() == id,
            a.spec_player()@ == Seq::<Card>::empty(),
            a.spec_next_card() == 0,
    {
        AiActor { id, next_card_to_play: 0, player: Player::new() }
    }
}

impl Actor for AiActor {
    closed spec fn spec_player(&self) -> Player {
        self.player
    }

    closed spec fn spec_id(&self) -> usize {
        self.id
    }

    fn get_id(&self) -> usize {
        self.id
    }

    fn get_player(&self) -> &Player {
        &self.player
    }

    fn get_player_mut(&mut self) -> &mut Player {
        &mut self.player
    }

    fn get_turn_action(&mut self) -> (a: UserAction)
        ensures
            old(self).spec_next_card() < old(self).spec_player()@.len() ==> {
                &&& a == UserAction::Play(old(self).spec_next_card())
                &&& final(self).spec_next_card() == old(self).spec_next_card() + 1
            },
            old(self).spec_next_card() >= old(self).spec_player()@.len() ==> {
                &&& a == UserAction::Draw
                &&& final(self).spec_next_card() == old(self).spec_next_card()
            },
    {
        let card_to_play = self.next_card_to_play;
        if card_to_play < self.player.get_number_of_cards() {
            self.next_card_to_play = card_to_play + 1;
            UserAction::Play(card_to_play)
        } else {
            UserAction::Draw
        }
    }

    fn get_color_choice(&mut self) -> (c: Colour)
        ensures
            c == ai_colour_choice(old(self).spec_player()@),
    {
        let hand = self.player.get_hand();
        let n = hand.len();
        let mut red_count: usize = 0;
        let mut green_count: usize = 0;
        let mut blue_count: usize = 0;
        let mut yellow_count: usize = 0;
        let mut i: usize = 0;
        while i < n
            invariant
                n == hand@.len(),
                hand@ == self.spec_player()@,
                i <= n,
                red_count == count_colour(hand@.subrange(0, i as int), Colour::Red),
                green_count == count_colour(hand@.subrange(0, i as int), Colour::Green),
                blue_count == count_colour(hand@.subrange(0, i as int), Colour::Blue),
                yellow_count == count_colour(hand@.subrange(0, i as int), Colour::Yellow),
                red_count <= i,
                green_count <= i,
                blue_count <= i,
                yellow_count <= i,
            decreases n - i,
        {
            proof {
                assert(hand@.subrange(0, i + 1).drop_last() =~= hand@.subrange(0, i as int));
                assert(hand@.subrange(0, i + 1).last() == hand@[i as int]);
            }
            match hand[i].colour {
                Colour::Red => {
                    red_count += 1;
                },
                Colour::Green => {
                    green_count += 1;
                },
                Colour::Blue => {
                    blue_count += 1;
                },
                Colour::Yellow => {
                    yellow_count += 1;
                },
                Colour::Wild => {},
            }
            i += 1;
        }
        proof {
            assert(hand@.subrange(0, n as int) =~= hand@);
        }
        if yellow_count >= blue_count && yellow_count >= green_count && yellow_count >= red_count {
            Colour::Yellow
        } else if blue_count >= green_count && blue_count >= red_count {
            Colour::Blue
        } else if green_count >= red_count {
            Colour::Green
        } else {
            Colour::Red
        }
    }

    fn pre_turn_action(&mut self) {
        // The automated strategy needs no preparation.
    }

    fn post_turn_action(&mut self)
        ensures
            final(self).spec_next_card() == 0,
    {
        self.next_card_to_play = 0;
    }
}

} // verus!
