//! A player: one seat's hand of cards, in insertion order.

use vstd::prelude::*;
use vstd::string::{StringExecFns, StrSliceExecFns};
use crate::card::{card_text, spec_decimal, Card};

verus! {

/// The text of one hand line: the card's index two digits wide, a colon,
/// a space, and the card's text.
pub open spec fn hand_line(i: int, c: Card) -> Seq<char> {
    (if i < 10 {
        seq!['0'] + spec_decimal(i)
    } else {
        spec_decimal(i)
    }) + ": "@ + card_text(c)
}

/// The text of the first `i` lines of a hand, one card per line, joined
/// with newlines.
pub open spec fn hand_text_upto(hand: Seq<Card>, i: int) -> Seq<char>
    decreases i,
{
    if i <= 0 {
        Seq::empty()
    } else if i == 1 {
        hand_line(0, hand[0])
    } else {
        hand_text_upto(hand, i - 1) + "\n"@ + hand_line(i - 1, hand[i - 1])
    }
}

/// The text of a whole hand, as shown to its owner.
pub open spec fn hand_text(hand: Seq<Card>) -> Seq<char> {
    hand_text_upto(hand, hand.len() as int)
}

/// Errors of hand operations.
#[derive(Debug, PartialEq, Eq, Structural)]
pub enum Error {
    /// An attempt was made to reference a card at an index the hand does
    /// not have.
    IndexOutOfBounds,
}

/// A player's hand of cards.  The order is insertion order: a drawn card
/// goes to the back, and a play names a card by its index.
pub struct Player {
    hand: Vec<Card>,
}

impl View for Player {
    type V = Seq<Card>;

    closed spec fn view(&self) -> Seq<Card> {
        self.hand@
    }
}

impl Player {
    /// Adds a card to the back of the hand.
    pub fn take_card(&mut self, card: Card)
        ensures
            final(self)@ == old(self)@.push(card),
    {
        self.hand.push(card);
    }

    /// Removes and returns the card at `index`; the cards behind it move
    /// up one place.  Fails when the index is out of range, leaving the
    /// hand unchanged.
    pub fn play_card(&mut self, index: usize) -> (r: Result<Card, Error>)
        ensures
            index < old(self)@.len() ==> r == Ok::<Card, Error>(old(self)@[index as int])
                && final(self)@ == old(self)@.remove(index as int),
            index >= old(self)@.len() ==> r == Err::<Card, Error>(Error::IndexOutOfBounds)
                && *final(self) == *old(self),
    {
        if index < self.get_number_of_cards() {
            return Ok(self.hand.remove(index));
        }

        Err(Error::IndexOutOfBounds)
    }

    /// A read-only view of the card at `index`, or an error when the index
    /// is out of range.
    pub fn get_card(&self, index: usize) -> (r: Result<&Card, Error>)
        ensures
            index < self@.len() ==> (match r {
                Ok(c) => *c == self@[index as int],
                Err(_) => false,
            }),
            index >= self@.len() ==> r == Err::<&Card, Error>(Error::IndexOutOfBounds),
    {
        if index < self.hand.len() {
            return Ok(&self.hand[index]);
        }

        Err(Error::IndexOutOfBounds)
    }

    /// Whether the hand holds no cards: the win condition of the game.
    pub fn is_hand_empty(&self) -> (r: bool)
        ensures
            r == (self@.len() == 0),
    {
        self.hand.len() == 0
    }

    /// The number of cards in the hand.
    pub fn get_number_of_cards(&self) -> (n: usize)
        ensures
            n == self@.len(),
    {
        self.hand.len()
    }

    /// A read-only view of the whole hand.
    pub fn get_hand(&self) -> (h: &Vec<Card>)
        ensures
            h@ == self@,
    {
        &self.hand
    }

    /// The hand as text: each card on its own line behind its index, the
    /// index the owner uses to play it.
    pub fn hand_to_string(&self) -> (r: String)
        ensures
            r@ == hand_text(self@),
    {
        let mut s = String::new();
        let n = self.hand.len();
        let mut i: usize = 0;
        while i < n
            invariant
                n == self@.len(),
                i <= n,
                self@ == self.hand@,
                s@ == hand_text_upto(self@, i as int),
            decreases n - i,
        {
            proof {
                reveal_strlit("\n");
                reveal_strlit("0");
                reveal_strlit(": ");
            }
            if i > 0 {
                s.append("\n");
            }
            if i < 10 {
                s.append("0");
            }
            crate::card::append_decimal(&mut s, i);
            s.append(": ");
            let t = self.hand[i].to_text();
            s.append(t.as_str());
            i += 1;
            proof {
                assert(s@ =~= hand_text_upto(self@, i as int));
            }
        }
        s
    }

    /// Creates a player with an empty hand.
    pub fn new() -> (p: Player)
        ensures
            p@ == Seq::<Card>::empty(),
    {
        Player { hand: Vec::new() }
    }
}

} // verus!
