//! The two piles of the game: the draw pile, consumed from the front, and
//! the discard pile, appended at the back, whose back element is the
//! active card.

use vstd::prelude::*;
use std::collections::VecDeque;
use rand::seq::SliceRandom;
use vstd::seq_lib::lemma_multiset_commutative;
use crate::card::{spec_revert_wild, Card, Colour};
use crate::default_deck::{game_deck, standard_deck};

verus! {

/// Errors of pile operations.
#[derive(Debug, PartialEq, Eq, Structural)]
pub enum Error {
    DrawPileIsEmpty,
    DiscardPileIsEmpty,
}

/// A deck: the draw pile and the discard pile of one game.
pub struct Deck {
    draw_pile: VecDeque<Card>,
    discard_pile: VecDeque<Card>,
}

/// The operations a deck offers to the game engine.
pub trait DeckTrait: Sized {
    /// The draw pile, the next card to be drawn first.
    spec fn draw_pile_view(&self) -> Seq<Card>;

    /// The discard pile; its last element is the active card.
    spec fn discard_pile_view(&self) -> Seq<Card>;

    /// Draws the front card of the draw pile; fails when the pile is
    /// empty, leaving the deck unchanged.
    fn draw(&mut self) -> (r: Result<Card, Error>)
        ensures
            old(self).draw_pile_view().len() > 0 ==> {
                &&& r == Ok::<Card, Error>(old(self).draw_pile_view()[0])
                &&& final(self).draw_pile_view() == old(self).draw_pile_view().drop_first()
                &&& final(self).discard_pile_view() == old(self).discard_pile_view()
            },
            old(self).draw_pile_view().len() == 0 ==> {
                &&& r == Err::<Card, Error>(Error::DrawPileIsEmpty)
                &&& final(self).draw_pile_view() == old(self).draw_pile_view()
                &&& final(self).discard_pile_view() == old(self).discard_pile_view()
            },
    ;

    /// Puts a card on top of the discard pile, where it becomes the active
    /// card.  Always succeeds.
    fn discard(&mut self, card: Card)
        ensures
            final(self).discard_pile_view() == old(self).discard_pile_view().push(card),
            final(self).draw_pile_view() == old(self).draw_pile_view(),
    ;

    /// A read-only view of the active card; fails when the discard pile is
    /// empty.
    fn get_top_card<'a>(&'a self) -> (r: Result<&'a Card, Error>)
        ensures
            self.discard_pile_view().len() > 0 ==> (match r {
                Ok(c) => *c == self.discard_pile_view().last(),
                Err(_) => false,
            }),
            self.discard_pile_view().len() == 0 ==> (match r {
                Ok(_) => false,
                Err(e) => e == Error::DiscardPileIsEmpty,
            }),
    ;

    /// Refills the draw pile from the discard pile: the active card is set
    /// aside, the remaining discard cards have wild colours reverted, join
    /// the draw pile and are shuffled, and the active card alone is put
    /// back on the discard pile.  Fails only when the discard pile was
    /// empty, leaving the deck unchanged.
    fn refill_draw_pile(&mut self) -> (r: Result<(), Error>)
        ensures
            old(self).discard_pile_view().len() > 0 ==> {
                &&& r == Ok::<(), Error>(())
                &&& final(self).discard_pile_view() == seq![
                    old(self).discard_pile_view().last(),
                ]
                &&& final(self).draw_pile_view().to_multiset()
                    == old(self).draw_pile_view().to_multiset().add(
                    old(self).discard_pile_view().drop_last().map_values(
                        |c: Card| spec_revert_wild(c),
                    ).to_multiset(),
                )
                &&& final(self).draw_pile_view().len() == old(self).draw_pile_view().len() + old(
                    self,
                ).discard_pile_view().len() - 1
            },
            old(self).discard_pile_view().len() == 0 ==> {
                &&& r == Err::<(), Error>(Error::DiscardPileIsEmpty)
                &&& final(self).draw_pile_view() == old(self).draw_pile_view()
                &&& final(self).discard_pile_view() == old(self).discard_pile_view()
            },
    ;

    /// The number of cards left in the draw pile.
    fn number_of_cards_in_draw_pile(&self) -> (n: usize)
        ensures
            n == self.draw_pile_view().len(),
    ;

    /// Gives the active card the chosen colour; used once a wild card's
    /// colour has been picked.  Does nothing when the discard pile is
    /// empty.
    fn change_colour_of_top_card_in_discard(&mut self, colour: &Colour)
        ensures
            final(self).draw_pile_view() == old(self).draw_pile_view(),
            old(self).discard_pile_view().len() == 0 ==> final(self).discard_pile_view() == old(
                self,
            ).discard_pile_view(),
            old(self).discard_pile_view().len() > 0 ==> final(self).discard_pile_view() == old(
                self,
            ).discard_pile_view().update(
                old(self).discard_pile_view().len() - 1,
                Card {
                    colour: *colour,
                    value: old(self).discard_pile_view().last().value,
                },
            ),
    ;

    /// Creates a deck from the given card set (or the standard 108-card
    /// set), shuffles it, and flips one card to the discard pile as the
    /// initial active card.  A supplied set must not be empty: no active
    /// card could be established from it.
    fn new(deck: Option<Vec<Card>>) -> (d: Self)
        requires
            deck matches Some(cards) ==> cards@.len() > 0,
        ensures
            ({
                let set = match deck {
                    Some(cards) => cards@,
                    None => standard_deck(),
                };
                &&& d.discard_pile_view().len() == 1
                &&& d.draw_pile_view().len() + 1 == set.len()
                &&& d.draw_pile_view().to_multiset().add(d.discard_pile_view().to_multiset())
                    == set.to_multiset()
            }),
    ;
}

/// Relies on rand's `SliceRandom::shuffle`: a Fisher-Yates shuffle that
/// permutes the slice in place by swaps, so the cards are rearranged but
/// none appears or disappears.
#[verifier::external_body]
fn shuffle_cards(cards: &mut Vec<Card>)
    ensures
        final(cards)@.to_multiset() == old(cards)@.to_multiset(),
        final(cards)@.len() == old(cards)@.len(),
{
    cards.shuffle(&mut rand::thread_rng());
}

/// Moves the cards of a vector into a queue, keeping their order.
fn vec_to_deque(v: &Vec<Card>) -> (q: VecDeque<Card>)
    ensures
        q@ == v@,
{
    let mut q: VecDeque<Card> = VecDeque::new();
    let mut i: usize = 0;
    while i < v.len()
        invariant
            i <= v@.len(),
            q@ == v@.subrange(0, i as int),
        decreases v@.len() - i,
    {
        q.push_back(v[i]);
        i += 1;
        proof {
            assert(q@ =~= v@.subrange(0, i as int));
        }
    }
    proof {
        assert(q@ =~= v@);
    }
    q
}

impl DeckTrait for Deck {
    closed spec fn draw_pile_view(&self) -> Seq<Card> {
        self.draw_pile@
    }

    closed spec fn discard_pile_view(&self) -> Seq<Card> {
        self.discard_pile@
    }

    fn draw(&mut self) -> (r: Result<Card, Error>) {
        if let Some(c) = self.draw_pile.pop_front() {
            return Ok(c);
        }
        Err(Error::DrawPileIsEmpty)
    }

    fn discard(&mut self, card: Card) {
        self.discard_pile.push_back(card);
    }

    fn get_top_card<'a>(&'a self) -> (r: Result<&'a Card, Error>) {
        if self.discard_pile.len() > 0 {
            return Ok(&self.discard_pile[self.discard_pile.len() - 1]);
        }
        Err(Error::DiscardPileIsEmpty)
    }

    fn refill_draw_pile(&mut self) -> (r: Result<(), Error>) {
        let ghost draw0 = self.draw_pile@;
        let ghost discard0 = self.discard_pile@;
        if let Some(card) = self.discard_pile.pop_back() {
            self.revert_wild_cards_in_discard_pile();
            let ghost mapped = self.discard_pile@;
            self.draw_pile.append(&mut self.discard_pile);
            self.discard_pile.clear();
            self.shuffle();
            self.discard(card);
            proof {
                assert(discard0.subrange(0, discard0.len() - 1) =~= discard0.drop_last());
                lemma_multiset_commutative(draw0, mapped);
                assert(self.discard_pile@ =~= seq![discard0.last()]);
            }
            return Ok(());
        }
        Err(Error::DiscardPileIsEmpty)
    }

    fn number_of_cards_in_draw_pile(&self) -> (n: usize) {
        self.draw_pile.len()
    }

    fn change_colour_of_top_card_in_discard(&mut self, colour: &Colour) {
        if let Some(c) = self.discard_pile.pop_back() {
            self.discard_pile.push_back(Card { colour: *colour, value: c.value });
            proof {
                assert(self.discard_pile@ =~= old(self).discard_pile@.update(
                    old(self).discard_pile@.len() - 1,
                    Card { colour: *colour, value: old(self).discard_pile@.last().value },
                ));
            }
        }
    }

    fn new(deck: Option<Vec<Card>>) -> (d: Self) {
        let ghost given = deck;
        let card_set: Vec<Card> = match deck {
            Some(cards) => cards,
            None => game_deck(),
        };
        let mut d = Deck { draw_pile: vec_to_deque(&card_set), discard_pile: VecDeque::new() };
        d.shuffle();
        let ghost shuffled = d.draw_pile@;
        let flipped = d.discard_from_draw_pile();
        proof {
            assert(flipped is Ok);
            assert(shuffled =~= seq![shuffled[0]] + shuffled.drop_first());
            lemma_multiset_commutative(seq![shuffled[0]], shuffled.drop_first());
            lemma_multiset_commutative(shuffled.drop_first(), seq![shuffled[0]]);
            assert(d.discard_pile@.to_multiset() =~= seq![shuffled[0]].to_multiset());
        }
        d
    }
}

impl Deck {
    /// Shuffles the draw pile into a uniformly random order; the discard
    /// pile is untouched.
    pub fn shuffle(&mut self)
        ensures
            final(self).draw_pile_view().to_multiset() == old(self).draw_pile_view().to_multiset(),
            final(self).draw_pile_view().len() == old(self).draw_pile_view().len(),
            final(self).discard_pile_view() == old(self).discard_pile_view(),
    {
        let mut card_vec: Vec<Card> = Vec::new();
        while self.draw_pile.len() > 0
            invariant
                card_vec@ + self.draw_pile@ == old(self).draw_pile@,
                self.discard_pile@ == old(self).discard_pile@,
            decreases self.draw_pile@.len(),
        {
            let c = self.draw_pile.pop_front().unwrap();
            card_vec.push(c);
            proof {
                assert(card_vec@ + self.draw_pile@ =~= old(self).draw_pile@);
            }
        }
        proof {
            assert(card_vec@ =~= old(self).draw_pile@);
        }
        shuffle_cards(&mut card_vec);
        self.draw_pile = vec_to_deque(&card_vec);
    }

    /// Takes every wild card left in the discard pile back to the neutral
    /// `Wild` colour; such cards only carry a chosen colour while they are
    /// the active card.
    pub fn revert_wild_cards_in_discard_pile(&mut self)
        ensures
            final(self).discard_pile_view() == old(self).discard_pile_view().map_values(
                |c: Card| spec_revert_wild(c),
            ),
            final(self).draw_pile_view() == old(self).draw_pile_view(),
    {
        let n = self.discard_pile.len();
        let mut out: VecDeque<Card> = VecDeque::new();
        let mut i: usize = 0;
        while i < n
            invariant
                n == self.discard_pile@.len(),
                self.discard_pile@ == old(self).discard_pile@,
                self.draw_pile@ == old(self).draw_pile@,
                i <= n,
                out@ == old(self).discard_pile@.subrange(0, i as int).map_values(
                    |c: Card| spec_revert_wild(c),
                ),
            decreases n - i,
        {
            let c = *(&self.discard_pile[i]);
            out.push_back(c.revert_wild());
            i += 1;
            proof {
                assert(out@ =~= old(self).discard_pile@.subrange(0, i as int).map_values(
                    |c: Card| spec_revert_wild(c),
                ));
            }
        }
        self.discard_pile = out;
        proof {
            assert(old(self).discard_pile@.subrange(0, n as int) =~= old(self).discard_pile@);
            assert(self.discard_pile@ =~= old(self).discard_pile@.map_values(
                |c: Card| spec_revert_wild(c),
            ));
        }
    }

    /// Flips the front card of the draw pile onto the discard pile; fails
    /// when the draw pile is empty, leaving the deck unchanged.
    pub fn discard_from_draw_pile(&mut self) -> (r: Result<(), Error>)
        ensures
            old(self).draw_pile_view().len() > 0 ==> {
                &&& r == Ok::<(), Error>(())
                &&& final(self).draw_pile_view() == old(self).draw_pile_view().drop_first()
                &&& final(self).discard_pile_view() == old(self).discard_pile_view().push(
                    old(self).draw_pile_view()[0],
                )
            },
            old(self).draw_pile_view().len() == 0 ==> {
                &&& r == Err::<(), Error>(Error::DrawPileIsEmpty)
                &&& final(self).draw_pile_view() == old(self).draw_pile_view()
                &&& final(self).discard_pile_view() == old(self).discard_pile_view()
            },
    {
        if let Some(card) = self.draw_pile.pop_front() {
            self.discard(card);
            Ok(())
        } else {
            Err(Error::DrawPileIsEmpty)
        }
    }

    /// The number of cards on the discard pile.
    pub fn number_of_cards_in_discard_pile(&self) -> (n: usize)
        ensures
            n == self.discard_pile_view().len(),
    {
        self.discard_pile.len()
    }

    /// Builds a deck with exactly the given piles, in the given order;
    /// meant for setting up known positions.
    pub fn from_piles(draw: Vec<Card>, discard: Vec<Card>) -> (d: Deck)
        ensures
            d.draw_pile_view() == draw@,
            d.discard_pile_view() == discard@,
    {
        Deck { draw_pile: vec_to_deque(&draw), discard_pile: vec_to_deque(&discard) }
    }
}

} // verus!
