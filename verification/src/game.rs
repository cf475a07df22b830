//! The game engine: the per-seat hands, the deck, the turn cursor and its
//! direction, and the validation and execution of actions.

use vstd::prelude::*;
use crate::actor::{Actor, UserAction};
use crate::ai::AiActor;
use crate::card::{cards_match, Card, Colour, Value};
use crate::deck;
use crate::deck::{Deck, DeckTrait};
use crate::flow::{GameFlow, GameState};
use crate::player::Player;
use crate::ui::HumanActor;

verus! {

/// The result type of engine operations.
type GameResult<T> = Result<T, Error>;

/// Errors of engine operations.
#[derive(Debug, Clone, Copy, PartialEq, Eq, Structural)]
pub enum Error {
    DrawPileIsEmpty,
    InvalidPlay,
    Unknown,
}

/// A validated engine action, or the follow-up an executed action asks
/// for (`ChooseColour` after a wild card).
#[derive(Debug, Clone, Copy, PartialEq, Eq, Structural)]
pub enum GameAction {
    NoAction,
    PlayerDraw,
    PlayerPlaysCard(usize),
    ChooseColour,
}

/// One seat of the game: the capability variant deciding for it, holding
/// its hand.
pub enum GameActor {
    Human(HumanActor),
    Automated(AiActor),
}

impl GameActor {
    /// The player (the hand) of this seat.
    pub open spec fn spec_player(&self) -> Player {
        match self {
            GameActor::Human(h) => h.spec_player(),
            GameActor::Automated(a) => a.spec_player(),
        }
    }

    /// The stable seat id.
    pub open spec fn spec_id(&self) -> usize {
        match self {
            GameActor::Human(h) => h.spec_id(),
            GameActor::Automated(a) => a.spec_id(),
        }
    }

    /// Whether the seat is driven by the automated strategy rather than a
    /// human.
    pub open spec fn is_automated(&self) -> bool {
        self matches GameActor::Automated(_)
    }

    /// The seat id.
    pub fn get_id(&self) -> (r: usize)
        ensures
            r == self.spec_id(),
    {
        match self {
            GameActor::Human(h) => h.get_id(),
            GameActor::Automated(a) => a.get_id(),
        }
    }

    /// The player of this seat.
    pub fn get_player(&self) -> (p: &Player)
        ensures
            *p == self.spec_player(),
    {
        match self {
            GameActor::Human(h) => h.get_player(),
            GameActor::Automated(a) => a.get_player(),
        }
    }

    /// Mutable access to the player of this seat.
    pub fn get_player_mut(&mut self) -> (p: &mut Player)
        ensures
            *p == old(self).spec_player(),
            final(self).spec_player() == *final(p),
            final(self).spec_id() == old(self).spec_id(),
            final(self).is_automated() == old(self).is_automated(),
    {
        match self {
            GameActor::Human(h) => h.get_player_mut(),
            GameActor::Automated(a) => a.get_player_mut(),
        }
    }
}

/// The total length of all hands.
pub open spec fn sum_hand_lens(hands: Seq<Seq<Card>>) -> int
    decreases hands.len(),
{
    if hands.len() == 0 {
        0
    } else {
        sum_hand_lens(hands.drop_last()) + hands.last().len()
    }
}

/// Replacing one hand changes the total hand length by the difference of
/// the two hands' lengths.
pub proof fn lemma_sum_hand_lens_update(hands: Seq<Seq<Card>>, i: int, h: Seq<Card>)
    requires
        0 <= i < hands.len(),
    ensures
        sum_hand_lens(hands.update(i, h)) == sum_hand_lens(hands) - hands[i].len() + h.len(),
    decreases hands.len(),
{
    if i == hands.len() - 1 {
        assert(hands.update(i, h).drop_last() =~= hands.drop_last());
    } else {
        assert(hands.update(i, h).drop_last() =~= hands.drop_last().update(i, h));
        lemma_sum_hand_lens_update(hands.drop_last(), i, h);
    }
}

/// A collection of empty hands has total hand length zero.
pub proof fn lemma_sum_hand_lens_empty(hands: Seq<Seq<Card>>)
    requires
        forall|j: int| 0 <= j < hands.len() ==> hands[j].len() == 0,
    ensures
        sum_hand_lens(hands) == 0,
    decreases hands.len(),
{
    if hands.len() > 0 {
        lemma_sum_hand_lens_empty(hands.drop_last());
    }
}

/// The seat that takes the turn after seat `i` among `n` seats: the next
/// one clockwise, the previous one counter-clockwise, wrapping at the
/// ends.
pub open spec fn spec_next_seat(i: int, n: int, clockwise: bool) -> int {
    if clockwise {
        (i + 1) % n
    } else if i == 0 {
        n - 1
    } else {
        i - 1
    }
}

/// Whether `card` may be played on the pile `discard`: legal when the
/// pile is empty (no constraint exists) or the card matches the active
/// card.
pub open spec fn spec_legal_play(card: Card, discard: Seq<Card>) -> bool {
    discard.len() == 0 || cards_match(card, discard.last())
}

/// Checks the configuration a game is asked to start with: 1 to 10
/// players, and 1 to 10 cards dealt to each.
pub fn check_game_attributes(num_of_players: usize, num_of_cards: usize) -> (r: Result<(), String>)
    ensures
        r is Ok <==> (1 <= num_of_players <= 10 && 1 <= num_of_cards <= 10),
        num_of_cards > 10 ==> (r matches Err(m) && m@ == "The maximum number of cards is 10"@),
        num_of_cards <= 10 && num_of_players > 10 ==> (r matches Err(m) && m@
            == "The maximum number of players is 10"@),
        num_of_players <= 10 && num_of_cards < 1 ==> (r matches Err(m) && m@
            == "The minimum number of cards is 1"@),
        1 <= num_of_cards <= 10 && num_of_players < 1 ==> (r matches Err(m) && m@
            == "The minimum number of players is 1"@),
{
    if num_of_cards > 10 {
        return Err("The maximum number of cards is 10".to_owned());
    }

    if num_of_players > 10 {
        return Err("The maximum number of players is 10".to_owned());
    }

    if num_of_cards < 1 {
        return Err("The minimum number of cards is 1".to_owned());
    }

    if num_of_players < 1 {
        return Err("The minimum number of players is 1".to_owned());
    }

    Ok(())
}

/// The engine's state: the seats with their hands, the deck, the turn
/// cursor and direction, and the configured deal size.
pub struct Game {
    state: GameState,
    actors: Vec<GameActor>,
    deck: Deck,
    actor_index: usize,
    is_flow_clockwise: bool,
    num_of_cards: usize,
}

impl Game {
    /// The phase the game is in.
    pub closed spec fn spec_state(&self) -> GameState {
        self.state
    }

    /// The seats, in seat-id order.
    pub closed spec fn spec_actors(&self) -> Seq<GameActor> {
        self.actors@
    }

    /// The hands, one per seat.
    pub open spec fn spec_hands(&self) -> Seq<Seq<Card>> {
        self.spec_actors().map_values(|a: GameActor| a.spec_player()@)
    }

    /// The draw pile of the deck.
    pub closed spec fn spec_draw_pile(&self) -> Seq<Card> {
        self.deck.draw_pile_view()
    }

    /// The discard pile of the deck; its last element is the active card.
    pub closed spec fn spec_discard_pile(&self) -> Seq<Card> {
        self.deck.discard_pile_view()
    }

    /// The seat whose turn it is.
    pub closed spec fn spec_actor_index(&self) -> usize {
        self.actor_index
    }

    /// Whether the turn order currently runs clockwise.
    pub closed spec fn spec_clockwise(&self) -> bool {
        self.is_flow_clockwise
    }

    /// The configured number of cards dealt to each seat.
    pub closed spec fn spec_num_of_cards(&self) -> usize {
        self.num_of_cards
    }

    /// Well-formedness: there is at least one seat, the cursor points at a
    /// seat, and seat ids equal seat positions.
    pub open spec fn wf(&self) -> bool {
        &&& self.spec_actors().len() > 0
        &&& self.spec_actor_index() < self.spec_actors().len()
        &&& forall|j: int|
            0 <= j < self.spec_actors().len() ==> (#[trigger] self.spec_actors()[j]).spec_id() == j
    }

    /// The number of cards in play: both piles and every hand together.
    /// Once a game is constructed this quantity never changes.
    pub open spec fn card_total(&self) -> int {
        self.spec_draw_pile().len() + self.spec_discard_pile().len() + sum_hand_lens(
            self.spec_hands(),
        )
    }

    /// How many cards can still be drawn before both piles are exhausted:
    /// the whole draw pile, and the discard pile except its active card.
    pub open spec fn available_cards(&self) -> int {
        self.spec_draw_pile().len() + if self.spec_discard_pile().len() > 0 {
            self.spec_discard_pile().len() - 1
        } else {
            0
        }
    }

    /// A read-only view of the seat at `index`.
    pub fn get_actor(&self, index: usize) -> (a: &GameActor)
        requires
            index < self.spec_actors().len(),
        ensures
            *a == self.spec_actors()[index as int],
    {
        &self.actors[index]
    }

    /// A read-only view of the seat whose turn it is.
    pub fn get_current_actor(&self) -> (a: &GameActor)
        requires
            self.wf(),
        ensures
            *a == self.spec_actors()[self.spec_actor_index() as int],
    {
        self.get_actor(self.actor_index)
    }

    /// Mutable access to the seat at `index`; everything else in the game
    /// is left alone.
    pub fn get_actor_mut(&mut self, index: usize) -> (a: &mut GameActor)
        requires
            index < old(self).spec_actors().len(),
        ensures
            *a == old(self).spec_actors()[index as int],
            final(self).spec_actors() == old(self).spec_actors().update(index as int, *final(a)),
            final(self).spec_state() == old(self).spec_state(),
            final(self).spec_draw_pile() == old(self).spec_draw_pile(),
            final(self).spec_discard_pile() == old(self).spec_discard_pile(),
            final(self).spec_actor_index() == old(self).spec_actor_index(),
            final(self).spec_clockwise() == old(self).spec_clockwise(),
            final(self).spec_num_of_cards() == old(self).spec_num_of_cards(),
    {
        &mut self.actors[index]
    }

    /// Mutable access to the seat whose turn it is.
    pub fn get_current_actor_mut(&mut self) -> (a: &mut GameActor)
        requires
            old(self).wf(),
        ensures
            *a == old(self).spec_actors()[old(self).spec_actor_index() as int],
            final(self).spec_actors() == old(self).spec_actors().update(
                old(self).spec_actor_index() as int,
                *final(a),
            ),
            final(self).spec_state() == old(self).spec_state(),
            final(self).spec_draw_pile() == old(self).spec_draw_pile(),
            final(self).spec_discard_pile() == old(self).spec_discard_pile(),
            final(self).spec_actor_index() == old(self).spec_actor_index(),
            final(self).spec_clockwise() == old(self).spec_clockwise(),
            final(self).spec_num_of_cards() == old(self).spec_num_of_cards(),
    {
        self.get_actor_mut(self.actor_index)
    }

    /// The seat that takes the turn after `current_actor_index` under the
    /// current direction.
    fn get_next_player(&self, current_actor_index: usize) -> (n: usize)
        requires
            self.spec_actors().len() > 0,
            current_actor_index < self.spec_actors().len(),
        ensures
            n == spec_next_seat(
                current_actor_index as int,
                self.spec_actors().len() as int,
                self.spec_clockwise(),
            ),
            n < self.spec_actors().len(),
    {
        let n = self.actors.len();
        if !self.is_flow_clockwise && current_actor_index == 0 {
            n - 1
        } else if self.is_flow_clockwise {
            (current_actor_index + 1) % n
        } else {
            current_actor_index - 1
        }
    }

    /// Flips the direction of play.
    fn revese_direction(&mut self)
        ensures
            final(self).spec_clockwise() == !old(self).spec_clockwise(),
            final(self).spec_actors() == old(self).spec_actors(),
            final(self).spec_state() == old(self).spec_state(),
            final(self).spec_draw_pile() == old(self).spec_draw_pile(),
            final(self).spec_discard_pile() == old(self).spec_discard_pile(),
            final(self).spec_actor_index() == old(self).spec_actor_index(),
            final(self).spec_num_of_cards() == old(self).spec_num_of_cards(),
    {
        self.is_flow_clockwise = !self.is_flow_clockwise;
    }

    /// Moves the turn cursor to the next seat under the current direction.
    pub fn set_next_actor(&mut self)
        requires
            old(self).wf(),
        ensures
            final(self).wf(),
            final(self).spec_actor_index() == spec_next_seat(
                old(self).spec_actor_index() as int,
                old(self).spec_actors().len() as int,
                old(self).spec_clockwise(),
            ),
            final(self).spec_actors() == old(self).spec_actors(),
            final(self).spec_state() == old(self).spec_state(),
            final(self).spec_draw_pile() == old(self).spec_draw_pile(),
            final(self).spec_discard_pile() == old(self).spec_discard_pile(),
            final(self).spec_clockwise() == old(self).spec_clockwise(),
            final(self).spec_num_of_cards() == old(self).spec_num_of_cards(),
    {
        self.actor_index = self.get_next_player(self.actor_index);
    }

    /// Whether the seat has won: its hand is empty.
    pub fn has_player_won(&self, actor_index: usize) -> (r: bool)
        requires
            actor_index < self.spec_actors().len(),
        ensures
            r == (self.spec_hands()[actor_index as int].len() == 0),
    {
        self.get_actor(actor_index).get_player().is_hand_empty()
    }

    /// Whether `card` may legally be played on the current discard pile.
    fn is_valid_play(&self, card: &Card) -> (r: bool)
        ensures
            r == spec_legal_play(*card, self.spec_discard_pile()),
    {
        match self.deck.get_top_card() {
            Ok(card_on_top) => card.matches_for_play(card_on_top),
            Err(_) => {
                // There is no active card, so no constraint: any card may
                // be played.
                true
            },
        }
    }

    /// Validates a raw action of `player`: a draw always validates; a play
    /// validates only when the index names a card of the hand and that
    /// card is legal on the active card.  Anything else is an invalid
    /// play.
    pub fn get_player_action(&self, player: &Player, action: UserAction) -> (r: GameResult<
        GameAction,
    >)
        ensures
            action is Draw ==> r == Ok::<GameAction, Error>(GameAction::PlayerDraw),
            action matches UserAction::Play(i) ==> {
                if i < player@.len() && spec_legal_play(player@[i as int], self.spec_discard_pile()) {
                    r == Ok::<GameAction, Error>(GameAction::PlayerPlaysCard(i))
                } else {
                    r == Err::<GameAction, Error>(Error::InvalidPlay)
                }
            },
    {
        match action {
            UserAction::Draw => Ok(GameAction::PlayerDraw),
            UserAction::Play(i) => {
                if let Ok(card) = player.get_card(i) {
                    if self.is_valid_play(card) {
                        Ok(GameAction::PlayerPlaysCard(i))
                    } else {
                        Err(Error::InvalidPlay)
                    }
                } else {
                    Err(Error::InvalidPlay)
                }
            },
        }
    }

    /// Draws one card from the draw pile into the hand of the seat at
    /// `actor_index`; fails when the draw pile is empty, changing nothing.
    fn player_draws(&mut self, actor_index: usize) -> (r: GameResult<GameAction>)
        requires
            old(self).wf(),
            actor_index < old(self).spec_actors().len(),
        ensures
            final(self).wf(),
            final(self).spec_state() == old(self).spec_state(),
            final(self).spec_actor_index() == old(self).spec_actor_index(),
            final(self).spec_clockwise() == old(self).spec_clockwise(),
            final(self).spec_num_of_cards() == old(self).spec_num_of_cards(),
            final(self).spec_discard_pile() == old(self).spec_discard_pile(),
            final(self).card_total() == old(self).card_total(),
            old(self).spec_draw_pile().len() > 0 ==> {
                &&& r == Ok::<GameAction, Error>(GameAction::PlayerDraw)
                &&& final(self).spec_draw_pile() == old(self).spec_draw_pile().drop_first()
                &&& final(self).spec_hands() == old(self).spec_hands().update(
                    actor_index as int,
                    old(self).spec_hands()[actor_index as int].push(old(self).spec_draw_pile()[0]),
                )
            },
            old(self).spec_draw_pile().len() == 0 ==> {
                &&& r == Err::<GameAction, Error>(Error::DrawPileIsEmpty)
                &&& final(self).spec_draw_pile() == old(self).spec_draw_pile()
                &&& final(self).spec_hands() == old(self).spec_hands()
            },
    {
        match self.deck.draw() {
            Ok(card) => {
                self.get_actor_mut(actor_index).get_player_mut().take_card(card);
                proof {
                    assert(self.spec_hands() =~= old(self).spec_hands().update(
                        actor_index as int,
                        old(self).spec_hands()[actor_index as int].push(
                            old(self).spec_draw_pile()[0],
                        ),
                    ));
                    lemma_sum_hand_lens_update(
                        old(self).spec_hands(),
                        actor_index as int,
                        old(self).spec_hands()[actor_index as int].push(
                            old(self).spec_draw_pile()[0],
                        ),
                    );
                }
                Ok(GameAction::PlayerDraw)
            },
            Err(deck::Error::DrawPileIsEmpty) => {
                proof {
                    assert(self.spec_hands() =~= old(self).spec_hands());
                }
                Err(Error::DrawPileIsEmpty)
            },
            Err(_) => Err(Error::Unknown),
        }
    }

    /// Gives the active card the chosen colour; used once a wild card's
    /// colour has been picked.
    pub fn change_wild_color(&mut self, colour: &Colour)
        ensures
            final(self).spec_actors() == old(self).spec_actors(),
            final(self).spec_state() == old(self).spec_state(),
            final(self).spec_draw_pile() == old(self).spec_draw_pile(),
            final(self).spec_actor_index() == old(self).spec_actor_index(),
            final(self).spec_clockwise() == old(self).spec_clockwise(),
            final(self).spec_num_of_cards() == old(self).spec_num_of_cards(),
            old(self).spec_discard_pile().len() == 0 ==> final(self).spec_discard_pile() == old(self).spec_discard_pile(),
            old(self).spec_discard_pile().len() > 0 ==> final(self).spec_discard_pile() == old(self).spec_discard_pile().update(
                old(self).spec_discard_pile().len() - 1,
                Card {
                    colour: *colour,
                    value: old(self).spec_discard_pile().last().value,
                },
            ),
    {
        self.deck.change_colour_of_top_card_in_discard(colour);
    }

    /// Creates a game: a human seat 0, automated seats for the rest, the
    /// standard deck shuffled with one card flipped, the cursor on seat 0
    /// running clockwise, and no cards dealt yet.  The configuration is
    /// the pre-flight check's business ([`check_game_attributes`]); this
    /// constructor is total.
    pub fn new(num_of_players: usize, num_of_cards: usize) -> (g: Game)
        ensures
            g.wf(),
            g.spec_state() == GameState::Init,
            g.spec_actor_index() == 0,
            g.spec_clockwise() == true,
            g.spec_num_of_cards() == num_of_cards,
            num_of_players >= 1 ==> g.spec_actors().len() == num_of_players,
            forall|j: int| 0 <= j < g.spec_actors().len() ==> g.spec_hands()[j].len() == 0,
            g.spec_actors()[0] is Human,
            forall|j: int|
                1 <= j < g.spec_actors().len() ==> (#[trigger] g.spec_actors()[j]).is_automated(),
            g.spec_discard_pile().len() == 1,
            g.spec_draw_pile().len() == 107,
            g.spec_draw_pile().to_multiset().add(g.spec_discard_pile().to_multiset())
                == crate::default_deck::standard_deck().to_multiset(),
            g.card_total() == 108,
            g.available_cards() == 107,
    {
        let g = Game::new_with_deck(num_of_players, num_of_cards, Deck::new(None));
        proof {
            assert(crate::default_deck::standard_deck().len() == 108);
        }
        g
    }

    /// Creates a game as [`Game::new`] does, but over the given deck
    /// instead of a freshly shuffled standard one: the caller fixes the
    /// exact order cards will come in, for reproducible play.
    pub fn new_with_deck(num_of_players: usize, num_of_cards: usize, deck: Deck) -> (g: Game)
        ensures
            g.wf(),
            g.spec_state() == GameState::Init,
            g.spec_actor_index() == 0,
            g.spec_clockwise() == true,
            g.spec_num_of_cards() == num_of_cards,
            num_of_players >= 1 ==> g.spec_actors().len() == num_of_players,
            forall|j: int| 0 <= j < g.spec_actors().len() ==> g.spec_hands()[j].len() == 0,
            g.spec_actors()[0] is Human,
            forall|j: int|
                1 <= j < g.spec_actors().len() ==> (#[trigger] g.spec_actors()[j]).is_automated(),
            g.spec_draw_pile() == deck.draw_pile_view(),
            g.spec_discard_pile() == deck.discard_pile_view(),
            g.card_total() == deck.draw_pile_view().len() + deck.discard_pile_view().len(),
    {
        let mut actors: Vec<GameActor> = Vec::new();
        actors.push(GameActor::Human(HumanActor::new(0)));
        let mut i: usize = 1;
        while i < num_of_players
            invariant
                1 <= i,
                actors@.len() == i,
                num_of_players > 0 ==> i <= num_of_players,
                num_of_players == 0 ==> i == 1,
                forall|j: int| 0 <= j < i ==> (#[trigger] actors@[j]).spec_id() == j,
                forall|j: int| 0 <= j < i ==> (#[trigger] actors@[j]).spec_player()@.len() == 0,
                actors@[0] is Human,
                forall|j: int| 1 <= j < i ==> (#[trigger] actors@[j]).is_automated(),
            decreases num_of_players - i,
        {
            actors.push(GameActor::Automated(AiActor::new(i)));
            i += 1;
        }
        let g = Game {
            state: GameState::Init,
            actors,
            deck,
            actor_index: 0,
            is_flow_clockwise: true,
            num_of_cards,
        };
        proof {
            assert(forall|j: int|
                0 <= j < g.spec_actors().len() ==> #[trigger] g.spec_hands()[j].len() == 0);
            lemma_sum_hand_lens_empty(g.spec_hands());
        }
        g
    }

    /// A read-only view of the deck.
    pub fn get_deck(&self) -> (d: &Deck)
        ensures
            d.draw_pile_view() == self.spec_draw_pile(),
            d.discard_pile_view() == self.spec_discard_pile(),
    {
        &self.deck
    }

    /// Draws one card for the seat at `actor_index`, transparently
    /// refilling the draw pile from the discard pile when it is empty and
    /// trying once more; fails only when no card can be obtained at all.
    fn player_draws_with_pile_check(&mut self, actor_index: usize) -> (r: GameResult<GameAction>)
        requires
            old(self).wf(),
            actor_index < old(self).spec_actors().len(),
        ensures
            final(self).wf(),
            final(self).spec_state() == old(self).spec_state(),
            final(self).spec_actor_index() == old(self).spec_actor_index(),
            final(self).spec_clockwise() == old(self).spec_clockwise(),
            final(self).spec_num_of_cards() == old(self).spec_num_of_cards(),
            final(self).spec_actors().len() == old(self).spec_actors().len(),
            final(self).card_total() == old(self).card_total(),
            r is Ok <==> old(self).available_cards() > 0,
            r is Ok ==> {
                &&& r == Ok::<GameAction, Error>(GameAction::PlayerDraw)
                &&& exists|c: Card|
                    final(self).spec_hands() == old(self).spec_hands().update(
                        actor_index as int,
                        old(self).spec_hands()[actor_index as int].push(c),
                    )
                &&& final(self).available_cards() == old(self).available_cards() - 1
            },
            r is Err ==> {
                &&& r == Err::<GameAction, Error>(Error::DrawPileIsEmpty)
                &&& final(self).spec_hands() == old(self).spec_hands()
                &&& final(self).spec_draw_pile() == old(self).spec_draw_pile()
                &&& final(self).spec_discard_pile() == old(self).spec_discard_pile()
            },
            old(self).spec_draw_pile().len() > 0 ==> {
                &&& final(self).spec_hands() == old(self).spec_hands().update(
                    actor_index as int,
                    old(self).spec_hands()[actor_index as int].push(old(self).spec_draw_pile()[0]),
                )
                &&& final(self).spec_draw_pile() == old(self).spec_draw_pile().drop_first()
                &&& final(self).spec_discard_pile() == old(self).spec_discard_pile()
            },
            old(self).spec_draw_pile().len() == 0 && old(self).spec_discard_pile().len() >= 2 ==> {
                &&& final(self).spec_discard_pile() == seq![old(self).spec_discard_pile().last()]
                &&& final(self).spec_draw_pile().len() == old(self).spec_discard_pile().len() - 2
            },
            old(self).spec_discard_pile().len() > 0 ==> final(self).spec_discard_pile().len() > 0
                && final(self).spec_discard_pile().last() == old(self).spec_discard_pile().last(),
            old(self).spec_discard_pile().len() == 0 ==> final(self).spec_discard_pile() == old(self).spec_discard_pile(),
    {
        let ghost hands0 = self.spec_hands();
        match self.player_draws(actor_index) {
            Ok(_) => Ok(GameAction::PlayerDraw),
            Err(Error::DrawPileIsEmpty) => {
                let _ = self.deck.refill_draw_pile();
                proof {
                    if old(self).spec_discard_pile().len() == 1 {
                        assert(self.spec_discard_pile() =~= old(self).spec_discard_pile());
                        assert(self.spec_draw_pile().len() == 0);
                        assert(self.spec_draw_pile() =~= old(self).spec_draw_pile());
                    }
                }
                self.player_draws(actor_index)
            },
            Err(_) => Err(Error::Unknown),
        }
    }

    /// Draws `num_of_cards` cards for the seat at `actor_index`, refilling
    /// as needed; stops early with an error when both piles run out,
    /// keeping the cards already obtained.
    fn player_draws_multiple(&mut self, actor_index: usize, num_of_cards: usize) -> (r: GameResult<
        (),
    >)
        requires
            old(self).wf(),
            actor_index < old(self).spec_actors().len(),
        ensures
            final(self).wf(),
            final(self).spec_state() == old(self).spec_state(),
            final(self).spec_actor_index() == old(self).spec_actor_index(),
            final(self).spec_clockwise() == old(self).spec_clockwise(),
            final(self).spec_num_of_cards() == old(self).spec_num_of_cards(),
            final(self).spec_actors().len() == old(self).spec_actors().len(),
            final(self).card_total() == old(self).card_total(),
            r is Ok <==> old(self).available_cards() >= num_of_cards,
            r is Ok ==> {
                &&& final(self).spec_hands()[actor_index as int].len() == old(self).spec_hands()[actor_index as int].len() + num_of_cards
                &&& final(self).available_cards() == old(self).available_cards() - num_of_cards
            },
            r is Err ==> {
                &&& r == Err::<(), Error>(Error::DrawPileIsEmpty)
                &&& final(self).spec_hands()[actor_index as int].len() == old(self).spec_hands()[actor_index as int].len() + old(self).available_cards()
                &&& final(self).available_cards() == 0
            },
            forall|j: int|
                0 <= j < old(self).spec_hands().len() && j != actor_index ==> final(self).spec_hands()[j] == old(self).spec_hands()[j],
            old(self).spec_draw_pile().len() >= num_of_cards ==> {
                &&& final(self).spec_hands() == old(self).spec_hands().update(
                    actor_index as int,
                    old(self).spec_hands()[actor_index as int] + old(self).spec_draw_pile().subrange(
                        0,
                        num_of_cards as int,
                    ),
                )
                &&& final(self).spec_draw_pile() == old(self).spec_draw_pile().skip(
                    num_of_cards as int,
                )
                &&& final(self).spec_discard_pile() == old(self).spec_discard_pile()
            },
            old(self).spec_discard_pile().len() > 0 ==> final(self).spec_discard_pile().len() > 0
                && final(self).spec_discard_pile().last() == old(self).spec_discard_pile().last(),
            old(self).spec_discard_pile().len() == 0 ==> final(self).spec_discard_pile() == old(self).spec_discard_pile(),
    {
        proof {
            assert(old(self).spec_hands()[actor_index as int] + old(self).spec_draw_pile().subrange(
                0,
                0,
            ) =~= old(self).spec_hands()[actor_index as int]);
            assert(old(self).spec_hands().update(
                actor_index as int,
                old(self).spec_hands()[actor_index as int],
            ) =~= old(self).spec_hands());
            assert(old(self).spec_draw_pile().skip(0) =~= old(self).spec_draw_pile());
        }
        let mut k: usize = 0;
        while k < num_of_cards
            invariant
                self.wf(),
                actor_index < self.spec_actors().len(),
                k <= num_of_cards,
                self.spec_actors().len() == old(self).spec_actors().len(),
                self.spec_state() == old(self).spec_state(),
                self.spec_actor_index() == old(self).spec_actor_index(),
                self.spec_clockwise() == old(self).spec_clockwise(),
                self.spec_num_of_cards() == old(self).spec_num_of_cards(),
                self.card_total() == old(self).card_total(),
                self.spec_hands()[actor_index as int].len() == old(self).spec_hands()[actor_index as int].len() + k,
                self.available_cards() == old(self).available_cards() - k,
                old(self).available_cards() >= k,
                forall|j: int|
                    0 <= j < old(self).spec_hands().len() && j != actor_index ==> self.spec_hands()[j] == old(self).spec_hands()[j],
                old(self).spec_draw_pile().len() >= num_of_cards ==> {
                    &&& self.spec_hands() == old(self).spec_hands().update(
                        actor_index as int,
                        old(self).spec_hands()[actor_index as int] + old(
                            self,
                        ).spec_draw_pile().subrange(0, k as int),
                    )
                    &&& self.spec_draw_pile() == old(self).spec_draw_pile().skip(k as int)
                    &&& self.spec_discard_pile() == old(self).spec_discard_pile()
                },
                old(self).spec_discard_pile().len() > 0 ==> self.spec_discard_pile().len() > 0
                    && self.spec_discard_pile().last() == old(self).spec_discard_pile().last(),
                old(self).spec_discard_pile().len() == 0 ==> self.spec_discard_pile() == old(self).spec_discard_pile(),
            decreases num_of_cards - k,
        {
            let ghost prev_hands = self.spec_hands();
            match self.player_draws_with_pile_check(actor_index) {
                Ok(_) => {
                    proof {
                        let c = choose|c: Card|
                            self.spec_hands() == prev_hands.update(
                                actor_index as int,
                                prev_hands[actor_index as int].push(c),
                            );
                        assert(self.spec_hands()[actor_index as int] == prev_hands[actor_index as int].push(c));
                        if old(self).spec_draw_pile().len() >= num_of_cards {
                            let draw0 = old(self).spec_draw_pile();
                            let hand0 = old(self).spec_hands()[actor_index as int];
                            assert(draw0.skip(k as int)[0] == draw0[k as int]);
                            assert(draw0.skip(k as int).drop_first() =~= draw0.skip(k + 1));
                            assert((hand0 + draw0.subrange(0, k as int)).push(draw0[k as int])
                                =~= hand0 + draw0.subrange(0, k + 1));
                            assert(self.spec_hands() =~= old(self).spec_hands().update(
                                actor_index as int,
                                hand0 + draw0.subrange(0, k + 1),
                            ));
                        }
                    }
                    k += 1;
                },
                Err(e) => {
                    return Err(e);
                },
            }
        }
        Ok(())
    }

    /// A played wild card asks its player for a colour.
    fn handle_wild(&mut self) -> (r: GameAction)
        ensures
            r == GameAction::ChooseColour,
            *final(self) == *old(self),
    {
        GameAction::ChooseColour
    }

    /// A played reverse card flips the direction of play.
    fn handle_reverse(&mut self) -> (r: GameAction)
        ensures
            r == GameAction::NoAction,
            final(self).spec_clockwise() == !old(self).spec_clockwise(),
            final(self).spec_actors() == old(self).spec_actors(),
            final(self).spec_state() == old(self).spec_state(),
            final(self).spec_draw_pile() == old(self).spec_draw_pile(),
            final(self).spec_discard_pile() == old(self).spec_discard_pile(),
            final(self).spec_actor_index() == old(self).spec_actor_index(),
            final(self).spec_num_of_cards() == old(self).spec_num_of_cards(),
    {
        self.revese_direction();
        GameAction::NoAction
    }

    /// A played skip card moves the turn cursor past the next seat: the
    /// cursor advances here and once more at the end of the turn.
    fn handle_skip(&mut self) -> (r: GameAction)
        requires
            old(self).wf(),
        ensures
            r == GameAction::NoAction,
            final(self).wf(),
            final(self).spec_actor_index() == spec_next_seat(
                old(self).spec_actor_index() as int,
                old(self).spec_actors().len() as int,
                old(self).spec_clockwise(),
            ),
            final(self).spec_actors() == old(self).spec_actors(),
            final(self).spec_state() == old(self).spec_state(),
            final(self).spec_draw_pile() == old(self).spec_draw_pile(),
            final(self).spec_discard_pile() == old(self).spec_discard_pile(),
            final(self).spec_clockwise() == old(self).spec_clockwise(),
            final(self).spec_num_of_cards() == old(self).spec_num_of_cards(),
    {
        self.set_next_actor();
        GameAction::NoAction
    }

    /// A played draw-two card makes the seat at `affected_actor_index`
    /// draw two cards, best effort: when the piles run out it keeps
    /// however many it got.
    fn handle_draw_two(&mut self, affected_actor_index: usize) -> (r: GameAction)
        requires
            old(self).wf(),
            affected_actor_index < old(self).spec_actors().len(),
        ensures
            r == GameAction::NoAction,
            final(self).wf(),
            final(self).spec_state() == old(self).spec_state(),
            final(self).spec_actor_index() == old(self).spec_actor_index(),
            final(self).spec_clockwise() == old(self).spec_clockwise(),
            final(self).spec_num_of_cards() == old(self).spec_num_of_cards(),
            final(self).spec_actors().len() == old(self).spec_actors().len(),
            final(self).card_total() == old(self).card_total(),
            final(self).spec_hands()[affected_actor_index as int].len() == old(self).spec_hands()[affected_actor_index as int].len() + (if old(self).available_cards()
                >= 2 {
                2int
            } else {
                old(self).available_cards()
            }),
            forall|j: int|
                0 <= j < old(self).spec_hands().len() && j != affected_actor_index ==> final(self).spec_hands()[j] == old(self).spec_hands()[j],
            old(self).spec_discard_pile().len() > 0 ==> final(self).spec_discard_pile().len() > 0
                && final(self).spec_discard_pile().last() == old(self).spec_discard_pile().last(),
            old(self).spec_discard_pile().len() == 0 ==> final(self).spec_discard_pile() == old(self).spec_discard_pile(),
            final(self).available_cards() == old(self).available_cards() - (if old(self).available_cards() >= 2 {
                2int
            } else {
                old(self).available_cards()
            }),
    {
        if let Err(Error::DrawPileIsEmpty) = self.player_draws_multiple(affected_actor_index, 2) {
            // Both piles ran out: the affected seat keeps the cards it got.
        }
        GameAction::NoAction
    }

    /// A played wild-draw card makes the seat at `affected_actor_index`
    /// draw `num_of_cards` cards best effort, then asks for a colour.
    fn handle_wild_draw(&mut self, affected_actor_index: usize, num_of_cards: usize) -> (r:
        GameAction)
        requires
            old(self).wf(),
            affected_actor_index < old(self).spec_actors().len(),
        ensures
            r == GameAction::ChooseColour,
            final(self).wf(),
            final(self).spec_state() == old(self).spec_state(),
            final(self).spec_actor_index() == old(self).spec_actor_index(),
            final(self).spec_clockwise() == old(self).spec_clockwise(),
            final(self).spec_num_of_cards() == old(self).spec_num_of_cards(),
            final(self).spec_actors().len() == old(self).spec_actors().len(),
            final(self).card_total() == old(self).card_total(),
            final(self).spec_hands()[affected_actor_index as int].len() == old(self).spec_hands()[affected_actor_index as int].len() + (if old(self).available_cards()
                >= num_of_cards {
                num_of_cards as int
            } else {
                old(self).available_cards()
            }),
            forall|j: int|
                0 <= j < old(self).spec_hands().len() && j != affected_actor_index ==> final(self).spec_hands()[j] == old(self).spec_hands()[j],
            old(self).spec_discard_pile().len() > 0 ==> final(self).spec_discard_pile().len() > 0
                && final(self).spec_discard_pile().last() == old(self).spec_discard_pile().last(),
            old(self).spec_discard_pile().len() == 0 ==> final(self).spec_discard_pile() == old(self).spec_discard_pile(),
            final(self).available_cards() == old(self).available_cards() - (if old(self).available_cards() >= num_of_cards {
                num_of_cards as int
            } else {
                old(self).available_cards()
            }),
    {
        if let Err(Error::DrawPileIsEmpty) = self.player_draws_multiple(
            affected_actor_index,
            num_of_cards,
        ) {
            // Both piles ran out: the affected seat keeps the cards it got.
        }

        self.handle_wild()
    }

    /// Applies the special effect of a played card: the next seat draws
    /// for DrawTwo and WildDraw, the cursor skips for Skip, the direction
    /// flips for Reverse; wild cards ask for a colour as their follow-up.
    fn execute_card_action(&mut self, actor_index: usize, card: &Card) -> (r: GameAction)
        requires
            old(self).wf(),
            actor_index < old(self).spec_actors().len(),
        ensures
            final(self).wf(),
            final(self).spec_state() == old(self).spec_state(),
            final(self).spec_num_of_cards() == old(self).spec_num_of_cards(),
            final(self).spec_actors().len() == old(self).spec_actors().len(),
            final(self).card_total() == old(self).card_total(),
            ({
                let n = old(self).spec_actors().len() as int;
                let next = spec_next_seat(actor_index as int, n, old(self).spec_clockwise());
                match card.value {
                    Value::Number(_) => r == GameAction::NoAction && final(self).unchanged_from(
                        *old(self),
                    ),
                    Value::Skip => {
                        &&& r == GameAction::NoAction
                        &&& final(self).spec_actor_index() == spec_next_seat(
                            old(self).spec_actor_index() as int,
                            n,
                            old(self).spec_clockwise(),
                        )
                        &&& final(self).spec_hands() == old(self).spec_hands()
                        &&& final(self).spec_draw_pile() == old(self).spec_draw_pile()
                        &&& final(self).spec_discard_pile() == old(self).spec_discard_pile()
                        &&& final(self).spec_clockwise() == old(self).spec_clockwise()
                    },
                    Value::Reverse => {
                        &&& r == GameAction::NoAction
                        &&& final(self).spec_clockwise() == !old(self).spec_clockwise()
                        &&& final(self).spec_hands() == old(self).spec_hands()
                        &&& final(self).spec_draw_pile() == old(self).spec_draw_pile()
                        &&& final(self).spec_discard_pile() == old(self).spec_discard_pile()
                        &&& final(self).spec_actor_index() == old(self).spec_actor_index()
                    },
                    Value::Wild => r == GameAction::ChooseColour && final(self).unchanged_from(
                        *old(self),
                    ),
                    Value::DrawTwo => {
                        &&& r == GameAction::NoAction
                        &&& final(self).spec_actor_index() == old(self).spec_actor_index()
                        &&& final(self).spec_clockwise() == old(self).spec_clockwise()
                        &&& final(self).multi_draw_effect(*old(self), next, 2)
                    },
                    Value::WildDraw(k) => {
                        &&& r == GameAction::ChooseColour
                        &&& final(self).spec_actor_index() == old(self).spec_actor_index()
                        &&& final(self).spec_clockwise() == old(self).spec_clockwise()
                        &&& final(self).multi_draw_effect(*old(self), next, k as int)
                    },
                }
            }),
    {
        match card.value {
            Value::DrawTwo => {
                let next = self.get_next_player(actor_index);
                self.handle_draw_two(next)
            },
            Value::Skip => self.handle_skip(),
            Value::Reverse => self.handle_reverse(),
            Value::Wild => self.handle_wild(),
            Value::WildDraw(n) => {
                let next = self.get_next_player(actor_index);
                self.handle_wild_draw(next, n)
            },
            Value::Number(_) => GameAction::NoAction,
        }
    }

    /// Whether the hands, the piles, the cursor and the direction all
    /// equal those of `other`.
    pub open spec fn unchanged_from(&self, other: Game) -> bool {
        &&& self.spec_hands() == other.spec_hands()
        &&& self.spec_draw_pile() == other.spec_draw_pile()
        &&& self.spec_discard_pile() == other.spec_discard_pile()
        &&& self.spec_actor_index() == other.spec_actor_index()
        &&& self.spec_clockwise() == other.spec_clockwise()
    }

    /// Whether this game is `before` after the seat `seat` drew `want`
    /// cards best effort: the seat's hand grew by `want` or by what was
    /// available, the other hands are untouched, and the active card (if
    /// any existed) still tops the discard pile.
    pub open spec fn multi_draw_effect(&self, before: Game, seat: int, want: int) -> bool {
        let got = if before.available_cards() >= want {
            want
        } else {
            before.available_cards()
        };
        &&& self.spec_hands()[seat].len() == before.spec_hands()[seat].len() + got
        &&& forall|j: int|
            0 <= j < before.spec_hands().len() && j != seat ==> self.spec_hands()[j]
                == before.spec_hands()[j]
        &&& before.spec_discard_pile().len() > 0 ==> self.spec_discard_pile().len() > 0
            && self.spec_discard_pile().last() == before.spec_discard_pile().last()
        &&& before.spec_discard_pile().len() == 0 ==> self.spec_discard_pile()
            == before.spec_discard_pile()
        &&& self.available_cards() == before.available_cards() - got
    }

    /// Executes a validated action for the seat at `actor_index`: a draw
    /// takes one card (refilling the draw pile as needed); a play removes
    /// the named card from the hand, applies its effect, and discards it,
    /// so that it becomes the active card.  The result is the follow-up
    /// the action asks for: `ChooseColour` after a wild card, `NoAction`
    /// otherwise.
    pub fn execute_player_action(&mut self, actor_index: usize, action: &GameAction) -> (r:
        GameResult<GameAction>)
        requires
            old(self).wf(),
            actor_index < old(self).spec_actors().len(),
        ensures
            final(self).wf(),
            final(self).spec_state() == old(self).spec_state(),
            final(self).spec_num_of_cards() == old(self).spec_num_of_cards(),
            final(self).spec_actors().len() == old(self).spec_actors().len(),
            final(self).card_total() == old(self).card_total(),
            action == GameAction::PlayerDraw ==> {
                &&& (r is Ok <==> old(self).available_cards() > 0)
                &&& r is Ok ==> r == Ok::<GameAction, Error>(GameAction::PlayerDraw) && (
                exists|c: Card|
                    final(self).spec_hands() == old(self).spec_hands().update(
                        actor_index as int,
                        old(self).spec_hands()[actor_index as int].push(c),
                    ))
                &&& r is Err ==> r == Err::<GameAction, Error>(Error::DrawPileIsEmpty) && final(self).spec_hands() == old(self).spec_hands()
                    && final(self).spec_draw_pile() == old(self).spec_draw_pile()
                    && final(self).spec_discard_pile() == old(self).spec_discard_pile()
                &&& final(self).spec_actor_index() == old(self).spec_actor_index()
                &&& final(self).spec_clockwise() == old(self).spec_clockwise()
                &&& (old(self).spec_draw_pile().len() > 0 ==> final(self).spec_hands() == old(
                    self,
                ).spec_hands().update(
                    actor_index as int,
                    old(self).spec_hands()[actor_index as int].push(old(self).spec_draw_pile()[0]),
                ) && final(self).spec_draw_pile() == old(self).spec_draw_pile().drop_first()
                    && final(self).spec_discard_pile() == old(self).spec_discard_pile())
                &&& (r is Ok ==> final(self).available_cards() == old(self).available_cards()
                    - 1)
                &&& (old(self).spec_draw_pile().len() == 0 && old(self).spec_discard_pile().len()
                    >= 2 ==> final(self).spec_discard_pile() == seq![
                    old(self).spec_discard_pile().last(),
                ] && final(self).spec_draw_pile().len() == old(self).spec_discard_pile().len()
                    - 2)
                &&& (old(self).spec_discard_pile().len() > 0 ==> final(self).spec_discard_pile().len() > 0 && final(self).spec_discard_pile().last() == old(self).spec_discard_pile().last())
            },
            action matches GameAction::PlayerPlaysCard(index) ==> {
                if index < old(self).spec_hands()[actor_index as int].len() {
                    let played = old(self).spec_hands()[actor_index as int][index as int];
                    let hands1 = old(self).spec_hands().update(
                        actor_index as int,
                        old(self).spec_hands()[actor_index as int].remove(index as int),
                    );
                    let n = old(self).spec_actors().len() as int;
                    let next = spec_next_seat(actor_index as int, n, old(self).spec_clockwise());
                    &&& final(self).spec_discard_pile().len() > 0
                    &&& final(self).spec_discard_pile().last() == played
                    &&& match played.value {
                        Value::Number(_) => {
                            &&& r == Ok::<GameAction, Error>(GameAction::NoAction)
                            &&& final(self).spec_hands() == hands1
                            &&& final(self).spec_discard_pile() == old(self).spec_discard_pile().push(played)
                            &&& final(self).spec_draw_pile() == old(self).spec_draw_pile()
                            &&& final(self).spec_actor_index() == old(self).spec_actor_index()
                            &&& final(self).spec_clockwise() == old(self).spec_clockwise()
                        },
                        Value::Skip => {
                            &&& r == Ok::<GameAction, Error>(GameAction::NoAction)
                            &&& final(self).spec_hands() == hands1
                            &&& final(self).spec_discard_pile() == old(self).spec_discard_pile().push(played)
                            &&& final(self).spec_draw_pile() == old(self).spec_draw_pile()
                            &&& final(self).spec_actor_index() == spec_next_seat(
                                old(self).spec_actor_index() as int,
                                n,
                                old(self).spec_clockwise(),
                            )
                            &&& final(self).spec_clockwise() == old(self).spec_clockwise()
                        },
                        Value::Reverse => {
                            &&& r == Ok::<GameAction, Error>(GameAction::NoAction)
                            &&& final(self).spec_hands() == hands1
                            &&& final(self).spec_discard_pile() == old(self).spec_discard_pile().push(played)
                            &&& final(self).spec_draw_pile() == old(self).spec_draw_pile()
                            &&& final(self).spec_actor_index() == old(self).spec_actor_index()
                            &&& final(self).spec_clockwise() == !old(self).spec_clockwise()
                        },
                        Value::Wild => {
                            &&& r == Ok::<GameAction, Error>(GameAction::ChooseColour)
                            &&& final(self).spec_hands() == hands1
                            &&& final(self).spec_discard_pile() == old(self).spec_discard_pile().push(played)
                            &&& final(self).spec_draw_pile() == old(self).spec_draw_pile()
                            &&& final(self).spec_actor_index() == old(self).spec_actor_index()
                            &&& final(self).spec_clockwise() == old(self).spec_clockwise()
                        },
                        Value::DrawTwo => {
                            &&& r == Ok::<GameAction, Error>(GameAction::NoAction)
                            &&& final(self).spec_actor_index() == old(self).spec_actor_index()
                            &&& final(self).spec_clockwise() == old(self).spec_clockwise()
                            &&& final(self).spec_hands()[next].len() == hands1[next].len() + (
                            if old(self).available_cards() >= 2 {
                                2int
                            } else {
                                old(self).available_cards()
                            })
                            &&& forall|j: int|
                                0 <= j < hands1.len() && j != next ==> final(self).spec_hands()[j]
                                    == hands1[j]
                        },
                        Value::WildDraw(k) => {
                            &&& r == Ok::<GameAction, Error>(GameAction::ChooseColour)
                            &&& final(self).spec_actor_index() == old(self).spec_actor_index()
                            &&& final(self).spec_clockwise() == old(self).spec_clockwise()
                            &&& final(self).spec_hands()[next].len() == hands1[next].len() + (
                            if old(self).available_cards() >= k {
                                k as int
                            } else {
                                old(self).available_cards()
                            })
                            &&& forall|j: int|
                                0 <= j < hands1.len() && j != next ==> final(self).spec_hands()[j]
                                    == hands1[j]
                        },
                    }
                } else {
                    r == Err::<GameAction, Error>(Error::Unknown) && final(self).unchanged_from(
                        *old(self),
                    )
                }
            },
            (action == GameAction::NoAction || action == GameAction::ChooseColour) ==> r
                == Ok::<GameAction, Error>(GameAction::NoAction) && final(self).unchanged_from(
                *old(self),
            ),
    {
        match action {
            GameAction::PlayerDraw => self.player_draws_with_pile_check(actor_index),
            GameAction::PlayerPlaysCard(index) => {
                let idx = *index;
                let play_result = self.get_actor_mut(actor_index).get_player_mut().play_card(idx);
                match play_result {
                    Ok(card) => {
                        proof {
                            assert(self.spec_hands() =~= old(self).spec_hands().update(
                                actor_index as int,
                                old(self).spec_hands()[actor_index as int].remove(idx as int),
                            ));
                            lemma_sum_hand_lens_update(
                                old(self).spec_hands(),
                                actor_index as int,
                                old(self).spec_hands()[actor_index as int].remove(idx as int),
                            );
                        }
                        let result = self.execute_card_action(actor_index, &card);
                        self.deck.discard(card);
                        Ok(result)
                    },
                    Err(_) => {
                        proof {
                            assert(self.spec_hands() =~= old(self).spec_hands());
                        }
                        Err(Error::Unknown)
                    },
                }
            },
            _ => Ok(GameAction::NoAction),
        }
    }

    /// Deals the configured number of cards to every seat, in seat order.
    /// The caller must have enough cards for the whole deal: running out
    /// here would abort the game before it starts.
    pub fn deal_cards_to_players(&mut self)
        requires
            old(self).wf(),
            old(self).available_cards() >= old(self).spec_actors().len() * old(self).spec_num_of_cards(),
        ensures
            final(self).wf(),
            final(self).spec_state() == old(self).spec_state(),
            final(self).spec_actor_index() == old(self).spec_actor_index(),
            final(self).spec_clockwise() == old(self).spec_clockwise(),
            final(self).spec_num_of_cards() == old(self).spec_num_of_cards(),
            final(self).spec_actors().len() == old(self).spec_actors().len(),
            final(self).card_total() == old(self).card_total(),
            forall|j: int|
                0 <= j < old(self).spec_hands().len() ==> final(self).spec_hands()[j].len() == old(self).spec_hands()[j].len() + old(self).spec_num_of_cards(),
            final(self).available_cards() == old(self).available_cards() - old(self).spec_actors().len() * old(self).spec_num_of_cards(),
            old(self).spec_draw_pile().len() >= old(self).spec_actors().len() * old(
                self,
            ).spec_num_of_cards() ==> {
                &&& forall|j: int|
                    0 <= j < old(self).spec_hands().len() ==> final(self).spec_hands()[j] == old(
                        self,
                    ).spec_hands()[j] + old(self).spec_draw_pile().subrange(
                        j * old(self).spec_num_of_cards(),
                        (j + 1) * old(self).spec_num_of_cards(),
                    )
                &&& final(self).spec_draw_pile() == old(self).spec_draw_pile().skip(
                    old(self).spec_actors().len() * old(self).spec_num_of_cards(),
                )
                &&& final(self).spec_discard_pile() == old(self).spec_discard_pile()
            },
            old(self).spec_discard_pile().len() > 0 ==> final(self).spec_discard_pile().len() > 0
                && final(self).spec_discard_pile().last() == old(self).spec_discard_pile().last(),
            old(self).spec_discard_pile().len() == 0 ==> final(self).spec_discard_pile() == old(self).spec_discard_pile(),
    {
        proof {
            assert(old(self).spec_draw_pile().skip(0) =~= old(self).spec_draw_pile());
        }
        let num_of_players = self.actors.len();
        let mut i: usize = 0;
        while i < num_of_players
            invariant
                self.wf(),
                i <= num_of_players,
                num_of_players == self.spec_actors().len(),
                self.spec_actors().len() == old(self).spec_actors().len(),
                self.spec_state() == old(self).spec_state(),
                self.spec_actor_index() == old(self).spec_actor_index(),
                self.spec_clockwise() == old(self).spec_clockwise(),
                self.spec_num_of_cards() == old(self).spec_num_of_cards(),
                self.card_total() == old(self).card_total(),
                old(self).available_cards() >= old(self).spec_actors().len() * old(self).spec_num_of_cards(),
                self.available_cards() == old(self).available_cards() - i * old(self).spec_num_of_cards(),
                forall|j: int|
                    0 <= j < i ==> #[trigger] self.spec_hands()[j].len() == old(self).spec_hands()[j].len() + old(self).spec_num_of_cards(),
                forall|j: int|
                    i <= j < num_of_players ==> #[trigger] self.spec_hands()[j] == old(self).spec_hands()[j],
                old(self).spec_draw_pile().len() >= old(self).spec_actors().len() * old(
                    self,
                ).spec_num_of_cards() ==> {
                    &&& forall|j: int|
                        0 <= j < i ==> #[trigger] self.spec_hands()[j] == old(self).spec_hands()[j]
                            + old(self).spec_draw_pile().subrange(
                            j * old(self).spec_num_of_cards(),
                            (j + 1) * old(self).spec_num_of_cards(),
                        )
                    &&& self.spec_draw_pile() == old(self).spec_draw_pile().skip(
                        i * old(self).spec_num_of_cards(),
                    )
                    &&& self.spec_discard_pile() == old(self).spec_discard_pile()
                },
                old(self).spec_discard_pile().len() > 0 ==> self.spec_discard_pile().len() > 0
                    && self.spec_discard_pile().last() == old(self).spec_discard_pile().last(),
                old(self).spec_discard_pile().len() == 0 ==> self.spec_discard_pile() == old(self).spec_discard_pile(),
            decreases num_of_players - i,
        {
            proof {
                let n = old(self).spec_actors().len() as int;
                let m = old(self).spec_num_of_cards() as int;
                let avail = old(self).available_cards();
                let dlen = old(self).spec_draw_pile().len() as int;
                let i_ = i as int;
                assert(avail - i_ * m >= m) by (nonlinear_arith)
                    requires
                        avail >= n * m,
                        0 <= i_ < n,
                        m >= 0,
                ;
                if dlen >= n * m {
                    assert(dlen - i_ * m >= m) by (nonlinear_arith)
                        requires
                            dlen >= n * m,
                            0 <= i_ < n,
                            m >= 0,
                    ;
                }
            }
            let ghost hands_before = self.spec_hands();
            let _ = self.player_draws_multiple(i, self.num_of_cards);
            proof {
                let n = old(self).spec_actors().len() as int;
                let m = old(self).spec_num_of_cards() as int;
                let i_ = i as int;
                assert((i_ + 1) * m == i_ * m + m) by (nonlinear_arith);
                if old(self).spec_draw_pile().len() >= n * m {
                    let draw0 = old(self).spec_draw_pile();
                    assert(draw0.skip(i_ * m).subrange(0, m) =~= draw0.subrange(i_ * m, i_ * m + m));
                    assert(draw0.skip(i_ * m).skip(m) =~= draw0.skip(i_ * m + m));
                    assert(self.spec_hands()[i_] == hands_before[i_] + draw0.skip(i_ * m).subrange(
                        0,
                        m,
                    ));
                }
            }
            i += 1;
        }
    }
}

impl GameFlow for Game {
    open spec fn flow_state(&self) -> GameState {
        self.spec_state()
    }

    open spec fn flow_hands(&self) -> Seq<Seq<Card>> {
        self.spec_hands()
    }

    open spec fn flow_draw_pile(&self) -> Seq<Card> {
        self.spec_draw_pile()
    }

    open spec fn flow_discard_pile(&self) -> Seq<Card> {
        self.spec_discard_pile()
    }

    open spec fn flow_cursor(&self) -> usize {
        self.spec_actor_index()
    }

    open spec fn flow_clockwise(&self) -> bool {
        self.spec_clockwise()
    }

    open spec fn flow_deal_size(&self) -> usize {
        self.spec_num_of_cards()
    }

    open spec fn flow_wf(&self) -> bool {
        self.wf()
    }

    open spec fn flow_automated(&self, seat: int) -> bool {
        0 <= seat < self.spec_actors().len() && self.spec_actors()[seat].is_automated()
    }

    fn get_state(&self) -> (s: GameState) {
        self.state
    }

    fn set_state(&mut self, state: GameState) {
        self.state = state;
    }

    fn handle_init(&mut self) -> (s: GameState) {
        self.deal_cards_to_players();
        GameState::TurnStarts
    }

    fn handle_turn_start(&mut self) -> (s: GameState) {
        match self.get_current_actor_mut() {
            GameActor::Automated(a) => a.pre_turn_action(),
            GameActor::Human(_) => {},
        }
        proof {
            assert(self.spec_hands() =~= old(self).spec_hands());
        }
        GameState::GetPlayerAction
    }

    fn handle_get_player_action(&mut self, input: Option<UserAction>) -> (s: GameState)
        ensures
            old(self).spec_actors()[old(self).spec_actor_index() as int] matches
                GameActor::Automated(ai) ==> ({
                let hand = old(self).spec_hands()[old(self).spec_actor_index() as int];
                let next = ai.spec_next_card();
                if next >= hand.len() {
                    s == GameState::ExecutePlayerAction(GameAction::PlayerDraw)
                } else if spec_legal_play(hand[next as int], old(self).spec_discard_pile()) {
                    s == GameState::ExecutePlayerAction(GameAction::PlayerPlaysCard(next))
                } else {
                    s == GameState::GetPlayerAction
                }
            }),
    {
        let action_opt: Option<UserAction> = match self.get_current_actor_mut() {
            GameActor::Automated(a) => Some(a.get_turn_action()),
            GameActor::Human(_) => input,
        };
        proof {
            assert(self.spec_hands() =~= old(self).spec_hands());
        }
        match action_opt {
            None => GameState::GetPlayerAction,
            Some(action) => {
                proof {
                    assert(self.spec_hands()[self.spec_actor_index() as int] == self.spec_actors()[
                        self.spec_actor_index() as int].spec_player()@);
                }
                let validated = self.get_player_action(
                    self.get_current_actor().get_player(),
                    action,
                );
                match validated {
                    Ok(GameAction::PlayerDraw) => GameState::ExecutePlayerAction(
                        GameAction::PlayerDraw,
                    ),
                    Ok(GameAction::PlayerPlaysCard(i)) => GameState::ExecutePlayerAction(
                        GameAction::PlayerPlaysCard(i),
                    ),
                    _ => GameState::GetPlayerAction,
                }
            },
        }
    }

    fn handle_execute_player_action(&mut self, action: &GameAction) -> (s: GameState) {
        let actor = self.get_current_actor();
        let id = actor.get_id();
        proof {
            assert(old(self).spec_actors()[old(self).spec_actor_index() as int].spec_id() == old(
                self,
            ).spec_actor_index());
        }
        let result = self.execute_player_action(id, action);
        proof {
            let cursor = old(self).spec_actor_index() as int;
            let hand = old(self).spec_hands()[cursor];
            if let GameAction::PlayerPlaysCard(i) = *action {
                if (i as int) < hand.len() {
                    let hands1 = old(self).spec_hands().update(cursor, hand.remove(i as int));
                    let n = old(self).spec_actors().len() as int;
                    let next = spec_next_seat(cursor, n, old(self).spec_clockwise());
                    assert(hands1[cursor] == hand.remove(i as int));
                    assert(hand.remove(i as int).len() == hand.len() - 1);
                    match hand[i as int].value {
                        Value::DrawTwo => {
                            if next != cursor {
                                assert(self.spec_hands()[cursor] == hands1[cursor]);
                            }
                        },
                        Value::WildDraw(_) => {
                            if next != cursor {
                                assert(self.spec_hands()[cursor] == hands1[cursor]);
                            }
                        },
                        _ => {
                            assert(self.spec_hands()[cursor] == hands1[cursor]);
                        },
                    }
                }
            }
        }
        match result {
            Ok(GameAction::ChooseColour) => GameState::ChooseColour,
            _ => GameState::EndTurn,
        }
    }

    fn handle_choose_colour(&mut self, input: Option<Colour>) -> (s: GameState) {
        let colour_opt: Option<Colour> = match self.get_current_actor_mut() {
            GameActor::Automated(a) => Some(a.get_color_choice()),
            GameActor::Human(_) => input,
        };
        proof {
            assert(self.spec_hands() =~= old(self).spec_hands());
            assert(old(self).spec_hands()[old(self).spec_actor_index() as int] == old(
                self,
            ).spec_actors()[old(self).spec_actor_index() as int].spec_player()@);
        }
        match colour_opt {
            None => GameState::ChooseColour,
            Some(colour) => {
                self.change_wild_color(&colour);
                GameState::EndTurn
            },
        }
    }

    fn handle_end_turn(&mut self) -> (s: GameState) {
        let player = self.get_current_actor();
        let id = player.get_id();
        proof {
            assert(old(self).spec_actors()[old(self).spec_actor_index() as int].spec_id() == old(
                self,
            ).spec_actor_index());
        }
        if self.has_player_won(id) {
            return GameState::EndGame;
        }
        match self.get_current_actor_mut() {
            GameActor::Automated(a) => a.post_turn_action(),
            GameActor::Human(_) => {},
        }
        proof {
            assert(self.spec_hands() =~= old(self).spec_hands());
        }
        self.set_next_actor();
        GameState::TurnStarts
    }

    fn handle_end_game(&mut self) -> (s: GameState) {
        GameState::End
    }

    fn run_game_phase(
        &mut self,
        state: GameState,
        action_input: Option<UserAction>,
        colour_input: Option<Colour>,
    )
        ensures
            state == GameState::GetPlayerAction ==> (old(self).spec_actors()[old(
                self,
            ).spec_actor_index() as int] matches GameActor::Automated(ai) ==> ({
                let hand = old(self).spec_hands()[old(self).spec_actor_index() as int];
                let next = ai.spec_next_card();
                if next >= hand.len() {
                    final(self).flow_state() == GameState::ExecutePlayerAction(
                        GameAction::PlayerDraw,
                    )
                } else if spec_legal_play(hand[next as int], old(self).spec_discard_pile()) {
                    final(self).flow_state() == GameState::ExecutePlayerAction(
                        GameAction::PlayerPlaysCard(next),
                    )
                } else {
                    final(self).flow_state() == GameState::GetPlayerAction
                }
            })),
    {
        let new_state = match state {
            GameState::Init => self.handle_init(),
            GameState::TurnStarts => self.handle_turn_start(),
            GameState::GetPlayerAction => self.handle_get_player_action(action_input),
            GameState::ExecutePlayerAction(action) => self.handle_execute_player_action(&action),
            GameState::ChooseColour => self.handle_choose_colour(colour_input),
            GameState::EndTurn => self.handle_end_turn(),
            GameState::EndGame => self.handle_end_game(),
            GameState::End => GameState::End,
        };
        self.set_state(new_state);
    }
}

} // verus!
