//! The phases of a turn and the state machine that sequences them: a game
//! runs `Init` → `TurnStarts` → `GetPlayerAction` → `ExecutePlayerAction`
//! → (`ChooseColour`) → `EndTurn`, looping back to `TurnStarts` until a
//! hand is empty, then `EndGame` → `End`.
//!
//! Decisions of automated seats are computed inside the machine; decisions
//! of a human seat are handed in by the driving loop as inputs.  A phase
//! that needs an input it was not given simply stays where it is, so the
//! driving loop can fetch the input and step again.
//!
//! What each phase does to the game is captured once, as an effect
//! predicate (`init_effect` and friends), and promised both by the
//! phase's handler and by [`GameFlow::run_game_phase`], so a driving loop
//! that only ever steps the machine still knows that dealing, drawing,
//! playing and colouring actually happen.

use vstd::prelude::*;
use crate::actor::UserAction;
use crate::ai::ai_colour_choice;
use crate::card::{has_wild_value, Card, Colour, Value};
use crate::game::{spec_legal_play, spec_next_seat, sum_hand_lens, GameAction};

verus! {

/// The phase a game is in.
#[derive(Debug, Clone, Copy, PartialEq, Eq, Structural)]
pub enum GameState {
    Init,
    TurnStarts,
    GetPlayerAction,
    ExecutePlayerAction(GameAction),
    ChooseColour,
    EndTurn,
    EndGame,
    End,
}

/// The turn state machine over a game: one handler per phase, and
/// [`GameFlow::run_game_phase`] to dispatch a single step.
///
/// The contracts fix, for every implementation, which phase follows
/// which, that the total number of cards in play never changes, what
/// each phase does to the hands, the piles and the cursor, and that a
/// rejected (invalid) play changes nothing but asks again.
pub trait GameFlow: Sized {
    /// The phase the machine is in.
    spec fn flow_state(&self) -> GameState;

    /// The hands, one per seat.
    spec fn flow_hands(&self) -> Seq<Seq<Card>>;

    /// The draw pile.
    spec fn flow_draw_pile(&self) -> Seq<Card>;

    /// The discard pile; its last element is the active card.
    spec fn flow_discard_pile(&self) -> Seq<Card>;

    /// The seat whose turn it is.
    spec fn flow_cursor(&self) -> usize;

    /// Whether play currently runs clockwise.
    spec fn flow_clockwise(&self) -> bool;

    /// The configured number of cards dealt to each seat.
    spec fn flow_deal_size(&self) -> usize;

    /// Whether the game's own invariants hold.
    spec fn flow_wf(&self) -> bool;

    /// Whether the seat decides by the automated strategy (rather than by
    /// inputs handed to the machine).
    spec fn flow_automated(&self, seat: int) -> bool;

    /// The number of cards in play: both piles and every hand together.
    open spec fn flow_card_total(&self) -> int {
        self.flow_draw_pile().len() + self.flow_discard_pile().len() + sum_hand_lens(
            self.flow_hands(),
        )
    }

    /// How many cards can still be drawn before both piles are exhausted.
    open spec fn flow_available(&self) -> int {
        self.flow_draw_pile().len() + if self.flow_discard_pile().len() > 0 {
            self.flow_discard_pile().len() - 1
        } else {
            0
        }
    }

    /// Whether the hands, piles, cursor and direction equal those of
    /// `other`.
    open spec fn flow_board_unchanged(&self, other: Self) -> bool {
        &&& self.flow_hands() == other.flow_hands()
        &&& self.flow_draw_pile() == other.flow_draw_pile()
        &&& self.flow_discard_pile() == other.flow_discard_pile()
        &&& self.flow_cursor() == other.flow_cursor()
        &&& self.flow_clockwise() == other.flow_clockwise()
    }

    /// What `Init` does: every hand grows by the deal size, the cards
    /// taken in seat order from the front of the draw pile (exactly so
    /// when the draw pile suffices without a refill), the total is
    /// conserved, and the machine moves to `TurnStarts`.
    open spec fn init_effect(pre: Self, post: Self, s: GameState) -> bool {
        let n = pre.flow_hands().len() as int;
        let m = pre.flow_deal_size() as int;
        &&& s == GameState::TurnStarts
        &&& post.flow_hands().len() == pre.flow_hands().len()
        &&& forall|j: int|
            0 <= j < pre.flow_hands().len() ==> post.flow_hands()[j].len() == pre.flow_hands()[j].len()
                + pre.flow_deal_size()
        &&& (pre.flow_draw_pile().len() >= n * m ==> {
            &&& forall|j: int|
                0 <= j < pre.flow_hands().len() ==> post.flow_hands()[j] == pre.flow_hands()[j]
                    + pre.flow_draw_pile().subrange(j * m, (j + 1) * m)
            &&& post.flow_draw_pile() == pre.flow_draw_pile().skip(n * m)
            &&& post.flow_discard_pile() == pre.flow_discard_pile()
        })
        &&& post.flow_card_total() == pre.flow_card_total()
        &&& post.flow_cursor() == pre.flow_cursor()
        &&& post.flow_clockwise() == pre.flow_clockwise()
        &&& post.flow_deal_size() == pre.flow_deal_size()
    }

    /// What `GetPlayerAction` does: nothing on the board; the raw action
    /// (the automated strategy's, or `input` for a human seat) is
    /// validated, a valid one moves on to execution and anything else
    /// asks again.
    open spec fn get_action_effect(
        pre: Self,
        post: Self,
        input: Option<UserAction>,
        s: GameState,
    ) -> bool {
        let hand = pre.flow_hands()[pre.flow_cursor() as int];
        &&& post.flow_board_unchanged(pre)
        &&& post.flow_deal_size() == pre.flow_deal_size()
        &&& match s {
            GameState::ExecutePlayerAction(a) => {
                ||| a == GameAction::PlayerDraw
                ||| (a matches GameAction::PlayerPlaysCard(i) && i < hand.len()
                    && spec_legal_play(hand[i as int], pre.flow_discard_pile()))
            },
            GameState::GetPlayerAction => true,
            _ => false,
        }
        &&& (!pre.flow_automated(pre.flow_cursor() as int) ==> match input {
            Option::None => s == GameState::GetPlayerAction,
            Option::Some(UserAction::Draw) => s == GameState::ExecutePlayerAction(
                GameAction::PlayerDraw,
            ),
            Option::Some(UserAction::Play(i)) => {
                if i < hand.len() && spec_legal_play(hand[i as int], pre.flow_discard_pile()) {
                    s == GameState::ExecutePlayerAction(GameAction::PlayerPlaysCard(i))
                } else {
                    s == GameState::GetPlayerAction
                }
            },
        })
    }

    /// What `ExecutePlayerAction` does: a draw puts one card (if any is
    /// available, counting a refill) into the current hand; a play
    /// removes the named card, applies its effect and makes it the
    /// active card; a played wild card moves on to the colour choice and
    /// everything else ends the turn.
    open spec fn execute_effect(pre: Self, post: Self, action: GameAction, s: GameState) -> bool {
        let cursor = pre.flow_cursor() as int;
        let hand = pre.flow_hands()[cursor];
        &&& post.flow_card_total() == pre.flow_card_total()
        &&& post.flow_deal_size() == pre.flow_deal_size()
        &&& post.flow_hands().len() == pre.flow_hands().len()
        &&& (s == GameState::ChooseColour <==> (action matches GameAction::PlayerPlaysCard(i)
            && i < hand.len() && has_wild_value(hand[i as int])))
        &&& (s != GameState::ChooseColour ==> s == GameState::EndTurn)
        &&& (action == GameAction::PlayerDraw ==> {
            &&& post.flow_cursor() == pre.flow_cursor()
            &&& post.flow_clockwise() == pre.flow_clockwise()
            &&& (pre.flow_available() > 0 ==> post.flow_hands()[cursor].len() == hand.len() + 1
                && post.flow_available() == pre.flow_available() - 1)
            &&& (pre.flow_available() == 0 ==> post.flow_hands() == pre.flow_hands()
                && post.flow_draw_pile() == pre.flow_draw_pile() && post.flow_discard_pile()
                == pre.flow_discard_pile())
            &&& forall|j: int|
                0 <= j < pre.flow_hands().len() && j != cursor ==> post.flow_hands()[j]
                    == pre.flow_hands()[j]
            &&& (pre.flow_discard_pile().len() > 0 ==> post.flow_discard_pile().len() > 0
                && post.flow_discard_pile().last() == pre.flow_discard_pile().last())
        })
        &&& ((action == GameAction::NoAction || action == GameAction::ChooseColour) ==> {
            &&& s == GameState::EndTurn
            &&& post.flow_board_unchanged(pre)
        })
        &&& (action matches GameAction::PlayerPlaysCard(i) ==> i < hand.len() ==> ({
            let hands1 = pre.flow_hands().update(cursor, hand.remove(i as int));
            let next = spec_next_seat(
                cursor,
                pre.flow_hands().len() as int,
                pre.flow_clockwise(),
            );
            &&& post.flow_discard_pile().len() > 0
            &&& post.flow_discard_pile().last() == hand[i as int]
            &&& match hand[i as int].value {
                Value::DrawTwo => {
                    &&& post.flow_hands()[next].len() == hands1[next].len() + (
                    if pre.flow_available() >= 2 {
                        2int
                    } else {
                        pre.flow_available()
                    })
                    &&& forall|j: int|
                        0 <= j < hands1.len() && j != next ==> post.flow_hands()[j] == hands1[j]
                },
                Value::WildDraw(k) => {
                    &&& post.flow_hands()[next].len() == hands1[next].len() + (
                    if pre.flow_available() >= k {
                        k as int
                    } else {
                        pre.flow_available()
                    })
                    &&& forall|j: int|
                        0 <= j < hands1.len() && j != next ==> post.flow_hands()[j] == hands1[j]
                },
                _ => post.flow_hands() == hands1,
            }
        }))
        &&& (action matches GameAction::PlayerPlaysCard(i) ==> i >= hand.len() ==> {
            &&& s == GameState::EndTurn
            &&& post.flow_board_unchanged(pre)
        })
    }

    /// What `ChooseColour` does: the colour (the automated strategy's
    /// majority pick, or `input` for a human seat) is applied to the
    /// active card and the turn ends; a human seat without an input
    /// changes nothing and asks again.
    open spec fn choose_colour_effect(
        pre: Self,
        post: Self,
        input: Option<Colour>,
        s: GameState,
    ) -> bool {
        let chosen: Option<Colour> = if pre.flow_automated(pre.flow_cursor() as int) {
            Some(ai_colour_choice(pre.flow_hands()[pre.flow_cursor() as int]))
        } else {
            input
        };
        &&& post.flow_hands() == pre.flow_hands()
        &&& post.flow_draw_pile() == pre.flow_draw_pile()
        &&& post.flow_cursor() == pre.flow_cursor()
        &&& post.flow_clockwise() == pre.flow_clockwise()
        &&& post.flow_deal_size() == pre.flow_deal_size()
        &&& s == GameState::EndTurn || s == GameState::ChooseColour
        &&& (chosen is None ==> s == GameState::ChooseColour && post.flow_discard_pile()
            == pre.flow_discard_pile())
        &&& (chosen matches Some(c) ==> {
            &&& s == GameState::EndTurn
            &&& (pre.flow_discard_pile().len() == 0 ==> post.flow_discard_pile()
                == pre.flow_discard_pile())
            &&& (pre.flow_discard_pile().len() > 0 ==> post.flow_discard_pile()
                == pre.flow_discard_pile().update(
                pre.flow_discard_pile().len() - 1,
                Card { colour: c, value: pre.flow_discard_pile().last().value },
            ))
        })
    }

    /// What `EndTurn` does: nothing on the hands or piles; a now-empty
    /// hand ends the game with the cursor still on the winning seat,
    /// otherwise the cursor moves to the next seat and a new turn starts.
    open spec fn end_turn_effect(pre: Self, post: Self, s: GameState) -> bool {
        &&& post.flow_hands() == pre.flow_hands()
        &&& post.flow_draw_pile() == pre.flow_draw_pile()
        &&& post.flow_discard_pile() == pre.flow_discard_pile()
        &&& post.flow_clockwise() == pre.flow_clockwise()
        &&& post.flow_deal_size() == pre.flow_deal_size()
        &&& (pre.flow_hands()[pre.flow_cursor() as int].len() == 0 ==> s == GameState::EndGame
            && post.flow_cursor() == pre.flow_cursor())
        &&& (pre.flow_hands()[pre.flow_cursor() as int].len() > 0 ==> s == GameState::TurnStarts
            && post.flow_cursor() == spec_next_seat(
            pre.flow_cursor() as int,
            pre.flow_hands().len() as int,
            pre.flow_clockwise(),
        ))
    }

    /// The phase the machine is in.
    fn get_state(&self) -> (s: GameState)
        ensures
            s == self.flow_state(),
    ;

    /// Moves the machine to the given phase.
    fn set_state(&mut self, state: GameState)
        ensures
            final(self).flow_state() == state,
            final(self).flow_board_unchanged(*old(self)),
            final(self).flow_wf() == old(self).flow_wf(),
            final(self).flow_deal_size() == old(self).flow_deal_size(),
            forall|seat: int|
                final(self).flow_automated(seat) == old(self).flow_automated(seat),
    ;

    /// `Init`: deals the configured number of cards to every seat.
    fn handle_init(&mut self) -> (s: GameState)
        requires
            old(self).flow_wf(),
            old(self).flow_available() >= old(self).flow_hands().len() * old(self).flow_deal_size(),
        ensures
            final(self).flow_wf(),
            final(self).flow_state() == old(self).flow_state(),
            Self::init_effect(*old(self), *final(self), s),
    ;

    /// `TurnStarts`: runs the current seat's before-turn hook.
    fn handle_turn_start(&mut self) -> (s: GameState)
        requires
            old(self).flow_wf(),
        ensures
            s == GameState::GetPlayerAction,
            final(self).flow_wf(),
            final(self).flow_state() == old(self).flow_state(),
            final(self).flow_board_unchanged(*old(self)),
            final(self).flow_deal_size() == old(self).flow_deal_size(),
    ;

    /// `GetPlayerAction`: obtains the current seat's raw action (from the
    /// automated strategy, or from `input` for a human seat) and
    /// validates it.  A valid action moves on to execution; an invalid
    /// play, or a human seat not yet given an input, changes nothing and
    /// asks again.
    fn handle_get_player_action(&mut self, input: Option<UserAction>) -> (s: GameState)
        requires
            old(self).flow_wf(),
        ensures
            final(self).flow_wf(),
            final(self).flow_state() == old(self).flow_state(),
            Self::get_action_effect(*old(self), *final(self), input, s),
    ;

    /// `ExecutePlayerAction`: executes the validated action.  A played
    /// wild card moves on to the colour choice; everything else ends the
    /// turn.
    fn handle_execute_player_action(&mut self, action: &GameAction) -> (s: GameState)
        requires
            old(self).flow_wf(),
        ensures
            final(self).flow_wf(),
            final(self).flow_state() == old(self).flow_state(),
            Self::execute_effect(*old(self), *final(self), *action, s),
    ;

    /// `ChooseColour`: obtains the colour for the played wild card (from
    /// the automated strategy, or from `input` for a human seat) and
    /// applies it to the active card.  A human seat not yet given an
    /// input changes nothing and asks again.
    fn handle_choose_colour(&mut self, input: Option<Colour>) -> (s: GameState)
        requires
            old(self).flow_wf(),
            input matches Some(c) ==> c != Colour::Wild,
        ensures
            final(self).flow_wf(),
            final(self).flow_state() == old(self).flow_state(),
            Self::choose_colour_effect(*old(self), *final(self), input, s),
    ;

    /// `EndTurn`: the turn is over.  A now-empty hand ends the game with
    /// the cursor still on the winning seat; otherwise the after-turn
    /// hook runs and the cursor moves to the next seat.
    fn handle_end_turn(&mut self) -> (s: GameState)
        requires
            old(self).flow_wf(),
        ensures
            final(self).flow_wf(),
            final(self).flow_state() == old(self).flow_state(),
            Self::end_turn_effect(*old(self), *final(self), s),
    ;

    /// `EndGame`: the winner stands; the machine halts.  Announcing the
    /// winner is the driving loop's part.
    fn handle_end_game(&mut self) -> (s: GameState)
        requires
            old(self).flow_wf(),
        ensures
            s == GameState::End,
            final(self).flow_wf(),
            final(self).flow_state() == old(self).flow_state(),
            final(self).flow_board_unchanged(*old(self)),
            final(self).flow_deal_size() == old(self).flow_deal_size(),
    ;

    /// Runs one step of the machine from `state`: dispatches to the
    /// phase's handler and records the phase it moves to.  `action_input`
    /// and `colour_input` carry a human seat's pending decisions, where
    /// the driving loop has them.  Each step promises its phase's full
    /// effect, so a loop that only ever calls this function still knows
    /// the deal, the draws, the plays and the colour choices happened.
    fn run_game_phase(
        &mut self,
        state: GameState,
        action_input: Option<UserAction>,
        colour_input: Option<Colour>,
    )
        requires
            old(self).flow_wf(),
            state == GameState::Init ==> old(self).flow_available() >= old(self).flow_hands().len() * old(self).flow_deal_size(),
            colour_input matches Some(c) ==> c != Colour::Wild,
        ensures
            final(self).flow_wf(),
            final(self).flow_card_total() == old(self).flow_card_total(),
            final(self).flow_deal_size() == old(self).flow_deal_size(),
            final(self).flow_hands().len() == old(self).flow_hands().len(),
            state == GameState::Init ==> Self::init_effect(
                *old(self),
                *final(self),
                final(self).flow_state(),
            ),
            state == GameState::TurnStarts ==> final(self).flow_state()
                == GameState::GetPlayerAction && final(self).flow_board_unchanged(*old(self)),
            state == GameState::GetPlayerAction ==> Self::get_action_effect(
                *old(self),
                *final(self),
                action_input,
                final(self).flow_state(),
            ),
            state matches GameState::ExecutePlayerAction(a) ==> Self::execute_effect(
                *old(self),
                *final(self),
                a,
                final(self).flow_state(),
            ),
            state == GameState::ChooseColour ==> Self::choose_colour_effect(
                *old(self),
                *final(self),
                colour_input,
                final(self).flow_state(),
            ),
            state == GameState::EndTurn ==> Self::end_turn_effect(
                *old(self),
                *final(self),
                final(self).flow_state(),
            ),
            state == GameState::EndGame ==> final(self).flow_state() == GameState::End && final(self).flow_board_unchanged(*old(self)),
            state == GameState::End ==> final(self).flow_state() == GameState::End && final(self).flow_board_unchanged(*old(self)),
    ;
}

} // verus!
