//! The decision collaborator behind one seat: something that can choose a
//! turn action and a wild-card colour.  The engine is agnostic to the
//! strategy behind the interface; implementations range from an automated
//! strategy to a human at a terminal.

use vstd::prelude::*;
use crate::card::Colour;
use crate::player::Player;

verus! {

/// A raw action chosen by a seat's actor: draw a card, or play the card at
/// the given hand index.  The engine validates it before executing it.
#[derive(Debug, Clone, Copy, PartialEq, Eq, Structural)]
pub enum UserAction {
    Draw,
    Play(usize),
}

/// The behaviour of an actor in the game.
///
/// Every decision query leaves the actor's hand and seat id untouched:
/// only the engine moves cards.  A colour choice is never the neutral
/// `Wild` colour.
pub trait Actor: Sized {
    /// The player (the hand) the actor plays for.
    spec fn spec_player(&self) -> Player;

    /// The stable seat id of the actor.
    spec fn spec_id(&self) -> usize;

    /// Chooses the action for the actor's turn.
    fn get_turn_action(&mut self) -> (a: UserAction)
        ensures
            final(self).spec_player() == old(self).spec_player(),
            final(self).spec_id() == old(self).spec_id(),
    ;

    /// Chooses the colour a played wild card shall take; never the neutral
    /// `Wild` colour.
    fn get_color_choice(&mut self) -> (c: Colour)
        ensures
            c != Colour::Wild,
            final(self).spec_player() == old(self).spec_player(),
            final(self).spec_id() == old(self).spec_id(),
    ;

    /// A hook run before the actor's turn; presentation or strategy state
    /// only, never the hand.
    fn pre_turn_action(&mut self)
        ensures
            final(self).spec_player() == old(self).spec_player(),
            final(self).spec_id() == old(self).spec_id(),
    ;

    /// A hook run after the actor's turn; presentation or strategy state
    /// only, never the hand.
    fn post_turn_action(&mut self)
        ensures
            final(self).spec_player() == old(self).spec_player(),
            final(self).spec_id() == old(self).spec_id(),
    ;

    /// The player the actor plays for.
    fn get_player(&self) -> (p: &Player)
        ensures
            *p == self.spec_player(),
    ;

    /// Mutable access to the player the actor plays for.
    fn get_player_mut(&mut self) -> (p: &mut Player)
        ensures
            *p == old(self).spec_player(),
            final(self).spec_player() == *final(p),
            final(self).spec_id() == old(self).spec_id(),
    ;

    /// The actor's seat id.
    fn get_id(&self) -> (id: usize)
        ensures
            id == self.spec_id(),
    ;
}

} // verus!
