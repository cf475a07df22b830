//! The rule engine and turn-resolution core of the card game Uno.
//!
//! The library models the cards, the draw and discard piles, the per-seat
//! hands, and the state machine that drives a game from the initial deal
//! to the winner announcement.  Decisions are supplied through the
//! [`actor::Actor`] capability: an automated seat computes them inside
//! the engine, while a human seat's choices are handed to the state
//! machine by the hosting shell, which also does all reading and
//! printing — the engine itself never performs I/O.

pub mod actor;
pub mod ai;
pub mod card;
pub mod cli;
pub mod deck;
pub mod default_deck;
pub mod flow;
pub mod game;
pub mod player;
pub mod ui;
