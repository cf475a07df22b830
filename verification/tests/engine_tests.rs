use uno_engine::actor::{Actor, UserAction};
use uno_engine::ai::AiActor;
use uno_engine::card::{Card, Colour, Value};
use uno_engine::cli::Args;
use uno_engine::deck::{Deck, DeckTrait};
use uno_engine::default_deck::game_deck;
use uno_engine::flow::{GameFlow, GameState};
use uno_engine::game::{check_game_attributes, Error, Game, GameAction};

fn number(colour: Colour, n: usize) -> Card {
    Card { colour, value: Value::Number(n) }
}

#[test]
fn test_check_game_attributes() {
    assert!(check_game_attributes(2, 7).is_ok());
    assert!(check_game_attributes(10, 10).is_ok());
    assert_eq!(
        check_game_attributes(2, 11).unwrap_err(),
        "The maximum number of cards is 10"
    );
    assert_eq!(
        check_game_attributes(11, 7).unwrap_err(),
        "The maximum number of players is 10"
    );
    assert_eq!(
        check_game_attributes(2, 0).unwrap_err(),
        "The minimum number of cards is 1"
    );
    assert_eq!(
        check_game_attributes(0, 7).unwrap_err(),
        "The minimum number of players is 1"
    );
}

#[test]
fn test_args_default() {
    let args = Args::default();
    assert_eq!(args.num_of_players, 2);
    assert_eq!(args.num_of_cards, 7);
}

#[test]
fn test_game_deck_is_standard() {
    let cards = game_deck();
    assert_eq!(cards.len(), 108);
    let wilds = cards.iter().filter(|c| c.colour == Colour::Wild).count();
    assert_eq!(wilds, 8);
    let red_fives = cards
        .iter()
        .filter(|c| **c == number(Colour::Red, 5))
        .count();
    assert_eq!(red_fives, 2);
}

#[test]
fn test_cards_match_rules() {
    let red5 = number(Colour::Red, 5);
    let red7 = number(Colour::Red, 7);
    let blue5 = number(Colour::Blue, 5);
    let blue3 = number(Colour::Blue, 3);
    let wild = Card { colour: Colour::Wild, value: Value::Wild };
    assert!(red5.matches_for_play(&red7), "same colour matches");
    assert!(blue5.matches_for_play(&red5), "same number matches");
    assert!(!blue3.matches_for_play(&red7), "different colour and number does not match");
    assert!(wild.matches_for_play(&red7), "a wild card always matches");
    assert!(blue3.matches_for_play(&wild), "anything matches a wild active card");
}

#[test]
fn test_revert_wild() {
    let coloured_wild = Card { colour: Colour::Blue, value: Value::Wild };
    assert_eq!(
        coloured_wild.revert_wild(),
        Card { colour: Colour::Wild, value: Value::Wild }
    );
    let plain = number(Colour::Red, 5);
    assert_eq!(plain.revert_wild(), plain);
}

#[test]
fn test_ai_colour_choice_majority() {
    let mut ai = AiActor::new(1);
    ai.get_player_mut().take_card(number(Colour::Blue, 3));
    ai.get_player_mut().take_card(number(Colour::Blue, 4));
    ai.get_player_mut().take_card(number(Colour::Red, 1));
    assert_eq!(ai.get_color_choice(), Colour::Blue);
}

#[test]
fn test_ai_colour_choice_tie_prefers_later_colour() {
    let mut ai = AiActor::new(1);
    ai.get_player_mut().take_card(number(Colour::Red, 1));
    ai.get_player_mut().take_card(number(Colour::Yellow, 1));
    // Red and yellow are tied; the later colour in the fixed order
    // (red, green, blue, yellow) wins the tie.
    assert_eq!(ai.get_color_choice(), Colour::Yellow);
}

#[test]
fn test_ai_turn_action_progression() {
    let mut ai = AiActor::new(1);
    assert_eq!(ai.get_turn_action(), UserAction::Draw);
    ai.get_player_mut().take_card(number(Colour::Red, 1));
    ai.get_player_mut().take_card(number(Colour::Red, 2));
    ai.post_turn_action();
    assert_eq!(ai.get_turn_action(), UserAction::Play(0));
    assert_eq!(ai.get_turn_action(), UserAction::Play(1));
    assert_eq!(ai.get_turn_action(), UserAction::Draw);
    ai.post_turn_action();
    assert_eq!(ai.get_turn_action(), UserAction::Play(0));
}

#[test]
fn scenario_colour_match_play_validates() {
    // Two players, seven cards each; player 0's first two cards are a
    // Red 5 and a Blue 3, the active card is a Red 7.
    let mut draw: Vec<Card> = vec![number(Colour::Red, 5), number(Colour::Blue, 3)];
    let mut i = 0;
    while i < 12 {
        draw.push(number(Colour::Green, 9));
        i += 1;
    }
    let deck = Deck::from_piles(draw, vec![number(Colour::Red, 7)]);
    let mut game = Game::new_with_deck(2, 7, deck);
    game.deal_cards_to_players();
    let player = game.get_actor(0).get_player();
    assert_eq!(player.get_card(0), Ok(&number(Colour::Red, 5)));
    assert_eq!(
        game.get_player_action(player, UserAction::Play(0)),
        Ok(GameAction::PlayerPlaysCard(0)),
        "a colour match is a legal play"
    );
    assert_eq!(
        game.get_player_action(player, UserAction::Play(1)),
        Err(Error::InvalidPlay),
        "a card matching neither colour nor value is rejected"
    );
}

#[test]
fn scenario_skip_passes_over_next_seat() {
    // Three seats, two cards each, clockwise; seat 0 opens with a Red
    // Skip on a Red 7.
    let draw = vec![
        Card { colour: Colour::Red, value: Value::Skip },
        number(Colour::Green, 1),
        number(Colour::Green, 2),
        number(Colour::Green, 3),
        number(Colour::Green, 4),
        number(Colour::Green, 5),
    ];
    let deck = Deck::from_piles(draw, vec![number(Colour::Red, 7)]);
    let mut game = Game::new_with_deck(3, 2, deck);
    game.run_game_phase(GameState::Init, None, None);
    assert_eq!(game.get_state(), GameState::TurnStarts);
    game.run_game_phase(GameState::TurnStarts, None, None);
    assert_eq!(game.get_state(), GameState::GetPlayerAction);
    game.run_game_phase(GameState::GetPlayerAction, Some(UserAction::Play(0)), None);
    assert_eq!(
        game.get_state(),
        GameState::ExecutePlayerAction(GameAction::PlayerPlaysCard(0))
    );
    let state = game.get_state();
    game.run_game_phase(state, None, None);
    assert_eq!(game.get_state(), GameState::EndTurn);
    game.run_game_phase(GameState::EndTurn, None, None);
    assert_eq!(game.get_state(), GameState::TurnStarts);
    assert_eq!(
        game.get_current_actor().get_id(),
        2,
        "the skip passes the turn from seat 0 directly to seat 2"
    );
}

#[test]
fn scenario_wild_draw_four_feeds_next_seat_then_asks_colour() {
    // Two seats, one card each, with four more cards for the forced draw.
    let draw = vec![
        Card { colour: Colour::Wild, value: Value::WildDraw(4) },
        number(Colour::Green, 1),
        number(Colour::Green, 2),
        number(Colour::Green, 3),
        number(Colour::Green, 4),
        number(Colour::Green, 5),
    ];
    let deck = Deck::from_piles(draw, vec![number(Colour::Red, 7)]);
    let mut game = Game::new_with_deck(2, 1, deck);
    game.run_game_phase(GameState::Init, None, None);
    game.run_game_phase(GameState::TurnStarts, None, None);
    game.run_game_phase(GameState::GetPlayerAction, Some(UserAction::Play(0)), None);
    let state = game.get_state();
    game.run_game_phase(state, None, None);
    assert_eq!(
        game.get_state(),
        GameState::ChooseColour,
        "a played wild card asks its player for a colour before the turn ends"
    );
    assert_eq!(
        game.get_actor(1).get_player().get_number_of_cards(),
        5,
        "the next seat drew four cards on top of its single dealt card"
    );
    // The number of cards in play never changes: 7 at the start, 7 now.
    let on_piles = game.get_deck().number_of_cards_in_draw_pile()
        + game.get_deck().number_of_cards_in_discard_pile();
    let in_hands = game.get_actor(0).get_player().get_number_of_cards()
        + game.get_actor(1).get_player().get_number_of_cards();
    assert_eq!(on_piles + in_hands, 7);
    game.run_game_phase(GameState::ChooseColour, None, Some(Colour::Green));
    assert_eq!(game.get_state(), GameState::EndTurn);
    assert_eq!(game.get_deck().get_top_card().unwrap().colour, Colour::Green);
}

#[test]
fn scenario_draw_twice_refills_from_discard() {
    // One seat, nothing dealt: the draw pile holds a single card and the
    // discard pile five.
    let discard = vec![
        number(Colour::Green, 1),
        number(Colour::Green, 2),
        number(Colour::Green, 3),
        number(Colour::Green, 4),
        number(Colour::Red, 9),
    ];
    let deck = Deck::from_piles(vec![number(Colour::Blue, 8)], discard);
    let mut game = Game::new_with_deck(1, 0, deck);
    let first = game.execute_player_action(0, &GameAction::PlayerDraw);
    assert_eq!(first, Ok(GameAction::PlayerDraw));
    assert_eq!(game.get_deck().number_of_cards_in_draw_pile(), 0);
    let second = game.execute_player_action(0, &GameAction::PlayerDraw);
    assert_eq!(second, Ok(GameAction::PlayerDraw), "the second draw succeeds after a refill");
    assert_eq!(game.get_actor(0).get_player().get_number_of_cards(), 2);
    assert_eq!(game.get_deck().number_of_cards_in_draw_pile(), 3);
    assert_eq!(game.get_deck().number_of_cards_in_discard_pile(), 1);
    assert_eq!(
        game.get_deck().get_top_card().unwrap(),
        &number(Colour::Red, 9),
        "the refill keeps the active card in place"
    );
}

#[test]
fn scenario_winning_play_ends_game_without_advancing() {
    // Two seats, one card each; seat 0's only card matches the active
    // card, so playing it empties the hand.
    let draw = vec![number(Colour::Red, 5), number(Colour::Green, 1)];
    let deck = Deck::from_piles(draw, vec![number(Colour::Red, 7)]);
    let mut game = Game::new_with_deck(2, 1, deck);
    game.run_game_phase(GameState::Init, None, None);
    game.run_game_phase(GameState::TurnStarts, None, None);
    game.run_game_phase(GameState::GetPlayerAction, Some(UserAction::Play(0)), None);
    let state = game.get_state();
    game.run_game_phase(state, None, None);
    assert_eq!(game.get_state(), GameState::EndTurn);
    assert!(game.has_player_won(0));
    game.run_game_phase(GameState::EndTurn, None, None);
    assert_eq!(game.get_state(), GameState::EndGame);
    assert_eq!(
        game.get_current_actor().get_id(),
        0,
        "the cursor stays on the winning seat"
    );
    game.run_game_phase(GameState::EndGame, None, None);
    assert_eq!(game.get_state(), GameState::End);
}

#[test]
fn test_invalid_play_changes_nothing_however_often() {
    // Seat 0 holds only a Blue 3 against a Red 7: every attempt to play
    // it is rejected and the game does not move.
    let draw = vec![number(Colour::Blue, 3), number(Colour::Green, 1)];
    let deck = Deck::from_piles(draw, vec![number(Colour::Red, 7)]);
    let mut game = Game::new_with_deck(2, 1, deck);
    game.run_game_phase(GameState::Init, None, None);
    game.run_game_phase(GameState::TurnStarts, None, None);
    let mut attempt = 0;
    while attempt < 3 {
        game.run_game_phase(GameState::GetPlayerAction, Some(UserAction::Play(0)), None);
        assert_eq!(game.get_state(), GameState::GetPlayerAction, "an invalid play re-prompts");
        assert_eq!(game.get_current_actor().get_id(), 0);
        assert_eq!(game.get_actor(0).get_player().get_number_of_cards(), 1);
        assert_eq!(game.get_deck().number_of_cards_in_draw_pile(), 0);
        assert_eq!(game.get_deck().number_of_cards_in_discard_pile(), 1);
        attempt += 1;
    }
}

#[test]
fn test_reverse_flips_direction_and_wraps_at_zero() {
    // Three seats; seat 0 plays a Red Reverse, so the turn runs
    // counter-clockwise and wraps from seat 0 to the last seat.
    let draw = vec![
        Card { colour: Colour::Red, value: Value::Reverse },
        number(Colour::Green, 1),
        number(Colour::Green, 2),
        number(Colour::Green, 3),
        number(Colour::Green, 4),
        number(Colour::Green, 5),
    ];
    let deck = Deck::from_piles(draw, vec![number(Colour::Red, 7)]);
    let mut game = Game::new_with_deck(3, 2, deck);
    game.run_game_phase(GameState::Init, None, None);
    game.run_game_phase(GameState::TurnStarts, None, None);
    game.run_game_phase(GameState::GetPlayerAction, Some(UserAction::Play(0)), None);
    let state = game.get_state();
    game.run_game_phase(state, None, None);
    game.run_game_phase(GameState::EndTurn, None, None);
    assert_eq!(
        game.get_current_actor().get_id(),
        2,
        "counter-clockwise from seat 0 wraps to the last seat"
    );
}

#[test]
fn test_execute_draw_fails_when_no_cards_anywhere() {
    let deck = Deck::from_piles(Vec::new(), Vec::new());
    let mut game = Game::new_with_deck(1, 0, deck);
    assert_eq!(
        game.execute_player_action(0, &GameAction::PlayerDraw),
        Err(Error::DrawPileIsEmpty)
    );
}

#[test]
fn test_execute_play_with_bad_index_is_unknown_error() {
    let deck = Deck::from_piles(Vec::new(), Vec::new());
    let mut game = Game::new_with_deck(1, 0, deck);
    assert_eq!(
        game.execute_player_action(0, &GameAction::PlayerPlaysCard(5)),
        Err(Error::Unknown)
    );
}

#[test]
fn test_draw_two_feeds_next_seat_best_effort() {
    // Seat 0 plays a Draw Two, but only one card can be drawn: the next
    // seat keeps the one card it got.
    let draw = vec![
        Card { colour: Colour::Red, value: Value::DrawTwo },
        number(Colour::Green, 1),
        number(Colour::Green, 2),
    ];
    let deck = Deck::from_piles(draw, vec![number(Colour::Red, 7)]);
    let mut game = Game::new_with_deck(2, 1, deck);
    game.deal_cards_to_players();
    // One card is left on the draw pile; the discard pile has only the
    // active card, so a refill cannot provide the second card.
    let result = game.execute_player_action(0, &GameAction::PlayerPlaysCard(0));
    assert_eq!(result, Ok(GameAction::NoAction));
    assert_eq!(
        game.get_actor(1).get_player().get_number_of_cards(),
        2,
        "the next seat got one dealt card and one of the two demanded cards"
    );
    assert_eq!(
        game.get_deck().get_top_card().unwrap(),
        &Card { colour: Colour::Red, value: Value::DrawTwo },
        "the played card becomes the active card"
    );
}

#[test]
fn test_card_conservation_over_a_full_turn() {
    // The 108-card total is preserved across dealing, playing and
    // drawing.
    let mut game = Game::new(2, 7);
    let count = |game: &Game| {
        game.get_deck().number_of_cards_in_draw_pile()
            + game.get_deck().number_of_cards_in_discard_pile()
            + game.get_actor(0).get_player().get_number_of_cards()
            + game.get_actor(1).get_player().get_number_of_cards()
    };
    assert_eq!(count(&game), 108);
    game.deal_cards_to_players();
    assert_eq!(count(&game), 108);
    let _ = game.execute_player_action(0, &GameAction::PlayerDraw);
    assert_eq!(count(&game), 108);
}
