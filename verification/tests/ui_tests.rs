use uno_engine::actor::UserAction;
use uno_engine::card::Colour;
use uno_engine::ui::{check_colour_input, check_turn_action_input};

#[test]
fn test_check_turn_action_input_ok_index() {
    assert_eq!(check_turn_action_input("1"), Ok(UserAction::Play(1)));
    assert_eq!(check_turn_action_input("001"), Ok(UserAction::Play(1)));
    assert_eq!(check_turn_action_input(" 1 "), Ok(UserAction::Play(1)));
}

#[test]
fn test_check_turn_action_input_ok_draw() {
    assert_eq!(check_turn_action_input("d"), Ok(UserAction::Draw));
}

#[test]
fn test_check_turn_action_input_err() {
    assert_eq!(check_turn_action_input("a"), Err(()));
}

#[test]
fn test_check_turn_action_input_signed_and_large() {
    assert_eq!(check_turn_action_input("+5"), Ok(UserAction::Play(5)));
    assert_eq!(check_turn_action_input(""), Err(()));
    assert_eq!(check_turn_action_input("+"), Err(()));
    assert_eq!(check_turn_action_input("1 2"), Err(()));
    assert_eq!(
        check_turn_action_input("99999999999999999999999999999999"),
        Err(()),
        "a number too large for the machine is rejected, as it cannot name a hand index"
    );
}

#[test]
fn test_check_colour_input_ok() {
    assert_eq!(check_colour_input("r"), Ok(Colour::Red));
    assert_eq!(check_colour_input("g"), Ok(Colour::Green));
    assert_eq!(check_colour_input("b"), Ok(Colour::Blue));
    assert_eq!(check_colour_input("y"), Ok(Colour::Yellow));
}

#[test]
fn test_check_colour_input_err() {
    assert_eq!(check_colour_input("a"), Err(()));
}
