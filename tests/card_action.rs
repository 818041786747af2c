use love_letter::{Card, CardAction, LoveLetterError};

#[test]
fn card_action_test_basic() {
    let action = CardAction::new(Card::Baron, 1, None, None);
    assert_eq!(Card::Baron, action.card());
    assert_eq!(1, action.current());
    assert!(action.target().is_err());
    assert!(action.guess().is_err());

    let full_action = CardAction::new(Card::Prince, 3, Some(2), Some(Card::Princess));
    assert_eq!(Card::Prince, full_action.card());
    assert_eq!(3, full_action.current());
    assert_eq!(2, full_action.target().unwrap());
    assert_eq!(Card::Princess, full_action.guess().unwrap());
}

#[test]
fn missing_target_and_guess_are_typed_errors() {
    let action = CardAction::new(Card::Guard, 0, None, None);
    assert_eq!(Err(LoveLetterError::BadActionMissingTarget), action.target());
    assert_eq!(Err(LoveLetterError::BadActionMissingGuess), action.guess());
}
