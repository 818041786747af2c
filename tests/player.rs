use love_letter::{Card, LoveLetterError, Player};

#[test]
fn player_test_name() {
    let name = "Dwigt";
    let player = Player::with_name(name);
    assert_eq!(name, player.name());
}

#[test]
fn test_add_card() {
    let b = Card::Baron;
    let mut player = Player::with_name("Guilty Joe");
    player.add_card_to_hand(Card::Baron);
    assert!(player.card_in_hand().unwrap().is_same_card(&b));
}

#[test]
fn test_card_in_hand() {
    let mut player = Player::with_name("Merrywinkle");
    let baron = Card::Baron;
    let princess = Card::Princess;

    assert!(player.card_in_hand().is_err());

    player.add_card_to_hand(Card::Princess);
    assert!(player.card_in_hand().is_ok());
    assert!(princess.is_same_card(&player.card_in_hand().unwrap()));
    assert!(!baron.is_same_card(&player.card_in_hand().unwrap()));

    player.add_card_to_hand(baron);
    assert!(player.card_in_hand().is_err());
}

#[test]
fn test_discard() {
    let mut player = Player::with_name("Bryce Wayne");

    player.add_card_to_hand(Card::Princess);
    assert!(player.card_in_hand().unwrap().is_same_card(&Card::Princess));
    assert!(player.discard(Card::Baron).is_err());
    assert_eq!(1, player.hand().len());
    assert_eq!(0, player.discards().len());
    player.discard(Card::Princess).unwrap();

    assert_eq!(0, player.hand().len());
    assert_eq!(1, player.discards().len());

    player.add_card_to_hand(Card::Baron);
    assert!(player.card_in_hand().unwrap().is_same_card(&Card::Baron));
    player.discard(Card::Baron).unwrap();

    assert_eq!(0, player.hand().len());
    assert_eq!(2, player.discards().len());

    assert!(player.discards().iter().find(|c| c.is_same_card(&Card::Princess)).is_some());
    assert!(player.discards().iter().find(|c| c.is_same_card(&Card::Baron)).is_some());
}

#[test]
fn card_in_hand_reports_the_count() {
    let mut player = Player::with_name("Ann");
    assert_eq!(Err(LoveLetterError::InvalidNumberOfCards(0)), player.card_in_hand());
    player.add_card_to_hand(Card::Guard);
    player.add_card_to_hand(Card::King);
    assert_eq!(Err(LoveLetterError::InvalidNumberOfCards(2)), player.card_in_hand());
}

#[test]
fn discard_takes_the_first_copy_only() {
    let mut player = Player::with_name("Bo");
    player.add_card_to_hand(Card::Guard);
    player.add_card_to_hand(Card::Priest);
    player.add_card_to_hand(Card::Guard);
    assert_eq!(Some(0), player.card_index(Card::Guard));
    assert_eq!(Some(1), player.card_index(Card::Priest));
    assert_eq!(None, player.card_index(Card::King));
    player.discard(Card::Guard).unwrap();
    assert_eq!(&vec![Card::Priest, Card::Guard], player.hand());
    assert_eq!(&vec![Card::Guard], player.discards());
    assert_eq!(
        Err(LoveLetterError::DiscardingCardNotInHand(Card::King)),
        player.discard(Card::King)
    );
    assert_eq!(&vec![Card::Priest, Card::Guard], player.hand());
}

#[test]
fn replace_hand_returns_the_old_hand() {
    let mut player = Player::with_name("Cy");
    player.add_card_to_hand(Card::Countess);
    let old = player.replace_hand(vec![Card::King]);
    assert_eq!(vec![Card::Countess], old);
    assert_eq!(&vec![Card::King], player.hand());
}
