use love_letter::Card;

#[test]
fn card_test_name() {
    let guard = Card::Guard;
    let priest = Card::Priest;

    assert_eq!("Guard", guard.name());
    assert_eq!("Priest", priest.name());
}

#[test]
fn test_clone() {
    let baron = Card::Baron;
    let junior = baron.clone();

    assert!(baron.is_same_card(&junior));
}

#[test]
fn ranks_follow_the_listed_order() {
    let all = [
        Card::Guard,
        Card::Priest,
        Card::Baron,
        Card::Handmaid,
        Card::Prince,
        Card::King,
        Card::Countess,
        Card::Princess,
    ];
    for (i, card) in all.iter().enumerate() {
        assert_eq!(i as u8 + 1, card.value());
    }
    for pair in all.windows(2) {
        assert!(pair[0] < pair[1]);
        assert!(!pair[0].has_same_value(&pair[1]));
        assert!(!pair[0].is_same_card(&pair[1]));
    }
    assert!(Card::King.has_same_value(&Card::King));
    assert_eq!("Princess", Card::Princess.name());
    assert_eq!("Handmaid", Card::Handmaid.name());
}
