use love_letter::{Card, CardAction, Deck, Game, GameBuilder, LoveLetterError, Messenger, Player};

/// Keeps every message with its recipient, `None` for all players.
struct Recorder {
    sent: Vec<(Option<String>, String)>,
}

impl Recorder {
    fn new() -> Recorder {
        Recorder { sent: Vec::new() }
    }

    fn broadcast(&self, text: &str) -> bool {
        self.sent.iter().any(|(to, msg)| to.is_none() && msg == text)
    }
}

impl Messenger for Recorder {
    fn message(&mut self, player: Option<&Player>, msg: &str) {
        self.sent.push((player.map(|p| p.name().to_string()), msg.to_string()));
    }
}

/// A round dealt from `cards` in order: one card per seat, the next set
/// aside, the next drawn by seat 0.
fn game_with(num_players: usize, cards: Vec<Card>) -> Game {
    GameBuilder::new().num_players(num_players).deck(Deck::new(cards)).build().unwrap()
}

fn hand(game: &Game, seat: usize) -> Vec<Card> {
    game.player(seat).unwrap().hand().clone()
}

fn discards(game: &Game, seat: usize) -> Vec<Card> {
    game.player(seat).unwrap().discards().clone()
}

/// The draw that starts the current player's turn.
fn start_turn(game: &mut Game) -> Option<Card> {
    game.draw_card()
}

fn play(
    game: &mut Game,
    messenger: &mut Recorder,
    card: Card,
    current: usize,
    target: Option<usize>,
    guess: Option<Card>,
) -> Result<(), LoveLetterError> {
    game.perform_action(CardAction::new(card, current, target, guess), messenger)
}

/// Everything that can be seen of a round.
fn snapshot(game: &Game) -> (Vec<(Vec<Card>, Vec<Card>)>, Vec<Card>, Option<Card>, usize, Vec<bool>, Vec<bool>) {
    let n = game.table().num_players();
    (
        (0..n).map(|i| (hand(game, i), discards(game, i))).collect(),
        game.table().deck().remaining_cards(),
        game.table().out_card(),
        game.current_player(),
        (0..n).map(|i| game.is_active(i)).collect(),
        (0..n).map(|i| game.is_protected(i)).collect(),
    )
}

fn invariant_holds(game: &Game) -> bool {
    let n = game.table().num_players();
    game.is_active(game.current_player())
        && (0..n).all(|i| !game.is_protected(i) || game.is_active(i))
}

#[test]
fn dealing_follows_the_deck_order() {
    let mut game = game_with(
        3,
        vec![Card::Guard, Card::Priest, Card::Baron, Card::Princess, Card::King, Card::Countess],
    );
    assert_eq!(vec![Card::Guard], hand(&game, 0));
    assert_eq!(vec![Card::Priest], hand(&game, 1));
    assert_eq!(vec![Card::Baron], hand(&game, 2));
    assert_eq!(Some(Card::Princess), game.table().out_card());
    assert_eq!(vec![Card::King, Card::Countess], game.table().deck().remaining_cards());
    assert_eq!(0, game.current_player());
    assert_eq!(3, game.num_active());
    assert!(!game.is_round_over());

    assert_eq!(Some(Card::King), start_turn(&mut game));
    assert_eq!(vec![Card::Guard, Card::King], hand(&game, 0));
    assert_eq!(vec![Card::Countess], game.table().deck().remaining_cards());
    // A second draw in the same turn does nothing.
    assert_eq!(None, start_turn(&mut game));
    assert_eq!(vec![Card::Guard, Card::King], hand(&game, 0));
}

#[test]
fn default_build_deals_from_a_full_deck() {
    let game = GameBuilder::default().build().unwrap();
    assert_eq!(4, game.table().num_players());
    for seat in 0..4 {
        assert_eq!(1, hand(&game, seat).len());
    }
    assert_eq!(16 - 5, game.table().deck().cards_remaining());
    assert!(game.table().out_card().is_some());
}

#[test]
fn build_rejects_bad_setups() {
    let five = GameBuilder::new().num_players(5).build();
    assert_eq!(LoveLetterError::InvalidNumberOfPlayers(5), five.unwrap_err());
    let small = GameBuilder::new()
        .num_players(3)
        .deck(Deck::new(vec![Card::Guard, Card::Guard, Card::Guard]))
        .build();
    assert_eq!(LoveLetterError::InternalErrorUnexpectedEmptyDeck, small.unwrap_err());
}

#[test]
fn playing_before_drawing_is_rejected() {
    let mut game = game_with(
        3,
        vec![Card::Countess, Card::Priest, Card::Baron, Card::Princess, Card::King, Card::Guard],
    );
    let mut messages = Recorder::new();
    let before = snapshot(&game);
    assert_eq!(
        Err(LoveLetterError::BadActionMustDrawFirst),
        play(&mut game, &mut messages, Card::Countess, 0, None, None)
    );
    assert_eq!(before, snapshot(&game));
    assert!(messages.sent.is_empty());
}

#[test]
fn guard_guessing_right_eliminates_target() {
    let mut game = game_with(
        4,
        vec![Card::Guard, Card::Baron, Card::Priest, Card::Priest, Card::Countess, Card::King, Card::Guard],
    );
    let mut messages = Recorder::new();
    start_turn(&mut game);
    play(&mut game, &mut messages, Card::Guard, 0, Some(1), Some(Card::Baron)).unwrap();
    assert!(!game.is_active(1));
    assert!(game.is_active(0));
    assert_eq!(
        vec![
            (None, "Player 0 discards a Guard".to_string()),
            (None, "Player 0 guesses that Player 1 has a Baron".to_string()),
            (None, "Player 1 has a Baron and is out!".to_string()),
        ],
        messages.sent
    );
    assert_eq!(vec![Card::Guard], discards(&game, 0));
    assert_eq!(vec![Card::King], hand(&game, 0));
    // The turn skips the eliminated seat; the next seat has not drawn yet.
    assert_eq!(2, game.current_player());
    assert_eq!(vec![Card::Priest], hand(&game, 2));
    assert_eq!(Some(Card::Guard), start_turn(&mut game));
}

#[test]
fn guard_guessing_wrong_does_nothing() {
    let mut game = game_with(
        3,
        vec![Card::Guard, Card::Baron, Card::Priest, Card::Countess, Card::King, Card::Guard],
    );
    let mut messages = Recorder::new();
    start_turn(&mut game);
    play(&mut game, &mut messages, Card::Guard, 0, Some(1), Some(Card::Prince)).unwrap();
    assert!(game.is_active(1));
    assert!(messages.broadcast("Player 1 does not have a Prince"));
    assert_eq!(1, game.current_player());
}

#[test]
fn baron_eliminates_the_lower_card() {
    let mut game = game_with(
        4,
        vec![Card::Baron, Card::Priest, Card::Guard, Card::Guard, Card::Countess, Card::Prince, Card::Guard],
    );
    let mut messages = Recorder::new();
    start_turn(&mut game);
    play(&mut game, &mut messages, Card::Baron, 0, Some(1), None).unwrap();
    assert!(!game.is_active(1));
    assert!(game.is_active(0));
    assert_eq!(vec![Card::Prince], hand(&game, 0));
    assert_eq!(3, game.num_active());
    assert!(messages.broadcast("Player 0 plays a Baron on Player 1"));
    assert!(messages.broadcast("Player 1 showed a Priest and is out."));
}

#[test]
fn baron_ending_the_round_leaves_the_winner_alone() {
    let mut game = game_with(
        3,
        vec![
            Card::Guard,
            Card::Priest,
            Card::Baron,
            Card::Countess,
            Card::Baron,
            Card::Countess,
            Card::Prince,
            Card::King,
            Card::Guard,
        ],
    );
    let mut messages = Recorder::new();
    start_turn(&mut game);
    play(&mut game, &mut messages, Card::Guard, 0, Some(2), Some(Card::Baron)).unwrap();
    start_turn(&mut game);
    play(&mut game, &mut messages, Card::Countess, 1, None, None).unwrap();
    // Seat 0 holds the Baron and draws the Prince; seat 1 holds the Priest.
    assert_eq!(Some(Card::Prince), start_turn(&mut game));
    play(&mut game, &mut messages, Card::Baron, 0, Some(1), None).unwrap();
    assert!(!game.is_active(1));
    assert_eq!(vec![Card::Prince], hand(&game, 0));
    assert_eq!(vec![Card::King, Card::Guard], game.table().deck().remaining_cards());
    assert!(game.is_round_over());
    assert_eq!(None, start_turn(&mut game));
    assert_eq!(vec![Card::Prince], hand(&game, 0));
}

#[test]
fn baron_eliminates_the_player_with_the_lower_card() {
    let mut game = game_with(
        3,
        vec![Card::Baron, Card::King, Card::Guard, Card::Countess, Card::Priest, Card::Guard],
    );
    let mut messages = Recorder::new();
    start_turn(&mut game);
    play(&mut game, &mut messages, Card::Baron, 0, Some(1), None).unwrap();
    assert!(!game.is_active(0));
    assert!(game.is_active(1));
    assert_eq!(1, game.current_player());
}

#[test]
fn baron_with_equal_cards_eliminates_nobody() {
    let mut game = game_with(
        4,
        vec![Card::Baron, Card::Guard, Card::Priest, Card::Priest, Card::Countess, Card::Guard, Card::King],
    );
    let mut messages = Recorder::new();
    start_turn(&mut game);
    play(&mut game, &mut messages, Card::Baron, 0, Some(1), None).unwrap();
    assert!(game.is_active(0));
    assert!(game.is_active(1));
    assert_eq!(4, game.num_active());
    assert!(messages.broadcast("Boingy, boingy, boingy. (The cards are equal.)"));
}

#[test]
fn handmaid_protects_until_next_turn() {
    let mut game = game_with(
        4,
        vec![
            Card::Guard,
            Card::Guard,
            Card::Guard,
            Card::Baron,
            Card::Princess,
            Card::Countess,
            Card::Countess,
            Card::Handmaid,
            Card::Guard,
            Card::Priest,
            Card::Priest,
            Card::King,
        ],
    );
    let mut messages = Recorder::new();
    start_turn(&mut game);
    play(&mut game, &mut messages, Card::Countess, 0, None, None).unwrap();
    start_turn(&mut game);
    play(&mut game, &mut messages, Card::Countess, 1, None, None).unwrap();
    start_turn(&mut game);
    play(&mut game, &mut messages, Card::Handmaid, 2, None, None).unwrap();
    assert!(game.is_protected(2));
    assert!(messages.broadcast("Player 2 is safe."));
    assert_eq!(3, game.current_player());

    start_turn(&mut game);
    let before = snapshot(&game);
    let sent = messages.sent.len();
    assert_eq!(
        Err(LoveLetterError::BadActionTargetingProtected(2)),
        play(&mut game, &mut messages, Card::Baron, 3, Some(2), None)
    );
    assert_eq!(
        Err(LoveLetterError::BadActionTargetingProtected(2)),
        play(&mut game, &mut messages, Card::Guard, 3, Some(2), Some(Card::Guard))
    );
    assert_eq!(before, snapshot(&game));
    assert_eq!(sent, messages.sent.len());

    // Seat 3 targets someone else; the protection lasts through seats 0
    // and 1 and lapses when seat 2's turn comes round.
    play(&mut game, &mut messages, Card::Guard, 3, Some(0), Some(Card::King)).unwrap();
    assert!(game.is_protected(2));
    start_turn(&mut game);
    play(&mut game, &mut messages, Card::Guard, 0, Some(1), Some(Card::King)).unwrap();
    assert!(game.is_protected(2));
    start_turn(&mut game);
    play(&mut game, &mut messages, Card::Guard, 1, Some(0), Some(Card::King)).unwrap();
    assert_eq!(2, game.current_player());
    assert!(!game.is_protected(2));
}

#[test]
fn wrong_player_is_rejected_without_change() {
    let mut game = game_with(
        4,
        vec![Card::Guard, Card::Priest, Card::Baron, Card::Priest, Card::Countess, Card::King, Card::Guard],
    );
    let mut messages = Recorder::new();
    start_turn(&mut game);
    let before = snapshot(&game);
    assert_eq!(
        Err(LoveLetterError::BadActionNotCurrentPlayer(3)),
        play(&mut game, &mut messages, Card::Priest, 3, Some(1), None)
    );
    assert_eq!(before, snapshot(&game));
    assert!(messages.sent.is_empty());
}

#[test]
fn exhausted_supply_ends_the_round() {
    let mut game = game_with(3, vec![Card::Guard, Card::Priest, Card::Baron, Card::Princess, Card::Countess]);
    let mut messages = Recorder::new();
    assert!(!game.is_round_over());
    assert_eq!(Some(Card::Countess), start_turn(&mut game));
    assert!(game.is_deck_empty());
    assert!(!game.is_round_over());
    play(&mut game, &mut messages, Card::Guard, 0, Some(2), Some(Card::Baron)).unwrap();
    assert_eq!(2, game.num_active());
    assert_eq!(1, game.current_player());
    // Seat 1 cannot draw: the supply is exhausted.
    assert_eq!(None, start_turn(&mut game));
    assert_eq!(vec![Card::Priest], hand(&game, 1));
    assert!(game.is_deck_empty());
    assert!(game.is_round_over());

    let before = snapshot(&game);
    assert_eq!(
        Err(LoveLetterError::BadActionRoundOver),
        play(&mut game, &mut messages, Card::Priest, 1, Some(0), None)
    );
    assert_eq!(before, snapshot(&game));
}

#[test]
fn round_ends_with_one_player_left() {
    let mut game = game_with(
        3,
        vec![Card::Baron, Card::Guard, Card::Guard, Card::Countess, Card::Prince, Card::Handmaid, Card::King],
    );
    let mut messages = Recorder::new();
    start_turn(&mut game);
    play(&mut game, &mut messages, Card::Baron, 0, Some(1), None).unwrap();
    assert_eq!(2, game.num_active());
    assert_eq!(2, game.current_player());
    start_turn(&mut game);
    play(&mut game, &mut messages, Card::Guard, 2, Some(0), Some(Card::Prince)).unwrap();
    assert_eq!(1, game.num_active());
    assert!(game.is_active(2));
    assert!(game.is_round_over());
    // The survivor does not draw once the round is over.
    assert_eq!(None, start_turn(&mut game));
    assert_eq!(vec![Card::Handmaid], hand(&game, 2));
}

#[test]
fn invariant_holds_after_each_action() {
    let mut game = game_with(
        4,
        vec![
            Card::Guard,
            Card::Priest,
            Card::Baron,
            Card::Handmaid,
            Card::Countess,
            Card::Prince,
            Card::King,
            Card::Guard,
            Card::Guard,
            Card::Princess,
            Card::Priest,
            Card::Guard,
        ],
    );
    let mut messages = Recorder::new();
    assert!(invariant_holds(&game));
    let actions = [
        (Card::Guard, 0, Some(1), Some(Card::Priest)),
        (Card::Baron, 2, Some(3), None),
        (Card::Handmaid, 3, None, None),
        (Card::Prince, 0, Some(0), None),
        (Card::King, 2, Some(0), None),
    ];
    for (card, current, target, guess) in actions {
        start_turn(&mut game);
        assert!(invariant_holds(&game));
        let before = snapshot(&game);
        let result = play(&mut game, &mut messages, card, current, target, guess);
        if result.is_err() {
            assert_eq!(before, snapshot(&game));
        }
        assert!(invariant_holds(&game));
    }
    assert!(!game.is_active(1));
}

#[test]
fn prince_makes_the_target_discard_and_draw() {
    let mut game = game_with(
        3,
        vec![Card::Prince, Card::Baron, Card::Guard, Card::Countess, Card::Guard, Card::King, Card::Priest],
    );
    let mut messages = Recorder::new();
    start_turn(&mut game);
    play(&mut game, &mut messages, Card::Prince, 0, Some(1), None).unwrap();
    assert_eq!(vec![Card::Baron], discards(&game, 1));
    assert_eq!(vec![Card::King], hand(&game, 1));
    assert!(messages.broadcast("Player 1 discards a Baron."));
    assert_eq!(1, game.current_player());
}

#[test]
fn prince_forcing_the_princess_eliminates_the_target() {
    let mut game = game_with(
        3,
        vec![Card::Prince, Card::Princess, Card::Guard, Card::Countess, Card::Guard, Card::King, Card::Priest],
    );
    let mut messages = Recorder::new();
    start_turn(&mut game);
    play(&mut game, &mut messages, Card::Prince, 0, Some(1), None).unwrap();
    assert!(!game.is_active(1));
    assert_eq!(vec![Card::Princess], discards(&game, 1));
    assert!(hand(&game, 1).is_empty());
    assert!(messages.broadcast("Player 1 is out!"));
}

#[test]
fn prince_on_self_with_empty_supply_takes_the_set_aside_card() {
    let mut game = game_with(3, vec![Card::Prince, Card::Guard, Card::Guard, Card::Countess, Card::Baron]);
    let mut messages = Recorder::new();
    start_turn(&mut game);
    assert!(game.is_deck_empty());
    play(&mut game, &mut messages, Card::Prince, 0, Some(0), None).unwrap();
    assert_eq!(vec![Card::Prince, Card::Baron], discards(&game, 0));
    assert_eq!(vec![Card::Countess], hand(&game, 0));
    assert_eq!(None, game.table().out_card());
}

#[test]
fn king_swaps_hands() {
    let mut game = game_with(
        3,
        vec![Card::King, Card::Guard, Card::Priest, Card::Countess, Card::Baron, Card::Handmaid],
    );
    let mut messages = Recorder::new();
    start_turn(&mut game);
    play(&mut game, &mut messages, Card::King, 0, Some(2), None).unwrap();
    assert_eq!(vec![Card::Priest], hand(&game, 0));
    assert_eq!(vec![Card::Baron], hand(&game, 2));
    assert!(messages.broadcast("Player 0 and Player 2 swap hands."));
}

#[test]
fn priest_reveals_only_to_the_acting_player() {
    let mut game = game_with(
        3,
        vec![Card::Priest, Card::King, Card::Guard, Card::Countess, Card::Baron, Card::Handmaid],
    );
    let mut messages = Recorder::new();
    start_turn(&mut game);
    play(&mut game, &mut messages, Card::Priest, 0, Some(1), None).unwrap();
    assert_eq!(
        vec![
            (None, "Player 0 discards a Priest".to_string()),
            (None, "Player 0 plays a Priest on Player 1".to_string()),
            (None, "Player 1 shows his card to Player 0".to_string()),
            (Some("1".to_string()), "Player 1 shows you a King".to_string()),
        ],
        messages.sent
    );
    assert_eq!(3, game.num_active());
}

#[test]
fn princess_played_eliminates_the_player() {
    let mut game = game_with(
        3,
        vec![Card::Princess, Card::King, Card::Guard, Card::Countess, Card::Baron, Card::Handmaid],
    );
    let mut messages = Recorder::new();
    start_turn(&mut game);
    play(&mut game, &mut messages, Card::Princess, 0, None, None).unwrap();
    assert!(!game.is_active(0));
    assert_eq!(1, game.current_player());
    assert!(messages.broadcast("Player 0 is out!"));
}

#[test]
fn actions_need_the_card_a_seat_and_the_card_rules() {
    let mut game = game_with(
        3,
        vec![Card::Guard, Card::King, Card::Priest, Card::Countess, Card::Baron, Card::Handmaid],
    );
    let mut messages = Recorder::new();
    start_turn(&mut game);
    assert_eq!(
        Err(LoveLetterError::InvalidPlayerNumber(7)),
        play(&mut game, &mut messages, Card::Guard, 7, Some(1), Some(Card::King))
    );
    assert_eq!(
        Err(LoveLetterError::BadActionPlayerDoesntHaveCard(0, Card::Prince)),
        play(&mut game, &mut messages, Card::Prince, 0, Some(1), None)
    );
    assert_eq!(
        Err(LoveLetterError::BadActionMissingGuess),
        play(&mut game, &mut messages, Card::Guard, 0, Some(1), None)
    );
    assert_eq!(
        Err(LoveLetterError::BadActionMissingTarget),
        play(&mut game, &mut messages, Card::Baron, 0, None, None)
    );
    assert_eq!(
        Err(LoveLetterError::BadActionCannotTargetSelf),
        play(&mut game, &mut messages, Card::Baron, 0, Some(0), None)
    );
    assert_eq!(0, game.current_player());
    assert_eq!(vec![Card::Guard, Card::Baron], hand(&game, 0));
    assert!(messages.sent.is_empty());
}

#[test]
fn seat_numbers_are_written_in_decimal() {
    assert_eq!("Player 0", love_letter::game::narration::player_label(0));
    assert_eq!("Player 3", love_letter::game::narration::player_label(3));
    assert_eq!("Player 1207", love_letter::game::narration::player_label(1207));
    assert_eq!("10", love_letter::game::narration::decimal_text(10));
}
