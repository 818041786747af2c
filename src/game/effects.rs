use vstd::prelude::*;
use vstd::string::StringExecFns;

use crate::error::LoveLetterError;
use crate::game::card_action::CardAction;
use crate::game::card_rules::{allowed_result, CardRules};
use crate::game::model::{card_effect, effect_ready, may_target_self, needs_guess, needs_target};
use crate::game::narration::{card_narration, player_label, played_on_text, played_text, to_everyone};
use crate::game::Game;
use crate::messenger::Messenger;
use crate::state::card::Card;

verus! {

/// The rules of each card.
pub fn rules_for_card(card: Card) -> (r: CardRules)
    ensures
        r.spec_target_required() == needs_target(card),
        r.spec_current_allowed_as_target() == may_target_self(card),
        r.spec_guess_required() == needs_guess(card),
{
    match card {
        Card::Guard => CardRules::new(true, false, true),
        Card::Priest => CardRules::new(true, false, false),
        Card::Baron => CardRules::new(true, false, false),
        Card::Handmaid => CardRules::new(false, false, false),
        Card::Prince => CardRules::new(true, true, false),
        Card::King => CardRules::new(true, false, false),
        Card::Countess => CardRules::new(false, false, false),
        Card::Princess => CardRules::new(false, false, false),
    }
}

/// For every card, validating an action under the card's rules succeeds
/// when every check holds, and when exactly one check fails it reports that
/// check's error. The checks are: the actor is the current player; a needed
/// target is given; it is active; it is not protected; it is not the actor
/// unless the card allows that; a needed guess is given.
pub proof fn lemma_single_violation_reported(
    card: Card,
    action: CardAction,
    current: usize,
    active: Set<usize>,
    protected: Set<usize>,
)
    ensures
        ({
            let tr = needs_target(card);
            let t = action.spec_target().unwrap();
            let actor_ok = action.spec_current() == current;
            let present = !tr || action.spec_target() is Some;
            let has_t = tr && action.spec_target() is Some;
            let is_active = !has_t || active.contains(t);
            let unprotected = !has_t || !protected.contains(t);
            let not_self = !has_t || may_target_self(card) || t != current;
            let guessed = !needs_guess(card) || action.spec_guess() is Some;
            let result = allowed_result(
                tr,
                may_target_self(card),
                needs_guess(card),
                action,
                current,
                active,
                protected,
            );
            &&& actor_ok && present && is_active && unprotected && not_self && guessed ==> result
                == Ok::<(), LoveLetterError>(())
            &&& !actor_ok && present && is_active && unprotected && not_self && guessed ==> result
                == Err::<(), LoveLetterError>(
                LoveLetterError::BadActionNotCurrentPlayer(action.spec_current()),
            )
            &&& actor_ok && !present && guessed ==> result == Err::<(), LoveLetterError>(
                LoveLetterError::BadActionMissingTarget,
            )
            &&& actor_ok && present && !is_active && unprotected && not_self && guessed ==> result
                == Err::<(), LoveLetterError>(LoveLetterError::BadActionTargetingInactive(t))
            &&& actor_ok && present && is_active && !unprotected && not_self && guessed ==> result
                == Err::<(), LoveLetterError>(LoveLetterError::BadActionTargetingProtected(t))
            &&& actor_ok && present && is_active && unprotected && !not_self && guessed ==> result
                == Err::<(), LoveLetterError>(LoveLetterError::BadActionCannotTargetSelf)
            &&& actor_ok && present && is_active && unprotected && not_self && !guessed ==> result
                == Err::<(), LoveLetterError>(LoveLetterError::BadActionMissingGuess)
        }),
{
}

/// Applies the effect of the action's card, its card already discarded.
pub fn perform_card_action<M: Messenger>(
    action: &CardAction,
    game: &mut Game,
    messenger: &mut M,
) -> (r: Result<(), LoveLetterError>)
    requires
        effect_ready(old(game)@, *action),
    ensures
        r is Ok,
        final(game)@ == card_effect(old(game)@, *action),
        final(messenger).sent() == old(messenger).sent() + card_narration(old(game)@, *action),
{
    match action.card() {
        Card::Guard => guard_action(action, game, messenger),
        Card::Priest => priest_action(action, game, messenger),
        Card::Baron => baron_action(action, game, messenger),
        Card::Handmaid => handmaid_action(action, game, messenger),
        Card::Prince => prince_action(action, game, messenger),
        Card::King => king_action(action, game, messenger),
        Card::Countess => countess_action(action, game, messenger),
        Card::Princess => princess_action(action, game, messenger),
    }
}

/// The guess is right: the target leaves the round.
fn guard_action<M: Messenger>(action: &CardAction, game: &mut Game, messenger: &mut M) -> (r:
    Result<(), LoveLetterError>)
    requires
        effect_ready(old(game)@, *action),
        action.spec_card() == Card::Guard,
    ensures
        r is Ok,
        final(game)@ == card_effect(old(game)@, *action),
        final(messenger).sent() == old(messenger).sent() + card_narration(old(game)@, *action),
{
    let target_index = action.target()?;
    let guess = action.guess()?;
    let target_card = game.player(target_index)?.card_in_hand()?;
    let msg = player_label(action.current()).concat(" guesses that ").concat(
        player_label(target_index).as_str(),
    ).concat(" has a ").concat(guess.name());
    messenger.to_all(msg.as_str());
    if guess == target_card {
        let msg = player_label(target_index).concat(" has a ").concat(guess.name()).concat(
            " and is out!",
        );
        messenger.to_all(msg.as_str());
        game.make_inactive(target_index);
    } else {
        let msg = player_label(target_index).concat(" does not have a ").concat(guess.name());
        messenger.to_all(msg.as_str());
    }
    Ok(())
}

/// The target shows their card to the acting player alone.
fn priest_action<M: Messenger>(action: &CardAction, game: &mut Game, messenger: &mut M) -> (r:
    Result<(), LoveLetterError>)
    requires
        effect_ready(old(game)@, *action),
        action.spec_card() == Card::Priest,
    ensures
        r is Ok,
        final(game)@ == card_effect(old(game)@, *action),
        final(messenger).sent() == old(messenger).sent() + card_narration(old(game)@, *action),
{
    let target_index = action.target()?;
    send_card_played_with_target_message(action, messenger)?;
    let msg = player_label(target_index).concat(" shows his card to ").concat(
        player_label(action.current()).as_str(),
    );
    messenger.to_all(msg.as_str());
    let target_card = game.player(target_index)?.card_in_hand()?;
    let msg = player_label(target_index).concat(" shows you a ").concat(target_card.name());
    messenger.to_player(game.player(action.current())?, msg.as_str());
    Ok(())
}

/// Announces a card played on a target.
fn send_card_played_with_target_message<M: Messenger>(action: &CardAction, messenger: &mut M) -> (r:
    Result<(), LoveLetterError>)
    ensures
        match action.spec_target() {
            Some(t) => r is Ok && final(messenger).sent() == old(messenger).sent().push(
                to_everyone(played_on_text(*action, t)),
            ),
            None => r == Err::<(), LoveLetterError>(LoveLetterError::BadActionMissingTarget)
                && final(messenger).sent() == old(messenger).sent(),
        },
{
    let target = action.target()?;
    let msg = player_label(action.current()).concat(" plays a ").concat(action.card().name()).concat(
        " on ",
    ).concat(player_label(target).as_str());
    messenger.to_all(msg.as_str());
    Ok(())
}

/// Announces a card played without a target.
fn send_card_played_message<M: Messenger>(action: &CardAction, messenger: &mut M) -> (r: Result<
    (),
    LoveLetterError,
>)
    ensures
        r is Ok,
        final(messenger).sent() == old(messenger).sent().push(to_everyone(played_text(*action))),
{
    let msg = player_label(action.current()).concat(" plays a ").concat(action.card().name());
    messenger.to_all(msg.as_str());
    Ok(())
}

/// The acting player and the target compare cards; the lower one is out.
fn baron_action<M: Messenger>(action: &CardAction, game: &mut Game, messenger: &mut M) -> (r:
    Result<(), LoveLetterError>)
    requires
        effect_ready(old(game)@, *action),
        action.spec_card() == Card::Baron,
    ensures
        r is Ok,
        final(game)@ == card_effect(old(game)@, *action),
        final(messenger).sent() == old(messenger).sent() + card_narration(old(game)@, *action),
{
    send_card_played_with_target_message(action, messenger)?;
    let current_index = action.current();
    let target_index = action.target()?;
    let player_card = game.player(current_index)?.card_in_hand()?;
    let target_card = game.player(target_index)?.card_in_hand()?;
    if player_card.value() == target_card.value() {
        messenger.to_all("Boingy, boingy, boingy. (The cards are equal.)");
    } else {
        let (out_index, out_card) = if player_card.value() > target_card.value() {
            (target_index, target_card)
        } else {
            (current_index, player_card)
        };
        let msg = player_label(out_index).concat(" showed a ").concat(out_card.name()).concat(
            " and is out.",
        );
        messenger.to_all(msg.as_str());
        game.make_inactive(out_index);
    }
    Ok(())
}

/// The acting player is protected until their next turn.
fn handmaid_action<M: Messenger>(action: &CardAction, game: &mut Game, messenger: &mut M) -> (r:
    Result<(), LoveLetterError>)
    requires
        effect_ready(old(game)@, *action),
        action.spec_card() == Card::Handmaid,
    ensures
        r is Ok,
        final(game)@ == card_effect(old(game)@, *action),
        final(messenger).sent() == old(messenger).sent() + card_narration(old(game)@, *action),
{
    send_card_played_message(action, messenger)?;
    let msg = player_label(action.current()).concat(" is safe.");
    messenger.to_all(msg.as_str());
    game.make_protected(action.current());
    Ok(())
}

/// The target discards their card and, unless it was the Princess, takes a
/// new one: from the deck, or the set-aside card when the deck is empty.
fn prince_action<M: Messenger>(action: &CardAction, game: &mut Game, messenger: &mut M) -> (r:
    Result<(), LoveLetterError>)
    requires
        effect_ready(old(game)@, *action),
        action.spec_card() == Card::Prince,
    ensures
        r is Ok,
        final(game)@ == card_effect(old(game)@, *action),
        final(messenger).sent() == old(messenger).sent() + card_narration(old(game)@, *action),
{
    send_card_played_with_target_message(action, messenger)?;
    let target_index = action.target()?;
    let target_card = game.player(target_index)?.card_in_hand()?;
    let msg = player_label(target_index).concat(" discards a ").concat(target_card.name()).concat(
        ".",
    );
    messenger.to_all(msg.as_str());
    game.player_mut(target_index)?.discard(target_card)?;
    if target_card == Card::Princess {
        let msg = player_label(target_index).concat(" is out!");
        messenger.to_all(msg.as_str());
        game.make_inactive(target_index);
    } else if !game.is_deck_empty() {
        game.deal_one_to_player(target_index)?;
    } else if let Some(card) = game.take_out_card() {
        game.player_mut(target_index)?.add_card_to_hand(card);
    }
    Ok(())
}

/// The acting player and the target swap hands.
fn king_action<M: Messenger>(action: &CardAction, game: &mut Game, messenger: &mut M) -> (r:
    Result<(), LoveLetterError>)
    requires
        effect_ready(old(game)@, *action),
        action.spec_card() == Card::King,
    ensures
        r is Ok,
        final(game)@ == card_effect(old(game)@, *action),
        final(messenger).sent() == old(messenger).sent() + card_narration(old(game)@, *action),
{
    send_card_played_with_target_message(action, messenger)?;
    let current_index = action.current();
    let target_index = action.target()?;
    let theirs = game.player_mut(target_index)?.replace_hand(Vec::new());
    let mine = game.player_mut(current_index)?.replace_hand(theirs);
    game.player_mut(target_index)?.replace_hand(mine);
    proof {
        let g0 = old(game)@;
        let expected = card_effect(g0, *action);
        assert(game@.table.players =~= expected.table.players);
    }
    let msg = player_label(current_index).concat(" and ").concat(
        player_label(target_index).as_str(),
    ).concat(" swap hands.");
    messenger.to_all(msg.as_str());
    Ok(())
}

/// The Countess does nothing when played.
fn countess_action<M: Messenger>(action: &CardAction, game: &mut Game, messenger: &mut M) -> (r:
    Result<(), LoveLetterError>)
    requires
        effect_ready(old(game)@, *action),
        action.spec_card() == Card::Countess,
    ensures
        r is Ok,
        final(game)@ == card_effect(old(game)@, *action),
        final(messenger).sent() == old(messenger).sent() + card_narration(old(game)@, *action),
{
    send_card_played_message(action, messenger)?;
    Ok(())
}

/// Whoever discards the Princess is out.
fn princess_action<M: Messenger>(action: &CardAction, game: &mut Game, messenger: &mut M) -> (r:
    Result<(), LoveLetterError>)
    requires
        effect_ready(old(game)@, *action),
        action.spec_card() == Card::Princess,
    ensures
        r is Ok,
        final(game)@ == card_effect(old(game)@, *action),
        final(messenger).sent() == old(messenger).sent() + card_narration(old(game)@, *action),
{
    send_card_played_message(action, messenger)?;
    let msg = player_label(action.current()).concat(" is out!");
    messenger.to_all(msg.as_str());
    game.make_inactive(action.current());
    Ok(())
}

} // verus!
