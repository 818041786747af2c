//! General properties of a round, proved over the model.

use vstd::prelude::*;

use crate::error::LoveLetterError;
use crate::game::card_action::CardAction;
use crate::game::model::{
    card_effect, discard_played, hand, lemma_discard_makes_ready, lemma_effect_settles,
    lemma_next_seat_in_range, needs_target, round_over, step, wf, GameView,
};
use crate::game::narration::{narration, seat_text, to_everyone};
use crate::state::card::Card;

verus! {

/// A Guard whose guess names the target's card puts the target out of the
/// round, and a message to all players says so.
pub proof fn lemma_guard_hit_eliminates(g: GameView, a: CardAction)
    requires
        wf(g),
        step(g, a) is Ok,
        a.spec_card() == Card::Guard,
        hand(g, a.spec_target().unwrap() as int)[0] == a.spec_guess().unwrap(),
    ensures
        ({
            let t = a.spec_target().unwrap();
            let guess = a.spec_guess().unwrap();
            &&& step(g, a)->Ok_0.active == g.active.remove(t)
            &&& narration(g, a).contains(
                to_everyone(seat_text(t) + " has a "@ + guess.spec_name() + " and is out!"@),
            )
        }),
{
    let t = a.spec_target().unwrap();
    let g1 = discard_played(g, a);
    assert(hand(g1, t as int) == hand(g, t as int));
    assert(narration(g, a)[2] == to_everyone(
        seat_text(t) + " has a "@ + a.spec_guess().unwrap().spec_name() + " and is out!"@,
    ));
}

/// A Baron played on a target whose card ranks below the card the acting
/// player keeps puts the target out; the acting player stays in and keeps
/// their card.
pub proof fn lemma_baron_higher_card_wins(g: GameView, a: CardAction)
    requires
        wf(g),
        step(g, a) is Ok,
        a.spec_card() == Card::Baron,
        hand(discard_played(g, a), g.current as int)[0].rank() > hand(
            g,
            a.spec_target().unwrap() as int,
        )[0].rank(),
    ensures
        ({
            let after = step(g, a)->Ok_0;
            &&& after.active == g.active.remove(a.spec_target().unwrap())
            &&& after.active.contains(g.current)
            &&& after.table.players[g.current as int] == discard_played(g, a).table.players[g.current as int]
        }),
{
    let t = a.spec_target().unwrap();
    assert(hand(discard_played(g, a), t as int) == hand(g, t as int));
}

/// A Baron played between cards of equal rank puts nobody out.
pub proof fn lemma_baron_tie_keeps_everyone(g: GameView, a: CardAction)
    requires
        wf(g),
        step(g, a) is Ok,
        a.spec_card() == Card::Baron,
        hand(discard_played(g, a), g.current as int)[0].rank() == hand(
            g,
            a.spec_target().unwrap() as int,
        )[0].rank(),
    ensures
        step(g, a)->Ok_0.active == g.active,
{
    let t = a.spec_target().unwrap();
    assert(hand(discard_played(g, a), t as int) == hand(g, t as int));
}

/// A Handmaid protects the player who plays it: after the turn passes they
/// are still active and protected.
pub proof fn lemma_handmaid_protects(g: GameView, a: CardAction)
    requires
        wf(g),
        step(g, a) is Ok,
        a.spec_card() == Card::Handmaid,
    ensures
        step(g, a)->Ok_0.protected.contains(g.current),
        step(g, a)->Ok_0.active.contains(g.current),
{
    let g1 = discard_played(g, a);
    lemma_discard_makes_ready(g, a);
    lemma_effect_settles(g1, a);
    lemma_next_seat_in_range(card_effect(g1, a));
}

/// While the round goes on, an action by the current player, who holds the
/// card, with a card that needs a target, aimed at a protected seat fails
/// with `BadActionTargetingProtected`.
pub proof fn lemma_protected_cannot_be_targeted(g: GameView, a: CardAction, t: usize)
    requires
        wf(g),
        !round_over(g),
        a.spec_current() == g.current,
        hand(g, g.current as int).contains(a.spec_card()),
        needs_target(a.spec_card()),
        a.spec_target() == Some(t),
        g.protected.contains(t),
    ensures
        step(g, a) == Err::<GameView, LoveLetterError>(
            LoveLetterError::BadActionTargetingProtected(t),
        ),
{
}

/// While the round goes on, an action by a seat other than the current one
/// fails with `BadActionNotCurrentPlayer` once that seat is found to hold the
/// card played.
pub proof fn lemma_only_current_player_acts(g: GameView, a: CardAction)
    requires
        wf(g),
        !round_over(g),
        a.spec_current() < g.table.players.len(),
        hand(g, a.spec_current() as int).contains(a.spec_card()),
        a.spec_current() != g.current,
    ensures
        step(g, a) == Err::<GameView, LoveLetterError>(
            LoveLetterError::BadActionNotCurrentPlayer(a.spec_current()),
        ),
{
}

} // verus!
