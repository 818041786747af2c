use vstd::prelude::*;

use crate::state::Card;

verus! {

/// Every way an operation of this library can fail.
#[derive(Clone, Copy, Debug, PartialEq, Eq, Structural)]
pub enum LoveLetterError {
    /// A player was asked to discard a card that is not in their hand.
    DiscardingCardNotInHand(Card),
    /// A player was expected to hold exactly one card but holds this many.
    InvalidNumberOfCards(usize),
    /// A round is played by 3 or 4 players; this count is not allowed.
    InvalidNumberOfPlayers(usize),
    /// No player sits at this index.
    InvalidPlayerNumber(usize),
    /// Only the current player may act; this index was given instead.
    BadActionNotCurrentPlayer(usize),
    /// The targeted player has been eliminated.
    BadActionTargetingInactive(usize),
    /// The targeted player is protected until their next turn.
    BadActionTargetingProtected(usize),
    /// The card may not target the player who plays it.
    BadActionCannotTargetSelf,
    /// The card needs a target and none was given.
    BadActionMissingTarget,
    /// The card needs a guess and none was given.
    BadActionMissingGuess,
    /// The acting player does not hold the card played.
    BadActionPlayerDoesntHaveCard(usize, Card),
    /// The supply ran out while the round was being set up.
    InternalErrorUnexpectedEmptyDeck,
    /// The round is over: no further action can be taken.
    BadActionRoundOver,
    /// The current player must draw before playing a card.
    BadActionMustDrawFirst,
}

} // verus!
