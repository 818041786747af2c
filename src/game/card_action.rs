use vstd::prelude::*;

use crate::error::LoveLetterError;
use crate::state::Card;

verus! {

/// One attempt by a player to play a card: who acts, which card, and the
/// optional target and guess. The target and guess are checked only when
/// they are asked for.
#[derive(Clone, Copy, Debug)]
pub struct CardAction {
    card: Card,
    current: usize,
    target: Option<usize>,
    guess: Option<Card>,
}

impl CardAction {
    /// The card being played.
    pub closed spec fn spec_card(&self) -> Card {
        self.card
    }

    /// The index of the player who claims to act.
    pub closed spec fn spec_current(&self) -> usize {
        self.current
    }

    /// The player targeted, if any.
    pub closed spec fn spec_target(&self) -> Option<usize> {
        self.target
    }

    /// The card guessed, if any.
    pub closed spec fn spec_guess(&self) -> Option<Card> {
        self.guess
    }

    pub fn new(card: Card, current: usize, target: Option<usize>, guess: Option<Card>) -> (r:
        CardAction)
        ensures
            r.spec_card() == card,
            r.spec_current() == current,
            r.spec_target() == target,
            r.spec_guess() == guess,
    {
        CardAction { card, current, target, guess }
    }

    #[verifier::when_used_as_spec(spec_card)]
    pub fn card(&self) -> (r: Card)
        ensures
            r == self.spec_card(),
    {
        self.card
    }

    #[verifier::when_used_as_spec(spec_current)]
    pub fn current(&self) -> (r: usize)
        ensures
            r == self.spec_current(),
    {
        self.current
    }

    /// The target, or `BadActionMissingTarget` when the action has none.
    pub fn target(&self) -> (r: Result<usize, LoveLetterError>)
        ensures
            r == match self.spec_target() {
                Some(t) => Ok::<usize, LoveLetterError>(t),
                None => Err(LoveLetterError::BadActionMissingTarget),
            },
    {
        match self.target {
            Some(t) => Ok(t),
            None => Err(LoveLetterError::BadActionMissingTarget),
        }
    }

    /// The guess, or `BadActionMissingGuess` when the action has none.
    pub fn guess(&self) -> (r: Result<Card, LoveLetterError>)
        ensures
            r == match self.spec_guess() {
                Some(g) => Ok::<Card, LoveLetterError>(g),
                None => Err(LoveLetterError::BadActionMissingGuess),
            },
    {
        match self.guess {
            Some(g) => Ok(g),
            None => Err(LoveLetterError::BadActionMissingGuess),
        }
    }
}

} // verus!
