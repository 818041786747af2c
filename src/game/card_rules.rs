use vstd::prelude::*;

use std::collections::HashSet;

use crate::error::LoveLetterError;
use crate::game::card_action::CardAction;

verus! {

broadcast use vstd::std_specs::hash::group_hash_axioms;

/// What a card asks of an action: whether it needs a target, whether the
/// acting player may target themself, and whether it needs a guess.
#[derive(Clone, Copy, Debug)]
pub struct CardRules {
    target_required: bool,
    current_allowed_as_target: bool,
    guess_required: bool,
}

/// The error of the actor check: `None` when `action` is made by `current`.
pub open spec fn actor_error(action: CardAction, current: usize) -> Option<LoveLetterError> {
    if action.spec_current() != current {
        Some(LoveLetterError::BadActionNotCurrentPlayer(action.spec_current()))
    } else {
        None
    }
}

/// The error of the target check, in the order in which its parts are tried:
/// presence, then being active, then not being protected, then not being the
/// acting player unless that is allowed.
pub open spec fn target_error(
    target_required: bool,
    current_allowed_as_target: bool,
    action: CardAction,
    current: usize,
    active: Set<usize>,
    protected: Set<usize>,
) -> Option<LoveLetterError> {
    if !target_required {
        None
    } else {
        match action.spec_target() {
            None => Some(LoveLetterError::BadActionMissingTarget),
            Some(t) => if !active.contains(t) {
                Some(LoveLetterError::BadActionTargetingInactive(t))
            } else if protected.contains(t) {
                Some(LoveLetterError::BadActionTargetingProtected(t))
            } else if !current_allowed_as_target && t == current {
                Some(LoveLetterError::BadActionCannotTargetSelf)
            } else {
                None
            },
        }
    }
}

/// The error of the guess check: only its presence is required.
pub open spec fn guess_error(guess_required: bool, action: CardAction) -> Option<LoveLetterError> {
    if guess_required && action.spec_guess() is None {
        Some(LoveLetterError::BadActionMissingGuess)
    } else {
        None
    }
}

/// The outcome of validating `action` under the three rules: the first check
/// that fails decides the error.
pub open spec fn allowed_result(
    target_required: bool,
    current_allowed_as_target: bool,
    guess_required: bool,
    action: CardAction,
    current: usize,
    active: Set<usize>,
    protected: Set<usize>,
) -> Result<(), LoveLetterError> {
    if let Some(e) = actor_error(action, current) {
        Err(e)
    } else if let Some(e) = target_error(
        target_required,
        current_allowed_as_target,
        action,
        current,
        active,
        protected,
    ) {
        Err(e)
    } else if let Some(e) = guess_error(guess_required, action) {
        Err(e)
    } else {
        Ok(())
    }
}

impl CardRules {
    pub closed spec fn spec_target_required(&self) -> bool {
        self.target_required
    }

    pub closed spec fn spec_current_allowed_as_target(&self) -> bool {
        self.current_allowed_as_target
    }

    pub closed spec fn spec_guess_required(&self) -> bool {
        self.guess_required
    }

    /// The outcome of `action_allowed` under these rules.
    pub open spec fn spec_allowed(
        &self,
        action: CardAction,
        current: usize,
        active: Set<usize>,
        protected: Set<usize>,
    ) -> Result<(), LoveLetterError> {
        allowed_result(
            self.spec_target_required(),
            self.spec_current_allowed_as_target(),
            self.spec_guess_required(),
            action,
            current,
            active,
            protected,
        )
    }

    pub fn new(target_required: bool, current_allowed_as_target: bool, guess_required: bool) -> (r:
        CardRules)
        ensures
            r.spec_target_required() == target_required,
            r.spec_current_allowed_as_target() == current_allowed_as_target,
            r.spec_guess_required() == guess_required,
    {
        CardRules { target_required, current_allowed_as_target, guess_required }
    }

    /// Checks `action` against these rules, given who the current player is
    /// and which players are active and protected.
    pub fn action_allowed(
        &self,
        action: &CardAction,
        current_player: usize,
        active: &HashSet<usize>,
        protected: &HashSet<usize>,
    ) -> (r: Result<(), LoveLetterError>)
        ensures
            r == self.spec_allowed(*action, current_player, active@, protected@),
    {
        CardRules::player_is_current(action, current_player)?;
        self.target_is_valid(action, current_player, active, protected)?;
        self.guess_is_valid(action)?;
        Ok(())
    }

    fn guess_is_valid(&self, action: &CardAction) -> (r: Result<(), LoveLetterError>)
        ensures
            r == match guess_error(self.guess_required, *action) {
                Some(e) => Err(e),
                None => Ok::<(), LoveLetterError>(()),
            },
    {
        if self.guess_required {
            action.guess()?;
        }
        Ok(())
    }

    fn target_is_valid(
        &self,
        action: &CardAction,
        current_player: usize,
        active: &HashSet<usize>,
        protected: &HashSet<usize>,
    ) -> (r: Result<(), LoveLetterError>)
        ensures
            r == match target_error(
                self.target_required,
                self.current_allowed_as_target,
                *action,
                current_player,
                active@,
                protected@,
            ) {
                Some(e) => Err(e),
                None => Ok::<(), LoveLetterError>(()),
            },
    {
        if self.target_required {
            let target = action.target()?;
            if !active.contains(&target) {
                return Err(LoveLetterError::BadActionTargetingInactive(target));
            }
            if protected.contains(&target) {
                return Err(LoveLetterError::BadActionTargetingProtected(target));
            }
            if !self.current_allowed_as_target && current_player == target {
                return Err(LoveLetterError::BadActionCannotTargetSelf);
            }
        }
        Ok(())
    }

    fn player_is_current(action: &CardAction, current_player: usize) -> (r: Result<
        (),
        LoveLetterError,
    >)
        ensures
            r == match actor_error(*action, current_player) {
                Some(e) => Err(e),
                None => Ok::<(), LoveLetterError>(()),
            },
    {
        if current_player != action.current() {
            return Err(LoveLetterError::BadActionNotCurrentPlayer(action.current()));
        }
        Ok(())
    }
}

} // verus!
