use vstd::prelude::*;

use crate::error::LoveLetterError;
use crate::state::card::Card;

verus! {

/// A player as seen at the table: a name, a hand and a discard pile. A
/// player knows nothing of the rules; any hand size can be built.
#[derive(Debug)]
pub struct Player {
    name: String,
    hand: Vec<Card>,
    discards: Vec<Card>,
}

/// What can be seen of a player.
pub ghost struct PlayerView {
    pub name: Seq<char>,
    /// The cards in hand, in the order they were received.
    pub hand: Seq<Card>,
    /// Every card this player has discarded, oldest first.
    pub discards: Seq<Card>,
}

/// `s` with its first occurrence of `c` taken out; `s` itself when `c` does
/// not occur in it.
pub open spec fn without_first(s: Seq<Card>, c: Card) -> Seq<Card>
    decreases s.len(),
{
    if s.len() == 0 {
        s
    } else if s[0] == c {
        s.drop_first()
    } else {
        seq![s[0]] + without_first(s.drop_first(), c)
    }
}

/// Taking out the first occurrence of `c` is removing the element at the
/// first index that holds `c`.
proof fn lemma_without_first_at(s: Seq<Card>, c: Card, i: int)
    requires
        0 <= i < s.len(),
        s[i] == c,
        forall|j: int| 0 <= j < i ==> s[j] != c,
    ensures
        without_first(s, c) == s.remove(i),
    decreases i,
{
    if i > 0 {
        let t = s.drop_first();
        assert forall|j: int| 0 <= j < i - 1 implies t[j] != c by {
            assert(t[j] == s[j + 1]);
        }
        lemma_without_first_at(t, c, i - 1);
        assert(s.remove(i) =~= seq![s[0]] + t.remove(i - 1));
    } else {
        assert(s.remove(0) =~= s.drop_first());
    }
}

impl View for Player {
    type V = PlayerView;

    closed spec fn view(&self) -> PlayerView {
        PlayerView { name: self.name@, hand: self.hand@, discards: self.discards@ }
    }
}

impl Player {
    /// A player with the given name, an empty hand and an empty discard pile.
    pub fn with_name(name: &str) -> (r: Player)
        ensures
            r@ == (PlayerView { name: name@, hand: Seq::empty(), discards: Seq::empty() }),
    {
        let r = Player { name: name.to_owned(), hand: Vec::new(), discards: Vec::new() };
        assert(r@.hand =~= Seq::<Card>::empty());
        assert(r@.discards =~= Seq::<Card>::empty());
        r
    }

    pub fn name(&self) -> (r: &str)
        ensures
            r@ == self@.name,
    {
        self.name.as_str()
    }

    /// The cards in hand.
    pub fn hand(&self) -> (r: &Vec<Card>)
        ensures
            r@ == self@.hand,
    {
        &self.hand
    }

    /// The discard pile, oldest card first.
    pub fn discards(&self) -> (r: &Vec<Card>)
        ensures
            r@ == self@.discards,
    {
        &self.discards
    }

    /// Adds a card to the player's hand.
    pub fn add_card_to_hand(&mut self, card: Card)
        ensures
            final(self)@ == (PlayerView { hand: old(self)@.hand.push(card), ..old(self)@ }),
    {
        self.hand.push(card);
    }

    /// Replaces the whole hand by `hand` and returns the hand held before.
    pub fn replace_hand(&mut self, hand: Vec<Card>) -> (r: Vec<Card>)
        ensures
            r@ == old(self)@.hand,
            final(self)@ == (PlayerView { hand: hand@, ..old(self)@ }),
    {
        let mut held = hand;
        std::mem::swap(&mut self.hand, &mut held);
        held
    }

    /// The card in hand, when the player holds exactly one; otherwise
    /// `InvalidNumberOfCards` with the number held.
    pub fn card_in_hand(&self) -> (r: Result<Card, LoveLetterError>)
        ensures
            self@.hand.len() == 1 ==> r == Ok::<Card, LoveLetterError>(self@.hand[0]),
            self@.hand.len() != 1 ==> r == Err::<Card, LoveLetterError>(
                LoveLetterError::InvalidNumberOfCards(self@.hand.len() as usize),
            ),
    {
        if self.hand.len() != 1 {
            return Err(LoveLetterError::InvalidNumberOfCards(self.hand.len()));
        }
        Ok(self.hand[0])
    }

    /// The index of the first copy of `card` in hand, if any.
    pub fn card_index(&self, card: Card) -> (r: Option<usize>)
        ensures
            r is None ==> !self@.hand.contains(card),
            r matches Some(i) ==> i < self@.hand.len() && self@.hand[i as int] == card && forall|
                j: int,
            |
                0 <= j < i ==> self@.hand[j] != card,
    {
        let mut i: usize = 0;
        while i < self.hand.len()
            invariant
                i <= self.hand@.len(),
                forall|j: int| 0 <= j < i ==> self.hand@[j] != card,
            decreases self.hand@.len() - i,
        {
            if self.hand[i] == card {
                return Some(i);
            }
            i = i + 1;
        }
        None
    }

    /// Moves the first copy of `card` from the hand to the discard pile, or
    /// fails with `DiscardingCardNotInHand` when the hand has none.
    pub fn discard(&mut self, card: Card) -> (r: Result<(), LoveLetterError>)
        ensures
            old(self)@.hand.contains(card) ==> r is Ok && final(self)@ == (PlayerView {
                hand: without_first(old(self)@.hand, card),
                discards: old(self)@.discards.push(card),
                ..old(self)@
            }),
            !old(self)@.hand.contains(card) ==> r == Err::<(), LoveLetterError>(
                LoveLetterError::DiscardingCardNotInHand(card),
            ) && final(self)@ == old(self)@,
    {
        match self.card_index(card) {
            Some(i) => {
                proof {
                    lemma_without_first_at(self.hand@, card, i as int);
                }
                let removed = self.hand.remove(i);
                self.discards.push(removed);
                Ok(())
            },
            None => Err(LoveLetterError::DiscardingCardNotInHand(card)),
        }
    }
}

} // verus!
