use vstd::prelude::*;

use rand::seq::SliceRandom;

use crate::state::card::Card;

verus! {

/// A deck of cards. It enforces no rules, but offers only what happens to a
/// deck during a game: dealing from the top and shuffling.
#[derive(Debug)]
pub struct Deck {
    // Kept in reverse dealing order, so that dealing pops the last element.
    cards: Vec<Card>,
}

/// Relies on rand's `SliceRandom::shuffle`, driven by `thread_rng`: the
/// shuffle only swaps elements in place, so the result is a permutation of
/// its input. `thread_rng` panics only if the operating system's random
/// source cannot be read.
#[verifier::external_body]
fn shuffle_cards(cards: &mut Vec<Card>)
    ensures
        final(cards)@.to_multiset() == old(cards)@.to_multiset(),
        final(cards)@.len() == old(cards)@.len(),
{
    cards.shuffle(&mut rand::thread_rng());
}

impl View for Deck {
    /// The cards in the order in which they will be dealt.
    type V = Seq<Card>;

    closed spec fn view(&self) -> Seq<Card> {
        self.cards@.reverse()
    }
}

/// The reversal of `s` holds `s`'s elements from the last to the first.
proof fn lemma_reverse_index(s: Seq<Card>)
    ensures
        s.reverse().len() == s.len(),
        forall|i: int| 0 <= i < s.len() ==> #[trigger] s.reverse()[i] == s[s.len() - 1 - i],
{
}

/// The sixteen cards of a standard deck: five of the lowest rank, two each of
/// the next four ranks, and one each of the three highest.
pub open spec fn standard_cards() -> Seq<Card> {
    seq![
        Card::Guard, Card::Guard, Card::Guard, Card::Guard, Card::Guard,
        Card::Priest, Card::Priest, Card::Baron, Card::Baron,
        Card::Handmaid, Card::Handmaid, Card::Prince, Card::Prince,
        Card::King, Card::Countess, Card::Princess,
    ]
}

impl Deck {
    /// A deck that deals `cards` in the order given.
    pub fn new(cards: Vec<Card>) -> (r: Deck)
        ensures
            r@ == cards@,
    {
        let n = cards.len();
        let mut stored: Vec<Card> = Vec::new();
        let mut i: usize = n;
        while i > 0
            invariant
                i <= n,
                n == cards@.len(),
                stored@.len() == n - i,
                forall|j: int| 0 <= j < n - i ==> #[trigger] stored@[j] == cards@[n - 1 - j],
            decreases i,
        {
            i = i - 1;
            stored.push(cards[i]);
        }
        let r = Deck { cards: stored };
        proof {
            lemma_reverse_index(stored@);
            assert(r@ =~= cards@);
        }
        r
    }

    /// A standard deck, in its printed order; shuffle it before use.
    pub fn standard() -> (r: Deck)
        ensures
            r@ == standard_cards(),
    {
        let cards = vec![
            Card::Guard, Card::Guard, Card::Guard, Card::Guard, Card::Guard,
            Card::Priest, Card::Priest, Card::Baron, Card::Baron,
            Card::Handmaid, Card::Handmaid, Card::Prince, Card::Prince,
            Card::King, Card::Countess, Card::Princess,
        ];
        assert(cards@ =~= standard_cards());
        Deck::new(cards)
    }

    /// The number of cards left to deal.
    pub fn cards_remaining(&self) -> (r: usize)
        ensures
            r == self@.len(),
    {
        proof {
            lemma_reverse_index(self.cards@);
        }
        self.cards.len()
    }

    /// Deals the top card, or returns `None` when the deck is empty.
    pub fn deal_one(&mut self) -> (r: Option<Card>)
        ensures
            old(self)@.len() == 0 ==> r is None && final(self)@ == old(self)@,
            old(self)@.len() > 0 ==> r == Some(old(self)@[0]) && final(self)@ == old(self)@.drop_first(),
    {
        proof {
            lemma_reverse_index(self.cards@);
        }
        let r = self.cards.pop();
        proof {
            lemma_reverse_index(self.cards@);
            if old(self)@.len() > 0 {
                assert(self@ =~= old(self)@.drop_first());
            }
        }
        r
    }

    /// Shuffles the deck: afterwards it holds the same cards, dealt in a
    /// random order.
    pub fn shuffle(&mut self)
        ensures
            final(self)@.to_multiset() == old(self)@.to_multiset(),
            final(self)@.len() == old(self)@.len(),
    {
        shuffle_cards(&mut self.cards);
        proof {
            self.cards@.lemma_reverse_to_multiset();
            old(self).cards@.lemma_reverse_to_multiset();
            lemma_reverse_index(self.cards@);
            lemma_reverse_index(old(self).cards@);
        }
    }

    /// The cards left, in the order in which they will be dealt.
    pub fn remaining_cards(&self) -> (r: Vec<Card>)
        ensures
            r@ == self@,
    {
        let n = self.cards.len();
        let mut out: Vec<Card> = Vec::new();
        let mut i: usize = n;
        while i > 0
            invariant
                i <= n,
                n == self.cards@.len(),
                out@.len() == n - i,
                forall|j: int| 0 <= j < n - i ==> #[trigger] out@[j] == self.cards@[n - 1 - j],
            decreases i,
        {
            i = i - 1;
            out.push(self.cards[i]);
        }
        proof {
            lemma_reverse_index(self.cards@);
            assert(out@ =~= self@);
        }
        out
    }
}

} // verus!
