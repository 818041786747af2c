use vstd::prelude::*;

verus! {

/// The eight kinds of card, from the lowest rank to the highest.
///
/// The derived order follows the declaration order, which is the rank order.
#[derive(Clone, Copy, Debug, PartialEq, Eq, Structural, PartialOrd, Ord, Hash)]
pub enum Card {
    Guard,
    Priest,
    Baron,
    Handmaid,
    Prince,
    King,
    Countess,
    Princess,
}

impl Card {
    /// The rank printed on the card, 1 for the lowest kind up to 8.
    pub open spec fn rank(self) -> u8 {
        match self {
            Card::Guard => 1,
            Card::Priest => 2,
            Card::Baron => 3,
            Card::Handmaid => 4,
            Card::Prince => 5,
            Card::King => 6,
            Card::Countess => 7,
            Card::Princess => 8,
        }
    }

    /// The name printed on the card.
    pub open spec fn spec_name(self) -> Seq<char> {
        match self {
            Card::Guard => "Guard"@,
            Card::Priest => "Priest"@,
            Card::Baron => "Baron"@,
            Card::Handmaid => "Handmaid"@,
            Card::Prince => "Prince"@,
            Card::King => "King"@,
            Card::Countess => "Countess"@,
            Card::Princess => "Princess"@,
        }
    }

    /// The name printed on the card.
    pub fn name(&self) -> (r: &'static str)
        ensures
            r@ == self.spec_name(),
    {
        match self {
            Card::Guard => "Guard",
            Card::Priest => "Priest",
            Card::Baron => "Baron",
            Card::Handmaid => "Handmaid",
            Card::Prince => "Prince",
            Card::King => "King",
            Card::Countess => "Countess",
            Card::Princess => "Princess",
        }
    }

    /// The rank of the card, used for every comparison between cards.
    pub fn value(&self) -> (r: u8)
        ensures
            r == self.rank(),
    {
        match self {
            Card::Guard => 1,
            Card::Priest => 2,
            Card::Baron => 3,
            Card::Handmaid => 4,
            Card::Prince => 5,
            Card::King => 6,
            Card::Countess => 7,
            Card::Princess => 8,
        }
    }

    /// Whether the two cards are exactly the same: same name and same value.
    pub fn is_same_card(&self, other: &Card) -> (r: bool)
        ensures
            r == (*self == *other),
    {
        *self == *other
    }

    /// Whether the two cards have the same value.
    pub fn has_same_value(&self, other: &Card) -> (r: bool)
        ensures
            r == (self.rank() == other.rank()),
    {
        self.value() == other.value()
    }
}

} // verus!
