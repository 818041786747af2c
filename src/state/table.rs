use vstd::prelude::*;

use crate::error::LoveLetterError;
use crate::state::card::Card;
use crate::state::deck::Deck;
use crate::state::player::{Player, PlayerView};

verus! {

/// Everything on the table: the players in seat order, the deck, and the
/// card set aside at the start of a round.
#[derive(Debug)]
pub struct Table {
    players: Vec<Player>,
    deck: Deck,
    out_card: Option<Card>,
}

/// What can be seen on the table.
pub ghost struct TableView {
    pub players: Seq<PlayerView>,
    /// The deck, next card first.
    pub deck: Seq<Card>,
    pub out_card: Option<Card>,
}

/// The name of the player in seat `i`: seats are named "1" to "4".
pub open spec fn seat_name(i: int) -> Seq<char> {
    if i == 0 {
        "1"@
    } else if i == 1 {
        "2"@
    } else if i == 2 {
        "3"@
    } else {
        "4"@
    }
}

/// What can be seen of each player, in seat order.
spec fn views_of(players: Seq<Player>) -> Seq<PlayerView> {
    players.map_values(|p: Player| p@)
}

proof fn lemma_views_of_update(players: Seq<Player>, i: int, p: Player)
    requires
        0 <= i < players.len(),
    ensures
        views_of(players.update(i, p)) == views_of(players).update(i, p@),
{
    assert(views_of(players.update(i, p)) =~= views_of(players).update(i, p@));
}

impl View for Table {
    type V = TableView;

    closed spec fn view(&self) -> TableView {
        TableView {
            players: views_of(self.players@),
            deck: self.deck@,
            out_card: self.out_card,
        }
    }
}

impl Table {
    /// A table for `num_players` players, named "1" upwards, with an empty
    /// deck and no card set aside. Only 3 or 4 players are allowed.
    pub fn new(num_players: usize) -> (r: Result<Table, LoveLetterError>)
        ensures
            num_players != 3 && num_players != 4 ==> r == Err::<Table, LoveLetterError>(
                LoveLetterError::InvalidNumberOfPlayers(num_players),
            ),
            num_players == 3 || num_players == 4 ==> (r matches Ok(t) && {
                &&& t@.players.len() == num_players
                &&& forall|i: int|
                    0 <= i < num_players ==> #[trigger] t@.players[i] == (PlayerView {
                        name: seat_name(i),
                        hand: Seq::empty(),
                        discards: Seq::empty(),
                    })
                &&& t@.deck.len() == 0
                &&& t@.out_card is None
            }),
    {
        if num_players != 3 && num_players != 4 {
            return Err(LoveLetterError::InvalidNumberOfPlayers(num_players));
        }
        let mut players: Vec<Player> = Vec::new();
        players.push(Player::with_name("1"));
        players.push(Player::with_name("2"));
        players.push(Player::with_name("3"));
        if num_players == 4 {
            players.push(Player::with_name("4"));
        }
        let t = Table { players, deck: Deck::new(Vec::new()), out_card: None };
        Ok(t)
    }

    pub fn deck(&self) -> (r: &Deck)
        ensures
            r@ == self@.deck,
    {
        &self.deck
    }

    pub fn deck_mut(&mut self) -> (r: &mut Deck)
        ensures
            r@ == old(self)@.deck,
            final(self)@ == (TableView { deck: final(r)@, ..old(self)@ }),
    {
        &mut self.deck
    }

    pub fn num_players(&self) -> (r: usize)
        ensures
            r == self@.players.len(),
    {
        self.players.len()
    }

    /// The player in seat `player_num`, or `InvalidPlayerNumber`.
    pub fn player(&self, player_num: usize) -> (r: Result<&Player, LoveLetterError>)
        ensures
            player_num < self@.players.len() ==> (r matches Ok(p) && p@
                == self@.players[player_num as int]),
            player_num >= self@.players.len() ==> r == Err::<&Player, LoveLetterError>(
                LoveLetterError::InvalidPlayerNumber(player_num),
            ),
    {
        if player_num >= self.players.len() {
            return Err(LoveLetterError::InvalidPlayerNumber(player_num));
        }
        Ok(&self.players[player_num])
    }

    /// The player in seat `player_num`, for changing, or `InvalidPlayerNumber`.
    pub fn player_mut(&mut self, player_num: usize) -> (r: Result<&mut Player, LoveLetterError>)
        ensures
            player_num < old(self)@.players.len() ==> (r matches Ok(p) && p@ == old(
                self,
            )@.players[player_num as int] && final(self)@ == (TableView {
                players: old(self)@.players.update(player_num as int, final(p)@),
                ..old(self)@
            })),
            player_num >= old(self)@.players.len() ==> r == Err::<&mut Player, LoveLetterError>(
                LoveLetterError::InvalidPlayerNumber(player_num),
            ) && final(self)@ == old(self)@,
    {
        if player_num >= self.players.len() {
            return Err(LoveLetterError::InvalidPlayerNumber(player_num));
        }
        let p = &mut self.players[player_num];
        proof {
            lemma_views_of_update(old(self).players@, player_num as int, *final(p));
        }
        Ok(p)
    }

    pub fn out_card(&self) -> (r: Option<Card>)
        ensures
            r == self@.out_card,
    {
        self.out_card
    }

    pub fn set_out_card(&mut self, card: Option<Card>)
        ensures
            final(self)@ == (TableView { out_card: card, ..old(self)@ }),
    {
        self.out_card = card;
    }
}

} // verus!
