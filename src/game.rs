//! The rules of the game: actions, their legality, and the round state machine.

pub mod card_action;
pub mod card_rules;
pub mod effects;
pub mod model;
pub mod laws;
pub mod narration;

pub use card_action::CardAction;
pub use card_rules::CardRules;

use vstd::prelude::*;
use vstd::string::StringExecFns;

use std::collections::HashSet;

use crate::error::LoveLetterError;
use crate::messenger::Messenger;
use crate::state::card::Card;
use crate::state::deck::{standard_cards, Deck};
use crate::state::player::{Player, PlayerView};
use crate::state::table::{seat_name, Table};
use narration::{narration, player_label};
use model::{
    advance, dealt, discard_played, draw, eliminate, lemma_dealt_wf,
    lemma_discard_makes_ready, lemma_effect_settles, lemma_seats,
    lemma_step_keeps_invariant, lemma_turn_draw_keeps_invariant, may_draw, next_seat, round_over,
    seats, seek, settled, step, turn_draw, validate, with_player, wf, GameView,
};

verus! {

broadcast use vstd::std_specs::hash::group_hash_axioms;

/// Sets up a round: the number of players, and optionally the deck to deal
/// from (by default a shuffled standard deck).
#[derive(Debug)]
pub struct GameBuilder {
    num_players: usize,
    deck: Option<Deck>,
}

impl GameBuilder {
    pub closed spec fn spec_num_players(&self) -> usize {
        self.num_players
    }

    /// The deck chosen, next card first, if one was chosen.
    pub closed spec fn spec_deck(&self) -> Option<Seq<Card>> {
        match self.deck {
            Some(d) => Some(d@),
            None => None,
        }
    }

    /// A builder for four players and a shuffled standard deck.
    pub fn new() -> (r: GameBuilder)
        ensures
            r.spec_num_players() == 4,
            r.spec_deck() is None,
    {
        GameBuilder { num_players: 4, deck: None }
    }

    /// Sets up the round: `InvalidNumberOfPlayers` unless there are 3 or 4
    /// players; `InternalErrorUnexpectedEmptyDeck` when the deck cannot give
    /// every player a card and set one aside; otherwise the dealt round.
    pub fn build(self) -> (r: Result<Game, LoveLetterError>)
        ensures
            self.spec_num_players() != 3 && self.spec_num_players() != 4 ==> r == Err::<
                Game,
                LoveLetterError,
            >(LoveLetterError::InvalidNumberOfPlayers(self.spec_num_players())),
            self.spec_num_players() == 3 || self.spec_num_players() == 4 ==> match self.spec_deck() {
                Some(d) => if d.len() <= self.spec_num_players() {
                    r == Err::<Game, LoveLetterError>(
                        LoveLetterError::InternalErrorUnexpectedEmptyDeck,
                    )
                } else {
                    r matches Ok(g) && g@ == dealt(self.spec_num_players() as nat, d)
                },
                None => r matches Ok(g) && exists|d: Seq<Card>|
                    d.to_multiset() == standard_cards().to_multiset() && d.len() == 16 && g@
                        == dealt(self.spec_num_players() as nat, d),
            },
            r matches Ok(g) ==> wf(g@),
    {
        let deck = match self.deck {
            Some(d) => d,
            None => {
                let mut d = Deck::standard();
                d.shuffle();
                d
            },
        };
        Game::new(self.num_players, deck)
    }

    /// Sets the number of players.
    pub fn num_players(self, num_players: usize) -> (r: GameBuilder)
        ensures
            r.spec_num_players() == num_players,
            r.spec_deck() == self.spec_deck(),
    {
        GameBuilder { num_players, deck: self.deck }
    }

    /// Sets the deck to deal from, in dealing order.
    pub fn deck(self, deck: Deck) -> (r: GameBuilder)
        ensures
            r.spec_num_players() == self.spec_num_players(),
            r.spec_deck() == Some(deck@),
    {
        GameBuilder { num_players: self.num_players, deck: Some(deck) }
    }
}

impl Default for GameBuilder {
    fn default() -> (r: GameBuilder)
        ensures
            r.spec_num_players() == 4,
            r.spec_deck() is None,
    {
        GameBuilder::new()
    }
}

/// A round in progress: the table, whose turn it is, and which seats are
/// active and protected. It changes only through `draw_card`, which starts a
/// turn, and `perform_action`, which plays it.
#[derive(Debug)]
pub struct Game {
    table: Table,
    current_player: usize,
    active: HashSet<usize>,
    protected: HashSet<usize>,
}

impl View for Game {
    type V = GameView;

    closed spec fn view(&self) -> GameView {
        GameView {
            table: self.table@,
            current: self.current_player,
            active: self.active@,
            protected: self.protected@,
        }
    }
}

/// Seat `i` while the first `k` seats have been dealt a card from `d`.
spec fn dealt_seat(d: Seq<Card>, i: int, k: int) -> PlayerView {
    PlayerView {
        name: seat_name(i),
        hand: if i < k {
            seq![d[i]]
        } else {
            Seq::empty()
        },
        discards: Seq::empty(),
    }
}

impl Game {
    /// Deals a round from `deck` to `num_players` players: one card to each
    /// seat in order, and the next card set aside.
    fn new(num_players: usize, deck: Deck) -> (r: Result<Game, LoveLetterError>)
        ensures
            num_players != 3 && num_players != 4 ==> r == Err::<Game, LoveLetterError>(
                LoveLetterError::InvalidNumberOfPlayers(num_players),
            ),
            (num_players == 3 || num_players == 4) && deck@.len() <= num_players ==> r == Err::<
                Game,
                LoveLetterError,
            >(LoveLetterError::InternalErrorUnexpectedEmptyDeck),
            (num_players == 3 || num_players == 4) && deck@.len() > num_players ==> (r matches Ok(
                g,
            ) && g@ == dealt(num_players as nat, deck@)),
            r matches Ok(g) ==> wf(g@),
    {
        let mut table = Table::new(num_players)?;
        if deck.cards_remaining() <= num_players {
            return Err(LoveLetterError::InternalErrorUnexpectedEmptyDeck);
        }
        let ghost d = deck@;
        *table.deck_mut() = deck;
        let mut game = Game {
            table,
            current_player: 0,
            active: HashSet::new(),
            protected: HashSet::new(),
        };
        let mut player_num: usize = 0;
        while player_num < num_players
            invariant
                num_players == 3 || num_players == 4,
                d.len() > num_players,
                player_num <= num_players,
                game@.table.players.len() == num_players,
                game@.table.deck == d.skip(player_num as int),
                game@.table.out_card is None,
                game@.current == 0,
                game@.active == seats(player_num as nat),
                game@.protected == Set::<usize>::empty(),
                forall|i: int|
                    0 <= i < num_players ==> #[trigger] game@.table.players[i] == dealt_seat(
                        d,
                        i,
                        player_num as int,
                    ),
            decreases num_players - player_num,
        {
            let ghost before = game@;
            game.active.insert(player_num);
            game.deal_one_to_player(player_num)?;
            proof {
                assert(d.skip(player_num as int)[0] == d[player_num as int]);
                assert(game@.table.players[player_num as int].hand =~= seq![d[player_num as int]]);
                assert(game@.table.deck =~= d.skip(player_num + 1));
                assert forall|i: int| 0 <= i < num_players && i != player_num implies #[trigger]
                    game@.table.players[i] == before.table.players[i] by {}
                let k = player_num as int;
                assert(game@.table.players[k] == dealt_seat(d, k, k + 1));
            }
            player_num = player_num + 1;
        }
        let out_card = game.table.deck_mut().deal_one();
        game.table.set_out_card(out_card);
        proof {
            let n = num_players as nat;
            lemma_seats(n);
            lemma_dealt_wf(n, d);
            assert(game@.table.players =~= dealt(n, d).table.players);
            assert(game@.table.deck =~= dealt(n, d).table.deck);
        }
        Ok(game)
    }

    /// Seat `player_num` takes the top card of the deck, if there is one.
    pub(crate) fn deal_one_to_player(&mut self, player_num: usize) -> (r: Result<(), LoveLetterError>)
        ensures
            player_num < old(self)@.table.players.len() ==> r is Ok && final(self)@ == draw(
                old(self)@,
                player_num as int,
            ),
            player_num >= old(self)@.table.players.len() ==> r == Err::<(), LoveLetterError>(
                LoveLetterError::InvalidPlayerNumber(player_num),
            ) && final(self)@ == old(self)@,
    {
        self.table.player(player_num)?;
        if let Some(card) = self.table.deck_mut().deal_one() {
            let player = self.table.player_mut(player_num)?;
            player.add_card_to_hand(card);
        }
        Ok(())
    }

    /// Seat `player_index` leaves the round.
    pub(crate) fn make_inactive(&mut self, player_index: usize)
        ensures
            final(self)@ == eliminate(old(self)@, player_index),
    {
        self.active.remove(&player_index);
        self.protected.remove(&player_index);
        proof {
            assert(self@.active =~= old(self)@.active.remove(player_index));
            assert(self@.protected =~= old(self)@.protected.remove(player_index));
        }
    }

    /// Seat `player_index` cannot be targeted until its next turn.
    pub(crate) fn make_protected(&mut self, player_index: usize)
        ensures
            final(self)@ == (GameView {
                protected: old(self)@.protected.insert(player_index),
                ..old(self)@
            }),
    {
        self.protected.insert(player_index);
    }

    /// Seat `player_index` loses its protection.
    fn make_unprotected(&mut self, player_index: usize)
        ensures
            final(self)@ == (GameView {
                protected: old(self)@.protected.remove(player_index),
                ..old(self)@
            }),
    {
        self.protected.remove(&player_index);
        proof {
            assert(self@.protected =~= old(self)@.protected.remove(player_index));
        }
    }

    /// The first active seat after the current one, going round the table.
    fn next_active_seat(&self) -> (r: usize)
        requires
            settled(self@),
        ensures
            r == next_seat(self@),
    {
        let n = self.table.num_players();
        let c = self.current_player;
        let mut k: usize = 1;
        while k <= n
            invariant
                n == self@.table.players.len(),
                n == 3 || n == 4,
                c == self@.current,
                c < n,
                1 <= k <= n + 1,
                seek(self@.active, n as nat, c as nat, 1) == seek(
                    self@.active,
                    n as nat,
                    c as nat,
                    k as nat,
                ),
            decreases n + 1 - k,
        {
            let i = (c + k) % n;
            if self.active.contains(&i) {
                return i;
            }
            k = k + 1;
        }
        c
    }

    /// The turn passes to the next active seat, whose protection lapses.
    fn make_next_player_current(&mut self)
        requires
            settled(old(self)@),
        ensures
            final(self)@ == advance(old(self)@),
    {
        let next = self.next_active_seat();
        self.current_player = next;
        self.make_unprotected(next);
    }

    /// Whether the deck is empty.
    pub fn is_deck_empty(&self) -> (r: bool)
        ensures
            r == (self@.table.deck.len() == 0),
    {
        self.table.deck().cards_remaining() == 0
    }

    /// The player in seat `player_num`, or `InvalidPlayerNumber`.
    pub fn player(&self, player_num: usize) -> (r: Result<&Player, LoveLetterError>)
        ensures
            player_num < self@.table.players.len() ==> (r matches Ok(p) && p@
                == self@.table.players[player_num as int]),
            player_num >= self@.table.players.len() ==> r == Err::<&Player, LoveLetterError>(
                LoveLetterError::InvalidPlayerNumber(player_num),
            ),
    {
        self.table.player(player_num)
    }

    /// The player in seat `player_num`, for changing, or `InvalidPlayerNumber`.
    pub(crate) fn player_mut(&mut self, player_num: usize) -> (r: Result<&mut Player, LoveLetterError>)
        ensures
            player_num < old(self)@.table.players.len() ==> (r matches Ok(p) && p@ == old(
                self,
            )@.table.players[player_num as int] && final(self)@ == with_player(
                old(self)@,
                player_num as int,
                final(p)@,
            )),
            player_num >= old(self)@.table.players.len() ==> r == Err::<&mut Player, LoveLetterError>(
                LoveLetterError::InvalidPlayerNumber(player_num),
            ) && final(self)@ == old(self)@,
    {
        self.table.player_mut(player_num)
    }

    /// Takes the set-aside card off the table.
    pub(crate) fn take_out_card(&mut self) -> (r: Option<Card>)
        ensures
            r == old(self)@.table.out_card,
            final(self)@ == (GameView {
                table: crate::state::table::TableView { out_card: None, ..old(self)@.table },
                ..old(self)@
            }),
    {
        let card = self.table.out_card();
        self.table.set_out_card(None);
        card
    }

    /// Whether the round is over: at most one seat is active, or the deck is
    /// empty and the current player could not draw at the start of the turn.
    pub fn is_round_over(&self) -> (r: bool)
        requires
            wf(self@),
        ensures
            r == round_over(self@),
    {
        if self.active.len() <= 1 {
            return true;
        }
        match self.table.player(self.current_player) {
            Ok(p) => self.is_deck_empty() && p.hand().len() < 2,
            Err(_) => false,
        }
    }

    /// Checks an action before anything changes: the round must go on, the
    /// acting seat must exist and hold the card, the card's rules must accept
    /// the action, and the current player must have drawn this turn.
    fn is_valid_action(&self, action: &CardAction) -> (r: Result<(), LoveLetterError>)
        requires
            wf(self@),
        ensures
            r == validate(self@, *action),
    {
        if self.is_round_over() {
            return Err(LoveLetterError::BadActionRoundOver);
        }
        let player = self.player(action.current())?;
        let card = action.card();
        if player.card_index(card).is_none() {
            return Err(LoveLetterError::BadActionPlayerDoesntHaveCard(action.current(), card));
        }
        let rules = effects::rules_for_card(card);
        rules.action_allowed(action, self.current_player, &self.active, &self.protected)?;
        if self.player(self.current_player)?.hand().len() < 2 {
            return Err(LoveLetterError::BadActionMustDrawFirst);
        }
        Ok(())
    }

    /// The draw that starts a turn: while the round goes on, the current
    /// player, holding only the card they started the turn with, takes the
    /// top card of the deck, which is returned. Otherwise nothing changes and
    /// `None` is returned.
    pub fn draw_card(&mut self) -> (r: Option<Card>)
        requires
            wf(old(self)@),
        ensures
            wf(final(self)@),
            final(self)@ == turn_draw(old(self)@),
            r == (if may_draw(old(self)@) {
                Some(old(self)@.table.deck[0])
            } else {
                None
            }),
    {
        proof {
            lemma_turn_draw_keeps_invariant(self@);
        }
        if self.active.len() < 2 || self.is_deck_empty() {
            return None;
        }
        let current = self.current_player;
        let held = match self.player(current) {
            Ok(p) => p.hand().len(),
            Err(_) => 0,
        };
        if held != 1 {
            return None;
        }
        let card = self.table.deck_mut().deal_one();
        if let Some(c) = card {
            if let Ok(p) = self.table.player_mut(current) {
                p.add_card_to_hand(c);
            }
        }
        card
    }

    /// Performs one action: checks it, announces and discards the played
    /// card, applies the card's effect, and passes the turn to the next
    /// active seat. The checks come in this order: the round must not be
    /// over (`BadActionRoundOver`: at most one seat is active, or the deck
    /// ran out before the current player could draw), the acting seat must
    /// exist and hold the card, the card's rules must accept the action, and
    /// the current player must have drawn this turn (`draw_card`). A failed
    /// check changes nothing and sends no message.
    pub fn perform_action<M: Messenger>(&mut self, action: CardAction, messenger: &mut M) -> (r:
        Result<(), LoveLetterError>)
        requires
            wf(old(self)@),
        ensures
            wf(final(self)@),
            match step(old(self)@, action) {
                Ok(g) => {
                    &&& r is Ok
                    &&& final(self)@ == g
                    &&& final(messenger).sent() == old(messenger).sent() + narration(
                        old(self)@,
                        action,
                    )
                },
                Err(e) => {
                    &&& r == Err::<(), LoveLetterError>(e)
                    &&& final(self)@ == old(self)@
                    &&& final(messenger).sent() == old(messenger).sent()
                },
            },
    {
        self.is_valid_action(&action)?;
        proof {
            lemma_discard_makes_ready(self@, action);
        }
        let msg = player_label(action.current()).concat(" discards a ").concat(
            action.card().name(),
        );
        messenger.message(None, msg.as_str());
        let current = self.player_mut(self.current_player)?;
        current.discard(action.card())?;
        effects::perform_card_action(&action, self, messenger)?;
        proof {
            lemma_effect_settles(discard_played(old(self)@, action), action);
            lemma_step_keeps_invariant(old(self)@, action);
        }
        self.make_next_player_current();
        Ok(())
    }

    /// The seat whose turn it is.
    pub fn current_player(&self) -> (r: usize)
        ensures
            r == self@.current,
    {
        self.current_player
    }

    /// Whether seat `player_index` is still in the round.
    pub fn is_active(&self, player_index: usize) -> (r: bool)
        ensures
            r == self@.active.contains(player_index),
    {
        self.active.contains(&player_index)
    }

    /// Whether seat `player_index` is protected.
    pub fn is_protected(&self, player_index: usize) -> (r: bool)
        ensures
            r == self@.protected.contains(player_index),
    {
        self.protected.contains(&player_index)
    }

    /// The number of seats still in the round.
    pub fn num_active(&self) -> (r: usize)
        ensures
            r == self@.active.len(),
    {
        self.active.len()
    }

    /// The table.
    pub fn table(&self) -> (r: &Table)
        ensures
            r@ == self@.table,
    {
        &self.table
    }
}

} // verus!
