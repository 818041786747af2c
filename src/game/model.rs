//! The mathematical model of a round: its state as plain values, what makes
//! an action legal, what each card does, and the invariant of the round.

use vstd::prelude::*;

use crate::error::LoveLetterError;
use crate::game::card_action::CardAction;
use crate::game::card_rules::allowed_result;
use crate::state::card::Card;
use crate::state::player::{without_first, PlayerView};
use crate::state::table::{seat_name, TableView};

verus! {

/// What can be seen of a round: the table and the round state.
pub ghost struct GameView {
    pub table: TableView,
    /// The seat whose turn it is.
    pub current: usize,
    /// The seats still in the round.
    pub active: Set<usize>,
    /// The seats that cannot be targeted until their next turn.
    pub protected: Set<usize>,
}

/// Whether the card needs a target.
pub open spec fn needs_target(card: Card) -> bool {
    match card {
        Card::Guard | Card::Priest | Card::Baron | Card::Prince | Card::King => true,
        Card::Handmaid | Card::Countess | Card::Princess => false,
    }
}

/// Whether the card may target the player who plays it.
pub open spec fn may_target_self(card: Card) -> bool {
    card == Card::Prince
}

/// Whether the card needs a guess.
pub open spec fn needs_guess(card: Card) -> bool {
    card == Card::Guard
}

/// The hand of seat `i`.
pub open spec fn hand(g: GameView, i: int) -> Seq<Card> {
    g.table.players[i].hand
}

/// `g` with seat `i` replaced by `p`.
pub open spec fn with_player(g: GameView, i: int, p: PlayerView) -> GameView {
    GameView { table: TableView { players: g.table.players.update(i, p), ..g.table }, ..g }
}

/// `g` with the hand of seat `i` replaced by `h`.
pub open spec fn with_hand(g: GameView, i: int, h: Seq<Card>) -> GameView {
    with_player(g, i, PlayerView { hand: h, ..g.table.players[i] })
}

/// `p` after moving the first copy of `c` from the hand to the discard pile.
pub open spec fn discarded(p: PlayerView, c: Card) -> PlayerView {
    PlayerView { hand: without_first(p.hand, c), discards: p.discards.push(c), ..p }
}

/// Seat `i` leaves the round, and with it loses any protection.
pub open spec fn eliminate(g: GameView, i: usize) -> GameView {
    GameView { active: g.active.remove(i), protected: g.protected.remove(i), ..g }
}

/// Seat `i` takes the top card of the deck, if there is one.
pub open spec fn draw(g: GameView, i: int) -> GameView {
    if g.table.deck.len() > 0 {
        let g2 = with_hand(g, i, hand(g, i).push(g.table.deck[0]));
        GameView { table: TableView { deck: g.table.deck.drop_first(), ..g2.table }, ..g2 }
    } else {
        g
    }
}

/// The round is over when at most one seat is active, or when the deck is
/// empty and the current player could not draw at the start of the turn.
pub open spec fn round_over(g: GameView) -> bool {
    g.active.len() <= 1 || (g.table.deck.len() == 0 && hand(g, g.current as int).len() < 2)
}

/// The outcome of validating action `a` in state `g`, first failure first:
/// the round must go on, the acting seat must exist and hold the card, the
/// card's rules must accept the action, and the current player must have
/// drawn this turn.
pub open spec fn validate(g: GameView, a: CardAction) -> Result<(), LoveLetterError> {
    let card = a.spec_card();
    let actor = a.spec_current();
    if round_over(g) {
        Err(LoveLetterError::BadActionRoundOver)
    } else if actor >= g.table.players.len() {
        Err(LoveLetterError::InvalidPlayerNumber(actor))
    } else if !hand(g, actor as int).contains(card) {
        Err(LoveLetterError::BadActionPlayerDoesntHaveCard(actor, card))
    } else {
        match allowed_result(
            needs_target(card),
            may_target_self(card),
            needs_guess(card),
            a,
            g.current,
            g.active,
            g.protected,
        ) {
            Err(e) => Err(e),
            Ok(_) => if hand(g, g.current as int).len() < 2 {
                Err(LoveLetterError::BadActionMustDrawFirst)
            } else {
                Ok(())
            },
        }
    }
}

/// The current player moves the played card from hand to discard pile.
pub open spec fn discard_played(g: GameView, a: CardAction) -> GameView {
    with_player(g, g.current as int, discarded(g.table.players[g.current as int], a.spec_card()))
}

/// The lower card of a comparison leaves the round; equal cards do nothing.
pub open spec fn baron_effect(g: GameView, t: usize) -> GameView {
    let mine = hand(g, g.current as int)[0];
    let theirs = hand(g, t as int)[0];
    if mine.rank() == theirs.rank() {
        g
    } else if mine.rank() > theirs.rank() {
        eliminate(g, t)
    } else {
        eliminate(g, g.current)
    }
}

/// The target discards their card. A discarded Princess puts them out;
/// otherwise they take the top of the deck, or the set-aside card when the
/// deck is empty.
pub open spec fn prince_effect(g: GameView, t: usize) -> GameView {
    let d = hand(g, t as int)[0];
    let g2 = with_player(g, t as int, discarded(g.table.players[t as int], d));
    if d == Card::Princess {
        eliminate(g2, t)
    } else if g2.table.deck.len() > 0 {
        draw(g2, t as int)
    } else if let Some(x) = g2.table.out_card {
        let g3 = with_hand(g2, t as int, hand(g2, t as int).push(x));
        GameView { table: TableView { out_card: None, ..g3.table }, ..g3 }
    } else {
        g2
    }
}

/// The acting player and the target swap hands.
pub open spec fn king_effect(g: GameView, t: usize) -> GameView {
    let c = g.current as int;
    with_hand(with_hand(g, c, hand(g, t as int)), t as int, hand(g, c))
}

/// What playing `a`'s card does to the state, once the card is discarded.
pub open spec fn card_effect(g: GameView, a: CardAction) -> GameView {
    let t = a.spec_target().unwrap();
    match a.spec_card() {
        Card::Guard => if hand(g, t as int)[0] == a.spec_guess().unwrap() {
            eliminate(g, t)
        } else {
            g
        },
        Card::Priest => g,
        Card::Baron => baron_effect(g, t),
        Card::Handmaid => GameView { protected: g.protected.insert(g.current), ..g },
        Card::Prince => prince_effect(g, t),
        Card::King => king_effect(g, t),
        Card::Countess => g,
        Card::Princess => eliminate(g, g.current),
    }
}

/// The first active seat met when going round the table from `c`, trying
/// the `k`-th seat after it first and the `n`-th (that is `c` itself) last.
pub open spec fn seek(active: Set<usize>, n: nat, c: nat, k: nat) -> usize
    decreases n + 1 - k,
{
    if n == 0 || k > n {
        c as usize
    } else if active.contains(((c + k) % n) as usize) {
        ((c + k) % n) as usize
    } else {
        seek(active, n, c, k + 1)
    }
}

/// The next active seat after the current one.
pub open spec fn next_seat(g: GameView) -> usize {
    seek(g.active, g.table.players.len(), g.current as nat, 1)
}

/// The turn passes to the next active seat, whose protection lapses.
pub open spec fn advance(g: GameView) -> GameView {
    let p = next_seat(g);
    GameView { current: p, protected: g.protected.remove(p), ..g }
}

/// Whether the current player may draw: the round goes on, they hold only
/// the card they started the turn with, and the deck has a card.
pub open spec fn may_draw(g: GameView) -> bool {
    g.active.len() >= 2 && hand(g, g.current as int).len() == 1 && g.table.deck.len() > 0
}

/// The draw that starts a turn: the current player takes the top card when
/// they may draw; otherwise nothing changes.
pub open spec fn turn_draw(g: GameView) -> GameView {
    if may_draw(g) {
        draw(g, g.current as int)
    } else {
        g
    }
}

/// What a call that performs action `a` in state `g` returns: the error of
/// the first failed check, or the state after discard, effect and advance.
pub open spec fn step(g: GameView, a: CardAction) -> Result<GameView, LoveLetterError> {
    match validate(g, a) {
        Err(e) => Err(e),
        Ok(_) => Ok(advance(card_effect(discard_played(g, a), a))),
    }
}

/// The seats `0` up to `n - 1`.
pub open spec fn seats(n: nat) -> Set<usize>
    decreases n,
{
    if n == 0 {
        Set::empty()
    } else {
        seats((n - 1) as nat).insert((n - 1) as usize)
    }
}

/// The state in which a round dealt from deck `d` to `n` seats starts: one
/// card to each seat in seat order, and the next card set aside.
pub open spec fn dealt(n: nat, d: Seq<Card>) -> GameView {
    GameView {
        table: TableView {
            players: Seq::new(
                n,
                |i: int| PlayerView { name: seat_name(i), hand: seq![d[i]], discards: Seq::empty() },
            ),
            deck: d.skip(n + 1 as int),
            out_card: Some(d[n as int]),
        },
        current: 0,
        active: seats(n),
        protected: Set::empty(),
    }
}

/// The invariant of a round between actions.
pub open spec fn wf(g: GameView) -> bool {
    let n = g.table.players.len();
    let c = g.current;
    &&& n == 3 || n == 4
    &&& g.active.finite()
    &&& forall|i: usize| #[trigger] g.active.contains(i) ==> i < n
    &&& forall|i: usize| #[trigger] g.protected.contains(i) ==> g.active.contains(i)
    &&& g.active.contains(c)
    &&& forall|i: usize| #[trigger] g.active.contains(i) && i != c ==> hand(g, i as int).len() == 1
    &&& hand(g, c as int).len() == 1 || hand(g, c as int).len() == 2
    &&& g.table.out_card is None ==> g.table.deck.len() == 0 && hand(g, c as int).len() == 1
}

/// What the card effects need of the state once the played card is
/// discarded: every active seat holds one card, the action passed the rules,
/// and at least two seats are active.
pub open spec fn effect_ready(g: GameView, a: CardAction) -> bool {
    let n = g.table.players.len();
    let c = g.current;
    let card = a.spec_card();
    let t = a.spec_target().unwrap();
    &&& n == 3 || n == 4
    &&& g.active.finite()
    &&& g.active.len() >= 2
    &&& forall|i: usize| #[trigger] g.active.contains(i) ==> i < n
    &&& forall|i: usize| #[trigger] g.protected.contains(i) ==> g.active.contains(i)
    &&& g.active.contains(c)
    &&& a.spec_current() == c
    &&& forall|i: usize| #[trigger] g.active.contains(i) ==> hand(g, i as int).len() == 1
    &&& g.table.out_card is Some
    &&& needs_target(card) ==> {
        &&& a.spec_target() is Some
        &&& g.active.contains(t)
        &&& t != c || may_target_self(card)
    }
    &&& needs_guess(card) ==> a.spec_guess() is Some
}

/// The state after an effect and before the turn passes: every active seat
/// holds one card, and the set-aside card is gone only with the deck.
pub open spec fn settled(g: GameView) -> bool {
    let n = g.table.players.len();
    &&& n == 3 || n == 4
    &&& g.active.finite()
    &&& g.active.len() >= 1
    &&& g.current < n
    &&& forall|i: usize| #[trigger] g.active.contains(i) ==> i < n
    &&& forall|i: usize| #[trigger] g.protected.contains(i) ==> g.active.contains(i)
    &&& forall|i: usize| #[trigger] g.active.contains(i) ==> hand(g, i as int).len() == 1
    &&& g.table.out_card is None ==> g.table.deck.len() == 0
}

/// Taking out a card that occurs shortens the sequence by one.
pub proof fn lemma_without_first_len(s: Seq<Card>, c: Card)
    requires
        s.contains(c),
    ensures
        without_first(s, c).len() == s.len() - 1,
    decreases s.len(),
{
    if s[0] != c {
        let j = choose|j: int| 0 <= j < s.len() && s[j] == c;
        assert(s.drop_first()[j - 1] == c);
        lemma_without_first_len(s.drop_first(), c);
    }
}

/// Going round the table from `c`, the search meets active seat `x` at the
/// latest, so it ends on an active seat.
proof fn lemma_seek_finds(active: Set<usize>, n: nat, c: nat, k: nat, x: usize)
    requires
        n == 3 || n == 4,
        c < n,
        x < n,
        active.contains(x),
        1 <= k,
        k <= (if x > c { x - c } else { x + n - c }),
    ensures
        active.contains(seek(active, n, c, k)),
        seek(active, n, c, k) < n,
        x != c ==> seek(active, n, c, k) != c,
    decreases n + 1 - k,
{
    let d: nat = (if x > c { x - c } else { x + n - c }) as nat;
    assert((c + d) % n == x && (k < n ==> (c + k) % n != c)) by {
        if n == 3 {
            assert((c + d) % 3 == x);
        } else {
            assert((c + d) % 4 == x);
        }
    }
    if k < d && !active.contains(((c + k) % n) as usize) {
        lemma_seek_finds(active, n, c, k + 1, x);
    }
}

/// A finite set of at least one element has an element.
proof fn lemma_some_member(s: Set<usize>) -> (x: usize)
    requires
        s.finite(),
        s.len() >= 1,
    ensures
        s.contains(x),
{
    s.choose()
}

/// The effect of a legal action leaves the state settled.
pub proof fn lemma_effect_settles(g: GameView, a: CardAction)
    requires
        effect_ready(g, a),
    ensures
        settled(card_effect(g, a)),
{
    let c = g.current;
    let t = a.spec_target().unwrap();
    let e = card_effect(g, a);
    match a.spec_card() {
        Card::Prince => {
            let d = hand(g, t as int)[0];
            let g2 = with_player(g, t as int, discarded(g.table.players[t as int], d));
            assert(without_first(hand(g, t as int), d).len() == 0);
            assert(hand(g2, t as int).len() == 0);
            if d == Card::Princess {
                assert(g.active.remove(t).len() >= 1);
            }
            assert forall|i: usize| #[trigger] e.active.contains(i) implies hand(e, i as int).len()
                == 1 by {
                if i != t {
                    assert(hand(e, i as int) == hand(g, i as int));
                }
            }
        },
        Card::King => {
            assert forall|i: usize| #[trigger] e.active.contains(i) implies hand(e, i as int).len()
                == 1 by {
                if i != t && i != c {
                    assert(hand(e, i as int) == hand(g, i as int));
                }
            }
        },
        Card::Baron => {
            assert(g.active.remove(t).len() >= 1);
        },
        Card::Guard => {
            assert(g.active.remove(t).len() >= 1);
        },
        _ => {},
    }
}

/// From a settled state the next seat is an active seat at the table, and
/// it is another seat than the current one when another seat is active.
pub proof fn lemma_next_seat_in_range(g: GameView)
    requires
        settled(g),
    ensures
        g.active.contains(next_seat(g)),
        next_seat(g) < g.table.players.len(),
        g.active.contains(g.current) && g.active.len() >= 2 ==> next_seat(g) != g.current,
{
    if g.active.contains(g.current) && g.active.len() >= 2 {
        let x = lemma_some_member(g.active.remove(g.current));
        lemma_seek_finds(g.active, g.table.players.len(), g.current as nat, 1, x);
    } else {
        let x = lemma_some_member(g.active);
        lemma_seek_finds(g.active, g.table.players.len(), g.current as nat, 1, x);
    }
}

/// The draw that starts a turn keeps the invariant.
pub proof fn lemma_turn_draw_keeps_invariant(g: GameView)
    requires
        wf(g),
    ensures
        wf(turn_draw(g)),
{
}

/// Passing the turn from a settled state restores the invariant.
pub proof fn lemma_advance_keeps_invariant(g: GameView)
    requires
        settled(g),
    ensures
        wf(advance(g)),
{
    lemma_next_seat_in_range(g);
}

/// Once a legal action's card is discarded, the effect can be applied.
pub proof fn lemma_discard_makes_ready(g: GameView, a: CardAction)
    requires
        wf(g),
        validate(g, a) is Ok,
    ensures
        effect_ready(discard_played(g, a), a),
{
    let c = g.current;
    let g1 = discard_played(g, a);
    lemma_without_first_len(hand(g, c as int), a.spec_card());
    assert forall|i: usize| #[trigger] g1.active.contains(i) implies hand(g1, i as int).len()
        == 1 by {
        if i != c {
            assert(hand(g1, i as int) == hand(g, i as int));
        }
    }
}

/// Every successful action keeps the invariant of the round: in particular
/// the current seat stays active and every protected seat is active.
pub proof fn lemma_step_keeps_invariant(g: GameView, a: CardAction)
    requires
        wf(g),
        step(g, a) is Ok,
    ensures
        wf(step(g, a)->Ok_0),
        step(g, a)->Ok_0.active.contains(step(g, a)->Ok_0.current),
        step(g, a)->Ok_0.protected.subset_of(step(g, a)->Ok_0.active),
{
    let g1 = discard_played(g, a);
    lemma_discard_makes_ready(g, a);
    lemma_effect_settles(g1, a);
    lemma_advance_keeps_invariant(card_effect(g1, a));
}

/// The state after performing `actions` in order, or `None` when one of them
/// fails.
pub open spec fn run(g: GameView, actions: Seq<CardAction>) -> Option<GameView>
    decreases actions.len(),
{
    if actions.len() == 0 {
        Some(g)
    } else {
        match step(g, actions[0]) {
            Ok(g2) => run(g2, actions.drop_first()),
            Err(_) => None,
        }
    }
}

/// After any sequence of successful actions the current seat is active and
/// every protected seat is active.
pub proof fn lemma_invariant_after_actions(g: GameView, actions: Seq<CardAction>)
    requires
        wf(g),
        run(g, actions) is Some,
    ensures
        wf(run(g, actions)->Some_0),
        run(g, actions)->Some_0.active.contains(run(g, actions)->Some_0.current),
        run(g, actions)->Some_0.protected.subset_of(run(g, actions)->Some_0.active),
    decreases actions.len(),
{
    if actions.len() > 0 {
        lemma_step_keeps_invariant(g, actions[0]);
        lemma_invariant_after_actions(step(g, actions[0])->Ok_0, actions.drop_first());
    }
}

/// The seats `0` up to `n - 1` form a finite set of `n` elements.
pub proof fn lemma_seats(n: nat)
    requires
        n <= 4,
    ensures
        seats(n).finite(),
        seats(n).len() == n,
        forall|i: usize| #[trigger] seats(n).contains(i) <==> i < n,
    decreases n,
{
    if n > 0 {
        lemma_seats((n - 1) as nat);
        assert(!seats((n - 1) as nat).contains((n - 1) as usize));
    }
}

/// A freshly dealt round meets the invariant.
pub proof fn lemma_dealt_wf(n: nat, d: Seq<Card>)
    requires
        n == 3 || n == 4,
        d.len() > n,
    ensures
        wf(dealt(n, d)),
{
    lemma_seats(n);
}

} // verus!
