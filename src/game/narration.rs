//! The narration of a round: the exact text of each message and who gets it.

use vstd::prelude::*;
use vstd::string::StringExecFns;

use crate::game::card_action::CardAction;
use crate::game::model::{discard_played, hand, GameView};
use crate::messenger::Note;
use crate::state::card::Card;

verus! {

/// The decimal digit `d`.
pub open spec fn digit_text(d: nat) -> Seq<char> {
    if d == 0 {
        "0"@
    } else if d == 1 {
        "1"@
    } else if d == 2 {
        "2"@
    } else if d == 3 {
        "3"@
    } else if d == 4 {
        "4"@
    } else if d == 5 {
        "5"@
    } else if d == 6 {
        "6"@
    } else if d == 7 {
        "7"@
    } else if d == 8 {
        "8"@
    } else {
        "9"@
    }
}

/// `n` written in decimal.
pub open spec fn decimal(n: nat) -> Seq<char>
    decreases n,
{
    if n < 10 {
        digit_text(n)
    } else {
        decimal(n / 10) + digit_text(n % 10)
    }
}

/// How narration names seat `i`: "Player " and the seat number.
pub open spec fn seat_text(i: usize) -> Seq<char> {
    "Player "@ + decimal(i as nat)
}

/// A message to all players.
pub open spec fn to_everyone(text: Seq<char>) -> Note {
    (None, text)
}

/// The announcement that the acting player discards the card played.
pub open spec fn discard_text(a: CardAction) -> Seq<char> {
    seat_text(a.spec_current()) + " discards a "@ + a.spec_card().spec_name()
}

/// The announcement of a card played without a target.
pub open spec fn played_text(a: CardAction) -> Seq<char> {
    seat_text(a.spec_current()) + " plays a "@ + a.spec_card().spec_name()
}

/// The announcement of a card played on target `t`.
pub open spec fn played_on_text(a: CardAction, t: usize) -> Seq<char> {
    played_text(a) + " on "@ + seat_text(t)
}

/// The messages of the effect of `a`'s card in state `g`, its card already
/// discarded. Every message goes to all players but the Priest's reveal,
/// which goes to the acting player alone.
pub open spec fn card_narration(g: GameView, a: CardAction) -> Seq<Note> {
    let c = a.spec_current();
    let t = a.spec_target().unwrap();
    let played_on = to_everyone(played_on_text(a, t));
    match a.spec_card() {
        Card::Guard => {
            let guess = a.spec_guess().unwrap();
            let first = to_everyone(
                seat_text(c) + " guesses that "@ + seat_text(t) + " has a "@ + guess.spec_name(),
            );
            if hand(g, t as int)[0] == guess {
                seq![
                    first,
                    to_everyone(seat_text(t) + " has a "@ + guess.spec_name() + " and is out!"@),
                ]
            } else {
                seq![first, to_everyone(seat_text(t) + " does not have a "@ + guess.spec_name())]
            }
        },
        Card::Priest => seq![
            played_on,
            to_everyone(seat_text(t) + " shows his card to "@ + seat_text(c)),
            (
                Some(g.table.players[c as int].name),
                seat_text(t) + " shows you a "@ + hand(g, t as int)[0].spec_name(),
            ),
        ],
        Card::Baron => {
            let mine = hand(g, c as int)[0];
            let theirs = hand(g, t as int)[0];
            if mine.rank() == theirs.rank() {
                seq![played_on, to_everyone("Boingy, boingy, boingy. (The cards are equal.)"@)]
            } else {
                let (out, out_card) = if mine.rank() > theirs.rank() {
                    (t, theirs)
                } else {
                    (c, mine)
                };
                seq![
                    played_on,
                    to_everyone(seat_text(out) + " showed a "@ + out_card.spec_name() + " and is out."@),
                ]
            }
        },
        Card::Handmaid => seq![
            to_everyone(played_text(a)),
            to_everyone(seat_text(c) + " is safe."@),
        ],
        Card::Prince => {
            let d = hand(g, t as int)[0];
            let shown = seq![
                played_on,
                to_everyone(seat_text(t) + " discards a "@ + d.spec_name() + "."@),
            ];
            if d == Card::Princess {
                shown.push(to_everyone(seat_text(t) + " is out!"@))
            } else {
                shown
            }
        },
        Card::King => seq![
            played_on,
            to_everyone(seat_text(c) + " and "@ + seat_text(t) + " swap hands."@),
        ],
        Card::Countess => seq![to_everyone(played_text(a))],
        Card::Princess => seq![
            to_everyone(played_text(a)),
            to_everyone(seat_text(c) + " is out!"@),
        ],
    }
}

/// Every message of a successful action: the discard, then the effect's.
pub open spec fn narration(g: GameView, a: CardAction) -> Seq<Note> {
    seq![to_everyone(discard_text(a))] + card_narration(discard_played(g, a), a)
}

/// The decimal digit `d`.
fn digit_str(d: usize) -> (r: &'static str)
    requires
        d < 10,
    ensures
        r@ == digit_text(d as nat),
{
    match d {
        0 => "0",
        1 => "1",
        2 => "2",
        3 => "3",
        4 => "4",
        5 => "5",
        6 => "6",
        7 => "7",
        8 => "8",
        _ => "9",
    }
}

/// `n` written in decimal.
pub fn decimal_text(n: usize) -> (r: String)
    ensures
        r@ == decimal(n as nat),
    decreases n,
{
    if n < 10 {
        String::from_str(digit_str(n))
    } else {
        decimal_text(n / 10).concat(digit_str(n % 10))
    }
}

/// How narration names seat `i`.
pub fn player_label(i: usize) -> (r: String)
    ensures
        r@ == seat_text(i),
{
    String::from_str("Player ").concat(decimal_text(i).as_str())
}

} // verus!
