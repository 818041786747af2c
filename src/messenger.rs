use vstd::prelude::*;

use crate::state::player::Player;

verus! {

/// A message as it is sent: the recipient's name, `None` for all players,
/// and the text.
pub type Note = (Option<Seq<char>>, Seq<char>);

/// The name of the recipient of a message, `None` for all players.
pub open spec fn recipient(player: Option<&Player>) -> Option<Seq<char>> {
    match player {
        Some(p) => Some(p@.name),
        None => None,
    }
}

/// A way of sending narration to the players: to one player, or to all.
pub trait Messenger {
    /// Every message sent so far, oldest first. An implementation that is
    /// verified states its own log here; the default only spares unverified
    /// implementations from writing one, and no caller can see it.
    closed spec fn sent(&self) -> Seq<Note> {
        Seq::empty()
    }

    /// Sends `msg` to `player`, or to all players when `player` is `None`.
    fn message(&mut self, player: Option<&Player>, msg: &str)
        ensures
            final(self).sent() == old(self).sent().push((recipient(player), msg@)),
    ;

    /// Sends `msg` to all players.
    fn to_all(&mut self, msg: &str)
        ensures
            final(self).sent() == old(self).sent().push((None, msg@)),
    {
        self.message(None, msg);
    }

    /// Sends `msg` to one player.
    fn to_player(&mut self, player: &Player, msg: &str)
        ensures
            final(self).sent() == old(self).sent().push((Some(player@.name), msg@)),
    {
        self.message(Some(player), msg);
    }
}

} // verus!
