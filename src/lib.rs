//! Rules engine for a round of a Love Letter style card game: the cards, the
//! physical table, the per-card legality rules and the state machine that
//! applies validated actions.

pub mod error;
pub mod game;
pub mod messenger;
pub mod state;

pub use error::LoveLetterError;
pub use game::{CardAction, CardRules, Game, GameBuilder};
pub use messenger::Messenger;
pub use state::{Card, Deck, Player, Table};
