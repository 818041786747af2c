//! The physical state of a game: cards, the deck, the players and the table.
//! Nothing here knows the rules of the game, and nothing prevents building
//! states that the rules would never reach.

pub mod card;
pub mod deck;
pub mod player;
pub mod table;

pub use card::Card;
pub use deck::Deck;
pub use player::{Player, PlayerView};
pub use table::{Table, TableView};
