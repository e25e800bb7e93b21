//! Win/loss statistics for two-player tournaments: validated game records,
//! race, hero and bargain tables, each player's history, and the sheets of
//! the report that shows them.
pub mod bargain_sheet;
pub mod bargains;
pub mod error;
pub mod frontend;
pub mod games;
pub mod hero_sheet;
pub mod heroes;
pub mod layout;
pub mod model;
pub mod pair;
pub mod pair_sheet;
pub mod payloads;
pub mod player;
pub mod player_sheet;
pub mod race;
pub mod rates;
pub mod report;
pub mod sheet;
pub mod tally;
pub mod text;
