//! Why a record is rejected or a report cannot be built.
use vstd::prelude::*;

verus! {

/// The fields of a raw game record that must be present.
#[derive(Clone, Copy, Debug, PartialEq, Eq, Structural)]
pub enum GameField {
    FirstPlayerRace,
    FirstPlayerHero,
    SecondPlayerRace,
    SecondPlayerHero,
}

impl GameField {
    /// The name under which the provider sends the field.
    pub open spec fn spec_name(self) -> Seq<char> {
        match self {
            GameField::FirstPlayerRace => "first_player_race"@,
            GameField::FirstPlayerHero => "first_player_hero"@,
            GameField::SecondPlayerRace => "second_player_race"@,
            GameField::SecondPlayerHero => "second_player_hero"@,
        }
    }

    /// The name under which the provider sends the field.
    pub fn name(&self) -> (s: &'static str)
        ensures
            s@ == self.spec_name(),
    {
        match self {
            GameField::FirstPlayerRace => "first_player_race",
            GameField::FirstPlayerHero => "first_player_hero",
            GameField::SecondPlayerRace => "second_player_race",
            GameField::SecondPlayerHero => "second_player_hero",
        }
    }
}

/// Everything that can stop a record from being counted or a report from
/// being laid out.
#[derive(Clone, Copy, Debug, PartialEq, Eq, Structural)]
pub enum Error {
    /// A raw game record lacks a required field.
    NoGameField { field: GameField, game_id: u128 },
    /// The model holds no tournament.
    NoTournament,
    /// The model is too large for a sheet, or holds a bargain that cannot
    /// be seen from the other side.
    ModelLimits,
    /// A match names a participant who is not in the list of users.
    UnknownUser { user_id: u128 },
    /// A game names a race that is not in the list of races.
    UnknownRace { race_id: i64 },
    /// A game names a hero who is not in the list of heroes.
    UnknownHero { hero_id: i64 },
    /// No game of the list has the identifier that was asked for.
    UnknownGame { game_id: u128 },
}

} // verus!
