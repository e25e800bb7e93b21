//! The record of one played game, and its validation.
use vstd::prelude::*;
use crate::error::{Error, GameField};

verus! {

/// Who won a game.
#[derive(Clone, Copy, Debug, PartialEq, Eq, Structural)]
pub enum GameResult {
    NotSelected,
    FirstPlayerWon,
    SecondPlayerWon,
}

/// How a game ended.
#[derive(Clone, Copy, Debug, PartialEq, Eq, Structural)]
pub enum GameOutcome {
    FinalBattleVictory,
    NeutralsVictory,
    OpponentSurrender,
}

/// The colour a player bargained for.
#[derive(Clone, Copy, Debug, PartialEq, Eq, Structural)]
pub enum BargainsColor {
    NotSelected,
    BargainsColorRed,
    BargainsColorBlue,
}

/// The rule set of a tournament.
#[derive(Clone, Copy, Debug, PartialEq, Eq, Structural)]
pub enum ModType {
    Universe,
    Hrta,
}

/// The kind of map a tournament is played on.
#[derive(Clone, Copy, Debug, PartialEq, Eq, Structural)]
pub enum GameType {
    Rmg,
    Arena,
}

impl GameResult {
    /// The number that stands for the result on the wire.
    pub open spec fn spec_code(self) -> i32 {
        match self {
            GameResult::NotSelected => 0,
            GameResult::FirstPlayerWon => 1,
            GameResult::SecondPlayerWon => 2,
        }
    }

    /// The number that stands for the result on the wire.
    pub fn code(&self) -> (c: i32)
        ensures
            c == self.spec_code(),
    {
        match self {
            GameResult::NotSelected => 0,
            GameResult::FirstPlayerWon => 1,
            GameResult::SecondPlayerWon => 2,
        }
    }

    /// The result that a wire number stands for, if any.
    pub fn from_code(code: i32) -> (r: Option<GameResult>)
        ensures
            r is Some <==> 0 <= code <= 2,
            r is Some ==> r->0.spec_code() == code,
    {
        if code == 0 {
            Some(GameResult::NotSelected)
        } else if code == 1 {
            Some(GameResult::FirstPlayerWon)
        } else if code == 2 {
            Some(GameResult::SecondPlayerWon)
        } else {
            None
        }
    }
}

impl GameOutcome {
    /// The number that stands for the outcome on the wire.
    pub open spec fn spec_code(self) -> i32 {
        match self {
            GameOutcome::FinalBattleVictory => 0,
            GameOutcome::NeutralsVictory => 1,
            GameOutcome::OpponentSurrender => 2,
        }
    }

    /// The number that stands for the outcome on the wire.
    pub fn code(&self) -> (c: i32)
        ensures
            c == self.spec_code(),
    {
        match self {
            GameOutcome::FinalBattleVictory => 0,
            GameOutcome::NeutralsVictory => 1,
            GameOutcome::OpponentSurrender => 2,
        }
    }

    /// The outcome that a wire number stands for, if any.
    pub fn from_code(code: i32) -> (r: Option<GameOutcome>)
        ensures
            r is Some <==> 0 <= code <= 2,
            r is Some ==> r->0.spec_code() == code,
    {
        if code == 0 {
            Some(GameOutcome::FinalBattleVictory)
        } else if code == 1 {
            Some(GameOutcome::NeutralsVictory)
        } else if code == 2 {
            Some(GameOutcome::OpponentSurrender)
        } else {
            None
        }
    }
}

impl BargainsColor {
    /// The number that stands for the colour on the wire.
    pub open spec fn spec_code(self) -> i32 {
        match self {
            BargainsColor::NotSelected => 0,
            BargainsColor::BargainsColorRed => 2,
            BargainsColor::BargainsColorBlue => 3,
        }
    }

    /// The number that stands for the colour on the wire.
    pub fn code(&self) -> (c: i32)
        ensures
            c == self.spec_code(),
    {
        match self {
            BargainsColor::NotSelected => 0,
            BargainsColor::BargainsColorRed => 2,
            BargainsColor::BargainsColorBlue => 3,
        }
    }

    /// The colour that a wire number stands for, if any.
    pub fn from_code(code: i32) -> (r: Option<BargainsColor>)
        ensures
            r is Some <==> code == 0 || code == 2 || code == 3,
            r is Some ==> r->0.spec_code() == code,
    {
        if code == 0 {
            Some(BargainsColor::NotSelected)
        } else if code == 2 {
            Some(BargainsColor::BargainsColorRed)
        } else if code == 3 {
            Some(BargainsColor::BargainsColorBlue)
        } else {
            None
        }
    }
}

impl ModType {
    /// The number that stands for the rule set on the wire.
    pub open spec fn spec_code(self) -> i32 {
        match self {
            ModType::Universe => 1,
            ModType::Hrta => 2,
        }
    }

    /// The number that stands for the rule set on the wire.
    pub fn code(&self) -> (c: i32)
        ensures
            c == self.spec_code(),
    {
        match self {
            ModType::Universe => 1,
            ModType::Hrta => 2,
        }
    }

    /// The rule set that a wire number stands for, if any.
    pub fn from_code(code: i32) -> (r: Option<ModType>)
        ensures
            r is Some <==> code == 1 || code == 2,
            r is Some ==> r->0.spec_code() == code,
    {
        if code == 1 {
            Some(ModType::Universe)
        } else if code == 2 {
            Some(ModType::Hrta)
        } else {
            None
        }
    }
}

/// One of the two seats of a game.
#[derive(Clone, Copy, Debug, PartialEq, Eq, Structural)]
pub enum Side {
    First,
    Second,
}

/// A game as the provider sends it: picks and bargain may be missing.
#[derive(Clone, Copy, Debug, PartialEq, Eq)]
pub struct RawGame {
    pub id: u128,
    pub match_id: u128,
    pub first_player_race: Option<i64>,
    pub first_player_hero: Option<i64>,
    pub second_player_race: Option<i64>,
    pub second_player_hero: Option<i64>,
    pub bargains_color: Option<BargainsColor>,
    pub bargains_amount: Option<i64>,
    pub result: GameResult,
    pub outcome: GameOutcome,
}

/// One validated game, the unit of every count.
///
/// A positive `bargains_amount` favours the first player, a negative one
/// the second; `None` says that the game had no bargaining.
#[derive(Clone, Copy, Debug, PartialEq, Eq)]
pub struct GameEntry {
    pub match_id: u128,
    pub first_player_race: i64,
    pub first_player_hero: i64,
    pub second_player_race: i64,
    pub second_player_hero: i64,
    pub bargains_amount: Option<i64>,
    pub bargains_color: Option<BargainsColor>,
    pub result: GameResult,
    pub outcome: GameOutcome,
}

impl RawGame {
    /// The first required field that the record lacks, in the order first
    /// race, first hero, second race, second hero.
    pub open spec fn missing_field(self) -> Option<GameField> {
        if self.first_player_race is None {
            Some(GameField::FirstPlayerRace)
        } else if self.first_player_hero is None {
            Some(GameField::FirstPlayerHero)
        } else if self.second_player_race is None {
            Some(GameField::SecondPlayerRace)
        } else if self.second_player_hero is None {
            Some(GameField::SecondPlayerHero)
        } else {
            None
        }
    }

    /// The game that a complete record stands for.
    pub open spec fn entry(self) -> GameEntry
        recommends
            self.missing_field() is None,
    {
        GameEntry {
            match_id: self.match_id,
            first_player_race: self.first_player_race->0,
            first_player_hero: self.first_player_hero->0,
            second_player_race: self.second_player_race->0,
            second_player_hero: self.second_player_hero->0,
            bargains_amount: self.bargains_amount,
            bargains_color: self.bargains_color,
            result: self.result,
            outcome: self.outcome,
        }
    }
}

impl GameEntry {
    /// Validates a raw record: a record with all four picks becomes a game,
    /// any other is rejected with the first missing field and its own
    /// identifier. A missing bargain is no reason to reject.
    pub fn try_from(value: RawGame) -> (res: Result<GameEntry, Error>)
        ensures
            match res {
                Ok(game) => value.missing_field() is None && game == value.entry(),
                Err(e) => value.missing_field() is Some && e == (Error::NoGameField {
                    field: value.missing_field()->0,
                    game_id: value.id,
                }),
            },
    {
        let first_player_race = match value.first_player_race {
            Some(race) => race,
            None => {
                return Err(
                    Error::NoGameField { field: GameField::FirstPlayerRace, game_id: value.id },
                );
            },
        };
        let first_player_hero = match value.first_player_hero {
            Some(hero) => hero,
            None => {
                return Err(
                    Error::NoGameField { field: GameField::FirstPlayerHero, game_id: value.id },
                );
            },
        };
        let second_player_race = match value.second_player_race {
            Some(race) => race,
            None => {
                return Err(
                    Error::NoGameField { field: GameField::SecondPlayerRace, game_id: value.id },
                );
            },
        };
        let second_player_hero = match value.second_player_hero {
            Some(hero) => hero,
            None => {
                return Err(
                    Error::NoGameField { field: GameField::SecondPlayerHero, game_id: value.id },
                );
            },
        };
        Ok(
            GameEntry {
                match_id: value.match_id,
                first_player_race,
                first_player_hero,
                second_player_race,
                second_player_hero,
                bargains_amount: value.bargains_amount,
                bargains_color: value.bargains_color,
                result: value.result,
                outcome: value.outcome,
            },
        )
    }

    /// The race picked on a side.
    pub open spec fn race_of(self, side: Side) -> i64 {
        match side {
            Side::First => self.first_player_race,
            Side::Second => self.second_player_race,
        }
    }

    /// The hero picked on a side.
    pub open spec fn hero_of(self, side: Side) -> i64 {
        match side {
            Side::First => self.first_player_hero,
            Side::Second => self.second_player_hero,
        }
    }

    /// Whether the side won.
    pub open spec fn won_by(self, side: Side) -> bool {
        match side {
            Side::First => self.result == GameResult::FirstPlayerWon,
            Side::Second => self.result == GameResult::SecondPlayerWon,
        }
    }

    /// Whether the game has a winner.
    pub open spec fn decided(self) -> bool {
        self.result != GameResult::NotSelected
    }

    /// Whether both sides picked the same race.
    pub open spec fn is_mirror(self) -> bool {
        self.first_player_race == self.second_player_race
    }

    /// The bargain as the side sees it: the stored amount for the first
    /// side, its negation for the second.
    pub open spec fn amount_for(self, side: Side) -> Option<int> {
        match self.bargains_amount {
            None => None,
            Some(amount) => match side {
                Side::First => Some(amount as int),
                Side::Second => Some(-(amount as int)),
            },
        }
    }

    /// Whether the bargain can be seen from either side: its negation is
    /// an `i64` too.
    pub open spec fn amount_in_range(self) -> bool {
        self.bargains_amount != Some(i64::MIN)
    }
}

impl Side {
    /// The other seat.
    pub open spec fn spec_other(self) -> Side {
        match self {
            Side::First => Side::Second,
            Side::Second => Side::First,
        }
    }

    /// The other seat.
    pub fn other(&self) -> (s: Side)
        ensures
            s == self.spec_other(),
    {
        match self {
            Side::First => Side::Second,
            Side::Second => Side::First,
        }
    }
}

/// The games of the valid records of a list, in the list's order.
pub open spec fn valid_games(raw: Seq<RawGame>) -> Seq<GameEntry>
    decreases raw.len(),
{
    if raw.len() == 0 {
        Seq::empty()
    } else if raw.last().missing_field() is None {
        valid_games(raw.drop_last()).push(raw.last().entry())
    } else {
        valid_games(raw.drop_last())
    }
}

/// The rejections of the invalid records of a list, in the list's order.
pub open spec fn rejections(raw: Seq<RawGame>) -> Seq<Error>
    decreases raw.len(),
{
    if raw.len() == 0 {
        Seq::empty()
    } else if raw.last().missing_field() is Some {
        rejections(raw.drop_last()).push(
            Error::NoGameField { field: raw.last().missing_field()->0, game_id: raw.last().id },
        )
    } else {
        rejections(raw.drop_last())
    }
}

/// Validates every record of a list. The valid ones come back as games,
/// the others as one rejection each; both keep the list's order, and no
/// record is filled in or counted twice.
pub fn validate_games(raw: &Vec<RawGame>) -> (res: (Vec<GameEntry>, Vec<Error>))
    ensures
        res.0@ == valid_games(raw@),
        res.1@ == rejections(raw@),
        res.0@.len() + res.1@.len() == raw@.len(),
{
    let mut games: Vec<GameEntry> = Vec::new();
    let mut rejected: Vec<Error> = Vec::new();
    let mut i: usize = 0;
    while i < raw.len()
        invariant
            i <= raw.len(),
            games@ == valid_games(raw@.take(i as int)),
            rejected@ == rejections(raw@.take(i as int)),
            games@.len() + rejected@.len() == i,
        decreases raw.len() - i,
    {
        assert(raw@.take(i + 1).drop_last() == raw@.take(i as int));
        match GameEntry::try_from(raw[i]) {
            Ok(game) => {
                games.push(game);
            },
            Err(e) => {
                rejected.push(e);
            },
        }
        i = i + 1;
    }
    assert(raw@.take(i as int) == raw@);
    (games, rejected)
}

} // verus!
