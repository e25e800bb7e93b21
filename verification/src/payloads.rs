//! A change of one game, field by field.
use vstd::prelude::*;
use crate::games::{BargainsColor, GameOutcome, GameResult};

verus! {

/// The fields of a game that an update sets; a field that is `None`
/// stays as it is.
#[derive(Clone, Copy, Debug, PartialEq, Eq)]
pub struct UpdateGamePayload {
    pub id: u128,
    pub first_player_race: Option<i64>,
    pub first_player_hero: Option<i64>,
    pub second_player_race: Option<i64>,
    pub second_player_hero: Option<i64>,
    pub bargains_color: Option<BargainsColor>,
    pub bargains_amount: Option<i64>,
    pub result: Option<GameResult>,
    pub outcome: Option<GameOutcome>,
}

impl UpdateGamePayload {
    /// An update of the game `id` that sets nothing.
    pub open spec fn empty(id: u128) -> UpdateGamePayload {
        UpdateGamePayload {
            id,
            first_player_race: None,
            first_player_hero: None,
            second_player_race: None,
            second_player_hero: None,
            bargains_color: None,
            bargains_amount: None,
            result: None,
            outcome: None,
        }
    }

    /// An update of the game `id` that sets nothing.
    pub fn new(id: u128) -> (payload: UpdateGamePayload)
        ensures
            payload == Self::empty(id),
    {
        UpdateGamePayload {
            id,
            first_player_race: None,
            first_player_hero: None,
            second_player_race: None,
            second_player_hero: None,
            bargains_color: None,
            bargains_amount: None,
            result: None,
            outcome: None,
        }
    }

    /// The update that also sets the race of the first player.
    pub fn with_first_player_race(self, race: i64) -> (payload: UpdateGamePayload)
        ensures
            payload == (UpdateGamePayload { first_player_race: Some(race), ..self }),
    {
        let mut payload = self;
        payload.first_player_race = Some(race);
        payload
    }

    /// The update that also sets the hero of the first player.
    pub fn with_first_player_hero(self, hero: i64) -> (payload: UpdateGamePayload)
        ensures
            payload == (UpdateGamePayload { first_player_hero: Some(hero), ..self }),
    {
        let mut payload = self;
        payload.first_player_hero = Some(hero);
        payload
    }

    /// The update that also sets the race of the second player.
    pub fn with_second_player_race(self, race: i64) -> (payload: UpdateGamePayload)
        ensures
            payload == (UpdateGamePayload { second_player_race: Some(race), ..self }),
    {
        let mut payload = self;
        payload.second_player_race = Some(race);
        payload
    }

    /// The update that also sets the hero of the second player.
    pub fn with_second_player_hero(self, hero: i64) -> (payload: UpdateGamePayload)
        ensures
            payload == (UpdateGamePayload { second_player_hero: Some(hero), ..self }),
    {
        let mut payload = self;
        payload.second_player_hero = Some(hero);
        payload
    }

    /// The update that also sets the colour of the bargain.
    pub fn with_bargains_color(self, color: BargainsColor) -> (payload: UpdateGamePayload)
        ensures
            payload == (UpdateGamePayload { bargains_color: Some(color), ..self }),
    {
        let mut payload = self;
        payload.bargains_color = Some(color);
        payload
    }

    /// The update that also sets the amount of the bargain.
    pub fn with_bargains_amount(self, amount: i64) -> (payload: UpdateGamePayload)
        ensures
            payload == (UpdateGamePayload { bargains_amount: Some(amount), ..self }),
    {
        let mut payload = self;
        payload.bargains_amount = Some(amount);
        payload
    }

    /// The update that also sets the result.
    pub fn with_result(self, result: GameResult) -> (payload: UpdateGamePayload)
        ensures
            payload == (UpdateGamePayload { result: Some(result), ..self }),
    {
        let mut payload = self;
        payload.result = Some(result);
        payload
    }

    /// The update that also sets the outcome.
    pub fn with_outcome(self, outcome: GameOutcome) -> (payload: UpdateGamePayload)
        ensures
            payload == (UpdateGamePayload { outcome: Some(outcome), ..self }),
    {
        let mut payload = self;
        payload.outcome = Some(outcome);
        payload
    }
}

} // verus!
