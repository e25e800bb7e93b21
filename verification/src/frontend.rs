//! What a user interface is shown of matches, games and heroes.
use vstd::prelude::*;
use crate::error::Error;
use crate::games::{BargainsColor, GameOutcome, GameResult, GameType, ModType, RawGame};
use crate::layout::{join_all, join_upto};
use crate::model::{find_by, find_user, first_index, user_index, Hero, Match, Tournament, User};

verus! {

/// A tournament as a user interface shows it.
#[derive(Clone, Debug, PartialEq, Eq)]
pub struct TournamentFrontendModel {
    pub id: u128,
    pub name: String,
    pub mod_type: ModType,
    pub game_type: GameType,
    pub with_bargains: bool,
    pub with_bargains_color: bool,
    pub with_foreign_heroes: bool,
}

impl TournamentFrontendModel {
    /// The tournament with all its switches.
    pub fn from(value: Tournament) -> (shown: TournamentFrontendModel)
        ensures
            shown.id == value.id,
            shown.name@ == value.name@,
            shown.mod_type == value.mod_type,
            shown.game_type == value.game_type,
            shown.with_bargains == value.with_bargains,
            shown.with_bargains_color == value.with_bargains_color,
            shown.with_foreign_heroes == value.with_foreign_heroes,
    {
        TournamentFrontendModel {
            id: value.id,
            name: value.name,
            mod_type: value.mod_type,
            game_type: value.game_type,
            with_bargains: value.with_bargains,
            with_bargains_color: value.with_bargains_color,
            with_foreign_heroes: value.with_foreign_heroes,
        }
    }
}

/// A match with the nicknames of its two players.
#[derive(Clone, Debug, PartialEq, Eq)]
pub struct MatchFrontendModel {
    pub id: u128,
    pub first_user_id: u128,
    pub first_user_nickname: String,
    pub second_user_id: u128,
    pub second_user_nickname: String,
}

/// A match with its nicknames as a mathematical value.
pub struct MatchFrontendView {
    pub id: u128,
    pub first_user_id: u128,
    pub first_user_nickname: Seq<char>,
    pub second_user_id: u128,
    pub second_user_nickname: Seq<char>,
}

impl View for MatchFrontendModel {
    type V = MatchFrontendView;

    open spec fn view(&self) -> MatchFrontendView {
        MatchFrontendView {
            id: self.id,
            first_user_id: self.first_user_id,
            first_user_nickname: self.first_user_nickname@,
            second_user_id: self.second_user_id,
            second_user_nickname: self.second_user_nickname@,
        }
    }
}

/// The first player of a match who is not in the list of users.
pub open spec fn missing_player(m: Match, users: Seq<User>) -> Option<u128> {
    if user_index(users, m.first_player) is None {
        Some(m.first_player)
    } else if user_index(users, m.second_player) is None {
        Some(m.second_player)
    } else {
        None
    }
}

/// A match with the nicknames that the list of users has for its
/// players.
pub open spec fn shown_match(m: Match, users: Seq<User>) -> MatchFrontendView
    recommends
        missing_player(m, users) is None,
{
    MatchFrontendView {
        id: m.id,
        first_user_id: m.first_player,
        first_user_nickname: users[user_index(users, m.first_player)->0].nickname@,
        second_user_id: m.second_player,
        second_user_nickname: users[user_index(users, m.second_player)->0].nickname@,
    }
}

impl Match {
    /// The match with the nicknames of its players. A player who is not
    /// in the list of users gives `UnknownUser`, the first player before
    /// the second.
    pub fn into_frontend_model(&self, users_data: &Vec<User>) -> (res: Result<
        MatchFrontendModel,
        Error,
    >)
        ensures
            match res {
                Ok(shown) => missing_player(*self, users_data@) is None && shown@ == shown_match(
                    *self,
                    users_data@,
                ),
                Err(e) => missing_player(*self, users_data@) is Some && e == (Error::UnknownUser {
                    user_id: missing_player(*self, users_data@)->0,
                }),
            },
    {
        let first = match find_user(users_data, self.first_player) {
            Some(place) => place,
            None => {
                return Err(Error::UnknownUser { user_id: self.first_player });
            },
        };
        let second = match find_user(users_data, self.second_player) {
            Some(place) => place,
            None => {
                return Err(Error::UnknownUser { user_id: self.second_player });
            },
        };
        Ok(
            MatchFrontendModel {
                id: self.id,
                first_user_id: self.first_player,
                first_user_nickname: users_data[first].nickname.clone(),
                second_user_id: self.second_player,
                second_user_nickname: users_data[second].nickname.clone(),
            },
        )
    }
}

/// The matches of a list that can be shown, in the list's order.
pub open spec fn shown_matches(matches: Seq<Match>, users: Seq<User>) -> Seq<MatchFrontendView> {
    join_all(
        matches,
        |m: Match|
            if missing_player(m, users) is None {
                seq![shown_match(m, users)]
            } else {
                Seq::empty()
            },
    )
}

/// The matches of a list with the nicknames of their players. A match
/// with a player who is not in the list of users is left out.
pub fn load_matches(matches: &Vec<Match>, users_data: &Vec<User>) -> (shown: Vec<MatchFrontendModel>)
    ensures
        Seq::new(shown@.len(), |i: int| shown@[i]@) == shown_matches(matches@, users_data@),
{
    let mut shown: Vec<MatchFrontendModel> = Vec::new();
    let ghost one = |m: Match|
        if missing_player(m, users_data@) is None {
            seq![shown_match(m, users_data@)]
        } else {
            Seq::empty()
        };
    let mut i: usize = 0;
    while i < matches.len()
        invariant
            i <= matches@.len(),
            Seq::new(shown@.len(), |k: int| shown@[k]@) == join_upto(matches@, i as int, one),
            one == (|m: Match|
                if missing_player(m, users_data@) is None {
                    seq![shown_match(m, users_data@)]
                } else {
                    Seq::empty()
                }),
        decreases matches@.len() - i,
    {
        let ghost before = Seq::new(shown@.len(), |k: int| shown@[k]@);
        match matches[i].into_frontend_model(users_data) {
            Ok(converted) => {
                shown.push(converted);
            },
            Err(_) => {},
        }
        assert(Seq::new(shown@.len(), |k: int| shown@[k]@) =~= before + one(matches@[i as int]));
        i = i + 1;
    }
    shown
}

/// What stands for a pick or a bargain that a game does not have yet.
pub const NOT_SET: i64 = -1;

/// A game as a user interface shows it: what is missing is `NOT_SET`.
#[derive(Clone, Copy, Debug, PartialEq, Eq)]
pub struct GameFrontendModel {
    pub id: u128,
    pub first_player_race: i64,
    pub first_player_hero: i64,
    pub second_player_race: i64,
    pub second_player_hero: i64,
    pub bargains_color: Option<BargainsColor>,
    pub bargains_amount: i64,
    pub result: GameResult,
    pub outcome: GameOutcome,
}

/// The value of a field, or `NOT_SET`.
pub open spec fn or_not_set(field: Option<i64>) -> i64 {
    match field {
        Some(value) => value,
        None => NOT_SET,
    }
}

/// The value of a field, or `NOT_SET`.
fn value_or_not_set(field: Option<i64>) -> (value: i64)
    ensures
        value == or_not_set(field),
{
    match field {
        Some(value) => value,
        None => NOT_SET,
    }
}

impl RawGame {
    /// The game as a user interface shows it.
    pub open spec fn shown(self) -> GameFrontendModel {
        GameFrontendModel {
            id: self.id,
            first_player_race: or_not_set(self.first_player_race),
            first_player_hero: or_not_set(self.first_player_hero),
            second_player_race: or_not_set(self.second_player_race),
            second_player_hero: or_not_set(self.second_player_hero),
            bargains_color: self.bargains_color,
            bargains_amount: or_not_set(self.bargains_amount),
            result: self.result,
            outcome: self.outcome,
        }
    }

    /// The game as a user interface shows it: every pick and the bargain
    /// that the record lacks is `NOT_SET`.
    pub fn into_frontend_model(&self) -> (shown: GameFrontendModel)
        ensures
            shown == self.shown(),
    {
        GameFrontendModel {
            id: self.id,
            first_player_race: value_or_not_set(self.first_player_race),
            first_player_hero: value_or_not_set(self.first_player_hero),
            second_player_race: value_or_not_set(self.second_player_race),
            second_player_hero: value_or_not_set(self.second_player_hero),
            bargains_color: self.bargains_color,
            bargains_amount: value_or_not_set(self.bargains_amount),
            result: self.result,
            outcome: self.outcome,
        }
    }
}

/// The place of the first game with the identifier `id`.
pub open spec fn game_index(games: Seq<RawGame>, id: u128) -> Option<int> {
    first_index(games, |g: RawGame| g.id == id)
}

/// The game with the identifier `game_id` as a user interface shows it;
/// `UnknownGame` where the list has none.
pub fn select_game(games: &Vec<RawGame>, game_id: u128) -> (res: Result<GameFrontendModel, Error>)
    ensures
        match res {
            Ok(shown) => game_index(games@, game_id) is Some && shown == games@[game_index(
                games@,
                game_id,
            )->0].shown(),
            Err(e) => game_index(games@, game_id) is None && e == (Error::UnknownGame { game_id }),
        },
{
    let same = |g: &RawGame| -> (b: bool)
        ensures
            b == (g.id == game_id),
        {
            g.id == game_id
        };
    match find_by(games, same, Ghost(|g: RawGame| g.id == game_id)) {
        Some(place) => Ok(games[place].into_frontend_model()),
        None => Err(Error::UnknownGame { game_id }),
    }
}

/// A hero as a user interface shows it.
#[derive(Clone, Debug, PartialEq, Eq)]
pub struct HeroFrontendModel {
    pub id: i64,
    pub name: String,
}

/// The identifiers and names of the heroes of `race`, in the order of
/// the list.
pub open spec fn shown_heroes(heroes: Seq<Hero>, race: i64) -> Seq<(i64, Seq<char>)> {
    join_all(
        heroes,
        |h: Hero|
            if h.race == race {
                seq![(h.id, h.name@)]
            } else {
                Seq::empty()
            },
    )
}

/// The heroes of `race`, in the order of the list.
pub fn get_heroes_of_race(heroes: &Vec<Hero>, race: i64) -> (shown: Vec<HeroFrontendModel>)
    ensures
        Seq::new(shown@.len(), |i: int| (shown@[i].id, shown@[i].name@)) == shown_heroes(
            heroes@,
            race,
        ),
{
    let mut shown: Vec<HeroFrontendModel> = Vec::new();
    let ghost one = |h: Hero|
        if h.race == race {
            seq![(h.id, h.name@)]
        } else {
            Seq::empty()
        };
    let mut i: usize = 0;
    while i < heroes.len()
        invariant
            i <= heroes@.len(),
            Seq::new(shown@.len(), |k: int| (shown@[k].id, shown@[k].name@)) == join_upto(
                heroes@,
                i as int,
                one,
            ),
            one == (|h: Hero|
                if h.race == race {
                    seq![(h.id, h.name@)]
                } else {
                    Seq::empty()
                }),
        decreases heroes@.len() - i,
    {
        let ghost before = Seq::new(shown@.len(), |k: int| (shown@[k].id, shown@[k].name@));
        if heroes[i].race == race {
            shown.push(HeroFrontendModel { id: heroes[i].id, name: heroes[i].name.clone() });
        }
        assert(Seq::new(shown@.len(), |k: int| (shown@[k].id, shown@[k].name@)) =~= before + one(
            heroes@[i as int],
        ));
        i = i + 1;
    }
    shown
}

} // verus!
