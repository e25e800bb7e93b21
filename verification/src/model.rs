//! Everything one report is computed from: the tournament, its
//! participants, matches and games, and the lists of races and heroes.
use vstd::prelude::*;
use vstd::string::StringExecFns;
use vstd::string::StrSliceExecFns;
use crate::error::Error;
use crate::games::{GameEntry, GameType, ModType};

verus! {

/// A playable faction.
#[derive(Clone, Debug, PartialEq, Eq)]
pub struct RaceInfo {
    pub id: i64,
    pub name: String,
}

/// A hero, who belongs to one race.
#[derive(Clone, Debug, PartialEq, Eq)]
pub struct Hero {
    pub id: i64,
    pub name: String,
    pub race: i64,
}

/// A participant of the tournament.
#[derive(Clone, Debug, PartialEq, Eq)]
pub struct User {
    pub id: u128,
    pub nickname: String,
}

/// A series of games between two participants.
#[derive(Clone, Copy, Debug, PartialEq, Eq)]
pub struct Match {
    pub id: u128,
    pub tournament_id: u128,
    pub first_player: u128,
    pub second_player: u128,
}

/// A tournament and the switches that decide what a report shows.
#[derive(Clone, Debug, PartialEq, Eq)]
pub struct Tournament {
    pub id: u128,
    pub name: String,
    pub mod_type: ModType,
    pub game_type: GameType,
    pub with_bargains: bool,
    pub with_bargains_color: bool,
    pub with_foreign_heroes: bool,
}

/// What happens where a game names a race or a hero, or a match a
/// participant, that is missing from the lists.
#[derive(Clone, Copy, Debug, PartialEq, Eq, Structural)]
pub enum LookupPolicy {
    /// What cannot be looked up is left out and the report goes on: an
    /// unknown hero is no pick of a race, and a game with an unknown race
    /// or hero, like a match with an unknown opponent, is in no history.
    SkipRecord,
    /// No report is built: the first reference that leads nowhere is the
    /// refusal.
    AbortRun,
}

/// The input of one report.
#[derive(Clone, Debug, PartialEq, Eq)]
pub struct TournamentStatsModel {
    pub tournament: Option<Tournament>,
    pub users: Vec<User>,
    pub matches: Vec<Match>,
    pub games: Vec<GameEntry>,
    pub races: Vec<RaceInfo>,
    pub heroes: Vec<Hero>,
    pub lookup_policy: LookupPolicy,
}

/// The least identifier of a race.
pub const FIRST_RACE: i64 = 1;

/// The greatest identifier of a race.
pub const LAST_RACE: i64 = 8;

/// Whether `id` is one of the eight races.
pub open spec fn is_race_id(id: i64) -> bool {
    FIRST_RACE <= id <= LAST_RACE
}

/// The most games a report is laid out for.
pub const MAX_GAMES: usize = 1_000_000;

/// The most heroes a report is laid out for.
pub const MAX_HEROES: usize = 8_000;

/// The most entries the list of races may have.
pub const MAX_RACES: usize = 64;

/// The most characters a name may have to fit a cell.
pub const MAX_NAME_LEN: usize = 32_767;

/// The name of one of the eight races.
pub open spec fn default_race_name(id: int) -> Seq<char> {
    if id == 1 {
        "Орден порядка"@
    } else if id == 2 {
        "Инферно"@
    } else if id == 3 {
        "Некрополис"@
    } else if id == 4 {
        "Лесной союз"@
    } else if id == 5 {
        "Лига теней"@
    } else if id == 6 {
        "Академия волшебства"@
    } else if id == 7 {
        "Северные кланы"@
    } else {
        "Великая орда"@
    }
}

impl TournamentStatsModel {
    /// Whether the races are the eight of the game, in the order of their
    /// identifiers.
    pub open spec fn has_default_races(self) -> bool {
        &&& self.races@.len() == 8
        &&& forall|i: int|
            0 <= i < 8 ==> (#[trigger] self.races@[i]).id == i + 1 && self.races@[i].name@
                == default_race_name(i + 1)
    }

    /// Whether the model is small enough for a report: the lists within
    /// their limits, every name short enough for a cell, and every bargain
    /// such that the other side's view of it is an `i64` too.
    pub open spec fn within_limits(self) -> bool {
        &&& self.games@.len() <= MAX_GAMES
        &&& self.heroes@.len() <= MAX_HEROES
        &&& self.races@.len() <= MAX_RACES
        &&& forall|i: int| 0 <= i < self.games@.len() ==> (#[trigger] self.games@[i]).amount_in_range()
        &&& forall|i: int| 0 <= i < self.races@.len() ==> (#[trigger] self.races@[i]).name@.len() <= MAX_NAME_LEN
        &&& forall|i: int| 0 <= i < self.heroes@.len() ==> (#[trigger] self.heroes@[i]).name@.len() <= MAX_NAME_LEN
        &&& forall|i: int| 0 <= i < self.users@.len() ==> (#[trigger] self.users@[i]).nickname@.len() <= MAX_NAME_LEN
    }

    /// Decides `within_limits`.
    pub fn check_limits(&self) -> (ok: bool)
        ensures
            ok == self.within_limits(),
    {
        if self.games.len() > MAX_GAMES || self.heroes.len() > MAX_HEROES || self.races.len()
            > MAX_RACES {
            return false;
        }
        let mut i: usize = 0;
        while i < self.games.len()
            invariant
                i <= self.games@.len(),
                forall|k: int| 0 <= k < i ==> (#[trigger] self.games@[k]).amount_in_range(),
            decreases self.games@.len() - i,
        {
            match self.games[i].bargains_amount {
                Some(amount) => {
                    if amount == i64::MIN {
                        return false;
                    }
                },
                None => {},
            }
            i = i + 1;
        }
        let mut i: usize = 0;
        while i < self.races.len()
            invariant
                i <= self.races@.len(),
                forall|k: int| 0 <= k < i ==> (#[trigger] self.races@[k]).name@.len() <= MAX_NAME_LEN,
            decreases self.races@.len() - i,
        {
            if self.races[i].name.as_str().unicode_len() > MAX_NAME_LEN {
                return false;
            }
            i = i + 1;
        }
        let mut i: usize = 0;
        while i < self.heroes.len()
            invariant
                i <= self.heroes@.len(),
                forall|k: int| 0 <= k < i ==> (#[trigger] self.heroes@[k]).name@.len() <= MAX_NAME_LEN,
            decreases self.heroes@.len() - i,
        {
            if self.heroes[i].name.as_str().unicode_len() > MAX_NAME_LEN {
                return false;
            }
            i = i + 1;
        }
        let mut i: usize = 0;
        while i < self.users.len()
            invariant
                i <= self.users@.len(),
                forall|k: int| 0 <= k < i ==> (#[trigger] self.users@[k]).nickname@.len() <= MAX_NAME_LEN,
            decreases self.users@.len() - i,
        {
            if self.users[i].nickname.as_str().unicode_len() > MAX_NAME_LEN {
                return false;
            }
            i = i + 1;
        }
        true
    }

    /// What is wrong with the references of a game: the first of its
    /// first race, first hero, second race and second hero that is missing
    /// from the lists.
    pub open spec fn game_defect(self, g: GameEntry) -> Option<Error> {
        if race_index(self.races@, g.first_player_race) is None {
            Some(Error::UnknownRace { race_id: g.first_player_race })
        } else if hero_index(self.heroes@, g.first_player_hero) is None {
            Some(Error::UnknownHero { hero_id: g.first_player_hero })
        } else if race_index(self.races@, g.second_player_race) is None {
            Some(Error::UnknownRace { race_id: g.second_player_race })
        } else if hero_index(self.heroes@, g.second_player_hero) is None {
            Some(Error::UnknownHero { hero_id: g.second_player_hero })
        } else {
            None
        }
    }

    /// What is wrong with the references of a match: the first of its two
    /// players who is missing from the list of users.
    pub open spec fn match_defect(self, m: Match) -> Option<Error> {
        if user_index(self.users@, m.first_player) is None {
            Some(Error::UnknownUser { user_id: m.first_player })
        } else if user_index(self.users@, m.second_player) is None {
            Some(Error::UnknownUser { user_id: m.second_player })
        } else {
            None
        }
    }

    /// The defect of the first of the first `n` games that has one.
    pub open spec fn games_defect(self, n: int) -> Option<Error>
        decreases n,
    {
        if n <= 0 {
            None
        } else {
            match self.games_defect(n - 1) {
                Some(e) => Some(e),
                None => self.game_defect(self.games@[n - 1]),
            }
        }
    }

    /// The defect of the first of the first `n` matches that has one.
    pub open spec fn matches_defect(self, n: int) -> Option<Error>
        decreases n,
    {
        if n <= 0 {
            None
        } else {
            match self.matches_defect(n - 1) {
                Some(e) => Some(e),
                None => self.match_defect(self.matches@[n - 1]),
            }
        }
    }

    /// The first reference of the model that leads nowhere: that of a
    /// game before that of a match.
    pub open spec fn defect(self) -> Option<Error> {
        match self.games_defect(self.games@.len() as int) {
            Some(e) => Some(e),
            None => self.matches_defect(self.matches@.len() as int),
        }
    }

    /// Why no report is built from the model, if none is: the model is
    /// beyond the limits, or it holds a reference that leads nowhere and
    /// asks to give up in that case.
    pub open spec fn refusal(self) -> Option<Error> {
        if !self.within_limits() {
            Some(Error::ModelLimits)
        } else if self.lookup_policy == LookupPolicy::AbortRun {
            self.defect()
        } else {
            None
        }
    }

    /// Decides `game_defect`.
    pub fn check_game(&self, g: &GameEntry) -> (res: Option<Error>)
        ensures
            res == self.game_defect(*g),
    {
        if find_race(&self.races, g.first_player_race).is_none() {
            Some(Error::UnknownRace { race_id: g.first_player_race })
        } else if find_hero(&self.heroes, g.first_player_hero).is_none() {
            Some(Error::UnknownHero { hero_id: g.first_player_hero })
        } else if find_race(&self.races, g.second_player_race).is_none() {
            Some(Error::UnknownRace { race_id: g.second_player_race })
        } else if find_hero(&self.heroes, g.second_player_hero).is_none() {
            Some(Error::UnknownHero { hero_id: g.second_player_hero })
        } else {
            None
        }
    }

    /// Decides `match_defect`.
    pub fn check_match(&self, m: &Match) -> (res: Option<Error>)
        ensures
            res == self.match_defect(*m),
    {
        if find_user(&self.users, m.first_player).is_none() {
            Some(Error::UnknownUser { user_id: m.first_player })
        } else if find_user(&self.users, m.second_player).is_none() {
            Some(Error::UnknownUser { user_id: m.second_player })
        } else {
            None
        }
    }

    /// Finds the first reference that leads nowhere.
    pub fn find_defect(&self) -> (res: Option<Error>)
        ensures
            res == self.defect(),
    {
        let mut i: usize = 0;
        while i < self.games.len()
            invariant
                i <= self.games@.len(),
                self.games_defect(i as int) is None,
            decreases self.games@.len() - i,
        {
            match self.check_game(&self.games[i]) {
                Some(e) => {
                    proof {
                        self.lemma_games_defect_stays(i as int + 1, self.games@.len() as int);
                    }
                    return Some(e);
                },
                None => {},
            }
            i = i + 1;
        }
        let mut j: usize = 0;
        while j < self.matches.len()
            invariant
                j <= self.matches@.len(),
                self.games_defect(self.games@.len() as int) is None,
                self.matches_defect(j as int) is None,
            decreases self.matches@.len() - j,
        {
            match self.check_match(&self.matches[j]) {
                Some(e) => {
                    proof {
                        self.lemma_matches_defect_stays(j as int + 1, self.matches@.len() as int);
                    }
                    return Some(e);
                },
                None => {},
            }
            j = j + 1;
        }
        None
    }

    /// A defect found among the first games is the defect of every longer
    /// run of games.
    pub proof fn lemma_games_defect_stays(self, n: int, m: int)
        requires
            0 <= n <= m,
            self.games_defect(n) is Some,
        ensures
            self.games_defect(m) == self.games_defect(n),
        decreases m - n,
    {
        if n < m {
            self.lemma_games_defect_stays(n, m - 1);
        }
    }

    /// A defect found among the first matches is the defect of every
    /// longer run of matches.
    pub proof fn lemma_matches_defect_stays(self, n: int, m: int)
        requires
            0 <= n <= m,
            self.matches_defect(n) is Some,
        ensures
            self.matches_defect(m) == self.matches_defect(n),
        decreases m - n,
    {
        if n < m {
            self.lemma_matches_defect_stays(n, m - 1);
        }
    }

    /// Decides whether a report is built from the model: `Err` with the
    /// refusal if not.
    pub fn check(&self) -> (res: Result<(), Error>)
        ensures
            res is Ok <==> self.refusal() is None,
            res matches Err(e) ==> self.refusal() == Some(e),
    {
        if !self.check_limits() {
            return Err(Error::ModelLimits);
        }
        match self.lookup_policy {
            LookupPolicy::SkipRecord => Ok(()),
            LookupPolicy::AbortRun => match self.find_defect() {
                Some(e) => Err(e),
                None => Ok(()),
            },
        }
    }
}

impl Default for TournamentStatsModel {
    /// A model without tournament, participants, matches, games or heroes,
    /// with the eight races of the game, that skips what it cannot look
    /// up.
    fn default() -> (model: TournamentStatsModel)
        ensures
            model.tournament is None,
            model.users@.len() == 0,
            model.matches@.len() == 0,
            model.games@.len() == 0,
            model.heroes@.len() == 0,
            model.lookup_policy == LookupPolicy::SkipRecord,
            model.has_default_races(),
    {
        let mut races: Vec<RaceInfo> = Vec::new();
        races.push(RaceInfo { id: 1, name: String::from_str("Орден порядка") });
        races.push(RaceInfo { id: 2, name: String::from_str("Инферно") });
        races.push(RaceInfo { id: 3, name: String::from_str("Некрополис") });
        races.push(RaceInfo { id: 4, name: String::from_str("Лесной союз") });
        races.push(RaceInfo { id: 5, name: String::from_str("Лига теней") });
        races.push(RaceInfo { id: 6, name: String::from_str("Академия волшебства") });
        races.push(RaceInfo { id: 7, name: String::from_str("Северные кланы") });
        races.push(RaceInfo { id: 8, name: String::from_str("Великая орда") });
        TournamentStatsModel {
            tournament: None,
            users: Vec::new(),
            matches: Vec::new(),
            games: Vec::new(),
            races,
            heroes: Vec::new(),
            lookup_policy: LookupPolicy::SkipRecord,
        }
    }
}

/// The place of the first item of `items` that `p` holds of.
pub open spec fn first_index<T>(items: Seq<T>, p: spec_fn(T) -> bool) -> Option<int>
    decreases items.len(),
{
    if items.len() == 0 {
        None
    } else {
        match first_index(items.drop_last(), p) {
            Some(i) => Some(i),
            None => if p(items.last()) {
                Some(items.len() - 1)
            } else {
                None
            },
        }
    }
}

/// What `first_index` finds is the least place where `p` holds; it finds
/// nothing only where `p` holds nowhere.
pub proof fn lemma_first_index<T>(items: Seq<T>, p: spec_fn(T) -> bool)
    ensures
        match first_index(items, p) {
            Some(i) => 0 <= i < items.len() && p(items[i]) && forall|j: int|
                0 <= j < i ==> !p(#[trigger] items[j]),
            None => forall|j: int| 0 <= j < items.len() ==> !p(#[trigger] items[j]),
        },
    decreases items.len(),
{
    if items.len() > 0 {
        lemma_first_index(items.drop_last(), p);
        assert(forall|j: int| 0 <= j < items.len() - 1 ==> items.drop_last()[j] == items[j]);
    }
}

/// A place where `p` holds and before which it does not is what
/// `first_index` finds.
pub proof fn lemma_first_index_is<T>(items: Seq<T>, p: spec_fn(T) -> bool, i: int)
    requires
        0 <= i < items.len(),
        p(items[i]),
        forall|j: int| 0 <= j < i ==> !p(#[trigger] items[j]),
    ensures
        first_index(items, p) == Some(i),
{
    lemma_first_index(items, p);
}

/// The place of the first race with the identifier `id`.
pub open spec fn race_index(races: Seq<RaceInfo>, id: i64) -> Option<int> {
    first_index(races, |r: RaceInfo| r.id == id)
}

/// The place of the first hero with the identifier `id`.
pub open spec fn hero_index(heroes: Seq<Hero>, id: i64) -> Option<int> {
    first_index(heroes, |h: Hero| h.id == id)
}

/// The place of the first participant with the identifier `id`.
pub open spec fn user_index(users: Seq<User>, id: u128) -> Option<int> {
    first_index(users, |u: User| u.id == id)
}

/// Finds the first item for which `f` answers yes; `p` is what `f`
/// decides.
pub(crate) fn find_by<T, F: Fn(&T) -> bool>(
    items: &Vec<T>,
    f: F,
    Ghost(p): Ghost<spec_fn(T) -> bool>,
) -> (found: Option<usize>)
    requires
        forall|x: &T| call_requires(f, (x,)),
        forall|x: &T, b: bool| call_ensures(f, (x,), b) ==> b == p(*x),
    ensures
        found is Some <==> first_index(items@, p) is Some,
        found matches Some(i) ==> first_index(items@, p) == Some(i as int) && i < items@.len()
            && p(items@[i as int]),
{
    let mut i: usize = 0;
    while i < items.len()
        invariant
            i <= items@.len(),
            forall|j: int| 0 <= j < i ==> !p(#[trigger] items@[j]),
            forall|x: &T| call_requires(f, (x,)),
            forall|x: &T, b: bool| call_ensures(f, (x,), b) ==> b == p(*x),
        decreases items@.len() - i,
    {
        if f(&items[i]) {
            proof {
                lemma_first_index_is(items@, p, i as int);
            }
            return Some(i);
        }
        i = i + 1;
    }
    proof {
        lemma_first_index(items@, p);
    }
    None
}

/// Finds the first race with the identifier `id`.
pub fn find_race(races: &Vec<RaceInfo>, id: i64) -> (found: Option<usize>)
    ensures
        found is Some <==> race_index(races@, id) is Some,
        found matches Some(i) ==> race_index(races@, id) == Some(i as int) && i < races@.len()
            && races@[i as int].id == id,
{
    let same = |r: &RaceInfo| -> (b: bool)
        ensures
            b == (r.id == id),
        {
            r.id == id
        };
    find_by(races, same, Ghost(|r: RaceInfo| r.id == id))
}

/// Finds the first hero with the identifier `id`.
pub fn find_hero(heroes: &Vec<Hero>, id: i64) -> (found: Option<usize>)
    ensures
        found is Some <==> hero_index(heroes@, id) is Some,
        found matches Some(i) ==> hero_index(heroes@, id) == Some(i as int) && i < heroes@.len()
            && heroes@[i as int].id == id,
{
    let same = |h: &Hero| -> (b: bool)
        ensures
            b == (h.id == id),
        {
            h.id == id
        };
    find_by(heroes, same, Ghost(|h: Hero| h.id == id))
}

/// Finds the first participant with the identifier `id`.
pub fn find_user(users: &Vec<User>, id: u128) -> (found: Option<usize>)
    ensures
        found is Some <==> user_index(users@, id) is Some,
        found matches Some(i) ==> user_index(users@, id) == Some(i as int) && i < users@.len()
            && users@[i as int].id == id,
{
    let same = |u: &User| -> (b: bool)
        ensures
            b == (u.id == id),
        {
            u.id == id
        };
    find_by(users, same, Ghost(|u: User| u.id == id))
}

} // verus!
