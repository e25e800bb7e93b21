//! The history of each player: the games they played, in the order of
//! the matches and of the games, and how they fared with each race and
//! each hero.
use vstd::prelude::*;
use crate::error::Error;
use crate::games::{BargainsColor, GameEntry, GameOutcome, GameResult, GameType, Side};
use crate::layout::{join_all, join_range, join_upto, lemma_join_all_satisfy, lemma_join_grows};
use crate::model::{
    find_hero, find_race, find_user, hero_index, lemma_first_index, race_index, user_index, Hero,
    Match, RaceInfo, Tournament, TournamentStatsModel, User, MAX_GAMES,
};
use crate::rates::{calc_winrate, winrate_of, WinrateType};
use crate::tally::{count_by, count_where, lemma_count_bound, lemma_count_implies};

verus! {

/// How a game ended for the player whose history it is in.
#[derive(Clone, Copy, Debug, PartialEq, Eq, Structural)]
pub enum ResultOutput {
    Win,
    Loss,
}

/// One game of a player's history.
#[derive(Clone, Debug, PartialEq, Eq)]
pub struct GameHistoryEntry<'a> {
    pub opponent: &'a String,
    pub player_race: &'a String,
    pub player_hero: &'a String,
    pub opponent_race: &'a String,
    pub opponent_hero: &'a String,
    pub bargains_amount: Option<i64>,
    pub bargains_color: Option<&'a str>,
    pub result: ResultOutput,
    pub outcome: Option<&'a str>,
}

/// One game of a player's history as a mathematical value.
pub struct GameHistoryView {
    pub opponent: Seq<char>,
    pub player_race: Seq<char>,
    pub player_hero: Seq<char>,
    pub opponent_race: Seq<char>,
    pub opponent_hero: Seq<char>,
    pub bargains_amount: Option<int>,
    pub bargains_color: Option<Seq<char>>,
    pub result: ResultOutput,
    pub outcome: Option<Seq<char>>,
}

impl<'a> View for GameHistoryEntry<'a> {
    type V = GameHistoryView;

    open spec fn view(&self) -> GameHistoryView {
        GameHistoryView {
            opponent: self.opponent@,
            player_race: self.player_race@,
            player_hero: self.player_hero@,
            opponent_race: self.opponent_race@,
            opponent_hero: self.opponent_hero@,
            bargains_amount: match self.bargains_amount {
                Some(amount) => Some(amount as int),
                None => None,
            },
            bargains_color: match self.bargains_color {
                Some(color) => Some(color@),
                None => None,
            },
            result: self.result,
            outcome: match self.outcome {
                Some(outcome) => Some(outcome@),
                None => None,
            },
        }
    }
}

/// The name of a colour; a colour that was not selected has none.
pub open spec fn color_label(color: Option<BargainsColor>) -> Option<Seq<char>> {
    match color {
        Some(BargainsColor::BargainsColorRed) => Some("Красный"@),
        Some(BargainsColor::BargainsColorBlue) => Some("Синий"@),
        _ => None,
    }
}

/// The name of an outcome.
pub open spec fn outcome_label(outcome: GameOutcome) -> Seq<char> {
    match outcome {
        GameOutcome::FinalBattleVictory => "Победа в финальной битве"@,
        GameOutcome::NeutralsVictory => "Победа нейтралов"@,
        GameOutcome::OpponentSurrender => "Сдача оппонента"@,
    }
}

/// The name of a colour; a colour that was not selected has none.
pub fn color_name(color: Option<BargainsColor>) -> (name: Option<&'static str>)
    ensures
        name is Some <==> color_label(color) is Some,
        name matches Some(text) ==> text@ == color_label(color)->0,
{
    match color {
        Some(BargainsColor::BargainsColorRed) => Some("Красный"),
        Some(BargainsColor::BargainsColorBlue) => Some("Синий"),
        _ => None,
    }
}

/// The name of an outcome.
pub fn outcome_name(outcome: GameOutcome) -> (name: &'static str)
    ensures
        name@ == outcome_label(outcome),
{
    match outcome {
        GameOutcome::FinalBattleVictory => "Победа в финальной битве",
        GameOutcome::NeutralsVictory => "Победа нейтралов",
        GameOutcome::OpponentSurrender => "Сдача оппонента",
    }
}

/// A game of a player's history: the game, the seat of the player, and
/// the place of the opponent in the list of users.
#[derive(Clone, Copy, Debug, PartialEq, Eq)]
pub struct Seat {
    pub game: GameEntry,
    pub side: Side,
    pub opponent: usize,
}

/// The seat of a player in a match, if the match is theirs.
pub open spec fn seat_in(m: Match, user: u128) -> Option<Side> {
    if m.first_player == user {
        Some(Side::First)
    } else if m.second_player == user {
        Some(Side::Second)
    } else {
        None
    }
}

/// The player on the other seat of a match.
pub open spec fn other_player(m: Match, side: Side) -> u128 {
    match side {
        Side::First => m.second_player,
        Side::Second => m.first_player,
    }
}

/// Whether a game counts in a history: every race and hero it names is
/// in the lists, and it has a winner.
pub open spec fn game_counts(model: TournamentStatsModel, g: GameEntry) -> bool {
    model.game_defect(g) is None && g.decided()
}

/// The entry that a game adds to the history of a match: itself, where
/// it belongs to the match and counts.
pub open spec fn game_seats(
    model: TournamentStatsModel,
    match_id: u128,
    side: Side,
    opponent: usize,
    g: GameEntry,
) -> Seq<Seat> {
    if g.match_id == match_id && game_counts(model, g) {
        seq![Seat { game: g, side, opponent }]
    } else {
        Seq::empty()
    }
}

/// The games of a match in a player's history, in the order of the list
/// of games. A match of other players adds nothing, nor does a match
/// whose opponent is not in the list of users.
pub open spec fn match_seats(model: TournamentStatsModel, user: u128, m: Match) -> Seq<Seat> {
    match seat_in(m, user) {
        None => Seq::empty(),
        Some(side) => match user_index(model.users@, other_player(m, side)) {
            None => Seq::empty(),
            Some(k) => join_all(
                model.games@,
                |g: GameEntry| game_seats(model, m.id, side, k as usize, g),
            ),
        },
    }
}

/// The games of a player's history: match after match in the order of
/// the list of matches, and within a match in the order of the list of
/// games.
pub open spec fn player_seats(model: TournamentStatsModel, user: u128) -> Seq<Seat> {
    join_all(model.matches@, |m: Match| match_seats(model, user, m))
}

/// Whether a seat names what the lists hold.
pub open spec fn seat_ok(model: TournamentStatsModel, seat: Seat) -> bool {
    &&& seat.opponent < model.users@.len()
    &&& game_counts(model, seat.game)
    &&& model.games@.contains(seat.game)
}

/// The race that the player picked.
pub open spec fn seat_race(seat: Seat) -> i64 {
    seat.game.race_of(seat.side)
}

/// The hero that the player picked.
pub open spec fn seat_hero(seat: Seat) -> i64 {
    seat.game.hero_of(seat.side)
}

/// Whether the player won.
pub open spec fn seat_won(seat: Seat) -> bool {
    seat.game.won_by(seat.side)
}

/// The bargain as the player saw it, where the tournament has bargains:
/// the stored amount on the first seat, its negation on the second.
pub open spec fn reported_amount(t: Tournament, seat: Seat) -> Option<int> {
    if t.with_bargains {
        seat.game.amount_for(seat.side)
    } else {
        None
    }
}

/// The history entry of a seat.
pub open spec fn entry_of(model: TournamentStatsModel, t: Tournament, seat: Seat) -> GameHistoryView {
    let g = seat.game;
    let other = seat.side.spec_other();
    GameHistoryView {
        opponent: model.users@[seat.opponent as int].nickname@,
        player_race: model.races@[race_index(model.races@, g.race_of(seat.side))->0].name@,
        player_hero: model.heroes@[hero_index(model.heroes@, g.hero_of(seat.side))->0].name@,
        opponent_race: model.races@[race_index(model.races@, g.race_of(other))->0].name@,
        opponent_hero: model.heroes@[hero_index(model.heroes@, g.hero_of(other))->0].name@,
        bargains_amount: reported_amount(t, seat),
        bargains_color: if t.with_bargains_color {
            color_label(g.bargains_color)
        } else {
            None
        },
        result: if seat_won(seat) {
            ResultOutput::Win
        } else {
            ResultOutput::Loss
        },
        outcome: if t.game_type == GameType::Rmg {
            Some(outcome_label(g.outcome))
        } else {
            None
        },
    }
}

/// In a player's history every bargain is seen from the player's seat:
/// on the first seat it is the stored amount, on the second its
/// negation.
pub proof fn lemma_bargain_resigned(t: Tournament, seat: Seat)
    requires
        t.with_bargains,
        seat.game.bargains_amount is Some,
    ensures
        seat.side == Side::First ==> reported_amount(t, seat) == Some(
            seat.game.bargains_amount->0 as int,
        ),
        seat.side == Side::Second ==> reported_amount(t, seat) == Some(
            -(seat.game.bargains_amount->0 as int),
        ),
{
}

/// A player has won no more games than they have played.
pub proof fn lemma_wins_within_games(model: TournamentStatsModel, user: u128)
    ensures
        count_where(player_seats(model, user), |seat: Seat| seat_won(seat)) <= player_seats(
            model,
            user,
        ).len(),
{
    lemma_count_bound(player_seats(model, user), |seat: Seat| seat_won(seat));
}

/// Every seat of a history names what the lists hold.
pub proof fn lemma_seats_ok(model: TournamentStatsModel, user: u128)
    ensures
        forall|i: int|
            0 <= i < player_seats(model, user).len() ==> seat_ok(
                model,
                #[trigger] player_seats(model, user)[i],
            ),
{
    let ok = |seat: Seat| seat_ok(model, seat);
    let per_match = |m: Match| match_seats(model, user, m);
    assert forall|k: int, j: int|
        0 <= k < model.matches@.len() && 0 <= j < per_match(model.matches@[k]).len() implies ok(
        #[trigger] per_match(model.matches@[k])[j],
    ) by {
        let m = model.matches@[k];
        match seat_in(m, user) {
            None => {},
            Some(side) => {
                lemma_first_index(
                    model.users@,
                    |u: User| u.id == other_player(m, side),
                );
                match user_index(model.users@, other_player(m, side)) {
                    None => {},
                    Some(place) => {
                        let per_game = |g: GameEntry|
                            game_seats(model, m.id, side, place as usize, g);
                        assert forall|a: int, b: int|
                            0 <= a < model.games@.len() && 0 <= b < per_game(
                                model.games@[a],
                            ).len() implies ok(#[trigger] per_game(model.games@[a])[b]) by {
                            assert(model.games@.contains(model.games@[a]));
                        }
                        lemma_join_all_satisfy(
                            model.games@,
                            model.games@.len() as int,
                            per_game,
                            ok,
                        );
                    },
                }
            },
        }
    }
    lemma_join_all_satisfy(
        model.matches@,
        model.matches@.len() as int,
        per_match,
        ok,
    );
}

/// Adds the games of one match to a player's history.
fn collect_match_seats(
    model: &TournamentStatsModel,
    user: u128,
    m: &Match,
    seats: &mut Vec<Seat>,
)
    ensures
        final(seats)@ == old(seats)@ + match_seats(*model, user, *m),
{
    let side = if m.first_player == user {
        Side::First
    } else if m.second_player == user {
        Side::Second
    } else {
        assert(seats@ =~= old(seats)@ + match_seats(*model, user, *m));
        return ;
    };
    let opponent_id = match side {
        Side::First => m.second_player,
        Side::Second => m.first_player,
    };
    let opponent = match find_user(&model.users, opponent_id) {
        Some(place) => place,
        None => {
            assert(seats@ =~= old(seats)@ + match_seats(*model, user, *m));
            return ;
        },
    };
    let ghost one = |g: GameEntry| game_seats(*model, m.id, side, opponent, g);
    let mut j: usize = 0;
    while j < model.games.len()
        invariant
            j <= model.games@.len(),
            seats@ == old(seats)@ + join_upto(model.games@, j as int, one),
            one == (|g: GameEntry| game_seats(*model, m.id, side, opponent, g)),
        decreases model.games@.len() - j,
    {
        let g = &model.games[j];
        if g.match_id == m.id && g.result != GameResult::NotSelected && model.check_game(
            g,
        ).is_none() {
            seats.push(Seat { game: *g, side, opponent });
        }
        assert(seats@ =~= old(seats)@ + join_upto(model.games@, j + 1, one));
        j = j + 1;
    }
    assert(seats@ =~= old(seats)@ + match_seats(*model, user, *m));
}

/// Gathers the games of a player's history. More games than the limit
/// give `ModelLimits`.
pub fn collect_player_seats(model: &TournamentStatsModel, user: u128) -> (res: Result<
    Vec<Seat>,
    Error,
>)
    ensures
        res is Ok <==> player_seats(*model, user).len() <= MAX_GAMES,
        res matches Ok(seats) ==> seats@ == player_seats(*model, user) && forall|i: int|
            0 <= i < seats@.len() ==> seat_ok(*model, #[trigger] seats@[i]),
        res matches Err(e) ==> e == Error::ModelLimits,
{
    let mut seats: Vec<Seat> = Vec::new();
    let ghost one = |m: Match| match_seats(*model, user, m);
    let mut i: usize = 0;
    while i < model.matches.len()
        invariant
            i <= model.matches@.len(),
            seats@ == join_upto(model.matches@, i as int, one),
            seats@.len() <= MAX_GAMES,
            one == (|m: Match| match_seats(*model, user, m)),
        decreases model.matches@.len() - i,
    {
        collect_match_seats(model, user, &model.matches[i], &mut seats);
        assert(seats@ =~= join_upto(model.matches@, i + 1, one));
        if seats.len() > MAX_GAMES {
            proof {
                lemma_join_grows(model.matches@, i + 1, model.matches@.len() as int, one);
            }
            return Err(Error::ModelLimits);
        }
        i = i + 1;
    }
    proof {
        lemma_seats_ok(*model, user);
    }
    Ok(seats)
}

/// The history entry of a seat.
pub fn entry_for<'a>(model: &'a TournamentStatsModel, t: &Tournament, seat: &Seat) -> (entry:
    GameHistoryEntry<'a>)
    requires
        seat_ok(*model, *seat),
        seat.game.amount_in_range(),
    ensures
        entry@ == entry_of(*model, *t, *seat),
{
    let g = &seat.game;
    let (own_race, own_hero, their_race, their_hero) = match seat.side {
        Side::First => (
            g.first_player_race,
            g.first_player_hero,
            g.second_player_race,
            g.second_player_hero,
        ),
        Side::Second => (
            g.second_player_race,
            g.second_player_hero,
            g.first_player_race,
            g.first_player_hero,
        ),
    };
    let player_race = find_race(&model.races, own_race).unwrap();
    let player_hero = find_hero(&model.heroes, own_hero).unwrap();
    let opponent_race = find_race(&model.races, their_race).unwrap();
    let opponent_hero = find_hero(&model.heroes, their_hero).unwrap();
    let bargains_amount = if t.with_bargains {
        match g.bargains_amount {
            Some(amount) => match seat.side {
                Side::First => Some(amount),
                Side::Second => Some(-amount),
            },
            None => None,
        }
    } else {
        None
    };
    let won = match seat.side {
        Side::First => g.result == GameResult::FirstPlayerWon,
        Side::Second => g.result == GameResult::SecondPlayerWon,
    };
    GameHistoryEntry {
        opponent: &model.users[seat.opponent].nickname,
        player_race: &model.races[player_race].name,
        player_hero: &model.heroes[player_hero].name,
        opponent_race: &model.races[opponent_race].name,
        opponent_hero: &model.heroes[opponent_hero].name,
        bargains_amount,
        bargains_color: if t.with_bargains_color {
            color_name(g.bargains_color)
        } else {
            None
        },
        result: if won {
            ResultOutput::Win
        } else {
            ResultOutput::Loss
        },
        outcome: if t.game_type == GameType::Rmg {
            Some(outcome_name(g.outcome))
        } else {
            None
        },
    }
}

/// How a player fared with one race or one hero: its place in the list,
/// the games played with it, and the games won.
#[derive(Clone, Copy, Debug, PartialEq, Eq)]
pub struct PersonalStat {
    pub index: usize,
    pub games: u64,
    pub wins: u64,
}

impl PersonalStat {
    /// The share of wins in thousandths of a percent; zero where no game
    /// was played.
    pub open spec fn spec_share(self) -> nat {
        match winrate_of(self.wins as nat, self.games as nat) {
            WinrateType::Normal(share) => share as nat,
            WinrateType::NoGames => 0,
        }
    }

    /// The share of wins in thousandths of a percent; zero where no game
    /// was played, never a division by zero.
    pub fn share(&self) -> (share: u32)
        requires
            self.wins <= self.games,
        ensures
            share == self.spec_share(),
            share <= 100_000,
    {
        match calc_winrate(self.wins, self.games) {
            WinrateType::Normal(share) => share,
            WinrateType::NoGames => 0,
        }
    }
}

/// The games of a history that were played with the race `race`.
pub open spec fn race_played(seats: Seq<Seat>, race: i64) -> nat {
    count_where(seats, |seat: Seat| seat_race(seat) == race)
}

/// The games of a history that were won with the race `race`.
pub open spec fn race_won_by_player(seats: Seq<Seat>, race: i64) -> nat {
    count_where(seats, |seat: Seat| seat_race(seat) == race && seat_won(seat))
}

/// The games of a history that were played with the hero `hero`.
pub open spec fn hero_played(seats: Seq<Seat>, hero: i64) -> nat {
    count_where(seats, |seat: Seat| seat_hero(seat) == hero)
}

/// The games of a history that were won with the hero `hero`.
pub open spec fn hero_won_by_player(seats: Seq<Seat>, hero: i64) -> nat {
    count_where(seats, |seat: Seat| seat_hero(seat) == hero && seat_won(seat))
}

/// The games of a history that were won.
pub open spec fn games_won(seats: Seq<Seat>) -> nat {
    count_where(seats, |seat: Seat| seat_won(seat))
}

/// The row of the race at place `i` of the list in a player's summary:
/// the race must be the first of its identifier in the list, and the
/// player must have picked it.
pub open spec fn race_stat(races: Seq<RaceInfo>, seats: Seq<Seat>, i: int) -> Seq<PersonalStat> {
    if race_index(races, races[i].id) == Some(i) && race_played(seats, races[i].id) > 0 {
        seq![
            PersonalStat {
                index: i as usize,
                games: race_played(seats, races[i].id) as u64,
                wins: race_won_by_player(seats, races[i].id) as u64,
            },
        ]
    } else {
        Seq::empty()
    }
}

/// The row of the hero at place `i` of the list in a player's summary.
pub open spec fn hero_stat(heroes: Seq<Hero>, seats: Seq<Seat>, i: int) -> Seq<PersonalStat> {
    if hero_index(heroes, heroes[i].id) == Some(i) && hero_played(seats, heroes[i].id) > 0 {
        seq![
            PersonalStat {
                index: i as usize,
                games: hero_played(seats, heroes[i].id) as u64,
                wins: hero_won_by_player(seats, heroes[i].id) as u64,
            },
        ]
    } else {
        Seq::empty()
    }
}

/// The races that a player picked, in the order of the list of races.
pub open spec fn race_stats(races: Seq<RaceInfo>, seats: Seq<Seat>) -> Seq<PersonalStat> {
    join_range(races.len() as int, |i: int| race_stat(races, seats, i))
}

/// The heroes that a player picked, in the order of the list of heroes.
pub open spec fn hero_stats(heroes: Seq<Hero>, seats: Seq<Seat>) -> Seq<PersonalStat> {
    join_range(heroes.len() as int, |i: int| hero_stat(heroes, seats, i))
}

/// How a row of a summary must be to be laid down.
pub open spec fn stat_ok(stat: PersonalStat, limit: int) -> bool {
    stat.index < limit && stat.wins <= stat.games <= MAX_GAMES
}

/// The races that a player picked, with games and wins.
pub fn collect_race_stats(races: &Vec<RaceInfo>, seats: &Vec<Seat>) -> (stats: Vec<PersonalStat>)
    requires
        seats@.len() <= MAX_GAMES,
    ensures
        stats@ == race_stats(races@, seats@),
        stats@.len() <= races@.len(),
        forall|k: int| 0 <= k < stats@.len() ==> stat_ok(#[trigger] stats@[k], races@.len() as int),
{
    let mut stats: Vec<PersonalStat> = Vec::new();
    let ghost one = |i: int| race_stat(races@, seats@, i);
    let mut i: usize = 0;
    while i < races.len()
        invariant
            i <= races@.len(),
            seats@.len() <= MAX_GAMES,
            stats@ == join_range(i as int, one),
            stats@.len() <= i,
            one == (|i: int| race_stat(races@, seats@, i)),
            forall|k: int| 0 <= k < stats@.len() ==> stat_ok(#[trigger] stats@[k], races@.len() as int),
        decreases races@.len() - i,
    {
        let id = races[i].id;
        let first = find_race(races, id);
        if first == Some(i) {
            let played = |seat: &Seat| -> (b: bool)
                ensures
                    b == (seat_race(*seat) == id),
                {
                    match seat.side {
                        Side::First => seat.game.first_player_race == id,
                        Side::Second => seat.game.second_player_race == id,
                    }
                };
            let won = |seat: &Seat| -> (b: bool)
                ensures
                    b == (seat_race(*seat) == id && seat_won(*seat)),
                {
                    match seat.side {
                        Side::First => seat.game.first_player_race == id && seat.game.result
                            == GameResult::FirstPlayerWon,
                        Side::Second => seat.game.second_player_race == id && seat.game.result
                            == GameResult::SecondPlayerWon,
                    }
                };
            proof {
                lemma_count_implies(
                    seats@,
                    |seat: Seat| seat_race(seat) == id && seat_won(seat),
                    |seat: Seat| seat_race(seat) == id,
                );
            }
            let games = count_by(seats, played, Ghost(|seat: Seat| seat_race(seat) == id));
            let wins = count_by(
                seats,
                won,
                Ghost(|seat: Seat| seat_race(seat) == id && seat_won(seat)),
            );
            if games > 0 {
                stats.push(PersonalStat { index: i, games, wins });
            }
        }
        assert(stats@ =~= join_range(i + 1, one));
        i = i + 1;
    }
    stats
}

/// The heroes that a player picked, with games and wins.
pub fn collect_hero_stats(heroes: &Vec<Hero>, seats: &Vec<Seat>) -> (stats: Vec<PersonalStat>)
    requires
        seats@.len() <= MAX_GAMES,
    ensures
        stats@ == hero_stats(heroes@, seats@),
        stats@.len() <= heroes@.len(),
        forall|k: int| 0 <= k < stats@.len() ==> stat_ok(#[trigger] stats@[k], heroes@.len() as int),
{
    let mut stats: Vec<PersonalStat> = Vec::new();
    let ghost one = |i: int| hero_stat(heroes@, seats@, i);
    let mut i: usize = 0;
    while i < heroes.len()
        invariant
            i <= heroes@.len(),
            seats@.len() <= MAX_GAMES,
            stats@ == join_range(i as int, one),
            stats@.len() <= i,
            one == (|i: int| hero_stat(heroes@, seats@, i)),
            forall|k: int| 0 <= k < stats@.len() ==> stat_ok(#[trigger] stats@[k], heroes@.len() as int),
        decreases heroes@.len() - i,
    {
        let id = heroes[i].id;
        let first = find_hero(heroes, id);
        if first == Some(i) {
            let played = |seat: &Seat| -> (b: bool)
                ensures
                    b == (seat_hero(*seat) == id),
                {
                    match seat.side {
                        Side::First => seat.game.first_player_hero == id,
                        Side::Second => seat.game.second_player_hero == id,
                    }
                };
            let won = |seat: &Seat| -> (b: bool)
                ensures
                    b == (seat_hero(*seat) == id && seat_won(*seat)),
                {
                    match seat.side {
                        Side::First => seat.game.first_player_hero == id && seat.game.result
                            == GameResult::FirstPlayerWon,
                        Side::Second => seat.game.second_player_hero == id && seat.game.result
                            == GameResult::SecondPlayerWon,
                    }
                };
            proof {
                lemma_count_implies(
                    seats@,
                    |seat: Seat| seat_hero(seat) == id && seat_won(seat),
                    |seat: Seat| seat_hero(seat) == id,
                );
            }
            let games = count_by(seats, played, Ghost(|seat: Seat| seat_hero(seat) == id));
            let wins = count_by(
                seats,
                won,
                Ghost(|seat: Seat| seat_hero(seat) == id && seat_won(seat)),
            );
            if games > 0 {
                stats.push(PersonalStat { index: i, games, wins });
            }
        }
        assert(stats@ =~= join_range(i + 1, one));
        i = i + 1;
    }
    stats
}

/// The games that a player won.
pub fn count_wins(seats: &Vec<Seat>) -> (wins: u64)
    ensures
        wins == games_won(seats@),
        wins <= seats@.len(),
{
    let won = |seat: &Seat| -> (b: bool)
        ensures
            b == seat_won(*seat),
        {
            match seat.side {
                Side::First => seat.game.result == GameResult::FirstPlayerWon,
                Side::Second => seat.game.result == GameResult::SecondPlayerWon,
            }
        };
    count_by(seats, won, Ghost(|seat: Seat| seat_won(seat)))
}

} // verus!
