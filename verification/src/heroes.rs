//! The heroes a race was played with, and how they fared.
use vstd::prelude::*;
use itertools::Itertools;
use crate::games::{GameEntry, GameResult, Side};
use crate::layout::{join_all, join_upto};
use crate::model::{find_hero, hero_index, Hero, RaceInfo};
use crate::pair::involves;
use crate::rates::WinrateType;
use crate::tally::{count_by, count_where, lemma_count_implies};

verus! {

/// A hero who was picked: the identifier, and the place of the hero in
/// the list of heroes.
#[derive(Clone, Copy, Debug, PartialEq, Eq)]
pub struct HeroPick {
    pub id: i64,
    pub index: usize,
}

/// The pick of one side of a game, where that side played `race` and the
/// list knows the hero.
pub open spec fn side_pick(g: GameEntry, heroes: Seq<Hero>, race: i64, side: Side) -> Seq<HeroPick> {
    if g.race_of(side) == race {
        match hero_index(heroes, g.hero_of(side)) {
            Some(i) => seq![HeroPick { id: g.hero_of(side), index: i as usize }],
            None => Seq::empty(),
        }
    } else {
        Seq::empty()
    }
}

/// The picks of a game for `race`: the first side before the second.
pub open spec fn game_picks(g: GameEntry, heroes: Seq<Hero>, race: i64) -> Seq<HeroPick> {
    side_pick(g, heroes, race, Side::First) + side_pick(g, heroes, race, Side::Second)
}

/// All picks for `race`, in the order of the games.
pub open spec fn race_picks(games: Seq<GameEntry>, heroes: Seq<Hero>, race: i64) -> Seq<HeroPick> {
    join_all(games, |g: GameEntry| game_picks(g, heroes, race))
}

/// The picks without repetition: of the picks of one hero the first
/// stays, in its place.
pub open spec fn first_by_id(picks: Seq<HeroPick>) -> Seq<HeroPick>
    decreases picks.len(),
{
    if picks.len() == 0 {
        Seq::empty()
    } else {
        let before = first_by_id(picks.drop_last());
        if exists|j: int| 0 <= j < picks.len() - 1 && picks[j].id == picks.last().id {
            before
        } else {
            before.push(picks.last())
        }
    }
}

/// The heroes that `race` was played with, each once, in the order in
/// which they first appear in the games.
pub open spec fn picked_heroes(games: Seq<GameEntry>, heroes: Seq<Hero>, race: i64) -> Seq<HeroPick> {
    first_by_id(race_picks(games, heroes, race))
}

/// Whether a pick names a hero of the list by place and identifier.
pub open spec fn pick_in_list(pick: HeroPick, heroes: Seq<Hero>) -> bool {
    pick.index < heroes.len() && heroes[pick.index as int].id == pick.id
}

/// The picks without repetition are picks of the list, and no more of
/// them.
pub proof fn lemma_first_by_id(picks: Seq<HeroPick>)
    ensures
        first_by_id(picks).len() <= picks.len(),
        forall|i: int|
            0 <= i < first_by_id(picks).len() ==> picks.contains(#[trigger] first_by_id(picks)[i]),
    decreases picks.len(),
{
    if picks.len() > 0 {
        let front = picks.drop_last();
        lemma_first_by_id(front);
        assert forall|i: int| 0 <= i < first_by_id(picks).len() implies picks.contains(
            #[trigger] first_by_id(picks)[i],
        ) by {
            let pick = first_by_id(picks)[i];
            if i < first_by_id(front).len() {
                assert(front.contains(first_by_id(front)[i]));
                let k = choose|k: int| 0 <= k < front.len() && front[k] == pick;
                assert(picks[k] == pick);
            } else {
                assert(picks[picks.len() - 1] == pick);
            }
        }
    }
}

/// Among the picks without repetition no hero comes twice, and every
/// hero that was picked is there.
pub proof fn lemma_picked_once(picks: Seq<HeroPick>)
    ensures
        forall|i: int, j: int|
            0 <= i < j < first_by_id(picks).len() ==> (#[trigger] first_by_id(picks)[i]).id != (
            #[trigger] first_by_id(picks)[j]).id,
        forall|k: int|
            0 <= k < picks.len() ==> exists|i: int|
                0 <= i < first_by_id(picks).len() && (#[trigger] first_by_id(picks)[i]).id == (
                #[trigger] picks[k]).id,
    decreases picks.len(),
{
    if picks.len() > 0 {
        let front = picks.drop_last();
        let last = picks.last();
        let before = first_by_id(front);
        let all = first_by_id(picks);
        lemma_picked_once(front);
        lemma_first_by_id(front);
        let seen = exists|j: int| 0 <= j < picks.len() - 1 && picks[j].id == last.id;
        assert forall|i: int, j: int| 0 <= i < j < all.len() implies (#[trigger] all[i]).id != (
        #[trigger] all[j]).id by {
            if j < before.len() {
                assert(all[i] == before[i] && all[j] == before[j]);
            } else {
                assert(!seen);
                assert(all[i] == before[i]);
                assert(front.contains(before[i]));
                let k = choose|k: int| 0 <= k < front.len() && front[k] == before[i];
                assert(picks[k] == front[k]);
            }
        }
        assert forall|k: int| 0 <= k < picks.len() implies exists|i: int|
            0 <= i < all.len() && (#[trigger] all[i]).id == (#[trigger] picks[k]).id by {
            if k < front.len() {
                assert(front[k] == picks[k]);
                let i = choose|i: int| 0 <= i < before.len() && (#[trigger] before[i]).id == (
                #[trigger] front[k]).id;
                assert(all[i] == before[i]);
            } else if seen {
                let j = choose|j: int| 0 <= j < picks.len() - 1 && picks[j].id == last.id;
                assert(front[j] == picks[j]);
                let i = choose|i: int| 0 <= i < before.len() && (#[trigger] before[i]).id == (
                #[trigger] front[j]).id;
                assert(all[i] == before[i]);
            } else {
                assert(all[all.len() - 1] == last);
            }
        }
    }
}

/// The picks of `picks` without repetition, as `Itertools::unique_by`
/// gives them for the key `id`: the picks whose identifier no earlier
/// pick has, in their order.
#[verifier::external_body]
fn unique_picks(picks: Vec<HeroPick>) -> (unique: Vec<HeroPick>)
    ensures
        unique@ == first_by_id(picks@),
{
    picks.into_iter().unique_by(|pick| pick.id).collect()
}

/// Gathers the heroes that `race` was played with, each once, in the
/// order in which they first appear in the games. A pick that the list
/// of heroes does not know is passed over.
pub fn collect_picked_heroes(games: &Vec<GameEntry>, heroes: &Vec<Hero>, race: i64) -> (picked: Vec<
    HeroPick,
>)
    ensures
        picked@ == picked_heroes(games@, heroes@, race),
        picked@.len() <= 2 * games@.len(),
        forall|i: int| 0 <= i < picked@.len() ==> pick_in_list(#[trigger] picked@[i], heroes@),
{
    let mut picks: Vec<HeroPick> = Vec::new();
    let ghost one = |g: GameEntry| game_picks(g, heroes@, race);
    let mut i: usize = 0;
    while i < games.len()
        invariant
            i <= games@.len(),
            picks@ == join_upto(games@, i as int, one),
            picks@.len() <= 2 * i,
            one == (|g: GameEntry| game_picks(g, heroes@, race)),
            forall|k: int| 0 <= k < picks@.len() ==> pick_in_list(#[trigger] picks@[k], heroes@),
        decreases games@.len() - i,
    {
        let g = &games[i];
        let ghost before = picks@;
        if g.first_player_race == race {
            match find_hero(heroes, g.first_player_hero) {
                Some(index) => {
                    picks.push(HeroPick { id: g.first_player_hero, index });
                },
                None => {},
            }
        }
        assert(picks@ =~= before + side_pick(*g, heroes@, race, Side::First));
        if g.second_player_race == race {
            match find_hero(heroes, g.second_player_hero) {
                Some(index) => {
                    picks.push(HeroPick { id: g.second_player_hero, index });
                },
                None => {},
            }
        }
        assert(picks@ =~= before + game_picks(*g, heroes@, race));
        i = i + 1;
    }
    proof {
        lemma_first_by_id(picks@);
    }
    unique_picks(picks)
}

/// Whether `race` won the game with `hero`.
pub open spec fn hero_won(g: GameEntry, hero: i64, race: i64) -> bool {
    ||| g.first_player_hero == hero && g.first_player_race == race && g.result
        == GameResult::FirstPlayerWon
    ||| g.second_player_hero == hero && g.second_player_race == race && g.result
        == GameResult::SecondPlayerWon
}

/// Whether `race` lost the game with `hero`.
pub open spec fn hero_lost(g: GameEntry, hero: i64, race: i64) -> bool {
    ||| g.first_player_hero == hero && g.first_player_race == race && g.result
        == GameResult::SecondPlayerWon
    ||| g.second_player_hero == hero && g.second_player_race == race && g.result
        == GameResult::FirstPlayerWon
}

/// Whether `race` won the game with `hero` against the race `opp`.
pub open spec fn hero_won_vs_race(g: GameEntry, hero: i64, race: i64, opp: i64) -> bool {
    ||| g.first_player_hero == hero && g.first_player_race == race && g.second_player_race == opp
        && g.result == GameResult::FirstPlayerWon
    ||| g.second_player_hero == hero && g.second_player_race == race && g.first_player_race == opp
        && g.result == GameResult::SecondPlayerWon
}

/// Whether `race` lost the game with `hero` to the race `opp`.
pub open spec fn hero_lost_vs_race(g: GameEntry, hero: i64, race: i64, opp: i64) -> bool {
    ||| g.first_player_hero == hero && g.first_player_race == race && g.second_player_race == opp
        && g.result == GameResult::SecondPlayerWon
    ||| g.second_player_hero == hero && g.second_player_race == race && g.first_player_race == opp
        && g.result == GameResult::FirstPlayerWon
}

/// Whether `race` won the game with `hero` against the race `opp` with
/// the hero `opp_hero`.
pub open spec fn hero_won_vs_hero(
    g: GameEntry,
    hero: i64,
    race: i64,
    opp_hero: i64,
    opp: i64,
) -> bool {
    ||| g.first_player_hero == hero && g.first_player_race == race && g.second_player_hero
        == opp_hero && g.second_player_race == opp && g.result == GameResult::FirstPlayerWon
    ||| g.second_player_hero == hero && g.second_player_race == race && g.first_player_hero
        == opp_hero && g.first_player_race == opp && g.result == GameResult::SecondPlayerWon
}

/// Whether `race` lost the game with `hero` to the race `opp` with the
/// hero `opp_hero`.
pub open spec fn hero_lost_vs_hero(
    g: GameEntry,
    hero: i64,
    race: i64,
    opp_hero: i64,
    opp: i64,
) -> bool {
    ||| g.first_player_hero == hero && g.first_player_race == race && g.second_player_hero
        == opp_hero && g.second_player_race == opp && g.result == GameResult::SecondPlayerWon
    ||| g.second_player_hero == hero && g.second_player_race == race && g.first_player_hero
        == opp_hero && g.first_player_race == opp && g.result == GameResult::FirstPlayerWon
}

/// The games that `race` won with `hero`.
pub open spec fn hero_wins(games: Seq<GameEntry>, hero: i64, race: i64) -> nat {
    count_where(games, |g: GameEntry| hero_won(g, hero, race))
}

/// The games that `race` lost with `hero`.
pub open spec fn hero_losses(games: Seq<GameEntry>, hero: i64, race: i64) -> nat {
    count_where(games, |g: GameEntry| hero_lost(g, hero, race))
}

/// The games in which `race` was picked.
pub open spec fn race_games(games: Seq<GameEntry>, race: i64) -> nat {
    count_where(games, |g: GameEntry| involves(g, race))
}

/// The games that `race` won with `hero` against the race `opp`.
pub open spec fn hero_wins_vs_race(games: Seq<GameEntry>, hero: i64, race: i64, opp: i64) -> nat {
    count_where(games, |g: GameEntry| hero_won_vs_race(g, hero, race, opp))
}

/// The games that `race` lost with `hero` to the race `opp`.
pub open spec fn hero_losses_vs_race(games: Seq<GameEntry>, hero: i64, race: i64, opp: i64) -> nat {
    count_where(games, |g: GameEntry| hero_lost_vs_race(g, hero, race, opp))
}

/// The games that `race` won with `hero` against `opp` with `opp_hero`.
pub open spec fn hero_wins_vs_hero(
    games: Seq<GameEntry>,
    hero: i64,
    race: i64,
    opp_hero: i64,
    opp: i64,
) -> nat {
    count_where(games, |g: GameEntry| hero_won_vs_hero(g, hero, race, opp_hero, opp))
}

/// The games that `race` lost with `hero` to `opp` with `opp_hero`.
pub open spec fn hero_losses_vs_hero(
    games: Seq<GameEntry>,
    hero: i64,
    race: i64,
    opp_hero: i64,
    opp: i64,
) -> nat {
    count_where(games, |g: GameEntry| hero_lost_vs_hero(g, hero, race, opp_hero, opp))
}

/// The share of the games of a hero among the games of its race, in
/// thousandths of a percent, rounded to the nearest, a half upwards. A
/// mirror game in which both sides picked the hero counts twice, so the
/// share can pass one hundred percent.
pub open spec fn pick_rate(hero_games: nat, all_games: nat) -> WinrateType {
    if all_games == 0 {
        WinrateType::NoGames
    } else {
        WinrateType::Normal(((200_000 * hero_games + all_games) / (2 * all_games)) as u32)
    }
}

/// The share of the games of a hero among the games of its race.
pub fn calc_pick_rate(hero_games: u64, all_games: u64) -> (rate: WinrateType)
    requires
        hero_games <= 2 * all_games,
    ensures
        rate == pick_rate(hero_games as nat, all_games as nat),
        rate matches WinrateType::Normal(share) ==> share <= 200_000,
{
    if all_games == 0 {
        return WinrateType::NoGames;
    }
    let num: u128 = 200_000 * (hero_games as u128) + (all_games as u128);
    let den: u128 = 2 * (all_games as u128);
    assert(num / den <= 200_000) by (nonlinear_arith)
        requires
            num == 200_000 * hero_games + all_games,
            den == 2 * all_games,
            hero_games <= 2 * all_games,
            all_games > 0,
    ;
    WinrateType::Normal((num / den) as u32)
}

/// The games that `race` won and lost with `hero`.
pub fn get_hero_stats(hero: i64, race: i64, games_data: &Vec<GameEntry>) -> (stats: (u64, u64))
    ensures
        stats.0 == hero_wins(games_data@, hero, race),
        stats.1 == hero_losses(games_data@, hero, race),
        stats.0 <= race_games(games_data@, race),
        stats.1 <= race_games(games_data@, race),
{
    let won = |g: &GameEntry| -> (b: bool)
        ensures
            b == hero_won(*g, hero, race),
        {
            (g.first_player_hero == hero && g.first_player_race == race && g.result
                == GameResult::FirstPlayerWon) || (g.second_player_hero == hero
                && g.second_player_race == race && g.result == GameResult::SecondPlayerWon)
        };
    let lost = |g: &GameEntry| -> (b: bool)
        ensures
            b == hero_lost(*g, hero, race),
        {
            (g.first_player_hero == hero && g.first_player_race == race && g.result
                == GameResult::SecondPlayerWon) || (g.second_player_hero == hero
                && g.second_player_race == race && g.result == GameResult::FirstPlayerWon)
        };
    proof {
        lemma_count_implies(
            games_data@,
            |g: GameEntry| hero_won(g, hero, race),
            |g: GameEntry| involves(g, race),
        );
        lemma_count_implies(
            games_data@,
            |g: GameEntry| hero_lost(g, hero, race),
            |g: GameEntry| involves(g, race),
        );
    }
    let wins = count_by(games_data, won, Ghost(|g: GameEntry| hero_won(g, hero, race)));
    let losses = count_by(games_data, lost, Ghost(|g: GameEntry| hero_lost(g, hero, race)));
    (wins, losses)
}

/// The games in which `race` was picked.
pub fn count_race_games(race: i64, games_data: &Vec<GameEntry>) -> (n: u64)
    ensures
        n == race_games(games_data@, race),
        n <= games_data@.len(),
{
    let f = |g: &GameEntry| -> (b: bool)
        ensures
            b == involves(*g, race),
        {
            g.first_player_race == race || g.second_player_race == race
        };
    count_by(games_data, f, Ghost(|g: GameEntry| involves(g, race)))
}

/// The games that `race` won and lost with `hero` against the race
/// `opp`.
pub fn get_hero_stats_vs_race(hero: i64, race: i64, opp: i64, games_data: &Vec<GameEntry>) -> (stats:
    (u64, u64))
    ensures
        stats.0 == hero_wins_vs_race(games_data@, hero, race, opp),
        stats.1 == hero_losses_vs_race(games_data@, hero, race, opp),
        stats.0 <= games_data@.len(),
        stats.1 <= games_data@.len(),
{
    let won = |g: &GameEntry| -> (b: bool)
        ensures
            b == hero_won_vs_race(*g, hero, race, opp),
        {
            (g.first_player_hero == hero && g.first_player_race == race && g.second_player_race
                == opp && g.result == GameResult::FirstPlayerWon) || (g.second_player_hero == hero
                && g.second_player_race == race && g.first_player_race == opp && g.result
                == GameResult::SecondPlayerWon)
        };
    let lost = |g: &GameEntry| -> (b: bool)
        ensures
            b == hero_lost_vs_race(*g, hero, race, opp),
        {
            (g.first_player_hero == hero && g.first_player_race == race && g.second_player_race
                == opp && g.result == GameResult::SecondPlayerWon) || (g.second_player_hero == hero
                && g.second_player_race == race && g.first_player_race == opp && g.result
                == GameResult::FirstPlayerWon)
        };
    let wins = count_by(
        games_data,
        won,
        Ghost(|g: GameEntry| hero_won_vs_race(g, hero, race, opp)),
    );
    let losses = count_by(
        games_data,
        lost,
        Ghost(|g: GameEntry| hero_lost_vs_race(g, hero, race, opp)),
    );
    (wins, losses)
}

/// The games that the race of `race` won and lost with `hero` against
/// the hero `opp_hero` played by the race that `opp_hero` belongs to.
pub fn get_heroes_pair_stats(
    hero: &Hero,
    race: &RaceInfo,
    opp_hero: &Hero,
    games_data: &Vec<GameEntry>,
) -> (stats: (u64, u64))
    ensures
        stats.0 == hero_wins_vs_hero(games_data@, hero.id, race.id, opp_hero.id, opp_hero.race),
        stats.1 == hero_losses_vs_hero(games_data@, hero.id, race.id, opp_hero.id, opp_hero.race),
        stats.0 <= games_data@.len(),
        stats.1 <= games_data@.len(),
{
    let h = hero.id;
    let r = race.id;
    let oh = opp_hero.id;
    let o = opp_hero.race;
    let won = |g: &GameEntry| -> (b: bool)
        ensures
            b == hero_won_vs_hero(*g, h, r, oh, o),
        {
            (g.first_player_hero == h && g.first_player_race == r && g.second_player_hero == oh
                && g.second_player_race == o && g.result == GameResult::FirstPlayerWon) || (
            g.second_player_hero == h && g.second_player_race == r && g.first_player_hero == oh
                && g.first_player_race == o && g.result == GameResult::SecondPlayerWon)
        };
    let lost = |g: &GameEntry| -> (b: bool)
        ensures
            b == hero_lost_vs_hero(*g, h, r, oh, o),
        {
            (g.first_player_hero == h && g.first_player_race == r && g.second_player_hero == oh
                && g.second_player_race == o && g.result == GameResult::SecondPlayerWon) || (
            g.second_player_hero == h && g.second_player_race == r && g.first_player_hero == oh
                && g.first_player_race == o && g.result == GameResult::FirstPlayerWon)
        };
    let wins = count_by(
        games_data,
        won,
        Ghost(|g: GameEntry| hero_won_vs_hero(g, h, r, oh, o)),
    );
    let losses = count_by(
        games_data,
        lost,
        Ghost(|g: GameEntry| hero_lost_vs_hero(g, h, r, oh, o)),
    );
    (wins, losses)
}

} // verus!
