//! The heroes of a race on its sheet: the heroes that the race was
//! played with, and their games against the heroes of each opponent.
use vstd::prelude::*;
use vstd::string::StringExecFns;
use crate::bargain_sheet::no_games;
use crate::games::GameEntry;
use crate::heroes::{
    calc_pick_rate, collect_picked_heroes, count_race_games, get_hero_stats,
    get_hero_stats_vs_race, get_heroes_pair_stats, hero_losses, hero_losses_vs_hero,
    hero_losses_vs_race, hero_wins, hero_wins_vs_hero, hero_wins_vs_race, pick_in_list, pick_rate,
    picked_heroes, race_games, HeroPick,
};
use crate::layout::join_range;
use crate::model::{Hero, RaceInfo, MAX_GAMES, MAX_HEROES, MAX_RACES};
use crate::race::{is_opponent, opponents_before, RaceStatsBuilder};
use crate::rates::{calc_winrate, winrate_of};
use crate::sheet::{
    merged_cell, number_cell, styled_cell, text_cell, width_of, Sheet, SheetOpView, Style,
};
use crate::text::{decimal_int, decimal_nat, decimal_text, winrate_label, winrate_text};

verus! {

/// The name of a picked hero.
pub open spec fn hero_name(heroes: Seq<Hero>, pick: HeroPick) -> Seq<char> {
    heroes[pick.index as int].name@
}

/// The text of a number of games, or of no games.
pub open spec fn count_label(n: nat) -> Seq<char> {
    if n == 0 {
        no_games()
    } else {
        decimal_nat(n)
    }
}

/// The first of the two columns of the opponent at place `i` of the list
/// in the table of heroes.
pub open spec fn opponent_col(races: Seq<RaceInfo>, race: i64, i: int) -> u16 {
    (5 + 2 * opponents_before(races, race, i)) as u16
}

/// The heads of the table of the heroes of a race, in the row `row`.
pub open spec fn hero_head_steps(races: Seq<RaceInfo>, race: i64, row: u32) -> Seq<SheetOpView> {
    let wrap = Style::ThinBorderTextWrap;
    seq![
        text_cell(row, 1, "Всего побед"@, wrap),
        text_cell(row, 2, "Всего поражений"@, wrap),
        text_cell(row, 3, "Всего игр"@, wrap),
        text_cell(row, 4, "Процент выбора"@, wrap),
    ] + join_range(
        races.len() as int,
        |i: int|
            if is_opponent(races[i], race) {
                seq![
                    text_cell(row, opponent_col(races, race, i), "Игр vs "@ + races[i].name@, wrap),
                    text_cell(
                        row,
                        (opponent_col(races, race, i) + 1) as u16,
                        "Винрейт vs "@ + races[i].name@,
                        wrap,
                    ),
                ]
            } else {
                Seq::empty()
            },
    )
}

/// The games and the winrate of a hero against one race.
pub open spec fn hero_vs_race_steps(
    games: Seq<GameEntry>,
    hero: i64,
    race: i64,
    opp: i64,
    row: u32,
    col: u16,
) -> Seq<SheetOpView> {
    let wins = hero_wins_vs_race(games, hero, race, opp);
    let losses = hero_losses_vs_race(games, hero, race, opp);
    seq![
        text_cell(row, col, count_label(wins + losses), Style::ThinBorderTextWrap),
        text_cell(
            row,
            (col + 1) as u16,
            winrate_label(winrate_of(wins, wins + losses), no_games()),
            Style::ThinBorderTextWrap,
        ),
    ]
}

/// The row of a hero: name, wins, losses, games, the share of its games
/// among the games of the race, and games and winrate against each
/// opponent of the list.
pub open spec fn hero_row_steps(
    games: Seq<GameEntry>,
    races: Seq<RaceInfo>,
    heroes: Seq<Hero>,
    race: i64,
    pick: HeroPick,
    row: u32,
) -> Seq<SheetOpView> {
    let wins = hero_wins(games, pick.id, race);
    let losses = hero_losses(games, pick.id, race);
    let wrap = Style::ThinBorderTextWrap;
    seq![
        text_cell(row, 0, hero_name(heroes, pick), Style::TextBoldCentered),
        number_cell(row, 1, wins as int, wrap),
        number_cell(row, 2, losses as int, wrap),
        number_cell(row, 3, (wins + losses) as int, wrap),
        text_cell(
            row,
            4,
            winrate_label(pick_rate(wins + losses, race_games(games, race)), no_games()),
            wrap,
        ),
    ] + join_range(
        races.len() as int,
        |i: int|
            if is_opponent(races[i], race) {
                hero_vs_race_steps(
                    games,
                    pick.id,
                    race,
                    races[i].id,
                    row,
                    opponent_col(races, race, i),
                )
            } else {
                Seq::empty()
            },
    )
}

/// The places of the heroes of `race` among the first `n` heroes of the
/// list.
pub open spec fn heroes_of(heroes: Seq<Hero>, race: i64, n: int) -> Seq<usize>
    decreases n,
{
    if n <= 0 {
        Seq::empty()
    } else if heroes[n - 1].race == race {
        heroes_of(heroes, race, n - 1).push((n - 1) as usize)
    } else {
        heroes_of(heroes, race, n - 1)
    }
}

/// The places of the heroes of a race are places of the list, and no
/// more than it has.
pub proof fn lemma_heroes_of(heroes: Seq<Hero>, race: i64, n: int)
    requires
        0 <= n <= heroes.len(),
        n <= usize::MAX,
    ensures
        heroes_of(heroes, race, n).len() <= n,
        forall|j: int|
            0 <= j < heroes_of(heroes, race, n).len() ==> (#[trigger] heroes_of(heroes, race, n)[j])
                < n && heroes[heroes_of(heroes, race, n)[j] as int].race == race,
    decreases n,
{
    if n > 0 {
        lemma_heroes_of(heroes, race, n - 1);
        let before = heroes_of(heroes, race, n - 1);
        let all = heroes_of(heroes, race, n);
        assert forall|j: int| 0 <= j < all.len() implies (#[trigger] all[j]) < n
            && heroes[all[j] as int].race == race by {
            if j < before.len() {
                assert(all[j] == before[j]);
            }
        }
    }
}

/// The places of the heroes of `race` in the list.
pub fn collect_heroes_of(heroes: &Vec<Hero>, race: i64) -> (places: Vec<usize>)
    ensures
        places@ == heroes_of(heroes@, race, heroes@.len() as int),
        places@.len() <= heroes@.len(),
        forall|j: int|
            0 <= j < places@.len() ==> (#[trigger] places@[j]) < heroes@.len()
                && heroes@[places@[j] as int].race == race,
{
    let mut places: Vec<usize> = Vec::new();
    let mut i: usize = 0;
    while i < heroes.len()
        invariant
            i <= heroes@.len(),
            places@ == heroes_of(heroes@, race, i as int),
        decreases heroes@.len() - i,
    {
        if heroes[i].race == race {
            places.push(i);
        }
        i = i + 1;
    }
    proof {
        lemma_heroes_of(heroes@, race, heroes@.len() as int);
    }
    places
}

/// The wins and the games of a hero against the first `n` heroes of an
/// opponent.
pub open spec fn versus_totals(
    games: Seq<GameEntry>,
    heroes: Seq<Hero>,
    hero: i64,
    race: i64,
    opp_heroes: Seq<usize>,
    n: int,
) -> (nat, nat)
    decreases n,
{
    if n <= 0 {
        (0, 0)
    } else {
        let before = versus_totals(games, heroes, hero, race, opp_heroes, n - 1);
        let opp_hero = heroes[opp_heroes[n - 1] as int];
        let wins = hero_wins_vs_hero(games, hero, race, opp_hero.id, opp_hero.race);
        let losses = hero_losses_vs_hero(games, hero, race, opp_hero.id, opp_hero.race);
        (before.0 + wins, before.1 + wins + losses)
    }
}

/// The wins and losses of a hero against one hero of the opponent: a
/// win count other than zero in green, a loss count other than zero in
/// red.
pub open spec fn versus_cell_steps(
    games: Seq<GameEntry>,
    hero: i64,
    race: i64,
    opp_hero: Hero,
    row: u32,
    col: u16,
) -> Seq<SheetOpView> {
    let wins = hero_wins_vs_hero(games, hero, race, opp_hero.id, opp_hero.race);
    let losses = hero_losses_vs_hero(games, hero, race, opp_hero.id, opp_hero.race);
    seq![
        number_cell(
            row,
            col,
            wins as int,
            if wins == 0 {
                Style::ThinBorderTextWrap
            } else {
                Style::BackgroundGreen
            },
        ),
        number_cell(
            row,
            (col + 1) as u16,
            losses as int,
            if losses == 0 {
                Style::ThinBorderTextWrap
            } else {
                Style::BackgroundRed
            },
        ),
    ]
}

/// The row of a hero against the heroes of an opponent: one pair of
/// cells for each of them, then the games and the winrate over all.
pub open spec fn versus_row_steps(
    games: Seq<GameEntry>,
    heroes: Seq<Hero>,
    hero: i64,
    race: i64,
    opp_heroes: Seq<usize>,
    row: u32,
) -> Seq<SheetOpView> {
    let n = opp_heroes.len() as int;
    let totals = versus_totals(games, heroes, hero, race, opp_heroes, n);
    join_range(
        n,
        |j: int|
            versus_cell_steps(
                games,
                hero,
                race,
                heroes[opp_heroes[j] as int],
                row,
                (1 + 2 * j) as u16,
            ),
    ) + seq![
        text_cell(row, (2 * n + 2) as u16, count_label(totals.1), Style::ThinBorderTextWrap),
        text_cell(
            row,
            (2 * n + 3) as u16,
            winrate_label(winrate_of(totals.0, totals.1), no_games()),
            Style::ThinBorderTextWrap,
        ),
    ]
}

/// The head of the two columns of a hero of the opponent.
pub open spec fn versus_head_steps(heroes: Seq<Hero>, opp_heroes: Seq<usize>, top: u32, j: int) -> Seq<
    SheetOpView,
> {
    let col = (1 + 2 * j) as u16;
    seq![
        merged_cell(
            (top + 1) as u32,
            col,
            (top + 1) as u32,
            (col + 1) as u16,
            heroes[opp_heroes[j] as int].name@,
            Style::TextBoldCentered,
        ),
        width_of(col, 12, 1),
        width_of((col + 1) as u16, 12, 1),
        text_cell((top + 2) as u32, col, "Побед"@, Style::ThinBorderTextWrap),
        text_cell((top + 2) as u32, (col + 1) as u16, "Поражений"@, Style::ThinBorderTextWrap),
    ]
}

/// The table of the heroes of a race against the heroes of one opponent,
/// from the row `top` downwards.
pub open spec fn versus_steps(
    games: Seq<GameEntry>,
    heroes: Seq<Hero>,
    picks: Seq<HeroPick>,
    race: RaceInfo,
    opp: RaceInfo,
    top: u32,
) -> Seq<SheetOpView> {
    let opp_heroes = heroes_of(heroes, opp.id, heroes.len() as int);
    let n = opp_heroes.len() as int;
    seq![
        merged_cell(top, 4, top, 9, race.name@ + " vs "@ + opp.name@, Style::TextBoldCentered),
        merged_cell((top + 1) as u32, 0, (top + 2) as u32, 0, "VS"@, Style::TextCenterColorRed),
    ] + join_range(
        picks.len() as int,
        |i: int|
            seq![
                text_cell((top + 3 + i) as u32, 0, hero_name(heroes, picks[i]), Style::TextBoldCentered),
            ],
    ) + join_range(n, |j: int| versus_head_steps(heroes, opp_heroes, top, j)) + seq![
        text_cell((top + 1) as u32, (2 * n + 2) as u16, "Всего игр"@, Style::ThinBorderTextWrap),
        text_cell((top + 1) as u32, (2 * n + 3) as u16, "Винрейт"@, Style::ThinBorderTextWrap),
        styled_cell((top + 2) as u32, (2 * n + 2) as u16, Style::BackgroundSilver),
        styled_cell((top + 2) as u32, (2 * n + 3) as u16, Style::BackgroundSilver),
    ] + join_range(
        picks.len() as int,
        |i: int|
            versus_row_steps(games, heroes, picks[i].id, race.id, opp_heroes, (top + 3 + i) as u32),
    )
}

/// The heroes of a race on its sheet, from the row `row` downwards: the
/// table of the heroes that the race was played with, then one table
/// against the heroes of each opponent of the list.
pub open spec fn heroes_block_steps(
    games: Seq<GameEntry>,
    races: Seq<RaceInfo>,
    heroes: Seq<Hero>,
    race: RaceInfo,
    row: u32,
) -> Seq<SheetOpView> {
    let picks = picked_heroes(games, heroes, race.id);
    let count = picks.len() as int;
    seq![
        merged_cell(
            row,
            4,
            row,
            9,
            "Общая статистика использования героев"@,
            Style::TextBoldCentered,
        ),
    ] + hero_head_steps(races, race.id, (row + 1) as u32) + join_range(
        count,
        |i: int| hero_row_steps(games, races, heroes, race.id, picks[i], (row + 2 + i) as u32),
    ) + join_range(
        races.len() as int,
        |i: int|
            if is_opponent(races[i], race.id) {
                versus_steps(
                    games,
                    heroes,
                    picks,
                    race,
                    races[i],
                    (row + 3 + count + opponents_before(races, race.id, i) * (count + 4)) as u32,
                )
            } else {
                Seq::empty()
            },
    )
}

/// The text of a number of games, or of no games.
fn count_text(n: u64) -> (s: String)
    ensures
        s@ == count_label(n as nat),
{
    if n == 0 {
        String::from_str("Нет игр")
    } else {
        proof {
            assert(decimal_int(n as int) == decimal_nat(n as nat));
        }
        decimal_text(n as i128)
    }
}

/// A text made of a head and a name.
fn headed(head: &str, name: &str) -> (s: String)
    ensures
        s@ == head@ + name@,
{
    let mut s = String::from_str(head);
    s.append(name);
    s
}

/// Lays down the heads of the table of the heroes of a race.
fn write_hero_head(worksheet: &mut Sheet, races_data: &Vec<RaceInfo>, race: i64, row: u32)
    requires
        races_data@.len() <= MAX_RACES,
    ensures
        final(worksheet)@.name == old(worksheet)@.name,
        final(worksheet)@.ops == old(worksheet)@.ops + hero_head_steps(races_data@, race, row),
{
    let wrap = Style::ThinBorderTextWrap;
    worksheet.write_text(row, 1, "Всего побед", wrap);
    worksheet.write_text(row, 2, "Всего поражений", wrap);
    worksheet.write_text(row, 3, "Всего игр", wrap);
    worksheet.write_text(row, 4, "Процент выбора", wrap);
    let ghost head = worksheet@.ops;
    let ghost one = |i: int|
        if is_opponent(races_data@[i], race) {
            seq![
                text_cell(
                    row,
                    opponent_col(races_data@, race, i),
                    "Игр vs "@ + races_data@[i].name@,
                    wrap,
                ),
                text_cell(
                    row,
                    (opponent_col(races_data@, race, i) + 1) as u16,
                    "Винрейт vs "@ + races_data@[i].name@,
                    wrap,
                ),
            ]
        } else {
            Seq::empty()
        };
    let mut col: u16 = 5;
    let mut i: usize = 0;
    while i < races_data.len()
        invariant
            races_data@.len() <= MAX_RACES,
            i <= races_data@.len(),
            col == 5 + 2 * opponents_before(races_data@, race, i as int),
            col <= 5 + 2 * i,
            wrap == Style::ThinBorderTextWrap,
            worksheet@.name == old(worksheet)@.name,
            worksheet@.ops == head + join_range(i as int, one),
            one == (|i: int|
                if is_opponent(races_data@[i], race) {
                    seq![
                        text_cell(
                            row,
                            opponent_col(races_data@, race, i),
                            "Игр vs "@ + races_data@[i].name@,
                            wrap,
                        ),
                        text_cell(
                            row,
                            (opponent_col(races_data@, race, i) + 1) as u16,
                            "Винрейт vs "@ + races_data@[i].name@,
                            wrap,
                        ),
                    ]
                } else {
                    Seq::empty()
                }),
        decreases races_data@.len() - i,
    {
        let opp = &races_data[i];
        if 1 <= opp.id && opp.id <= 8 && opp.id != race {
            let games_head = headed("Игр vs ", opp.name.as_str());
            let rate_head = headed("Винрейт vs ", opp.name.as_str());
            worksheet.write_text(row, col, games_head.as_str(), wrap);
            worksheet.write_text(row, col + 1, rate_head.as_str(), wrap);
            col = col + 2;
        }
        assert(worksheet@.ops =~= head + join_range(i + 1, one));
        i = i + 1;
    }
    assert(worksheet@.ops =~= old(worksheet)@.ops + hero_head_steps(races_data@, race, row));
}

/// Lays down the row of a hero.
fn write_hero_row(
    worksheet: &mut Sheet,
    games_data: &Vec<GameEntry>,
    races_data: &Vec<RaceInfo>,
    heroes_data: &Vec<Hero>,
    race: i64,
    pick: HeroPick,
    row: u32,
)
    requires
        games_data@.len() <= MAX_GAMES,
        races_data@.len() <= MAX_RACES,
        pick_in_list(pick, heroes_data@),
    ensures
        final(worksheet)@.name == old(worksheet)@.name,
        final(worksheet)@.ops == old(worksheet)@.ops + hero_row_steps(
            games_data@,
            races_data@,
            heroes_data@,
            race,
            pick,
            row,
        ),
{
    let wrap = Style::ThinBorderTextWrap;
    let (wins, losses) = get_hero_stats(pick.id, race, games_data);
    let all_games = count_race_games(race, games_data);
    let share = winrate_text(calc_pick_rate(wins + losses, all_games), "Нет игр");
    worksheet.write_text(row, 0, heroes_data[pick.index].name.as_str(), Style::TextBoldCentered);
    worksheet.write_number(row, 1, wins as i64, wrap);
    worksheet.write_number(row, 2, losses as i64, wrap);
    worksheet.write_number(row, 3, (wins + losses) as i64, wrap);
    worksheet.write_text(row, 4, share.as_str(), wrap);
    let ghost head = worksheet@.ops;
    let ghost one = |i: int|
        if is_opponent(races_data@[i], race) {
            hero_vs_race_steps(
                games_data@,
                pick.id,
                race,
                races_data@[i].id,
                row,
                opponent_col(races_data@, race, i),
            )
        } else {
            Seq::empty()
        };
    let mut col: u16 = 5;
    let mut i: usize = 0;
    while i < races_data.len()
        invariant
            games_data@.len() <= MAX_GAMES,
            races_data@.len() <= MAX_RACES,
            i <= races_data@.len(),
            col == 5 + 2 * opponents_before(races_data@, race, i as int),
            col <= 5 + 2 * i,
            wrap == Style::ThinBorderTextWrap,
            worksheet@.name == old(worksheet)@.name,
            worksheet@.ops == head + join_range(i as int, one),
            one == (|i: int|
                if is_opponent(races_data@[i], race) {
                    hero_vs_race_steps(
                        games_data@,
                        pick.id,
                        race,
                        races_data@[i].id,
                        row,
                        opponent_col(races_data@, race, i),
                    )
                } else {
                    Seq::empty()
                }),
        decreases races_data@.len() - i,
    {
        let opp = &races_data[i];
        if 1 <= opp.id && opp.id <= 8 && opp.id != race {
            let (opp_wins, opp_losses) = get_hero_stats_vs_race(pick.id, race, opp.id, games_data);
            let played = count_text(opp_wins + opp_losses);
            let rate = winrate_text(calc_winrate(opp_wins, opp_wins + opp_losses), "Нет игр");
            worksheet.write_text(row, col, played.as_str(), wrap);
            worksheet.write_text(row, col + 1, rate.as_str(), wrap);
            col = col + 2;
        }
        assert(worksheet@.ops =~= head + join_range(i + 1, one));
        i = i + 1;
    }
    assert(worksheet@.ops =~= old(worksheet)@.ops + hero_row_steps(
        games_data@,
        races_data@,
        heroes_data@,
        race,
        pick,
        row,
    ));
}

/// Lays down the row of a hero against the heroes of an opponent.
fn write_versus_row(
    worksheet: &mut Sheet,
    games_data: &Vec<GameEntry>,
    heroes_data: &Vec<Hero>,
    hero: &Hero,
    race: &RaceInfo,
    opp_heroes: &Vec<usize>,
    row: u32,
)
    requires
        games_data@.len() <= MAX_GAMES,
        heroes_data@.len() <= MAX_HEROES,
        opp_heroes@.len() <= heroes_data@.len(),
        forall|j: int| 0 <= j < opp_heroes@.len() ==> (#[trigger] opp_heroes@[j]) < heroes_data@.len(),
    ensures
        final(worksheet)@.name == old(worksheet)@.name,
        final(worksheet)@.ops == old(worksheet)@.ops + versus_row_steps(
            games_data@,
            heroes_data@,
            hero.id,
            race.id,
            opp_heroes@,
            row,
        ),
{
    let wrap = Style::ThinBorderTextWrap;
    let ghost one = |j: int|
        versus_cell_steps(
            games_data@,
            hero.id,
            race.id,
            heroes_data@[opp_heroes@[j] as int],
            row,
            (1 + 2 * j) as u16,
        );
    let mut total_games: u64 = 0;
    let mut total_wins: u64 = 0;
    let mut j: usize = 0;
    while j < opp_heroes.len()
        invariant
            games_data@.len() <= MAX_GAMES,
            heroes_data@.len() <= MAX_HEROES,
            opp_heroes@.len() <= heroes_data@.len(),
            forall|k: int|
                0 <= k < opp_heroes@.len() ==> (#[trigger] opp_heroes@[k]) < heroes_data@.len(),
            j <= opp_heroes@.len(),
            (total_wins as nat, total_games as nat) == versus_totals(
                games_data@,
                heroes_data@,
                hero.id,
                race.id,
                opp_heroes@,
                j as int,
            ),
            total_wins <= total_games <= 2_000_000 * j,
            worksheet@.name == old(worksheet)@.name,
            worksheet@.ops == old(worksheet)@.ops + join_range(j as int, one),
            one == (|j: int|
                versus_cell_steps(
                    games_data@,
                    hero.id,
                    race.id,
                    heroes_data@[opp_heroes@[j] as int],
                    row,
                    (1 + 2 * j) as u16,
                )),
        decreases opp_heroes@.len() - j,
    {
        let opp_hero = &heroes_data[opp_heroes[j]];
        let (wins, losses) = get_heroes_pair_stats(hero, race, opp_hero, games_data);
        let col: u16 = (1 + 2 * j) as u16;
        worksheet.write_number(
            row,
            col,
            wins as i64,
            if wins == 0 {
                Style::ThinBorderTextWrap
            } else {
                Style::BackgroundGreen
            },
        );
        worksheet.write_number(
            row,
            col + 1,
            losses as i64,
            if losses == 0 {
                Style::ThinBorderTextWrap
            } else {
                Style::BackgroundRed
            },
        );
        total_games = total_games + wins + losses;
        total_wins = total_wins + wins;
        assert(worksheet@.ops =~= old(worksheet)@.ops + join_range(j + 1, one));
        j = j + 1;
    }
    let last: u16 = (2 * opp_heroes.len() + 2) as u16;
    let played = count_text(total_games);
    let rate = winrate_text(calc_winrate(total_wins, total_games), "Нет игр");
    worksheet.write_text(row, last, played.as_str(), wrap);
    worksheet.write_text(row, last + 1, rate.as_str(), wrap);
    assert(worksheet@.ops =~= old(worksheet)@.ops + versus_row_steps(
        games_data@,
        heroes_data@,
        hero.id,
        race.id,
        opp_heroes@,
        row,
    ));
}

/// The most rows that the sheet of a race begins its tables at.
pub const MAX_TOP: u32 = 200_000_000;

/// Lays down the table of the heroes that a race was played with
/// against the heroes of one opponent, from the row `row_offset`
/// downwards.
pub fn build_hero_stats_vs_race(
    race: &RaceInfo,
    race_heroes: &Vec<HeroPick>,
    heroes_data: &Vec<Hero>,
    opp_race: &RaceInfo,
    games_data: &Vec<GameEntry>,
    worksheet: &mut Sheet,
    row_offset: u32,
)
    requires
        games_data@.len() <= MAX_GAMES,
        heroes_data@.len() <= MAX_HEROES,
        race_heroes@.len() <= 2 * MAX_GAMES,
        row_offset <= MAX_TOP,
        forall|i: int| 0 <= i < race_heroes@.len() ==> pick_in_list(#[trigger] race_heroes@[i], heroes_data@),
    ensures
        final(worksheet)@.name == old(worksheet)@.name,
        final(worksheet)@.ops == old(worksheet)@.ops + versus_steps(
            games_data@,
            heroes_data@,
            race_heroes@,
            *race,
            *opp_race,
            row_offset,
        ),
{
    let wrap = Style::ThinBorderTextWrap;
    let mut title = headed(race.name.as_str(), " vs ");
    title.append(opp_race.name.as_str());
    worksheet.merge_range(row_offset, 4, row_offset, 9, title.as_str(), Style::TextBoldCentered);
    worksheet.merge_range(row_offset + 1, 0, row_offset + 2, 0, "VS", Style::TextCenterColorRed);
    let opp_heroes = collect_heroes_of(heroes_data, opp_race.id);
    let ghost start = worksheet@.ops;
    assert(start =~= old(worksheet)@.ops + seq![
        merged_cell(
            row_offset,
            4,
            row_offset,
            9,
            race.name@ + " vs "@ + opp_race.name@,
            Style::TextBoldCentered,
        ),
        merged_cell(
            (row_offset + 1) as u32,
            0,
            (row_offset + 2) as u32,
            0,
            "VS"@,
            Style::TextCenterColorRed,
        ),
    ]);
    let ghost name_cell = |i: int|
        seq![
            text_cell(
                (row_offset + 3 + i) as u32,
                0,
                hero_name(heroes_data@, race_heroes@[i]),
                Style::TextBoldCentered,
            ),
        ];
    let mut i: usize = 0;
    while i < race_heroes.len()
        invariant
            i <= race_heroes@.len(),
            race_heroes@.len() <= 2 * MAX_GAMES,
            row_offset <= MAX_TOP,
            forall|k: int|
                0 <= k < race_heroes@.len() ==> pick_in_list(
                    #[trigger] race_heroes@[k],
                    heroes_data@,
                ),
            worksheet@.name == old(worksheet)@.name,
            worksheet@.ops == start + join_range(i as int, name_cell),
            name_cell == (|i: int|
                seq![
                    text_cell(
                        (row_offset + 3 + i) as u32,
                        0,
                        hero_name(heroes_data@, race_heroes@[i]),
                        Style::TextBoldCentered,
                    ),
                ]),
        decreases race_heroes@.len() - i,
    {
        let pick = race_heroes[i];
        worksheet.write_text(
            row_offset + 3 + (i as u32),
            0,
            heroes_data[pick.index].name.as_str(),
            Style::TextBoldCentered,
        );
        assert(worksheet@.ops =~= start + join_range(i + 1, name_cell));
        i = i + 1;
    }
    let ghost names = worksheet@.ops;
    let ghost head = |j: int| versus_head_steps(heroes_data@, opp_heroes@, row_offset, j);
    let mut j: usize = 0;
    while j < opp_heroes.len()
        invariant
            j <= opp_heroes@.len(),
            heroes_data@.len() <= MAX_HEROES,
            opp_heroes@.len() <= heroes_data@.len(),
            row_offset <= MAX_TOP,
            forall|k: int|
                0 <= k < opp_heroes@.len() ==> (#[trigger] opp_heroes@[k]) < heroes_data@.len(),
            worksheet@.name == old(worksheet)@.name,
            worksheet@.ops == names + join_range(j as int, head),
            head == (|j: int| versus_head_steps(heroes_data@, opp_heroes@, row_offset, j)),
            wrap == Style::ThinBorderTextWrap,
        decreases opp_heroes@.len() - j,
    {
        let col: u16 = (1 + 2 * j) as u16;
        let opp_hero = &heroes_data[opp_heroes[j]];
        worksheet.merge_range(
            row_offset + 1,
            col,
            row_offset + 1,
            col + 1,
            opp_hero.name.as_str(),
            Style::TextBoldCentered,
        );
        worksheet.set_column_width(col, 12, 1);
        worksheet.set_column_width(col + 1, 12, 1);
        worksheet.write_text(row_offset + 2, col, "Побед", wrap);
        worksheet.write_text(row_offset + 2, col + 1, "Поражений", wrap);
        assert(worksheet@.ops =~= names + join_range(j + 1, head));
        j = j + 1;
    }
    let last: u16 = (2 * opp_heroes.len() + 2) as u16;
    worksheet.write_text(row_offset + 1, last, "Всего игр", wrap);
    worksheet.write_text(row_offset + 1, last + 1, "Винрейт", wrap);
    worksheet.set_cell_format(row_offset + 2, last, Style::BackgroundSilver);
    worksheet.set_cell_format(row_offset + 2, last + 1, Style::BackgroundSilver);
    let ghost heads = worksheet@.ops;
    let ghost row_of = |i: int|
        versus_row_steps(
            games_data@,
            heroes_data@,
            race_heroes@[i].id,
            race.id,
            opp_heroes@,
            (row_offset + 3 + i) as u32,
        );
    let mut i: usize = 0;
    while i < race_heroes.len()
        invariant
            i <= race_heroes@.len(),
            games_data@.len() <= MAX_GAMES,
            heroes_data@.len() <= MAX_HEROES,
            race_heroes@.len() <= 2 * MAX_GAMES,
            opp_heroes@.len() <= heroes_data@.len(),
            row_offset <= MAX_TOP,
            forall|k: int|
                0 <= k < race_heroes@.len() ==> pick_in_list(
                    #[trigger] race_heroes@[k],
                    heroes_data@,
                ),
            forall|k: int|
                0 <= k < opp_heroes@.len() ==> (#[trigger] opp_heroes@[k]) < heroes_data@.len(),
            worksheet@.name == old(worksheet)@.name,
            worksheet@.ops == heads + join_range(i as int, row_of),
            row_of == (|i: int|
                versus_row_steps(
                    games_data@,
                    heroes_data@,
                    race_heroes@[i].id,
                    race.id,
                    opp_heroes@,
                    (row_offset + 3 + i) as u32,
                )),
        decreases race_heroes@.len() - i,
    {
        let pick = race_heroes[i];
        write_versus_row(
            worksheet,
            games_data,
            heroes_data,
            &heroes_data[pick.index],
            race,
            &opp_heroes,
            row_offset + 3 + (i as u32),
        );
        assert(worksheet@.ops =~= heads + join_range(i + 1, row_of));
        i = i + 1;
    }
    assert(worksheet@.ops =~= old(worksheet)@.ops + versus_steps(
        games_data@,
        heroes_data@,
        race_heroes@,
        *race,
        *opp_race,
        row_offset,
    ));
}

impl RaceStatsBuilder {
    /// Lays down the heroes of a race from the row `row` downwards: the
    /// heroes that the race was played with, each with its wins, losses,
    /// games and share, and with its games and winrate against every
    /// opponent of the list; then one table against the heroes of each
    /// opponent.
    pub fn build_heroes_stats(
        &self,
        race: &RaceInfo,
        races_data: &Vec<RaceInfo>,
        heroes_data: &Vec<Hero>,
        games_data: &Vec<GameEntry>,
        worksheet: &mut Sheet,
        row: u32,
    )
        requires
            games_data@.len() <= MAX_GAMES,
            races_data@.len() <= MAX_RACES,
            heroes_data@.len() <= MAX_HEROES,
            row <= 14,
        ensures
            final(worksheet)@.name == old(worksheet)@.name,
            final(worksheet)@.ops == old(worksheet)@.ops + heroes_block_steps(
                games_data@,
                races_data@,
                heroes_data@,
                *race,
                row,
            ),
    {
        worksheet.merge_range(
            row,
            4,
            row,
            9,
            "Общая статистика использования героев",
            Style::TextBoldCentered,
        );
        let picks = collect_picked_heroes(games_data, heroes_data, race.id);
        let count: u32 = picks.len() as u32;
        write_hero_head(worksheet, races_data, race.id, row + 1);
        let ghost head = worksheet@.ops;
        let ghost hero_row = |i: int|
            hero_row_steps(
                games_data@,
                races_data@,
                heroes_data@,
                race.id,
                picks@[i],
                (row + 2 + i) as u32,
            );
        let mut i: usize = 0;
        while i < picks.len()
            invariant
                i <= picks@.len(),
                games_data@.len() <= MAX_GAMES,
                races_data@.len() <= MAX_RACES,
                picks@.len() <= 2 * MAX_GAMES,
                row <= 14,
                forall|k: int| 0 <= k < picks@.len() ==> pick_in_list(#[trigger] picks@[k], heroes_data@),
                worksheet@.name == old(worksheet)@.name,
                worksheet@.ops == head + join_range(i as int, hero_row),
                hero_row == (|i: int|
                    hero_row_steps(
                        games_data@,
                        races_data@,
                        heroes_data@,
                        race.id,
                        picks@[i],
                        (row + 2 + i) as u32,
                    )),
            decreases picks@.len() - i,
        {
            write_hero_row(
                worksheet,
                games_data,
                races_data,
                heroes_data,
                race.id,
                picks[i],
                row + 2 + (i as u32),
            );
            assert(worksheet@.ops =~= head + join_range(i + 1, hero_row));
            i = i + 1;
        }
        let ghost rows = worksheet@.ops;
        let ghost versus = |i: int|
            if is_opponent(races_data@[i], race.id) {
                versus_steps(
                    games_data@,
                    heroes_data@,
                    picks@,
                    *race,
                    races_data@[i],
                    (row + 3 + count + opponents_before(races_data@, race.id, i) * (count + 4))
                        as u32,
                )
            } else {
                Seq::empty()
            };
        let mut top: u32 = row + 3 + count;
        let mut i: usize = 0;
        while i < races_data.len()
            invariant
                i <= races_data@.len(),
                games_data@.len() <= MAX_GAMES,
                races_data@.len() <= MAX_RACES,
                heroes_data@.len() <= MAX_HEROES,
                picks@.len() <= 2 * MAX_GAMES,
                count == picks@.len(),
                row <= 14,
                forall|k: int| 0 <= k < picks@.len() ==> pick_in_list(#[trigger] picks@[k], heroes_data@),
                top == row + 3 + count + opponents_before(races_data@, race.id, i as int) * (count
                    + 4),
                top <= row + 3 + count + i * 2_000_004,
                worksheet@.name == old(worksheet)@.name,
                worksheet@.ops == rows + join_range(i as int, versus),
                versus == (|i: int|
                    if is_opponent(races_data@[i], race.id) {
                        versus_steps(
                            games_data@,
                            heroes_data@,
                            picks@,
                            *race,
                            races_data@[i],
                            (row + 3 + count + opponents_before(races_data@, race.id, i) * (count
                                + 4)) as u32,
                        )
                    } else {
                        Seq::empty()
                    }),
            decreases races_data@.len() - i,
        {
            let opp = &races_data[i];
            if 1 <= opp.id && opp.id <= 8 && opp.id != race.id {
                build_hero_stats_vs_race(
                    race,
                    &picks,
                    heroes_data,
                    opp,
                    games_data,
                    worksheet,
                    top,
                );
                proof {
                    let k = opponents_before(races_data@, race.id, i as int) as int;
                    let c = (count + 4) as int;
                    assert((k + 1) * c == k * c + c) by (nonlinear_arith);
                }
                top = top + count + 4;
            }
            assert(worksheet@.ops =~= rows + join_range(i + 1, versus));
            i = i + 1;
        }
        assert(worksheet@.ops =~= old(worksheet)@.ops + heroes_block_steps(
            games_data@,
            races_data@,
            heroes_data@,
            *race,
            row,
        ));
    }
}

} // verus!
