//! The sheet of a player: the heads, the games of the player's history,
//! and the summary.
use vstd::prelude::*;
use crate::error::Error;
use crate::games::GameType;
use crate::layout::{join_range, lemma_join_range_contains};
use crate::model::{
    Hero, RaceInfo, Tournament, TournamentStatsModel, MAX_GAMES, MAX_HEROES, MAX_RACES,
};
use crate::player::{
    collect_hero_stats, collect_player_seats, collect_race_stats, count_wins, entry_for,
    entry_of, games_won, hero_stats, player_seats, race_stats, seat_ok, stat_ok,
    GameHistoryEntry, GameHistoryView, PersonalStat, ResultOutput, Seat,
};
use crate::rates::{calc_winrate, winrate_of};
use crate::sheet::{
    merged_cell, number_cell, text_cell, width_of, Sheet, SheetOpView, SheetView, Style, Workbook,
};
use crate::text::{winrate_label, winrate_text};

verus! {

/// The heads of the columns of a player's history.
pub struct PlayerMatchHistoryHeaders<'a> {
    pub headers: Vec<&'a str>,
}

/// The heads that a tournament asks for: the picks; the bargain and its
/// colour, where the tournament has them; the result; and the outcome,
/// where the tournament is played on random maps.
pub open spec fn history_headers(t: Tournament) -> Seq<Seq<char>> {
    seq!["Фракция игрока"@, "Фракция оппонента"@, "Герой игрока"@, "Герой оппонента"@] + (
    if t.with_bargains {
        seq!["Торг игрока"@]
    } else {
        Seq::empty()
    }) + (if t.with_bargains_color {
        seq!["Цвет торга"@]
    } else {
        Seq::empty()
    }) + seq!["Результат"@] + (if t.game_type == GameType::Rmg {
        seq!["Исход"@]
    } else {
        Seq::empty()
    })
}

/// The top of a player's sheet: the title over all columns, and the
/// heads with their widths.
pub open spec fn header_steps(labels: Seq<Seq<char>>) -> Seq<SheetOpView> {
    seq![
        merged_cell(0, 0, 0, labels.len() as u16, "История игр"@, Style::TextBoldCentered),
        width_of(0, 14, 1),
        text_cell(1, 0, "VS"@, Style::TextCenterColorRed),
    ] + join_range(
        labels.len() as int,
        |k: int|
            seq![
                width_of((1 + k) as u16, 14, 1),
                text_cell(1, (1 + k) as u16, labels[k], Style::ThinBorderTextWrap),
            ],
    )
}

impl<'a> PlayerMatchHistoryHeaders<'a> {
    /// The heads as texts.
    pub open spec fn labels(self) -> Seq<Seq<char>> {
        Seq::new(self.headers@.len(), |i: int| self.headers@[i]@)
    }

    /// The heads that the tournament asks for.
    pub fn new(tournament_info: &Tournament) -> (heads: Self)
        ensures
            heads.labels() == history_headers(*tournament_info),
            heads.headers@.len() <= 8,
    {
        let mut headers: Vec<&'a str> = Vec::new();
        headers.push("Фракция игрока");
        headers.push("Фракция оппонента");
        headers.push("Герой игрока");
        headers.push("Герой оппонента");
        if tournament_info.with_bargains {
            headers.push("Торг игрока");
        }
        if tournament_info.with_bargains_color {
            headers.push("Цвет торга");
        }
        headers.push("Результат");
        if tournament_info.game_type == GameType::Rmg {
            headers.push("Исход");
        }
        let heads = PlayerMatchHistoryHeaders { headers };
        assert(heads.labels() =~= history_headers(*tournament_info));
        heads
    }

    /// Lays down the top of a player's sheet.
    pub fn to_xlsx(&self, worksheet: &mut Sheet)
        requires
            self.headers@.len() <= 1_000,
        ensures
            final(worksheet)@.name == old(worksheet)@.name,
            final(worksheet)@.ops == old(worksheet)@.ops + header_steps(self.labels()),
    {
        worksheet.merge_range(
            0,
            0,
            0,
            self.headers.len() as u16,
            "История игр",
            Style::TextBoldCentered,
        );
        worksheet.set_column_width(0, 14, 1);
        worksheet.write_text(1, 0, "VS", Style::TextCenterColorRed);
        let ghost head = worksheet@.ops;
        let ghost labels = self.labels();
        let ghost one = |k: int|
            seq![
                width_of((1 + k) as u16, 14, 1),
                text_cell(1, (1 + k) as u16, labels[k], Style::ThinBorderTextWrap),
            ];
        let mut k: usize = 0;
        while k < self.headers.len()
            invariant
                k <= self.headers@.len(),
                self.headers@.len() <= 1_000,
                labels == self.labels(),
                worksheet@.name == old(worksheet)@.name,
                worksheet@.ops == head + join_range(k as int, one),
                one == (|k: int|
                    seq![
                        width_of((1 + k) as u16, 14, 1),
                        text_cell(1, (1 + k) as u16, labels[k], Style::ThinBorderTextWrap),
                    ]),
            decreases self.headers@.len() - k,
        {
            let col: u16 = (1 + k) as u16;
            worksheet.set_column_width(col, 14, 1);
            worksheet.write_text(1, col, self.headers[k], Style::ThinBorderTextWrap);
            assert(worksheet@.ops =~= head + join_range(k + 1, one));
            k = k + 1;
        }
        assert(worksheet@.ops =~= old(worksheet)@.ops + header_steps(self.labels()));
    }
}

/// The row of a game: the opponent, the picks of the player and of the
/// opponent, the bargain and its colour where the entry has them, the
/// result in green or red, and the outcome where the entry has it.
pub open spec fn entry_steps(entry: GameHistoryView, row: u32) -> Seq<SheetOpView> {
    let wrap = Style::ThinBorderTextWrap;
    let after_amount: u16 = if entry.bargains_amount is Some {
        6
    } else {
        5
    };
    let after_color: u16 = if entry.bargains_color is Some {
        (after_amount + 1) as u16
    } else {
        after_amount
    };
    seq![
        text_cell(row, 0, entry.opponent, wrap),
        text_cell(row, 1, entry.player_race, wrap),
        text_cell(row, 2, entry.player_hero, wrap),
        text_cell(row, 3, entry.opponent_race, wrap),
        text_cell(row, 4, entry.opponent_hero, wrap),
    ] + (match entry.bargains_amount {
        Some(amount) => seq![number_cell(row, 5, amount, wrap)],
        None => Seq::empty(),
    }) + (match entry.bargains_color {
        Some(color) => seq![text_cell(row, after_amount, color, wrap)],
        None => Seq::empty(),
    }) + seq![
        match entry.result {
            ResultOutput::Win => text_cell(row, after_color, "Победа"@, Style::BackgroundGreen),
            ResultOutput::Loss => text_cell(row, after_color, "Поражение"@, Style::BackgroundRed),
        },
    ] + (match entry.outcome {
        Some(outcome) => seq![text_cell(row, (after_color + 1) as u16, outcome, wrap)],
        None => Seq::empty(),
    })
}

impl<'a> GameHistoryEntry<'a> {
    /// Lays down the row of the game.
    pub fn to_xlsx(&self, worksheet: &mut Sheet, row: u32)
        ensures
            final(worksheet)@.name == old(worksheet)@.name,
            final(worksheet)@.ops == old(worksheet)@.ops + entry_steps(self@, row),
    {
        let wrap = Style::ThinBorderTextWrap;
        let mut col: u16 = 0;
        worksheet.write_text(row, col, self.opponent.as_str(), wrap);
        col = col + 1;
        worksheet.write_text(row, col, self.player_race.as_str(), wrap);
        col = col + 1;
        worksheet.write_text(row, col, self.player_hero.as_str(), wrap);
        col = col + 1;
        worksheet.write_text(row, col, self.opponent_race.as_str(), wrap);
        col = col + 1;
        worksheet.write_text(row, col, self.opponent_hero.as_str(), wrap);
        col = col + 1;
        match self.bargains_amount {
            Some(amount) => {
                worksheet.write_number(row, col, amount, wrap);
                col = col + 1;
            },
            None => {},
        }
        match self.bargains_color {
            Some(color) => {
                worksheet.write_text(row, col, color, wrap);
                col = col + 1;
            },
            None => {},
        }
        match self.result {
            ResultOutput::Win => {
                worksheet.write_text(row, col, "Победа", Style::BackgroundGreen);
            },
            ResultOutput::Loss => {
                worksheet.write_text(row, col, "Поражение", Style::BackgroundRed);
            },
        }
        col = col + 1;
        match self.outcome {
            Some(outcome) => {
                worksheet.write_text(row, col, outcome, wrap);
            },
            None => {},
        }
        assert(worksheet@.ops =~= old(worksheet)@.ops + entry_steps(self@, row));
    }
}

/// The rows of the games of a history, from the row 2 downwards.
pub open spec fn game_rows_steps(model: TournamentStatsModel, t: Tournament, seats: Seq<Seat>) -> Seq<
    SheetOpView,
> {
    join_range(
        seats.len() as int,
        |i: int| entry_steps(entry_of(model, t, seats[i]), (2 + i) as u32),
    )
}

/// The rows of a breakdown: a title, the heads, and for each entry its
/// name, its games, and its winrate.
pub open spec fn breakdown_steps(
    title: Seq<char>,
    names: Seq<Seq<char>>,
    stats: Seq<PersonalStat>,
    row: u32,
) -> Seq<SheetOpView> {
    let wrap = Style::ThinBorderTextWrap;
    seq![
        merged_cell((row - 1) as u32, 0, (row - 1) as u32, 2, title, Style::TextBoldCentered),
        text_cell(row, 1, "Всего игр"@, wrap),
        text_cell(row, 2, "Винрейт"@, wrap),
    ] + join_range(
        stats.len() as int,
        |k: int|
            seq![
                text_cell((row + 1 + k) as u32, 0, names[stats[k].index as int], wrap),
                number_cell((row + 1 + k) as u32, 1, stats[k].games as int, wrap),
                text_cell(
                    (row + 1 + k) as u32,
                    2,
                    winrate_label(
                        winrate_of(stats[k].wins as nat, stats[k].games as nat),
                        "Нет игр"@,
                    ),
                    wrap,
                ),
            ],
    )
}

/// The names of the races of a list.
pub open spec fn race_names(races: Seq<RaceInfo>) -> Seq<Seq<char>> {
    Seq::new(races.len(), |i: int| races[i].name@)
}

/// The names of the heroes of a list.
pub open spec fn hero_names(heroes: Seq<Hero>) -> Seq<Seq<char>> {
    Seq::new(heroes.len(), |i: int| heroes[i].name@)
}

/// The summary below the games of a history: the number of games and
/// the winrate over all of them, which is "no games" for a player
/// without games; then the races and the heroes that the player picked,
/// each with its games and its winrate.
pub open spec fn summary_steps(model: TournamentStatsModel, seats: Seq<Seat>) -> Seq<SheetOpView> {
    let wrap = Style::ThinBorderTextWrap;
    let total_row = (3 + seats.len()) as u32;
    let race_row = (total_row + 4) as u32;
    let by_race = race_stats(model.races@, seats);
    let hero_row = (race_row + by_race.len() + 3) as u32;
    seq![
        text_cell(total_row, 0, "Всего игр"@, wrap),
        number_cell(total_row, 1, seats.len() as int, wrap),
        text_cell((total_row + 1) as u32, 0, "Общий винрейт"@, wrap),
        text_cell(
            (total_row + 1) as u32,
            1,
            winrate_label(winrate_of(games_won(seats), seats.len()), "Нет игр"@),
            wrap,
        ),
    ] + breakdown_steps("Выбор рас"@, race_names(model.races@), by_race, race_row)
        + breakdown_steps(
        "Выбор героев"@,
        hero_names(model.heroes@),
        hero_stats(model.heroes@, seats),
        hero_row,
    )
}

/// What a player's sheet shows below its top: the games of the player's
/// history, and the summary.
pub open spec fn history_steps(model: TournamentStatsModel, user: u128) -> Seq<SheetOpView> {
    let seats = player_seats(model, user);
    game_rows_steps(model, model.tournament->0, seats) + summary_steps(model, seats)
}

/// A player's sheet shows the games of the history in their order: the
/// game at place `i` stands in the row `2 + i`, which begins with the
/// opponent's nickname and the player's race and hero.
pub proof fn lemma_history_shows_game(model: TournamentStatsModel, user: u128, i: int)
    requires
        model.tournament is Some,
        0 <= i < player_seats(model, user).len(),
    ensures
        ({
            let entry = entry_of(model, model.tournament->0, player_seats(model, user)[i]);
            let row = (2 + i) as u32;
            let wrap = Style::ThinBorderTextWrap;
            &&& history_steps(model, user).contains(text_cell(row, 0, entry.opponent, wrap))
            &&& history_steps(model, user).contains(text_cell(row, 1, entry.player_race, wrap))
            &&& history_steps(model, user).contains(text_cell(row, 2, entry.player_hero, wrap))
        }),
{
    let seats = player_seats(model, user);
    let t = model.tournament->0;
    let entry = entry_of(model, t, seats[i]);
    let row = (2 + i) as u32;
    let wrap = Style::ThinBorderTextWrap;
    let rows = |k: int| entry_steps(entry_of(model, t, seats[k]), (2 + k) as u32);
    let cells = rows(i);
    let games = game_rows_steps(model, t, seats);
    let all = history_steps(model, user);
    let first = text_cell(row, 0, entry.opponent, wrap);
    let second = text_cell(row, 1, entry.player_race, wrap);
    let third = text_cell(row, 2, entry.player_hero, wrap);
    assert(cells[0] == first && cells[1] == second && cells[2] == third);
    assert(cells.contains(first) && cells.contains(second) && cells.contains(third));
    lemma_join_range_contains(seats.len() as int, rows, i, first);
    lemma_join_range_contains(seats.len() as int, rows, i, second);
    lemma_join_range_contains(seats.len() as int, rows, i, third);
    let a = choose|a: int| 0 <= a < games.len() && games[a] == first;
    assert(all[a] == first);
    let b = choose|b: int| 0 <= b < games.len() && games[b] == second;
    assert(all[b] == second);
    let c = choose|c: int| 0 <= c < games.len() && games[c] == third;
    assert(all[c] == third);
}

/// The names of a list of races, in its order.
fn names_of_races(races: &Vec<RaceInfo>) -> (names: Vec<&str>)
    ensures
        names@.len() == races@.len(),
        Seq::new(names@.len(), |i: int| names@[i]@) == race_names(races@),
{
    let mut names: Vec<&str> = Vec::new();
    let mut i: usize = 0;
    while i < races.len()
        invariant
            i <= races@.len(),
            names@.len() == i,
            forall|k: int| 0 <= k < i ==> (#[trigger] names@[k])@ == races@[k].name@,
        decreases races@.len() - i,
    {
        names.push(races[i].name.as_str());
        i = i + 1;
    }
    assert(Seq::new(names@.len(), |i: int| names@[i]@) =~= race_names(races@));
    names
}

/// The names of a list of heroes, in its order.
fn names_of_heroes(heroes: &Vec<Hero>) -> (names: Vec<&str>)
    ensures
        names@.len() == heroes@.len(),
        Seq::new(names@.len(), |i: int| names@[i]@) == hero_names(heroes@),
{
    let mut names: Vec<&str> = Vec::new();
    let mut i: usize = 0;
    while i < heroes.len()
        invariant
            i <= heroes@.len(),
            names@.len() == i,
            forall|k: int| 0 <= k < i ==> (#[trigger] names@[k])@ == heroes@[k].name@,
        decreases heroes@.len() - i,
    {
        names.push(heroes[i].name.as_str());
        i = i + 1;
    }
    assert(Seq::new(names@.len(), |i: int| names@[i]@) =~= hero_names(heroes@));
    names
}

/// Lays down a breakdown: its title, its heads, and one row for each
/// entry.
fn write_breakdown(
    worksheet: &mut Sheet,
    title: &str,
    names: &Vec<&str>,
    stats: &Vec<PersonalStat>,
    row: u32,
)
    requires
        1 <= row <= 2_000_000,
        stats@.len() <= MAX_HEROES,
        forall|k: int| 0 <= k < stats@.len() ==> stat_ok(#[trigger] stats@[k], names@.len() as int),
    ensures
        final(worksheet)@.name == old(worksheet)@.name,
        final(worksheet)@.ops == old(worksheet)@.ops + breakdown_steps(
            title@,
            Seq::new(names@.len(), |i: int| names@[i]@),
            stats@,
            row,
        ),
{
    let wrap = Style::ThinBorderTextWrap;
    worksheet.merge_range(row - 1, 0, row - 1, 2, title, Style::TextBoldCentered);
    worksheet.write_text(row, 1, "Всего игр", wrap);
    worksheet.write_text(row, 2, "Винрейт", wrap);
    let ghost head = worksheet@.ops;
    let ghost texts = Seq::new(names@.len(), |i: int| names@[i]@);
    let ghost one = |k: int|
        seq![
            text_cell((row + 1 + k) as u32, 0, texts[stats@[k].index as int], wrap),
            number_cell((row + 1 + k) as u32, 1, stats@[k].games as int, wrap),
            text_cell(
                (row + 1 + k) as u32,
                2,
                winrate_label(
                    winrate_of(stats@[k].wins as nat, stats@[k].games as nat),
                    "Нет игр"@,
                ),
                wrap,
            ),
        ];
    let mut k: usize = 0;
    while k < stats.len()
        invariant
            k <= stats@.len(),
            1 <= row <= 2_000_000,
            stats@.len() <= MAX_HEROES,
            wrap == Style::ThinBorderTextWrap,
            texts == Seq::new(names@.len(), |i: int| names@[i]@),
            forall|j: int|
                0 <= j < stats@.len() ==> stat_ok(#[trigger] stats@[j], names@.len() as int),
            worksheet@.name == old(worksheet)@.name,
            worksheet@.ops == head + join_range(k as int, one),
            one == (|k: int|
                seq![
                    text_cell((row + 1 + k) as u32, 0, texts[stats@[k].index as int], wrap),
                    number_cell((row + 1 + k) as u32, 1, stats@[k].games as int, wrap),
                    text_cell(
                        (row + 1 + k) as u32,
                        2,
                        winrate_label(
                            winrate_of(stats@[k].wins as nat, stats@[k].games as nat),
                            "Нет игр"@,
                        ),
                        wrap,
                    ),
                ]),
        decreases stats@.len() - k,
    {
        let stat = stats[k];
        let at: u32 = row + 1 + (k as u32);
        let rate = winrate_text(calc_winrate(stat.wins, stat.games), "Нет игр");
        worksheet.write_text(at, 0, names[stat.index], wrap);
        worksheet.write_number(at, 1, stat.games as i64, wrap);
        worksheet.write_text(at, 2, rate.as_str(), wrap);
        assert(worksheet@.ops =~= head + join_range(k + 1, one));
        k = k + 1;
    }
    assert(worksheet@.ops =~= old(worksheet)@.ops + breakdown_steps(
        title@,
        texts,
        stats@,
        row,
    ));
}

/// Lays down the summary of a history.
fn write_summary(worksheet: &mut Sheet, model: &TournamentStatsModel, seats: &Vec<Seat>)
    requires
        seats@.len() <= MAX_GAMES,
        model.races@.len() <= MAX_RACES,
        model.heroes@.len() <= MAX_HEROES,
    ensures
        final(worksheet)@.name == old(worksheet)@.name,
        final(worksheet)@.ops == old(worksheet)@.ops + summary_steps(*model, seats@),
{
    let wrap = Style::ThinBorderTextWrap;
    let total_row: u32 = 3 + (seats.len() as u32);
    let wins = count_wins(seats);
    let rate = winrate_text(calc_winrate(wins, seats.len() as u64), "Нет игр");
    worksheet.write_text(total_row, 0, "Всего игр", wrap);
    worksheet.write_number(total_row, 1, seats.len() as i64, wrap);
    worksheet.write_text(total_row + 1, 0, "Общий винрейт", wrap);
    worksheet.write_text(total_row + 1, 1, rate.as_str(), wrap);
    let by_race = collect_race_stats(&model.races, seats);
    let by_hero = collect_hero_stats(&model.heroes, seats);
    let race_row: u32 = total_row + 4;
    let names = names_of_races(&model.races);
    write_breakdown(worksheet, "Выбор рас", &names, &by_race, race_row);
    let hero_row: u32 = race_row + (by_race.len() as u32) + 3;
    let names = names_of_heroes(&model.heroes);
    write_breakdown(worksheet, "Выбор героев", &names, &by_hero, hero_row);
    assert(worksheet@.ops =~= old(worksheet)@.ops + summary_steps(*model, seats@));
}

/// Why the history of a player is not laid down, if it is not: the model
/// has no tournament, it is beyond the limits, or the history has more
/// games than the limit.
pub open spec fn history_refusal(model: TournamentStatsModel, user: u128) -> Option<Error> {
    if model.tournament is None {
        Some(Error::NoTournament)
    } else if !model.within_limits() || player_seats(model, user).len() > MAX_GAMES {
        Some(Error::ModelLimits)
    } else {
        None
    }
}

/// Lays down the history of a player below the top of their sheet: the
/// games in the order of the matches and of the games, then the summary.
/// Where the history is refused, the sheet stays as it is.
pub fn build_game_history(model: &TournamentStatsModel, worksheet: &mut Sheet, user: u128) -> (res:
    Result<(), Error>)
    ensures
        res is Ok <==> history_refusal(*model, user) is None,
        res is Ok ==> final(worksheet)@.name == old(worksheet)@.name && final(worksheet)@.ops
            == old(worksheet)@.ops + history_steps(*model, user),
        res matches Err(e) ==> history_refusal(*model, user) == Some(e) && *final(worksheet)
            == *old(worksheet),
{
    if model.tournament.is_none() {
        return Err(Error::NoTournament);
    }
    if !model.check_limits() {
        return Err(Error::ModelLimits);
    }
    write_game_history(model, worksheet, user)
}

/// Lays down the history of a player of a model that has a tournament
/// and is within the limits.
fn write_game_history(model: &TournamentStatsModel, worksheet: &mut Sheet, user: u128) -> (res:
    Result<(), Error>)
    requires
        model.tournament is Some,
        model.within_limits(),
    ensures
        res is Ok <==> player_seats(*model, user).len() <= MAX_GAMES,
        res is Ok ==> final(worksheet)@.name == old(worksheet)@.name && final(worksheet)@.ops
            == old(worksheet)@.ops + history_steps(*model, user),
        res matches Err(e) ==> e == Error::ModelLimits && *final(worksheet) == *old(worksheet),
{
    let tournament = match &model.tournament {
        Some(t) => t,
        None => {
            return Err(Error::NoTournament);
        },
    };
    let seats = match collect_player_seats(model, user) {
        Ok(seats) => seats,
        Err(e) => {
            return Err(e);
        },
    };
    let ghost rows = |i: int|
        entry_steps(entry_of(*model, *tournament, seats@[i]), (2 + i) as u32);
    let mut i: usize = 0;
    while i < seats.len()
        invariant
            i <= seats@.len(),
            seats@.len() <= MAX_GAMES,
            model.within_limits(),
            forall|k: int| 0 <= k < seats@.len() ==> seat_ok(*model, #[trigger] seats@[k]),
            worksheet@.name == old(worksheet)@.name,
            worksheet@.ops == old(worksheet)@.ops + join_range(i as int, rows),
            rows == (|i: int|
                entry_steps(entry_of(*model, *tournament, seats@[i]), (2 + i) as u32)),
        decreases seats@.len() - i,
    {
        proof {
            let game = seats@[i as int].game;
            assert(seat_ok(*model, seats@[i as int]));
            let j = choose|j: int| 0 <= j < model.games@.len() && model.games@[j] == game;
            assert(model.games@[j].amount_in_range());
        }
        let entry = entry_for(model, tournament, &seats[i]);
        entry.to_xlsx(worksheet, 2 + (i as u32));
        assert(worksheet@.ops =~= old(worksheet)@.ops + join_range(i + 1, rows));
        i = i + 1;
    }
    write_summary(worksheet, model, &seats);
    assert(worksheet@.ops =~= old(worksheet)@.ops + history_steps(*model, user));
    Ok(())
}

/// The sheet of the player at place `i` of the list of users: the top
/// with the heads that the tournament asks for, and the player's
/// history, under the player's nickname.
pub open spec fn player_sheet(model: TournamentStatsModel, i: int) -> SheetView {
    SheetView {
        name: model.users@[i].nickname@,
        ops: header_steps(history_headers(model.tournament->0)) + history_steps(
            model,
            model.users@[i].id,
        ),
    }
}

/// The sheets of the first `n` players, in the order of the list of
/// users.
pub open spec fn player_sheets(model: TournamentStatsModel, n: int) -> Seq<SheetView> {
    Seq::new(n as nat, |i: int| player_sheet(model, i))
}

/// Whether no history among those of the first `n` players has more
/// games than the limit.
pub open spec fn histories_fit(model: TournamentStatsModel, n: int) -> bool {
    forall|i: int|
        0 <= i < n ==> (#[trigger] player_seats(model, model.users@[i].id)).len() <= MAX_GAMES
}

/// Why no sheets of players are built from the model, if none are.
pub open spec fn players_refusal(model: TournamentStatsModel) -> Option<Error> {
    if model.tournament is None {
        Some(Error::NoTournament)
    } else if model.refusal() is Some {
        model.refusal()
    } else if !histories_fit(model, model.users@.len() as int) {
        Some(Error::ModelLimits)
    } else {
        None
    }
}

/// Adds one sheet for each player of the list of users to the workbook,
/// under the player's nickname: the heads, the games of the player's
/// history, and the summary. A model without tournament, a model that
/// is refused, and a history beyond the limit give an error and leave the
/// workbook as it is.
pub fn build_player_stats(model: &TournamentStatsModel, workbook: &mut Workbook) -> (res: Result<
    (),
    Error,
>)
    ensures
        res is Ok <==> players_refusal(*model) is None,
        res matches Err(e) ==> players_refusal(*model) == Some(e) && *final(workbook) == *old(
            workbook,
        ),
        res is Ok ==> final(workbook)@ == old(workbook)@ + player_sheets(
            *model,
            model.users@.len() as int,
        ),
{
    let tournament = match &model.tournament {
        Some(t) => t,
        None => {
            return Err(Error::NoTournament);
        },
    };
    match model.check() {
        Ok(()) => {},
        Err(e) => {
            return Err(e);
        },
    }
    let headers_data = PlayerMatchHistoryHeaders::new(tournament);
    let mut sheets: Vec<Sheet> = Vec::new();
    let mut i: usize = 0;
    while i < model.users.len()
        invariant
            i <= model.users@.len(),
            model.tournament == Some(*tournament),
            model.within_limits(),
            model.refusal() is None,
            headers_data.labels() == history_headers(*tournament),
            headers_data.headers@.len() <= 8,
            sheets@.len() == i,
            histories_fit(*model, i as int),
            forall|k: int| 0 <= k < i ==> (#[trigger] sheets@[k])@ == player_sheet(*model, k),
        decreases model.users@.len() - i,
    {
        let user = &model.users[i];
        let mut worksheet = Sheet::new(user.nickname.clone());
        headers_data.to_xlsx(&mut worksheet);
        match write_game_history(model, &mut worksheet, user.id) {
            Ok(()) => {},
            Err(e) => {
                assert(!histories_fit(*model, model.users@.len() as int)) by {
                    assert(player_seats(*model, model.users@[i as int].id).len() > MAX_GAMES);
                }
                return Err(e);
            },
        }
        assert(worksheet@.ops =~= player_sheet(*model, i as int).ops);
        sheets.push(worksheet);
        i = i + 1;
    }
    workbook.append_worksheets(sheets);
    assert(workbook@ =~= old(workbook)@ + player_sheets(*model, model.users@.len() as int));
    Ok(())
}

} // verus!
