//! The bargains of a race on its sheet: one row for each opponent, and
//! the totals.
use vstd::prelude::*;
use vstd::string::StringExecFns;
use crate::bargains::{
    amount_sum, amounts_in_range, bucket_amounts, bucket_losses, bucket_wins, get_max_bargain,
    get_min_bargain, greatest, least, lemma_sum_bound, sum_amounts, Bucket,
};
use crate::games::GameEntry;
use crate::layout::{join_range, lemma_join_range_contains};
use crate::model::{is_race_id, RaceInfo, MAX_GAMES, MAX_RACES};
use crate::pair::RACE_SLOTS;
use crate::race::{
    bucket_games, bucket_sum, is_opponent, opponents_before, pair_average, race_bargains,
    bargains_upto, OpponentBargains, RaceBargainsStats, RaceBargainsView, RaceStatsBuilder,
};
use crate::rates::{
    calc_mean, calc_scaled_mean, calc_winrate, mean_scaled, mean_thousandths, winrate_of,
    MEAN_LIMIT,
};
use crate::sheet::{merged_cell, number_cell, text_cell, width_of, Sheet, SheetOpView, Style};
use crate::text::{
    decimal_int, decimal_text, fixed_point, thousandths_text, winrate_label, winrate_text,
};

verus! {

/// The heads of the sixteen columns of the bargains of a race.
pub open spec fn bargain_column_label(k: int) -> Seq<char> {
    if k == 0 {
        "Игр с плюсом по золоту"@
    } else if k == 1 {
        "Игр с минусом по золоту"@
    } else if k == 2 {
        "Игр без торга"@
    } else if k == 3 {
        "Побед с плюсом"@
    } else if k == 4 {
        "Поражений с плюсом"@
    } else if k == 5 {
        "Винрейт с плюсом"@
    } else if k == 6 {
        "Побед с минусом"@
    } else if k == 7 {
        "Поражений с минусом"@
    } else if k == 8 {
        "Винрейт с минусом"@
    } else if k == 9 {
        "Побед без торга"@
    } else if k == 10 {
        "Поражений без торга"@
    } else if k == 11 {
        "Винрейт без торга"@
    } else if k == 12 {
        "Максимальный плюс по золоту"@
    } else if k == 13 {
        "Максимальный минус по золоту"@
    } else if k == 14 {
        "Средний плюсовый торг"@
    } else {
        "Средний минусовый торг"@
    }
}

/// The heads of the eight columns of the totals of a race.
pub open spec fn bargain_total_label(k: int) -> Seq<char> {
    if k == 0 {
        "Общий средний торг"@
    } else if k == 1 {
        "Суммарно игр с плюсовым торгом"@
    } else if k == 2 {
        "Суммарно игр с минусовым торгом"@
    } else if k == 3 {
        "Суммарно игр без торга"@
    } else if k == 4 {
        "Общий винрейт с плюсовым торгом"@
    } else if k == 5 {
        "Общий винрейт с минусовым торгом"@
    } else if k == 6 {
        "Общий винрейт без торга"@
    } else {
        "Общий винрейт фракции"@
    }
}

/// The head of a column of the bargains of a race.
pub fn bargain_column_name(k: usize) -> (s: &'static str)
    ensures
        s@ == bargain_column_label(k as int),
{
    if k == 0 {
        "Игр с плюсом по золоту"
    } else if k == 1 {
        "Игр с минусом по золоту"
    } else if k == 2 {
        "Игр без торга"
    } else if k == 3 {
        "Побед с плюсом"
    } else if k == 4 {
        "Поражений с плюсом"
    } else if k == 5 {
        "Винрейт с плюсом"
    } else if k == 6 {
        "Побед с минусом"
    } else if k == 7 {
        "Поражений с минусом"
    } else if k == 8 {
        "Винрейт с минусом"
    } else if k == 9 {
        "Побед без торга"
    } else if k == 10 {
        "Поражений без торга"
    } else if k == 11 {
        "Винрейт без торга"
    } else if k == 12 {
        "Максимальный плюс по золоту"
    } else if k == 13 {
        "Максимальный минус по золоту"
    } else if k == 14 {
        "Средний плюсовый торг"
    } else {
        "Средний минусовый торг"
    }
}

/// The head of a column of the totals of a race.
pub fn bargain_total_name(k: usize) -> (s: &'static str)
    ensures
        s@ == bargain_total_label(k as int),
{
    if k == 0 {
        "Общий средний торг"
    } else if k == 1 {
        "Суммарно игр с плюсовым торгом"
    } else if k == 2 {
        "Суммарно игр с минусовым торгом"
    } else if k == 3 {
        "Суммарно игр без торга"
    } else if k == 4 {
        "Общий винрейт с плюсовым торгом"
    } else if k == 5 {
        "Общий винрейт с минусовым торгом"
    } else if k == 6 {
        "Общий винрейт без торга"
    } else {
        "Общий винрейт фракции"
    }
}

/// What stands for a share or an amount of games with more gold where
/// there are none.
pub open spec fn never_up() -> Seq<char> {
    "Не игралось в плюс"@
}

/// What stands for a share or an amount of games with less gold where
/// there are none.
pub open spec fn never_down() -> Seq<char> {
    "Не игралось в минус"@
}

/// What stands for a share of games without bargain where there are
/// none.
pub open spec fn never_level() -> Seq<char> {
    "Не игралось без торгов"@
}

/// What stands for a number of games or a share where there are no
/// games.
pub open spec fn no_games() -> Seq<char> {
    "Нет игр"@
}

/// The text of the greatest or least bargain, or `none` where there is
/// no bargain.
pub open spec fn extreme_label(extreme: Option<i64>, none: Seq<char>) -> Seq<char> {
    match extreme {
        Some(amount) => decimal_int(amount as int),
        None => none,
    }
}

/// The text of the average of `count` bargains that add up to `sum`,
/// with three places, or `none` where there is no bargain.
pub open spec fn average_label(sum: int, count: nat, none: Seq<char>) -> Seq<char> {
    if count == 0 {
        none
    } else {
        fixed_point(mean_thousandths(sum, count), 3)
    }
}

/// The top of the bargains of a race: the title, the heads of the
/// sixteen columns, and the widths.
pub open spec fn bargain_head_steps() -> Seq<SheetOpView> {
    seq![merged_cell(0, 3, 0, 8, "Данные о торгах за фракцию"@, Style::TextBoldCentered)]
        + join_range(
        16,
        |k: int|
            seq![
                width_of((k + 1) as u16, 20, 1),
                text_cell(1, (k + 1) as u16, bargain_column_label(k), Style::ThinBorderTextWrap),
            ],
    ) + seq![width_of(0, 20, 1)]
}

/// The sixteen cells of `race` against `opp` in a row: for the games
/// with more gold, with less, and without bargain their number, the
/// wins, the losses and the winrate; the greatest bargain with more gold
/// and the least with less; and the average bargain with more and with
/// less gold.
pub open spec fn bucket_row_steps(games: Seq<GameEntry>, race: i64, opp: i64, row: u32) -> Seq<
    SheetOpView,
> {
    let up_wins = bucket_wins(games, race, opp, Bucket::Up);
    let up_games = bucket_games(games, race, opp, Bucket::Up);
    let down_wins = bucket_wins(games, race, opp, Bucket::Down);
    let down_games = bucket_games(games, race, opp, Bucket::Down);
    let level_wins = bucket_wins(games, race, opp, Bucket::Level);
    let level_games = bucket_games(games, race, opp, Bucket::Level);
    let wrap = Style::ThinBorderTextWrap;
    seq![
        number_cell(row, 1, up_games as int, wrap),
        number_cell(row, 4, up_wins as int, wrap),
        number_cell(row, 5, bucket_losses(games, race, opp, Bucket::Up) as int, wrap),
        text_cell(row, 6, winrate_label(winrate_of(up_wins, up_games), never_up()), wrap),
        text_cell(
            row,
            13,
            extreme_label(
                greatest(
                    bucket_amounts(games, race, opp, Bucket::Up, true) + bucket_amounts(
                        games,
                        race,
                        opp,
                        Bucket::Up,
                        false,
                    ),
                ),
                never_up(),
            ),
            wrap,
        ),
        number_cell(row, 2, down_games as int, wrap),
        number_cell(row, 7, down_wins as int, wrap),
        number_cell(row, 8, bucket_losses(games, race, opp, Bucket::Down) as int, wrap),
        text_cell(row, 9, winrate_label(winrate_of(down_wins, down_games), never_down()), wrap),
        text_cell(
            row,
            14,
            extreme_label(
                least(
                    bucket_amounts(games, race, opp, Bucket::Down, true) + bucket_amounts(
                        games,
                        race,
                        opp,
                        Bucket::Down,
                        false,
                    ),
                ),
                never_down(),
            ),
            wrap,
        ),
        number_cell(row, 3, level_games as int, wrap),
        number_cell(row, 10, level_wins as int, wrap),
        number_cell(row, 11, bucket_losses(games, race, opp, Bucket::Level) as int, wrap),
        text_cell(row, 12, winrate_label(winrate_of(level_wins, level_games), never_level()), wrap),
        text_cell(
            row,
            15,
            average_label(bucket_sum(games, race, opp, Bucket::Up), up_games, never_up()),
            wrap,
        ),
        text_cell(
            row,
            16,
            average_label(bucket_sum(games, race, opp, Bucket::Down), down_games, never_down()),
            wrap,
        ),
    ]
}

/// The row of an opponent: its name, then the sixteen cells.
pub open spec fn opponent_row_steps(games: Seq<GameEntry>, race: i64, opp: RaceInfo, row: u32) -> Seq<
    SheetOpView,
> {
    seq![text_cell(row, 0, opp.name@, Style::TextBoldCentered)] + bucket_row_steps(
        games,
        race,
        opp.id,
        row,
    )
}

/// The rows of the opponents among the first `n` entries of the list,
/// from row 2 downwards.
pub open spec fn opponent_rows_steps(
    games: Seq<GameEntry>,
    races: Seq<RaceInfo>,
    race: i64,
    n: int,
) -> Seq<SheetOpView> {
    join_range(
        n,
        |i: int|
            if is_opponent(races[i], race) {
                opponent_row_steps(
                    games,
                    race,
                    races[i],
                    (2 + opponents_before(races, race, i)) as u32,
                )
            } else {
                Seq::empty()
            },
    )
}

/// The sum of whole numbers.
pub open spec fn int_sum(values: Seq<int>) -> int
    decreases values.len(),
{
    if values.len() == 0 {
        0
    } else {
        int_sum(values.drop_last()) + values.last()
    }
}

/// The text of the mean of the averages over the opponents, each
/// opponent counting once however many games it played; `none` where
/// there is no opponent.
pub open spec fn grand_average_label(averages: Seq<int>, none: Seq<char>) -> Seq<char> {
    if averages.len() == 0 {
        none
    } else {
        fixed_point(mean_scaled(int_sum(averages), averages.len(), 1), 3)
    }
}

/// The totals of a race: the heads in one row, the values in the next.
pub open spec fn bargain_totals_steps(stats: RaceBargainsView, row: u32) -> Seq<SheetOpView> {
    let wrap = Style::ThinBorderTextWrap;
    let values = (row + 1) as u32;
    let wins = stats.total_plus_bargain_wins + stats.total_minus_bargain_wins
        + stats.total_no_bargains_wins;
    let games = stats.total_plus_bargain_games + stats.total_minus_bargain_games
        + stats.total_no_bargains_games;
    join_range(8, |k: int| seq![text_cell(row, k as u16, bargain_total_label(k), wrap)]) + seq![
        text_cell(values, 0, grand_average_label(stats.average_bargains, no_games()), wrap),
        number_cell(values, 1, stats.total_plus_bargain_games as int, wrap),
        number_cell(values, 2, stats.total_minus_bargain_games as int, wrap),
        number_cell(values, 3, stats.total_no_bargains_games as int, wrap),
        text_cell(
            values,
            4,
            winrate_label(
                winrate_of(stats.total_plus_bargain_wins, stats.total_plus_bargain_games),
                never_up(),
            ),
            wrap,
        ),
        text_cell(
            values,
            5,
            winrate_label(
                winrate_of(stats.total_minus_bargain_wins, stats.total_minus_bargain_games),
                never_down(),
            ),
            wrap,
        ),
        text_cell(
            values,
            6,
            winrate_label(
                winrate_of(stats.total_no_bargains_wins, stats.total_no_bargains_games),
                never_level(),
            ),
            wrap,
        ),
        text_cell(values, 7, winrate_label(winrate_of(wins, games), no_games()), wrap),
    ]
}

/// The bargains of a race on its sheet: the top, one row for each
/// opponent of the list, and, after an empty row, the totals.
pub open spec fn bargain_block_steps(games: Seq<GameEntry>, races: Seq<RaceInfo>, race: i64) -> Seq<
    SheetOpView,
> {
    let n = races.len() as int;
    bargain_head_steps() + opponent_rows_steps(games, races, race, n) + bargain_totals_steps(
        race_bargains(games, races, race),
        (3 + opponents_before(races, race, n)) as u32,
    )
}

/// The bargains of a race show every opponent of the list in a row of
/// its own, the first of them in the row 2: the row begins with the
/// opponent's name and the games that the race played against it with
/// more gold.
pub proof fn lemma_block_shows_opponent(
    games: Seq<GameEntry>,
    races: Seq<RaceInfo>,
    race: i64,
    place: int,
)
    requires
        0 <= place < races.len(),
        is_opponent(races[place], race),
    ensures
        ({
            let row = (2 + opponents_before(races, race, place)) as u32;
            &&& bargain_block_steps(games, races, race).contains(
                text_cell(row, 0, races[place].name@, Style::TextBoldCentered),
            )
            &&& bargain_block_steps(games, races, race).contains(
                number_cell(
                    row,
                    1,
                    bucket_games(games, race, races[place].id, Bucket::Up) as int,
                    Style::ThinBorderTextWrap,
                ),
            )
        }),
{
    let n = races.len() as int;
    let row = (2 + opponents_before(races, race, place)) as u32;
    let one = |i: int|
        if is_opponent(races[i], race) {
            opponent_row_steps(
                games,
                race,
                races[i],
                (2 + opponents_before(races, race, i)) as u32,
            )
        } else {
            Seq::empty()
        };
    let name = text_cell(row, 0, races[place].name@, Style::TextBoldCentered);
    let played = number_cell(
        row,
        1,
        bucket_games(games, race, races[place].id, Bucket::Up) as int,
        Style::ThinBorderTextWrap,
    );
    let cells = one(place);
    assert(cells[0] == name && cells[1] == played);
    assert(cells.contains(name) && cells.contains(played));
    lemma_join_range_contains(n, one, place, name);
    lemma_join_range_contains(n, one, place, played);
    let rows = opponent_rows_steps(games, races, race, n);
    let head = bargain_head_steps();
    let a = choose|a: int| 0 <= a < rows.len() && rows[a] == name;
    assert(bargain_block_steps(games, races, race)[head.len() + a] == name);
    let b = choose|b: int| 0 <= b < rows.len() && rows[b] == played;
    assert(bargain_block_steps(games, races, race)[head.len() + b] == played);
}

impl RaceBargainsStats {
    /// The sum of the averages over the opponents.
    fn sum_averages(&self) -> (sum: i128)
        requires
            self.average_bargains@.len() <= MAX_RACES,
            self@.within(u64::MAX as int),
        ensures
            sum == int_sum(self@.average_bargains),
            -(self.average_bargains@.len() * MEAN_LIMIT) <= sum <= self.average_bargains@.len()
                * MEAN_LIMIT,
    {
        let ghost all = self@.average_bargains;
        let mut sum: i128 = 0;
        let mut i: usize = 0;
        while i < self.average_bargains.len()
            invariant
                i <= self.average_bargains@.len(),
                self.average_bargains@.len() <= MAX_RACES,
                all == self@.average_bargains,
                self@.within(u64::MAX as int),
                sum == int_sum(all.take(i as int)),
                -(i * MEAN_LIMIT) <= sum <= i * MEAN_LIMIT,
            decreases self.average_bargains@.len() - i,
        {
            assert(all.take(i + 1).drop_last() == all.take(i as int));
            assert(all[i as int] == self.average_bargains@[i as int]);
            sum = sum + self.average_bargains[i];
            i = i + 1;
        }
        assert(all.take(i as int) == all);
        sum
    }
}

/// The text of the greatest or least bargain, or `none` where there is
/// no bargain.
fn extreme_text(extreme: Option<i64>, none: &str) -> (s: String)
    ensures
        s@ == extreme_label(extreme, none@),
{
    match extreme {
        Some(amount) => decimal_text(amount as i128),
        None => String::from_str(none),
    }
}

/// The text of the average of the bargains of the won and the lost
/// games, or `none` where there is no bargain.
fn average_text(win_bargains: &Vec<i64>, loss_bargains: &Vec<i64>, none: &str) -> (s: String)
    requires
        win_bargains@.len() + loss_bargains@.len() <= MAX_GAMES,
        forall|i: int| 0 <= i < win_bargains@.len() ==> #[trigger] win_bargains@[i] > i64::MIN,
        forall|i: int| 0 <= i < loss_bargains@.len() ==> #[trigger] loss_bargains@[i] > i64::MIN,
    ensures
        s@ == average_label(
            amount_sum(win_bargains@) + amount_sum(loss_bargains@),
            win_bargains@.len() + loss_bargains@.len(),
            none@,
        ),
{
    let count = win_bargains.len() + loss_bargains.len();
    if count == 0 {
        return String::from_str(none);
    }
    proof {
        lemma_sum_bound(win_bargains@);
        lemma_sum_bound(loss_bargains@);
    }
    let sum = sum_amounts(win_bargains) + sum_amounts(loss_bargains);
    thousandths_text(calc_mean(sum, count as u64))
}

/// Lays down the top of the bargains of a race.
fn write_bargain_head(worksheet: &mut Sheet)
    ensures
        final(worksheet)@.name == old(worksheet)@.name,
        final(worksheet)@.ops == old(worksheet)@.ops + bargain_head_steps(),
{
    worksheet.merge_range(0, 3, 0, 8, "Данные о торгах за фракцию", Style::TextBoldCentered);
    let ghost head = worksheet@.ops;
    let ghost column = |k: int|
        seq![
            width_of((k + 1) as u16, 20, 1),
            text_cell(1, (k + 1) as u16, bargain_column_label(k), Style::ThinBorderTextWrap),
        ];
    let mut k: usize = 0;
    while k < 16
        invariant
            k <= 16,
            worksheet@.name == old(worksheet)@.name,
            worksheet@.ops == head + join_range(k as int, column),
            column == (|k: int|
                seq![
                    width_of((k + 1) as u16, 20, 1),
                    text_cell(1, (k + 1) as u16, bargain_column_label(k), Style::ThinBorderTextWrap),
                ]),
        decreases 16 - k,
    {
        let col: u16 = (k + 1) as u16;
        worksheet.set_column_width(col, 20, 1);
        worksheet.write_text(1, col, bargain_column_name(k), Style::ThinBorderTextWrap);
        assert(worksheet@.ops =~= head + join_range(k + 1, column));
        k = k + 1;
    }
    worksheet.set_column_width(0, 20, 1);
    assert(worksheet@.ops =~= old(worksheet)@.ops + bargain_head_steps());
}

/// Lays down the sixteen cells of a race against an opponent.
fn write_bucket_row(
    data: &OpponentBargains,
    worksheet: &mut Sheet,
    row: u32,
    Ghost(games): Ghost<Seq<GameEntry>>,
    Ghost(race): Ghost<i64>,
    Ghost(opp): Ghost<i64>,
)
    requires
        data.holds(games, race, opp),
        data.wf(),
    ensures
        final(worksheet)@.name == old(worksheet)@.name,
        final(worksheet)@.ops == old(worksheet)@.ops + bucket_row_steps(games, race, opp, row),
{
    let wrap = Style::ThinBorderTextWrap;
    let up_games = data.plus.wins + data.plus.losses;
    let up_rate = winrate_text(calc_winrate(data.plus.wins, up_games), "Не игралось в плюс");
    let up_most = extreme_text(
        get_max_bargain(&data.plus.win_bargains, &data.plus.loss_bargains),
        "Не игралось в плюс",
    );
    worksheet.write_number(row, 1, up_games as i64, wrap);
    worksheet.write_number(row, 4, data.plus.wins as i64, wrap);
    worksheet.write_number(row, 5, data.plus.losses as i64, wrap);
    worksheet.write_text(row, 6, up_rate.as_str(), wrap);
    worksheet.write_text(row, 13, up_most.as_str(), wrap);
    let down_games = data.minus.wins + data.minus.losses;
    let down_rate = winrate_text(calc_winrate(data.minus.wins, down_games), "Не игралось в минус");
    let down_least = extreme_text(
        get_min_bargain(&data.minus.win_bargains, &data.minus.loss_bargains),
        "Не игралось в минус",
    );
    worksheet.write_number(row, 2, down_games as i64, wrap);
    worksheet.write_number(row, 7, data.minus.wins as i64, wrap);
    worksheet.write_number(row, 8, data.minus.losses as i64, wrap);
    worksheet.write_text(row, 9, down_rate.as_str(), wrap);
    worksheet.write_text(row, 14, down_least.as_str(), wrap);
    let level_games = data.none.wins + data.none.losses;
    let level_rate = winrate_text(
        calc_winrate(data.none.wins, level_games),
        "Не игралось без торгов",
    );
    worksheet.write_number(row, 3, level_games as i64, wrap);
    worksheet.write_number(row, 10, data.none.wins as i64, wrap);
    worksheet.write_number(row, 11, data.none.losses as i64, wrap);
    worksheet.write_text(row, 12, level_rate.as_str(), wrap);
    let up_average = average_text(
        &data.plus.win_bargains,
        &data.plus.loss_bargains,
        "Не игралось в плюс",
    );
    let down_average = average_text(
        &data.minus.win_bargains,
        &data.minus.loss_bargains,
        "Не игралось в минус",
    );
    worksheet.write_text(row, 15, up_average.as_str(), wrap);
    worksheet.write_text(row, 16, down_average.as_str(), wrap);
    assert(worksheet@.ops =~= old(worksheet)@.ops + bucket_row_steps(games, race, opp, row));
}

/// Lays down the totals of a race.
fn write_bargain_totals(stats: &RaceBargainsStats, worksheet: &mut Sheet, row: u32)
    requires
        stats.average_bargains@.len() <= MAX_RACES,
        stats@.within(MAX_RACES * MAX_GAMES),
        row <= 1_000,
    ensures
        final(worksheet)@.name == old(worksheet)@.name,
        final(worksheet)@.ops == old(worksheet)@.ops + bargain_totals_steps(stats@, row),
{
    let wrap = Style::ThinBorderTextWrap;
    let ghost label = |k: int| seq![text_cell(row, k as u16, bargain_total_label(k), wrap)];
    let mut k: usize = 0;
    while k < 8
        invariant
            k <= 8,
            worksheet@.name == old(worksheet)@.name,
            worksheet@.ops == old(worksheet)@.ops + join_range(k as int, label),
            label == (|k: int| seq![text_cell(row, k as u16, bargain_total_label(k), wrap)]),
            wrap == Style::ThinBorderTextWrap,
        decreases 8 - k,
    {
        worksheet.write_text(row, k as u16, bargain_total_name(k), wrap);
        assert(worksheet@.ops =~= old(worksheet)@.ops + join_range(k + 1, label));
        k = k + 1;
    }
    let values: u32 = row + 1;
    let opponents = stats.average_bargains.len();
    let grand = if opponents == 0 {
        String::from_str("Нет игр")
    } else {
        let sum = stats.sum_averages();
        thousandths_text(calc_scaled_mean(sum, opponents as u64, 1))
    };
    let wins = stats.total_plus_bargain_wins + stats.total_minus_bargain_wins
        + stats.total_no_bargains_wins;
    let games = stats.total_plus_bargain_games + stats.total_minus_bargain_games
        + stats.total_no_bargains_games;
    let up_rate = winrate_text(
        calc_winrate(stats.total_plus_bargain_wins, stats.total_plus_bargain_games),
        "Не игралось в плюс",
    );
    let down_rate = winrate_text(
        calc_winrate(stats.total_minus_bargain_wins, stats.total_minus_bargain_games),
        "Не игралось в минус",
    );
    let level_rate = winrate_text(
        calc_winrate(stats.total_no_bargains_wins, stats.total_no_bargains_games),
        "Не игралось без торгов",
    );
    let rate = winrate_text(calc_winrate(wins, games), "Нет игр");
    worksheet.write_text(values, 0, grand.as_str(), wrap);
    worksheet.write_number(values, 1, stats.total_plus_bargain_games as i64, wrap);
    worksheet.write_number(values, 2, stats.total_minus_bargain_games as i64, wrap);
    worksheet.write_number(values, 3, stats.total_no_bargains_games as i64, wrap);
    worksheet.write_text(values, 4, up_rate.as_str(), wrap);
    worksheet.write_text(values, 5, down_rate.as_str(), wrap);
    worksheet.write_text(values, 6, level_rate.as_str(), wrap);
    worksheet.write_text(values, 7, rate.as_str(), wrap);
    assert(worksheet@.ops =~= old(worksheet)@.ops + bargain_totals_steps(stats@, row));
}

impl RaceStatsBuilder {
    /// Adds the games of `race` against `opp` to the totals of `race`,
    /// and lays down their sixteen cells in the row `data_row`.
    pub fn build_race_bargains_stats(
        &mut self,
        race: i64,
        opp: i64,
        games_data: &Vec<GameEntry>,
        worksheet: &mut Sheet,
        data_row: u32,
    )
        requires
            old(self).wf(),
            is_race_id(race),
            games_data@.len() <= MAX_GAMES,
            amounts_in_range(games_data@),
            old(self).stats(race).within(u64::MAX - MAX_GAMES),
        ensures
            final(self).wf(),
            final(self).stats(race) == old(self).stats(race).with_opponent(games_data@, race, opp),
            forall|limit: int| #[trigger]
                old(self).stats(race).within(limit) ==> final(self).stats(race).within(
                    limit + MAX_GAMES,
                ),
            forall|other: int|
                0 <= other < RACE_SLOTS && other != race ==> final(self).bargains_data@[other]
                    == old(self).bargains_data@[other],
            final(worksheet)@.name == old(worksheet)@.name,
            final(worksheet)@.ops == old(worksheet)@.ops + bucket_row_steps(
                games_data@,
                race,
                opp,
                data_row,
            ),
    {
        let data = OpponentBargains::collect(games_data, race, opp);
        let average = data.average();
        let slot = race as usize;
        self.bargains_data[slot].total_plus_bargain_games =
            self.bargains_data[slot].total_plus_bargain_games + (data.plus.wins + data.plus.losses);
        self.bargains_data[slot].total_plus_bargain_wins =
            self.bargains_data[slot].total_plus_bargain_wins + data.plus.wins;
        self.bargains_data[slot].total_minus_bargain_games =
            self.bargains_data[slot].total_minus_bargain_games + (data.minus.wins
            + data.minus.losses);
        self.bargains_data[slot].total_minus_bargain_wins =
            self.bargains_data[slot].total_minus_bargain_wins + data.minus.wins;
        self.bargains_data[slot].total_no_bargains_games =
            self.bargains_data[slot].total_no_bargains_games + (data.none.wins + data.none.losses);
        self.bargains_data[slot].total_no_bargains_wins =
            self.bargains_data[slot].total_no_bargains_wins + data.none.wins;
        self.bargains_data[slot].average_bargains.push(average);
        assert(self.stats(race).average_bargains =~= old(self).stats(race).average_bargains.push(
            pair_average(games_data@, race, opp),
        ));
        write_bucket_row(&data, worksheet, data_row, Ghost(games_data@), Ghost(race), Ghost(opp));
    }

    /// Builds the bargains of `race` over its opponents of the list
    /// anew, and lays them down on the sheet of the race.
    pub fn build_bargains_stats(
        &mut self,
        race: i64,
        races_data: &Vec<RaceInfo>,
        games_data: &Vec<GameEntry>,
        worksheet: &mut Sheet,
    )
        requires
            old(self).wf(),
            is_race_id(race),
            games_data@.len() <= MAX_GAMES,
            amounts_in_range(games_data@),
            races_data@.len() <= MAX_RACES,
        ensures
            final(self).wf(),
            final(self).stats(race) == race_bargains(games_data@, races_data@, race),
            forall|other: int|
                0 <= other < RACE_SLOTS && other != race ==> final(self).bargains_data@[other]
                    == old(self).bargains_data@[other],
            final(worksheet)@.name == old(worksheet)@.name,
            final(worksheet)@.ops == old(worksheet)@.ops + bargain_block_steps(
                games_data@,
                races_data@,
                race,
            ),
    {
        let slot = race as usize;
        self.bargains_data[slot] = RaceBargainsStats::new();
        write_bargain_head(worksheet);
        let ghost head = worksheet@.ops;
        let ghost one = |i: int|
            if is_opponent(races_data@[i], race) {
                opponent_row_steps(
                    games_data@,
                    race,
                    races_data@[i],
                    (2 + opponents_before(races_data@, race, i)) as u32,
                )
            } else {
                Seq::empty()
            };
        let mut data_row: u32 = 1;
        let mut i: usize = 0;
        while i < races_data.len()
            invariant
                self.wf(),
                is_race_id(race),
                slot == race,
                games_data@.len() <= MAX_GAMES,
                amounts_in_range(games_data@),
                races_data@.len() <= MAX_RACES,
                i <= races_data@.len(),
                data_row == 1 + opponents_before(races_data@, race, i as int),
                data_row <= 1 + i,
                self.stats(race) == bargains_upto(games_data@, races_data@, race, i as int),
                self.stats(race).within(i * MAX_GAMES),
                self.stats(race).average_bargains.len() <= i,
                forall|other: int|
                    0 <= other < RACE_SLOTS && other != race ==> self.bargains_data@[other] == old(
                        self,
                    ).bargains_data@[other],
                worksheet@.name == old(worksheet)@.name,
                worksheet@.ops == head + join_range(i as int, one),
                one == (|i: int|
                    if is_opponent(races_data@[i], race) {
                        opponent_row_steps(
                            games_data@,
                            race,
                            races_data@[i],
                            (2 + opponents_before(races_data@, race, i)) as u32,
                        )
                    } else {
                        Seq::empty()
                    }),
            decreases races_data@.len() - i,
        {
            let opp = &races_data[i];
            if 1 <= opp.id && opp.id <= 8 && opp.id != race {
                data_row = data_row + 1;
                worksheet.write_text(data_row, 0, opp.name.as_str(), Style::TextBoldCentered);
                self.build_race_bargains_stats(race, opp.id, games_data, worksheet, data_row);
            }
            assert(worksheet@.ops =~= head + join_range(i + 1, one));
            i = i + 1;
        }
        assert(self.bargains_data@[slot as int].average_bargains@.len()
            == self.stats(race).average_bargains.len());
        write_bargain_totals(&self.bargains_data[slot], worksheet, data_row + 2);
        assert(worksheet@.ops =~= old(worksheet)@.ops + bargain_block_steps(
            games_data@,
            races_data@,
            race,
        ));
    }
}

} // verus!
