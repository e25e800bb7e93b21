//! The sheet of the races: the table of pairs, the totals of every race,
//! and the match-ups.
use vstd::prelude::*;
use vstd::string::StrSliceExecFns;
use vstd::string::StringExecFns;
use crate::error::Error;
use crate::games::GameEntry;
use crate::layout::{
    find_first_max, find_first_min, first_max, first_min, join_all, join_upto,
    lemma_join_all_satisfy, lemma_join_contains,
};
use crate::model::{is_race_id, RaceInfo, TournamentStatsModel, MAX_GAMES, MAX_NAME_LEN};
use crate::pair::{
    is_mirror_of, mirror_games, pair_losses, pair_wins, race_lost, race_winrate, race_won,
    row_games, PairStatsBuilder,
};
use crate::rates::{calc_winrate, winrate_of, WinrateType};
use crate::sheet::{
    merged_cell, number_cell, styled_cell, text_cell, width_of, Sheet, SheetOpView, SheetView,
    Style, Workbook,
};
use crate::tally::{lemma_count_bound, lemma_count_split};
use crate::text::{decimal_nat, decimal_text, winrate_label, winrate_text};

verus! {

/// The row of a race in the table of pairs.
pub open spec fn table_row(id: i64) -> u32 {
    (id + 1) as u32
}

/// The first of the two columns of a race in the table of pairs.
pub open spec fn table_col(id: i64) -> u16 {
    (2 * id - 1) as u16
}

/// The length of the longest of the first `n` names.
pub open spec fn widest_name(races: Seq<RaceInfo>, n: int) -> nat
    decreases n,
{
    if n <= 0 {
        0
    } else {
        let before = widest_name(races, n - 1);
        if races[n - 1].name@.len() > before {
            races[n - 1].name@.len()
        } else {
            before
        }
    }
}

/// Every name is short enough for a cell.
pub open spec fn names_fit(races: Seq<RaceInfo>) -> bool {
    forall|i: int| 0 <= i < races.len() ==> (#[trigger] races[i]).name@.len() <= MAX_NAME_LEN
}

/// The length of the longest name.
pub fn longest_name(races: &Vec<RaceInfo>) -> (width: u32)
    requires
        names_fit(races@),
    ensures
        width == widest_name(races@, races@.len() as int),
        width <= MAX_NAME_LEN,
{
    let mut width: u32 = 0;
    let mut i: usize = 0;
    while i < races.len()
        invariant
            i <= races@.len(),
            names_fit(races@),
            width == widest_name(races@, i as int),
            width <= MAX_NAME_LEN,
        decreases races@.len() - i,
    {
        let len = races[i].name.as_str().unicode_len();
        if len > width as usize {
            width = len as u32;
        }
        i = i + 1;
    }
    width
}

/// What the column of `race` shows in the row of `opp`: the games that
/// `opp` won against `race` and those it lost, or, where both are the
/// same race, its mirror games in one merged cell.
pub open spec fn pair_cell_steps(games: Seq<GameEntry>, race: RaceInfo, opp: RaceInfo) -> Seq<
    SheetOpView,
> {
    let row = table_row(opp.id);
    let col = table_col(race.id);
    if !is_race_id(opp.id) {
        Seq::empty()
    } else if race.id != opp.id {
        seq![
            number_cell(row, col, pair_wins(games, opp.id, race.id) as int, Style::ThinBorderTextWrap),
            number_cell(
                row,
                (col + 1) as u16,
                pair_losses(games, opp.id, race.id) as int,
                Style::ThinBorderTextWrap,
            ),
        ]
    } else {
        seq![
            merged_cell(
                row,
                col,
                row,
                (col + 1) as u16,
                decimal_nat(mirror_games(games, race.id)),
                Style::ThinBorderTextWrap,
            ),
        ]
    }
}

/// The head of the two columns of a race, and its name before its row.
pub open spec fn pair_head_steps(width: nat, race: RaceInfo) -> Seq<SheetOpView> {
    let col = table_col(race.id);
    seq![
        text_cell(table_row(race.id), 0, race.name@, Style::ThinBorderTextWrap),
        merged_cell(0, col, 0, (col + 1) as u16, race.name@, Style::ThinBorderTextCenter),
        width_of(col, (2 * width) as u32, 3),
        width_of((col + 1) as u16, (2 * width) as u32, 3),
        text_cell(1, col, "Побед"@, Style::ThinBorderTextCenter),
        text_cell(1, (col + 1) as u16, "Поражений"@, Style::ThinBorderTextCenter),
    ]
}

/// The two columns of a race: their head, then one pair of cells for
/// every race of the list. A list entry that is none of the eight races
/// gets no columns.
pub open spec fn pair_column_steps(
    games: Seq<GameEntry>,
    races: Seq<RaceInfo>,
    width: nat,
    race: RaceInfo,
) -> Seq<SheetOpView> {
    if is_race_id(race.id) {
        pair_head_steps(width, race) + join_all(
            races,
            |opp: RaceInfo| pair_cell_steps(games, race, opp),
        )
    } else {
        Seq::empty()
    }
}

/// The table of pairs: the corner, then the columns of every race.
pub open spec fn pair_table_steps(games: Seq<GameEntry>, races: Seq<RaceInfo>) -> Seq<
    SheetOpView,
> {
    let width = widest_name(races, races.len() as int);
    seq![
        merged_cell(0, 0, 1, 0, "VS"@, Style::BackgroundRed),
        width_of(0, (width + 1) as u32, 1),
    ] + join_all(races, |race: RaceInfo| pair_column_steps(games, races, width, race))
}

/// The table of pairs shows every two different races of the list: in
/// the row of one and the columns of the other stand the games that the
/// one won against the other and the games that it lost.
pub proof fn lemma_table_shows_pair(
    games: Seq<GameEntry>,
    races: Seq<RaceInfo>,
    race: int,
    opp: int,
)
    requires
        0 <= race < races.len(),
        0 <= opp < races.len(),
        is_race_id(races[race].id),
        is_race_id(races[opp].id),
        races[race].id != races[opp].id,
    ensures
        pair_table_steps(games, races).contains(
            number_cell(
                table_row(races[opp].id),
                table_col(races[race].id),
                pair_wins(games, races[opp].id, races[race].id) as int,
                Style::ThinBorderTextWrap,
            ),
        ),
        pair_table_steps(games, races).contains(
            number_cell(
                table_row(races[opp].id),
                (table_col(races[race].id) + 1) as u16,
                pair_losses(games, races[opp].id, races[race].id) as int,
                Style::ThinBorderTextWrap,
            ),
        ),
{
    let n = races.len() as int;
    let width = widest_name(races, n);
    let column = |r: RaceInfo| pair_column_steps(games, races, width, r);
    let cell = |o: RaceInfo| pair_cell_steps(games, races[race], o);
    let wins = number_cell(
        table_row(races[opp].id),
        table_col(races[race].id),
        pair_wins(games, races[opp].id, races[race].id) as int,
        Style::ThinBorderTextWrap,
    );
    let losses = number_cell(
        table_row(races[opp].id),
        (table_col(races[race].id) + 1) as u16,
        pair_losses(games, races[opp].id, races[race].id) as int,
        Style::ThinBorderTextWrap,
    );
    let cells = cell(races[opp]);
    assert(cells[0] == wins && cells[1] == losses);
    assert(cells.contains(wins) && cells.contains(losses));
    lemma_join_contains(races, n, cell, opp, wins);
    lemma_join_contains(races, n, cell, opp, losses);
    let col = column(races[race]);
    let head = pair_head_steps(width, races[race]);
    let i = choose|i: int| 0 <= i < join_upto(races, n, cell).len() && join_upto(races, n, cell)[i] == wins;
    assert(col[head.len() + i] == wins);
    let j = choose|j: int| 0 <= j < join_upto(races, n, cell).len() && join_upto(races, n, cell)[j] == losses;
    assert(col[head.len() + j] == losses);
    assert(col.contains(wins) && col.contains(losses));
    lemma_join_contains(races, n, column, race, wins);
    lemma_join_contains(races, n, column, race, losses);
    let all = join_upto(races, n, column);
    let a = choose|a: int| 0 <= a < all.len() && all[a] == wins;
    assert(pair_table_steps(games, races)[2 + a] == wins);
    let b = choose|b: int| 0 <= b < all.len() && all[b] == losses;
    assert(pair_table_steps(games, races)[2 + b] == losses);
}

impl PairStatsBuilder {
    /// Lays down what the column of `race` shows in the row of `opp`.
    fn write_pair_cell(&self, worksheet: &mut Sheet, race: &RaceInfo, opp: &RaceInfo)
        requires
            self.wf(),
            self.games().len() <= MAX_GAMES,
            is_race_id(race.id),
        ensures
            final(worksheet)@.name == old(worksheet)@.name,
            final(worksheet)@.ops == old(worksheet)@.ops + pair_cell_steps(
                self.games(),
                *race,
                *opp,
            ),
    {
        proof {
            lemma_count_bound(self.games(), |g: GameEntry| race_won(g, opp.id, race.id));
            lemma_count_bound(self.games(), |g: GameEntry| race_lost(g, opp.id, race.id));
            lemma_count_bound(self.games(), |g: GameEntry| is_mirror_of(g, race.id));
        }
        if opp.id < 1 || opp.id > 8 {
            assert(worksheet@.ops =~= old(worksheet)@.ops + pair_cell_steps(
                self.games(),
                *race,
                *opp,
            ));
            return ;
        }
        let row: u32 = (opp.id + 1) as u32;
        let col: u16 = (2 * race.id - 1) as u16;
        if race.id != opp.id {
            let wins = self.wins_against(opp.id, race.id);
            let losses = self.losses_against(opp.id, race.id);
            worksheet.write_number(row, col, wins as i64, Style::ThinBorderTextWrap);
            worksheet.write_number(row, col + 1, losses as i64, Style::ThinBorderTextWrap);
        } else {
            let mirrors = self.mirrors_of(race.id);
            let text = decimal_text(mirrors as i128);
            worksheet.merge_range(row, col, row, col + 1, text.as_str(), Style::ThinBorderTextWrap);
        }
        assert(worksheet@.ops =~= old(worksheet)@.ops + pair_cell_steps(
            self.games(),
            *race,
            *opp,
        ));
    }

    /// Lays down the two columns of the race at `index`.
    fn write_pair_column(
        &self,
        worksheet: &mut Sheet,
        races_data: &Vec<RaceInfo>,
        index: usize,
        width: u32,
    )
        requires
            self.wf(),
            self.games().len() <= MAX_GAMES,
            index < races_data@.len(),
            width <= MAX_NAME_LEN,
        ensures
            final(worksheet)@.name == old(worksheet)@.name,
            final(worksheet)@.ops == old(worksheet)@.ops + pair_column_steps(
                self.games(),
                races_data@,
                width as nat,
                races_data@[index as int],
            ),
    {
        let race = &races_data[index];
        if race.id < 1 || race.id > 8 {
            assert(worksheet@.ops =~= old(worksheet)@.ops + pair_column_steps(
                self.games(),
                races_data@,
                width as nat,
                races_data@[index as int],
            ));
            return ;
        }
        let col: u16 = (2 * race.id - 1) as u16;
        worksheet.write_text((race.id + 1) as u32, 0, race.name.as_str(), Style::ThinBorderTextWrap);
        worksheet.merge_range(0, col, 0, col + 1, race.name.as_str(), Style::ThinBorderTextCenter);
        worksheet.set_column_width(col, 2 * width, 3);
        worksheet.set_column_width(col + 1, 2 * width, 3);
        worksheet.write_text(1, col, "Побед", Style::ThinBorderTextCenter);
        worksheet.write_text(1, col + 1, "Поражений", Style::ThinBorderTextCenter);
        let ghost head = old(worksheet)@.ops + pair_head_steps(width as nat, *race);
        assert(worksheet@.ops =~= head);
        let ghost cell = |opp: RaceInfo| pair_cell_steps(self.games(), *race, opp);
        let mut j: usize = 0;
        while j < races_data.len()
            invariant
                self.wf(),
                self.games().len() <= MAX_GAMES,
                j <= races_data@.len(),
                index < races_data@.len(),
                *race == races_data@[index as int],
                is_race_id(race.id),
                worksheet@.name == old(worksheet)@.name,
                worksheet@.ops == head + join_upto(races_data@, j as int, cell),
                cell == (|opp: RaceInfo| pair_cell_steps(self.games(), *race, opp)),
            decreases races_data@.len() - j,
        {
            self.write_pair_cell(worksheet, race, &races_data[j]);
            assert(worksheet@.ops =~= head + join_upto(races_data@, j + 1, cell));
            j = j + 1;
        }
        assert(worksheet@.ops =~= old(worksheet)@.ops + pair_column_steps(
            self.games(),
            races_data@,
            width as nat,
            races_data@[index as int],
        ));
    }

    /// Counts the games and lays down the table of pairs: for every two
    /// races of the list the games that one won against the other and
    /// those that it lost, and for every race its mirror games.
    pub fn build_pairs_win_loss_stats(
        &mut self,
        races_data: &Vec<RaceInfo>,
        games_data: &Vec<GameEntry>,
        worksheet: &mut Sheet,
    )
        requires
            games_data@.len() <= MAX_GAMES,
            names_fit(races_data@),
        ensures
            final(self).wf(),
            final(self).games() == games_data@,
            final(worksheet)@.name == old(worksheet)@.name,
            final(worksheet)@.ops == old(worksheet)@.ops + pair_table_steps(
                games_data@,
                races_data@,
            ),
    {
        self.tally(games_data);
        let width = longest_name(races_data);
        worksheet.merge_range(0, 0, 1, 0, "VS", Style::BackgroundRed);
        worksheet.set_column_width(0, width + 1, 1);
        let ghost head = worksheet@.ops;
        let ghost column = |race: RaceInfo|
            pair_column_steps(games_data@, races_data@, width as nat, race);
        let mut i: usize = 0;
        while i < races_data.len()
            invariant
                self.wf(),
                self.games() == games_data@,
                games_data@.len() <= MAX_GAMES,
                width <= MAX_NAME_LEN,
                i <= races_data@.len(),
                worksheet@.name == old(worksheet)@.name,
                worksheet@.ops == head + join_upto(races_data@, i as int, column),
                column == (|race: RaceInfo|
                    pair_column_steps(games_data@, races_data@, width as nat, race)),
            decreases races_data@.len() - i,
        {
            self.write_pair_column(worksheet, races_data, i, width);
            assert(worksheet@.ops =~= head + join_upto(races_data@, i + 1, column));
            i = i + 1;
        }
        assert(worksheet@.ops =~= old(worksheet)@.ops + pair_table_steps(
            games_data@,
            races_data@,
        ));
    }
}

/// The column of the totals.
pub const TOTALS_COL: u16 = 17;

/// For every entry of the list of races its total, where it is one of the
/// eight races.
pub open spec fn games_keys(games: Seq<GameEntry>, races: Seq<RaceInfo>) -> Seq<Option<u64>> {
    Seq::new(
        races.len(),
        |i: int|
            if is_race_id(races[i].id) {
                Some(row_games(games, races[i].id) as u64)
            } else {
                None
            },
    )
}

/// For every entry of the list of races its winrate in thousandths of a
/// percent, where it is one of the eight races and has a winrate.
pub open spec fn winrate_keys(games: Seq<GameEntry>, races: Seq<RaceInfo>) -> Seq<Option<u64>> {
    Seq::new(
        races.len(),
        |i: int|
            if is_race_id(races[i].id) {
                match race_winrate(games, races[i].id) {
                    WinrateType::Normal(share) => Some(share as u64),
                    WinrateType::NoGames => None,
                }
            } else {
                None
            },
    )
}

/// The total and the winrate of one race, in its rows.
pub open spec fn total_row_steps(games: Seq<GameEntry>, race: RaceInfo) -> Seq<SheetOpView> {
    if is_race_id(race.id) {
        seq![
            number_cell(
                (1 + race.id) as u32,
                TOTALS_COL,
                row_games(games, race.id) as int,
                Style::ThinBorderTextWrap,
            ),
            text_cell((11 + race.id) as u32, 0, race.name@, Style::ThinBorderTextWrap),
            text_cell(
                (11 + race.id) as u32,
                1,
                winrate_label(race_winrate(games, race.id), "Нет игр"@),
                Style::ThinBorderTextWrap,
            ),
        ]
    } else {
        Seq::empty()
    }
}

/// The step that marks the cell of the chosen race in a column, if one
/// was chosen.
pub open spec fn race_mark(
    choice: Option<int>,
    races: Seq<RaceInfo>,
    base: u32,
    col: u16,
    style: Style,
) -> Seq<SheetOpView> {
    match choice {
        Some(i) => seq![styled_cell((base + races[i].id) as u32, col, style)],
        None => Seq::empty(),
    }
}

/// The totals: every race's games and winrate, with the most played race
/// and the race of the highest winrate in green, the least played and
/// the race of the lowest winrate in red. Among equals the race that
/// comes first in the list is marked.
pub open spec fn totals_steps(games: Seq<GameEntry>, races: Seq<RaceInfo>) -> Seq<SheetOpView> {
    let n = races.len() as int;
    seq![
        text_cell(0, TOTALS_COL, "Всего игр"@, Style::ThinBorderTextCenter),
        styled_cell(1, TOTALS_COL, Style::BackgroundSilver),
        merged_cell(11, 0, 11, 1, "Общий винрейт"@, Style::ThinBorderTextCenter),
    ] + join_all(races, |race: RaceInfo| total_row_steps(games, race)) + race_mark(
        first_max(games_keys(games, races), n),
        races,
        1,
        TOTALS_COL,
        Style::BackgroundGreen,
    ) + race_mark(first_min(games_keys(games, races), n), races, 1, TOTALS_COL, Style::BackgroundRed)
        + race_mark(first_max(winrate_keys(games, races), n), races, 11, 1, Style::BackgroundGreen)
        + race_mark(first_min(winrate_keys(games, races), n), races, 11, 1, Style::BackgroundRed)
}

/// The totals show every race of the list: its games in the column of
/// the totals, and its winrate, or that it has none, beside its name.
pub proof fn lemma_totals_show_race(games: Seq<GameEntry>, races: Seq<RaceInfo>, race: int)
    requires
        0 <= race < races.len(),
        is_race_id(races[race].id),
    ensures
        totals_steps(games, races).contains(
            number_cell(
                (1 + races[race].id) as u32,
                TOTALS_COL,
                row_games(games, races[race].id) as int,
                Style::ThinBorderTextWrap,
            ),
        ),
        totals_steps(games, races).contains(
            text_cell(
                (11 + races[race].id) as u32,
                1,
                winrate_label(race_winrate(games, races[race].id), "Нет игр"@),
                Style::ThinBorderTextWrap,
            ),
        ),
{
    let n = races.len() as int;
    let row = |r: RaceInfo| total_row_steps(games, r);
    let total = number_cell(
        (1 + races[race].id) as u32,
        TOTALS_COL,
        row_games(games, races[race].id) as int,
        Style::ThinBorderTextWrap,
    );
    let rate = text_cell(
        (11 + races[race].id) as u32,
        1,
        winrate_label(race_winrate(games, races[race].id), "Нет игр"@),
        Style::ThinBorderTextWrap,
    );
    let cells = row(races[race]);
    assert(cells[0] == total && cells[2] == rate);
    assert(cells.contains(total) && cells.contains(rate));
    lemma_join_contains(races, n, row, race, total);
    lemma_join_contains(races, n, row, race, rate);
    let rows = join_upto(races, n, row);
    let a = choose|a: int| 0 <= a < rows.len() && rows[a] == total;
    assert(totals_steps(games, races)[3 + a] == total);
    let b = choose|b: int| 0 <= b < rows.len() && rows[b] == rate;
    assert(totals_steps(games, races)[3 + b] == rate);
}

/// Two races and the games they played with a winner.
pub struct PairCount {
    pub race: i64,
    pub opp: i64,
    pub games: u64,
}

/// The pair of `race` and `opp` with its games, where the two are
/// different races; nothing otherwise.
pub open spec fn pair_entry(games: Seq<GameEntry>, race: RaceInfo, opp: RaceInfo) -> Seq<
    PairCount,
> {
    if is_race_id(race.id) && is_race_id(opp.id) && race.id != opp.id {
        seq![
            PairCount {
                race: race.id,
                opp: opp.id,
                games: (pair_wins(games, race.id, opp.id) + pair_losses(games, race.id, opp.id))
                    as u64,
            },
        ]
    } else {
        Seq::empty()
    }
}

/// The pairs that one race makes with the races of the list, itself and
/// what is no race left out.
pub open spec fn pair_counts_of(games: Seq<GameEntry>, races: Seq<RaceInfo>, race: RaceInfo) -> Seq<
    PairCount,
> {
    join_all(races, |opp: RaceInfo| pair_entry(games, race, opp))
}

/// All ordered pairs of different races of the list, in the list's
/// order, with their games.
pub open spec fn pair_counts(games: Seq<GameEntry>, races: Seq<RaceInfo>) -> Seq<PairCount> {
    join_all(races, |race: RaceInfo| pair_counts_of(games, races, race))
}

/// The games of each pair, as keys.
pub open spec fn pair_keys(pairs: Seq<PairCount>) -> Seq<Option<u64>> {
    Seq::new(pairs.len(), |i: int| Some(pairs[i].games))
}

/// What the row of `race` shows in the column of `opp`: the games of the
/// two with a winner and the winrate of `race` in them; black where both
/// are the same race.
pub open spec fn matchup_cell_steps(games: Seq<GameEntry>, race: RaceInfo, opp: RaceInfo) -> Seq<
    SheetOpView,
> {
    let games_row = (23 + race.id) as u32;
    let winrate_row = (35 + race.id) as u32;
    let col = opp.id as u16;
    let wins = pair_wins(games, race.id, opp.id);
    let losses = pair_losses(games, race.id, opp.id);
    if !is_race_id(opp.id) {
        Seq::empty()
    } else if race.id == opp.id {
        seq![
            styled_cell(games_row, col, Style::BackgroundBlack),
            styled_cell(winrate_row, col, Style::BackgroundBlack),
        ]
    } else {
        seq![
            number_cell(games_row, col, (wins + losses) as int, Style::ThinBorderTextWrap),
            text_cell(
                winrate_row,
                col,
                winrate_label(winrate_of(wins, wins + losses), "Нет игр"@),
                Style::ThinBorderTextWrap,
            ),
        ]
    }
}

/// The names of a race beside and above the two match-up tables.
pub open spec fn matchup_head_steps(race: RaceInfo) -> Seq<SheetOpView> {
    seq![
        text_cell((23 + race.id) as u32, 0, race.name@, Style::ThinBorderTextWrap),
        text_cell(23, race.id as u16, race.name@, Style::ThinBorderTextWrap),
        text_cell((35 + race.id) as u32, 0, race.name@, Style::ThinBorderTextWrap),
        text_cell(35, race.id as u16, race.name@, Style::ThinBorderTextWrap),
    ]
}

/// The rows of one race in the two match-up tables.
pub open spec fn matchup_row_steps(games: Seq<GameEntry>, races: Seq<RaceInfo>, race: RaceInfo) -> Seq<
    SheetOpView,
> {
    if is_race_id(race.id) {
        matchup_head_steps(race) + join_all(
            races,
            |opp: RaceInfo| matchup_cell_steps(games, race, opp),
        )
    } else {
        Seq::empty()
    }
}

/// The steps that mark the two cells of the chosen pair, if one was
/// chosen.
pub open spec fn pair_mark(choice: Option<int>, pairs: Seq<PairCount>, style: Style) -> Seq<
    SheetOpView,
> {
    match choice {
        Some(i) => seq![
            styled_cell((23 + pairs[i].opp) as u32, pairs[i].race as u16, style),
            styled_cell((23 + pairs[i].race) as u32, pairs[i].opp as u16, style),
        ],
        None => Seq::empty(),
    }
}

/// The two match-up tables: games and winrates of every two races, with
/// the most played pair in green and the least played in red. Among
/// equals the pair that comes first, row by row, is marked.
pub open spec fn matchup_steps(games: Seq<GameEntry>, races: Seq<RaceInfo>) -> Seq<SheetOpView> {
    let pairs = pair_counts(games, races);
    let keys = pair_keys(pairs);
    seq![
        merged_cell(21, 3, 21, 6, "Число игр по матчапам"@, Style::TextBoldBare),
        merged_cell(33, 3, 33, 6, "Винрейты матчапов"@, Style::TextBoldBare),
    ] + join_all(races, |race: RaceInfo| matchup_row_steps(games, races, race)) + pair_mark(
        first_max(keys, keys.len() as int),
        pairs,
        Style::BackgroundGreen,
    ) + pair_mark(first_min(keys, keys.len() as int), pairs, Style::BackgroundRed)
}

/// The whole sheet of the races: the table of pairs, the totals, and the
/// match-up tables.
pub open spec fn pair_sheet_steps(games: Seq<GameEntry>, races: Seq<RaceInfo>) -> Seq<
    SheetOpView,
> {
    pair_table_steps(games, races) + totals_steps(games, races) + matchup_steps(games, races)
}

/// The name of the sheet of the races.
pub open spec fn pair_sheet_name() -> Seq<char> {
    "Общая статистика по расам"@
}

impl PairStatsBuilder {
    /// The keys by which the most and the least played race are chosen.
    fn collect_games_keys(&self, races_data: &Vec<RaceInfo>) -> (keys: Vec<Option<u64>>)
        requires
            self.wf(),
        ensures
            keys@ == games_keys(self.games(), races_data@),
    {
        let mut keys: Vec<Option<u64>> = Vec::new();
        let mut i: usize = 0;
        while i < races_data.len()
            invariant
                self.wf(),
                i <= races_data@.len(),
                keys@.len() == i,
                forall|k: int|
                    0 <= k < i ==> #[trigger] keys@[k] == games_keys(self.games(), races_data@)[k],
            decreases races_data@.len() - i,
        {
            let id = races_data[i].id;
            if 1 <= id && id <= 8 {
                keys.push(Some(self.total_games(id)));
            } else {
                keys.push(None);
            }
            i = i + 1;
        }
        assert(keys@ =~= games_keys(self.games(), races_data@));
        keys
    }

    /// The keys by which the races of the highest and of the lowest
    /// winrate are chosen.
    fn collect_winrate_keys(&self, races_data: &Vec<RaceInfo>) -> (keys: Vec<Option<u64>>)
        requires
            self.wf(),
        ensures
            keys@ == winrate_keys(self.games(), races_data@),
    {
        let mut keys: Vec<Option<u64>> = Vec::new();
        let mut i: usize = 0;
        while i < races_data.len()
            invariant
                self.wf(),
                i <= races_data@.len(),
                keys@.len() == i,
                forall|k: int|
                    0 <= k < i ==> #[trigger] keys@[k] == winrate_keys(
                        self.games(),
                        races_data@,
                    )[k],
            decreases races_data@.len() - i,
        {
            let id = races_data[i].id;
            if 1 <= id && id <= 8 {
                match self.winrate(id) {
                    WinrateType::Normal(share) => {
                        keys.push(Some(share as u64));
                    },
                    WinrateType::NoGames => {
                        keys.push(None);
                    },
                }
            } else {
                keys.push(None);
            }
            i = i + 1;
        }
        assert(keys@ =~= winrate_keys(self.games(), races_data@));
        keys
    }

    /// Marks the cell of the chosen race in a column.
    fn write_race_mark(
        worksheet: &mut Sheet,
        choice: Option<usize>,
        races_data: &Vec<RaceInfo>,
        base: u32,
        col: u16,
        style: Style,
        Ghost(picked): Ghost<Option<int>>,
    )
        requires
            base <= 11,
            choice is Some <==> picked is Some,
            choice matches Some(i) ==> picked == Some(i as int) && i < races_data@.len()
                && is_race_id(races_data@[i as int].id),
        ensures
            final(worksheet)@.name == old(worksheet)@.name,
            final(worksheet)@.ops == old(worksheet)@.ops + race_mark(
                picked,
                races_data@,
                base,
                col,
                style,
            ),
    {
        match choice {
            Some(i) => {
                let id = races_data[i].id;
                worksheet.set_cell_format(base + (id as u32), col, style);
            },
            None => {},
        }
        assert(worksheet@.ops =~= old(worksheet)@.ops + race_mark(
            picked,
            races_data@,
            base,
            col,
            style,
        ));
    }

    /// Lays down the total and the winrate of one race.
    fn write_total_row(&self, worksheet: &mut Sheet, race: &RaceInfo)
        requires
            self.wf(),
            self.games().len() <= MAX_GAMES,
        ensures
            final(worksheet)@.name == old(worksheet)@.name,
            final(worksheet)@.ops == old(worksheet)@.ops + total_row_steps(self.games(), *race),
    {
        if 1 <= race.id && race.id <= 8 {
            let total = self.total_games(race.id);
            let rate = winrate_text(self.winrate(race.id), "Нет игр");
            worksheet.write_number(
                (1 + race.id) as u32,
                TOTALS_COL,
                total as i64,
                Style::ThinBorderTextWrap,
            );
            worksheet.write_text(
                (11 + race.id) as u32,
                0,
                race.name.as_str(),
                Style::ThinBorderTextWrap,
            );
            worksheet.write_text((11 + race.id) as u32, 1, rate.as_str(), Style::ThinBorderTextWrap);
        }
        assert(worksheet@.ops =~= old(worksheet)@.ops + total_row_steps(self.games(), *race));
    }

    /// Marks the most and the least played race and the races of the
    /// highest and the lowest winrate.
    fn write_total_marks(&self, races_data: &Vec<RaceInfo>, worksheet: &mut Sheet)
        requires
            self.wf(),
        ensures
            final(worksheet)@.name == old(worksheet)@.name,
            final(worksheet)@.ops == old(worksheet)@.ops + race_mark(
                first_max(games_keys(self.games(), races_data@), races_data@.len() as int),
                races_data@,
                1,
                TOTALS_COL,
                Style::BackgroundGreen,
            ) + race_mark(
                first_min(games_keys(self.games(), races_data@), races_data@.len() as int),
                races_data@,
                1,
                TOTALS_COL,
                Style::BackgroundRed,
            ) + race_mark(
                first_max(winrate_keys(self.games(), races_data@), races_data@.len() as int),
                races_data@,
                11,
                1,
                Style::BackgroundGreen,
            ) + race_mark(
                first_min(winrate_keys(self.games(), races_data@), races_data@.len() as int),
                races_data@,
                11,
                1,
                Style::BackgroundRed,
            ),
    {
        let by_games = self.collect_games_keys(races_data);
        let by_winrate = self.collect_winrate_keys(races_data);
        let most_played = find_first_max(&by_games);
        let least_played = find_first_min(&by_games);
        let best = find_first_max(&by_winrate);
        let worst = find_first_min(&by_winrate);
        let ghost n = races_data@.len() as int;
        Self::write_race_mark(
            worksheet,
            most_played,
            races_data,
            1,
            TOTALS_COL,
            Style::BackgroundGreen,
            Ghost(first_max(by_games@, n)),
        );
        Self::write_race_mark(
            worksheet,
            least_played,
            races_data,
            1,
            TOTALS_COL,
            Style::BackgroundRed,
            Ghost(first_min(by_games@, n)),
        );
        Self::write_race_mark(
            worksheet,
            best,
            races_data,
            11,
            1,
            Style::BackgroundGreen,
            Ghost(first_max(by_winrate@, n)),
        );
        Self::write_race_mark(
            worksheet,
            worst,
            races_data,
            11,
            1,
            Style::BackgroundRed,
            Ghost(first_min(by_winrate@, n)),
        );
    }

    /// Lays down the totals of the races of the list, from tables that
    /// have been counted.
    pub fn build_total_games_and_winrates(&self, races_data: &Vec<RaceInfo>, worksheet: &mut Sheet)
        requires
            self.wf(),
            self.games().len() <= MAX_GAMES,
        ensures
            final(worksheet)@.name == old(worksheet)@.name,
            final(worksheet)@.ops == old(worksheet)@.ops + totals_steps(self.games(), races_data@),
    {
        worksheet.write_text(0, TOTALS_COL, "Всего игр", Style::ThinBorderTextCenter);
        worksheet.set_cell_format(1, TOTALS_COL, Style::BackgroundSilver);
        worksheet.merge_range(11, 0, 11, 1, "Общий винрейт", Style::ThinBorderTextCenter);
        let ghost head = worksheet@.ops;
        let ghost row = |race: RaceInfo| total_row_steps(self.games(), race);
        let mut i: usize = 0;
        while i < races_data.len()
            invariant
                self.wf(),
                self.games().len() <= MAX_GAMES,
                i <= races_data@.len(),
                worksheet@.name == old(worksheet)@.name,
                worksheet@.ops == head + join_upto(races_data@, i as int, row),
                row == (|race: RaceInfo| total_row_steps(self.games(), race)),
            decreases races_data@.len() - i,
        {
            self.write_total_row(worksheet, &races_data[i]);
            assert(worksheet@.ops =~= head + join_upto(races_data@, i + 1, row));
            i = i + 1;
        }
        self.write_total_marks(races_data, worksheet);
        assert(worksheet@.ops =~= old(worksheet)@.ops + totals_steps(self.games(), races_data@));
    }
}

impl PairStatsBuilder {
    /// The pairs that the race at `index` makes with the races of the
    /// list, added to `pairs`.
    fn collect_pairs_of(&self, races_data: &Vec<RaceInfo>, index: usize, pairs: &mut Vec<PairCount>)
        requires
            self.wf(),
            self.games().len() <= MAX_GAMES,
            index < races_data@.len(),
        ensures
            final(pairs)@ == old(pairs)@ + pair_counts_of(
                self.games(),
                races_data@,
                races_data@[index as int],
            ),
    {
        let race = &races_data[index];
        let ghost one = |opp: RaceInfo| pair_entry(self.games(), *race, opp);
        let mut j: usize = 0;
        while j < races_data.len()
            invariant
                self.wf(),
                self.games().len() <= MAX_GAMES,
                j <= races_data@.len(),
                index < races_data@.len(),
                *race == races_data@[index as int],
                pairs@ == old(pairs)@ + join_upto(races_data@, j as int, one),
                one == (|opp: RaceInfo| pair_entry(self.games(), *race, opp)),
            decreases races_data@.len() - j,
        {
            let opp = &races_data[j];
            if 1 <= race.id && race.id <= 8 && 1 <= opp.id && opp.id <= 8 && race.id != opp.id {
                proof {
                    lemma_pair_bound(self.games(), race.id, opp.id);
                }
                let games = self.wins_against(race.id, opp.id) + self.losses_against(
                    race.id,
                    opp.id,
                );
                pairs.push(PairCount { race: race.id, opp: opp.id, games });
            }
            assert(pairs@ =~= old(pairs)@ + join_upto(races_data@, j + 1, one));
            j = j + 1;
        }
    }

    /// All ordered pairs of different races of the list with their games.
    fn collect_pairs(&self, races_data: &Vec<RaceInfo>) -> (pairs: Vec<PairCount>)
        requires
            self.wf(),
            self.games().len() <= MAX_GAMES,
        ensures
            pairs@ == pair_counts(self.games(), races_data@),
    {
        let mut pairs: Vec<PairCount> = Vec::new();
        let ghost row = |race: RaceInfo| pair_counts_of(self.games(), races_data@, race);
        let mut i: usize = 0;
        while i < races_data.len()
            invariant
                self.wf(),
                self.games().len() <= MAX_GAMES,
                i <= races_data@.len(),
                pairs@ == join_upto(races_data@, i as int, row),
                row == (|race: RaceInfo| pair_counts_of(self.games(), races_data@, race)),
            decreases races_data@.len() - i,
        {
            self.collect_pairs_of(races_data, i, &mut pairs);
            assert(pairs@ =~= join_upto(races_data@, i + 1, row));
            i = i + 1;
        }
        pairs
    }

    /// Lays down what the row of `race` shows in the column of `opp`.
    fn write_matchup_cell(&self, worksheet: &mut Sheet, race: &RaceInfo, opp: &RaceInfo)
        requires
            self.wf(),
            self.games().len() <= MAX_GAMES,
            is_race_id(race.id),
        ensures
            final(worksheet)@.name == old(worksheet)@.name,
            final(worksheet)@.ops == old(worksheet)@.ops + matchup_cell_steps(
                self.games(),
                *race,
                *opp,
            ),
    {
        if 1 <= opp.id && opp.id <= 8 {
            let games_row: u32 = (23 + race.id) as u32;
            let winrate_row: u32 = (35 + race.id) as u32;
            let col: u16 = opp.id as u16;
            if race.id == opp.id {
                worksheet.set_cell_format(games_row, col, Style::BackgroundBlack);
                worksheet.set_cell_format(winrate_row, col, Style::BackgroundBlack);
            } else {
                proof {
                    lemma_pair_bound(self.games(), race.id, opp.id);
                }
                let wins = self.wins_against(race.id, opp.id);
                let losses = self.losses_against(race.id, opp.id);
                let rate = winrate_text(calc_winrate(wins, wins + losses), "Нет игр");
                worksheet.write_number(
                    games_row,
                    col,
                    (wins + losses) as i64,
                    Style::ThinBorderTextWrap,
                );
                worksheet.write_text(winrate_row, col, rate.as_str(), Style::ThinBorderTextWrap);
            }
        }
        assert(worksheet@.ops =~= old(worksheet)@.ops + matchup_cell_steps(
            self.games(),
            *race,
            *opp,
        ));
    }

    /// Lays down the rows of the race at `index` in the two match-up
    /// tables.
    fn write_matchup_row(&self, worksheet: &mut Sheet, races_data: &Vec<RaceInfo>, index: usize)
        requires
            self.wf(),
            self.games().len() <= MAX_GAMES,
            index < races_data@.len(),
        ensures
            final(worksheet)@.name == old(worksheet)@.name,
            final(worksheet)@.ops == old(worksheet)@.ops + matchup_row_steps(
                self.games(),
                races_data@,
                races_data@[index as int],
            ),
    {
        let race = &races_data[index];
        if race.id < 1 || race.id > 8 {
            assert(worksheet@.ops =~= old(worksheet)@.ops + matchup_row_steps(
                self.games(),
                races_data@,
                races_data@[index as int],
            ));
            return ;
        }
        let name = race.name.as_str();
        worksheet.write_text((23 + race.id) as u32, 0, name, Style::ThinBorderTextWrap);
        worksheet.write_text(23, race.id as u16, name, Style::ThinBorderTextWrap);
        worksheet.write_text((35 + race.id) as u32, 0, name, Style::ThinBorderTextWrap);
        worksheet.write_text(35, race.id as u16, name, Style::ThinBorderTextWrap);
        let ghost head = old(worksheet)@.ops + matchup_head_steps(*race);
        assert(worksheet@.ops =~= head);
        let ghost cell = |opp: RaceInfo| matchup_cell_steps(self.games(), *race, opp);
        let mut j: usize = 0;
        while j < races_data.len()
            invariant
                self.wf(),
                self.games().len() <= MAX_GAMES,
                j <= races_data@.len(),
                index < races_data@.len(),
                *race == races_data@[index as int],
                is_race_id(race.id),
                worksheet@.name == old(worksheet)@.name,
                worksheet@.ops == head + join_upto(races_data@, j as int, cell),
                cell == (|opp: RaceInfo| matchup_cell_steps(self.games(), *race, opp)),
            decreases races_data@.len() - j,
        {
            self.write_matchup_cell(worksheet, race, &races_data[j]);
            assert(worksheet@.ops =~= head + join_upto(races_data@, j + 1, cell));
            j = j + 1;
        }
        assert(worksheet@.ops =~= old(worksheet)@.ops + matchup_row_steps(
            self.games(),
            races_data@,
            races_data@[index as int],
        ));
    }

    /// Marks the two cells of the chosen pair.
    fn write_pair_mark(
        worksheet: &mut Sheet,
        choice: Option<usize>,
        pairs: &Vec<PairCount>,
        style: Style,
        Ghost(picked): Ghost<Option<int>>,
    )
        requires
            choice is Some <==> picked is Some,
            choice matches Some(i) ==> picked == Some(i as int) && i < pairs@.len(),
            forall|i: int| 0 <= i < pairs@.len() ==> is_race_pair(#[trigger] pairs@[i]),
        ensures
            final(worksheet)@.name == old(worksheet)@.name,
            final(worksheet)@.ops == old(worksheet)@.ops + pair_mark(picked, pairs@, style),
    {
        match choice {
            Some(i) => {
                let race = pairs[i].race;
                let opp = pairs[i].opp;
                worksheet.set_cell_format((23 + opp) as u32, race as u16, style);
                worksheet.set_cell_format((23 + race) as u32, opp as u16, style);
            },
            None => {},
        }
        assert(worksheet@.ops =~= old(worksheet)@.ops + pair_mark(picked, pairs@, style));
    }

    /// Marks the most and the least played pair.
    fn write_matchup_marks(&self, races_data: &Vec<RaceInfo>, worksheet: &mut Sheet)
        requires
            self.wf(),
            self.games().len() <= MAX_GAMES,
        ensures
            final(worksheet)@.name == old(worksheet)@.name,
            final(worksheet)@.ops == old(worksheet)@.ops + pair_mark(
                first_max(
                    pair_keys(pair_counts(self.games(), races_data@)),
                    pair_counts(self.games(), races_data@).len() as int,
                ),
                pair_counts(self.games(), races_data@),
                Style::BackgroundGreen,
            ) + pair_mark(
                first_min(
                    pair_keys(pair_counts(self.games(), races_data@)),
                    pair_counts(self.games(), races_data@).len() as int,
                ),
                pair_counts(self.games(), races_data@),
                Style::BackgroundRed,
            ),
    {
        let pairs = self.collect_pairs(races_data);
        proof {
            lemma_pairs_are_races(self.games(), races_data@);
        }
        let mut keys: Vec<Option<u64>> = Vec::new();
        let mut i: usize = 0;
        while i < pairs.len()
            invariant
                i <= pairs@.len(),
                keys@.len() == i,
                forall|k: int| 0 <= k < i ==> #[trigger] keys@[k] == Some(pairs@[k].games),
            decreases pairs@.len() - i,
        {
            keys.push(Some(pairs[i].games));
            i = i + 1;
        }
        assert(keys@ =~= pair_keys(pairs@));
        let most = find_first_max(&keys);
        let least = find_first_min(&keys);
        let ghost n = keys@.len() as int;
        Self::write_pair_mark(
            worksheet,
            most,
            &pairs,
            Style::BackgroundGreen,
            Ghost(first_max(keys@, n)),
        );
        Self::write_pair_mark(
            worksheet,
            least,
            &pairs,
            Style::BackgroundRed,
            Ghost(first_min(keys@, n)),
        );
    }

    /// Lays down the two match-up tables of the races of the list, from
    /// tables that have been counted.
    pub fn build_match_ups_games_and_winrates(
        &self,
        races_data: &Vec<RaceInfo>,
        worksheet: &mut Sheet,
    )
        requires
            self.wf(),
            self.games().len() <= MAX_GAMES,
        ensures
            final(worksheet)@.name == old(worksheet)@.name,
            final(worksheet)@.ops == old(worksheet)@.ops + matchup_steps(self.games(), races_data@),
    {
        worksheet.merge_range(21, 3, 21, 6, "Число игр по матчапам", Style::TextBoldBare);
        worksheet.merge_range(33, 3, 33, 6, "Винрейты матчапов", Style::TextBoldBare);
        let ghost head = worksheet@.ops;
        let ghost row = |race: RaceInfo| matchup_row_steps(self.games(), races_data@, race);
        let mut i: usize = 0;
        while i < races_data.len()
            invariant
                self.wf(),
                self.games().len() <= MAX_GAMES,
                i <= races_data@.len(),
                worksheet@.name == old(worksheet)@.name,
                worksheet@.ops == head + join_upto(races_data@, i as int, row),
                row == (|race: RaceInfo| matchup_row_steps(self.games(), races_data@, race)),
            decreases races_data@.len() - i,
        {
            self.write_matchup_row(worksheet, races_data, i);
            assert(worksheet@.ops =~= head + join_upto(races_data@, i + 1, row));
            i = i + 1;
        }
        self.write_matchup_marks(races_data, worksheet);
        assert(worksheet@.ops =~= old(worksheet)@.ops + matchup_steps(self.games(), races_data@));
    }

    /// Counts the games of the model and adds the sheet of the races to
    /// the workbook. A model that is refused gives its refusal and
    /// changes nothing.
    pub fn build(&mut self, model: &TournamentStatsModel, workbook: &mut Workbook) -> (res: Result<
        (),
        Error,
    >)
        ensures
            res is Ok <==> model.refusal() is None,
            res is Ok ==> final(self).wf() && final(self).games() == model.games@,
            res is Ok ==> final(workbook)@ == old(workbook)@.push(
                SheetView {
                    name: pair_sheet_name(),
                    ops: pair_sheet_steps(model.games@, model.races@),
                },
            ),
            res matches Err(e) ==> model.refusal() == Some(e) && *final(self) == *old(self)
                && *final(workbook) == *old(workbook),
    {
        match model.check() {
            Ok(()) => {},
            Err(e) => {
                return Err(e);
            },
        }
        let mut worksheet = Sheet::new(String::from_str("Общая статистика по расам"));
        self.build_pairs_win_loss_stats(&model.races, &model.games, &mut worksheet);
        self.build_total_games_and_winrates(&model.races, &mut worksheet);
        self.build_match_ups_games_and_winrates(&model.races, &mut worksheet);
        assert(worksheet@.ops =~= pair_sheet_steps(model.games@, model.races@));
        workbook.push_worksheet(worksheet);
        Ok(())
    }
}

/// Two races played no more games than there are.
pub proof fn lemma_pair_bound(games: Seq<GameEntry>, race: i64, opp: i64)
    ensures
        pair_wins(games, race, opp) + pair_losses(games, race, opp) <= games.len(),
{
    let won = |g: GameEntry| race_won(g, race, opp);
    let lost = |g: GameEntry| race_lost(g, race, opp);
    let either = |g: GameEntry| race_won(g, race, opp) || race_lost(g, race, opp);
    if race != opp {
        lemma_count_split(games, won, lost, either);
        lemma_count_bound(games, either);
    }
}

/// Whether a pair is made of two of the eight races.
pub open spec fn is_race_pair(pair: PairCount) -> bool {
    is_race_id(pair.race) && is_race_id(pair.opp)
}

/// Every pair of the list of pairs is made of two of the eight races.
pub proof fn lemma_pairs_are_races(games: Seq<GameEntry>, races: Seq<RaceInfo>)
    ensures
        forall|i: int|
            0 <= i < pair_counts(games, races).len() ==> is_race_pair(
                #[trigger] pair_counts(games, races)[i],
            ),
{
    let row = |race: RaceInfo| pair_counts_of(games, races, race);
    let ok = |pair: PairCount| is_race_pair(pair);
    assert forall|k: int, j: int| 0 <= k < races.len() && 0 <= j < row(races[k]).len() implies ok(
        #[trigger] row(races[k])[j],
    ) by {
        let one = |opp: RaceInfo| pair_entry(games, races[k], opp);
        lemma_join_all_satisfy(races, races.len() as int, one, ok);
    }
    lemma_join_all_satisfy(races, races.len() as int, row, ok);
}

} // verus!
