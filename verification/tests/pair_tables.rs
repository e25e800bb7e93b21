use tournament_stats::error::Error;
use tournament_stats::games::{GameEntry, GameOutcome, GameResult};
use tournament_stats::layout::{find_first_max, find_first_min};
use tournament_stats::model::{LookupPolicy, RaceInfo, TournamentStatsModel};
use tournament_stats::pair::{calc_games, PairStatsBuilder};
use tournament_stats::pair_sheet::longest_name;
use tournament_stats::rates::WinrateType;
use tournament_stats::sheet::{CellValue, Sheet, SheetOp, Style, Workbook};

fn game(first: i64, second: i64, result: GameResult) -> GameEntry {
    GameEntry {
        match_id: 1,
        first_player_race: first,
        first_player_hero: 10 * first,
        second_player_race: second,
        second_player_hero: 10 * second,
        bargains_amount: None,
        bargains_color: None,
        result,
        outcome: GameOutcome::FinalBattleVictory,
    }
}

fn three_games() -> Vec<GameEntry> {
    vec![
        game(1, 2, GameResult::FirstPlayerWon),
        game(2, 1, GameResult::FirstPlayerWon),
        game(1, 1, GameResult::FirstPlayerWon),
    ]
}

fn cell(sheet: &Sheet, at_row: u32, at_col: u16) -> Option<(CellValue, Style)> {
    let mut found = None;
    for op in &sheet.ops {
        if let SheetOp::Write { row, col, value, style } = op {
            if *row == at_row && *col == at_col {
                found = Some((value.clone(), *style));
            }
        }
    }
    found
}

fn text(sheet: &Sheet, row: u32, col: u16) -> String {
    match cell(sheet, row, col) {
        Some((CellValue::Text(text), _)) => text,
        other => panic!("no text at {} {}: {:?}", row, col, other),
    }
}

fn number(sheet: &Sheet, row: u32, col: u16) -> i64 {
    match cell(sheet, row, col) {
        Some((CellValue::Number(n), _)) => n,
        other => panic!("no number at {} {}: {:?}", row, col, other),
    }
}

fn merged(sheet: &Sheet, row: u32, col: u16) -> Option<(u32, u16, String, Style)> {
    for op in &sheet.ops {
        if let SheetOp::Merge { first_row, first_col, last_row, last_col, text, style } = op {
            if *first_row == row && *first_col == col {
                return Some((*last_row, *last_col, text.clone(), *style));
            }
        }
    }
    None
}

fn marks(sheet: &Sheet, at_row: u32, at_col: u16) -> Vec<Style> {
    let mut found = Vec::new();
    for op in &sheet.ops {
        if let SheetOp::CellFormat { row, col, style } = op {
            if *row == at_row && *col == at_col {
                found.push(*style);
            }
        }
    }
    found
}

fn model_of(games: Vec<GameEntry>) -> TournamentStatsModel {
    let mut model = TournamentStatsModel::default();
    model.games = games;
    model
}

#[test]
fn new_tables_are_empty() {
    let builder = PairStatsBuilder::new();
    for race in 0..9 {
        assert_eq!(builder.mirrors_of(race), 0);
        assert_eq!(builder.total_games(race), 0);
        assert_eq!(builder.winrate(race), WinrateType::NoGames);
        for opp in 0..9 {
            assert_eq!(builder.wins_against(race, opp), 0);
            assert_eq!(builder.losses_against(race, opp), 0);
        }
    }
}

#[test]
fn three_games_of_two_races() {
    let mut builder = PairStatsBuilder::new();
    builder.tally(&three_games());
    assert_eq!(builder.wins_against(1, 2), 1);
    assert_eq!(builder.losses_against(1, 2), 1);
    assert_eq!(builder.mirrors_of(1), 1);
    assert_eq!(builder.total_games(1), 3);
    assert_eq!(builder.winrate(1), WinrateType::Normal(50_000));
}

#[test]
fn wins_of_one_are_losses_of_the_other() {
    let games = vec![
        game(1, 2, GameResult::FirstPlayerWon),
        game(1, 2, GameResult::SecondPlayerWon),
        game(2, 1, GameResult::SecondPlayerWon),
        game(3, 1, GameResult::FirstPlayerWon),
        game(8, 5, GameResult::FirstPlayerWon),
        game(5, 8, GameResult::FirstPlayerWon),
        game(5, 8, GameResult::FirstPlayerWon),
        game(4, 4, GameResult::SecondPlayerWon),
        game(6, 7, GameResult::NotSelected),
    ];
    let mut builder = PairStatsBuilder::new();
    builder.tally(&games);
    for race in 0..9 {
        for opp in 0..9 {
            assert_eq!(builder.wins_against(race, opp), builder.losses_against(opp, race));
        }
    }
    assert_eq!(builder.wins_against(1, 2), 2);
    assert_eq!(builder.wins_against(2, 1), 1);
    assert_eq!(builder.wins_against(3, 1), 1);
    assert_eq!(builder.wins_against(5, 8), 2);
    assert_eq!(builder.wins_against(8, 5), 1);
    assert_eq!(builder.wins_against(6, 7), 0);
    assert_eq!(builder.losses_against(6, 7), 0);
}

#[test]
fn total_of_a_race_is_the_number_of_its_games() {
    let games = vec![
        game(1, 2, GameResult::FirstPlayerWon),
        game(1, 2, GameResult::SecondPlayerWon),
        game(2, 1, GameResult::SecondPlayerWon),
        game(3, 1, GameResult::FirstPlayerWon),
        game(1, 1, GameResult::SecondPlayerWon),
        game(1, 1, GameResult::NotSelected),
        game(4, 5, GameResult::FirstPlayerWon),
    ];
    let mut builder = PairStatsBuilder::new();
    builder.tally(&games);
    for race in 1..9 {
        let played = games
            .iter()
            .filter(|g| g.first_player_race == race || g.second_player_race == race)
            .count() as u64;
        assert_eq!(builder.total_games(race), played);
        assert_eq!(
            builder.total_games(race),
            builder.total_wins(race) + builder.total_losses(race) + builder.mirrors_of(race)
        );
    }
    assert_eq!(builder.total_games(1), 6);
    assert_eq!(builder.total_wins(1), 2);
    assert_eq!(builder.total_losses(1), 2);
    assert_eq!(builder.mirrors_of(1), 2);
}

#[test]
fn undecided_game_is_in_no_total() {
    let games = vec![game(1, 2, GameResult::NotSelected)];
    let mut builder = PairStatsBuilder::new();
    builder.tally(&games);
    assert_eq!(builder.total_games(1), 0);
    assert_eq!(builder.total_games(2), 0);
}

#[test]
fn race_with_mirror_games_only_has_no_winrate() {
    let games = vec![game(3, 3, GameResult::FirstPlayerWon), game(3, 3, GameResult::SecondPlayerWon)];
    let mut builder = PairStatsBuilder::new();
    builder.tally(&games);
    assert_eq!(builder.mirrors_of(3), 2);
    assert_eq!(builder.total_games(3), 2);
    assert_eq!(builder.winrate(3), WinrateType::NoGames);
}

#[test]
fn races_outside_the_eight_are_not_counted() {
    let games = vec![
        game(0, 1, GameResult::FirstPlayerWon),
        game(9, 1, GameResult::SecondPlayerWon),
        game(-3, 2, GameResult::SecondPlayerWon),
        game(0, 0, GameResult::FirstPlayerWon),
    ];
    let mut builder = PairStatsBuilder::new();
    builder.tally(&games);
    assert_eq!(builder.wins_against(0, 1), 0);
    assert_eq!(builder.losses_against(1, 0), 0);
    assert_eq!(builder.wins_against(1, 9), 0);
    assert_eq!(builder.wins_against(2, -3), 0);
    assert_eq!(builder.mirrors_of(0), 0);
    assert_eq!(builder.total_games(1), 0);
    assert_eq!(builder.total_games(100), 0);
}

#[test]
fn tally_replaces_what_was_counted() {
    let mut builder = PairStatsBuilder::new();
    builder.tally(&three_games());
    builder.tally(&vec![game(4, 5, GameResult::SecondPlayerWon)]);
    assert_eq!(builder.wins_against(1, 2), 0);
    assert_eq!(builder.mirrors_of(1), 0);
    assert_eq!(builder.wins_against(5, 4), 1);
    assert_eq!(builder.losses_against(4, 5), 1);
}

#[test]
fn counting_twice_gives_the_same_tables() {
    let mut one = PairStatsBuilder::new();
    let mut two = PairStatsBuilder::new();
    one.tally(&three_games());
    two.tally(&three_games());
    two.tally(&three_games());
    for race in 0..9 {
        assert_eq!(one.mirrors_of(race), two.mirrors_of(race));
        for opp in 0..9 {
            assert_eq!(one.wins_against(race, opp), two.wins_against(race, opp));
            assert_eq!(one.losses_against(race, opp), two.losses_against(race, opp));
        }
    }
}

#[test]
fn calc_games_adds_up() {
    assert_eq!(calc_games(&vec![]), 0);
    assert_eq!(calc_games(&vec![1, 2, 3, 0, 10]), 16);
    assert_eq!(calc_games(&vec![u64::MAX - 1, 1]), u64::MAX);
}

#[test]
fn longest_name_counts_characters() {
    let races = vec![
        RaceInfo { id: 1, name: "Инферно".to_string() },
        RaceInfo { id: 2, name: "Академия волшебства".to_string() },
        RaceInfo { id: 3, name: "abc".to_string() },
    ];
    assert_eq!(longest_name(&races), 19);
    assert_eq!(longest_name(&Vec::new()), 0);
}

#[test]
fn first_of_equal_keys_is_chosen() {
    let keys = vec![None, Some(3), Some(7), Some(7), None, Some(3), Some(1), Some(1)];
    assert_eq!(find_first_max(&keys), Some(2));
    assert_eq!(find_first_min(&keys), Some(6));
    assert_eq!(find_first_max(&vec![None, None]), None);
    assert_eq!(find_first_min(&Vec::new()), None);
    assert_eq!(find_first_max(&vec![Some(0), Some(0)]), Some(0));
    assert_eq!(find_first_min(&vec![None, Some(u64::MAX)]), Some(1));
}

#[test]
fn sheet_of_the_races_shows_the_table() {
    let model = model_of(three_games());
    let mut builder = PairStatsBuilder::new();
    let mut workbook = Workbook::new();
    assert_eq!(builder.build(&model, &mut workbook), Ok(()));
    assert_eq!(workbook.sheets.len(), 1);
    let sheet = &workbook.sheets[0];
    assert_eq!(sheet.name, "Общая статистика по расам");
    assert_eq!(merged(sheet, 0, 0), Some((1, 0, "VS".to_string(), Style::BackgroundRed)));
    assert_eq!(sheet.ops[1], SheetOp::ColumnWidth { col: 0, numerator: 20, denominator: 1 });
    // The head of the first race.
    assert_eq!(text(sheet, 2, 0), "Орден порядка");
    assert_eq!(
        merged(sheet, 0, 1),
        Some((0, 2, "Орден порядка".to_string(), Style::ThinBorderTextCenter))
    );
    assert!(sheet.ops.contains(&SheetOp::ColumnWidth { col: 1, numerator: 38, denominator: 3 }));
    assert!(sheet.ops.contains(&SheetOp::ColumnWidth { col: 2, numerator: 38, denominator: 3 }));
    assert_eq!(text(sheet, 1, 1), "Побед");
    assert_eq!(text(sheet, 1, 2), "Поражений");
    // The second race against the first: one win, one loss.
    assert_eq!(number(sheet, 3, 1), 1);
    assert_eq!(number(sheet, 3, 2), 1);
    // The first race against the second, in the columns of the second.
    assert_eq!(number(sheet, 2, 3), 1);
    assert_eq!(number(sheet, 2, 4), 1);
    // Mirror games of the first and of the second race.
    assert_eq!(merged(sheet, 2, 1), Some((2, 2, "1".to_string(), Style::ThinBorderTextWrap)));
    assert_eq!(merged(sheet, 3, 3), Some((3, 4, "0".to_string(), Style::ThinBorderTextWrap)));
    // A pair that never played.
    assert_eq!(number(sheet, 9, 5), 0);
    assert_eq!(number(sheet, 9, 6), 0);
}

#[test]
fn sheet_of_the_races_shows_the_totals() {
    let model = model_of(three_games());
    let mut builder = PairStatsBuilder::new();
    let mut workbook = Workbook::new();
    builder.build(&model, &mut workbook).unwrap();
    let sheet = &workbook.sheets[0];
    assert_eq!(text(sheet, 0, 17), "Всего игр");
    assert_eq!(
        merged(sheet, 11, 0),
        Some((11, 1, "Общий винрейт".to_string(), Style::ThinBorderTextCenter))
    );
    assert_eq!(number(sheet, 2, 17), 3);
    assert_eq!(number(sheet, 3, 17), 2);
    assert_eq!(number(sheet, 4, 17), 0);
    assert_eq!(text(sheet, 12, 0), "Орден порядка");
    assert_eq!(text(sheet, 12, 1), "50.000%");
    assert_eq!(text(sheet, 13, 1), "50.000%");
    assert_eq!(text(sheet, 14, 1), "Нет игр");
    assert_eq!(text(sheet, 19, 0), "Великая орда");
    // Most played the first race, least played the third, the first of those without games.
    assert_eq!(marks(sheet, 2, 17), vec![Style::BackgroundGreen]);
    assert_eq!(marks(sheet, 4, 17), vec![Style::BackgroundRed]);
    assert_eq!(marks(sheet, 1, 17), vec![Style::BackgroundSilver]);
    // Of the two races with the same winrate the first is marked, both ways.
    assert_eq!(marks(sheet, 12, 1), vec![Style::BackgroundGreen, Style::BackgroundRed]);
    assert_eq!(marks(sheet, 13, 1), Vec::new());
}

#[test]
fn sheet_of_the_races_shows_the_match_ups() {
    let model = model_of(three_games());
    let mut builder = PairStatsBuilder::new();
    let mut workbook = Workbook::new();
    builder.build(&model, &mut workbook).unwrap();
    let sheet = &workbook.sheets[0];
    assert_eq!(
        merged(sheet, 21, 3),
        Some((21, 6, "Число игр по матчапам".to_string(), Style::TextBoldBare))
    );
    assert_eq!(
        merged(sheet, 33, 3),
        Some((33, 6, "Винрейты матчапов".to_string(), Style::TextBoldBare))
    );
    assert_eq!(text(sheet, 24, 0), "Орден порядка");
    assert_eq!(text(sheet, 23, 1), "Орден порядка");
    assert_eq!(text(sheet, 36, 0), "Орден порядка");
    assert_eq!(text(sheet, 35, 2), "Инферно");
    assert_eq!(number(sheet, 24, 2), 2);
    assert_eq!(number(sheet, 25, 1), 2);
    assert_eq!(number(sheet, 24, 3), 0);
    assert_eq!(text(sheet, 36, 2), "50.000%");
    assert_eq!(text(sheet, 37, 1), "50.000%");
    assert_eq!(text(sheet, 36, 3), "Нет игр");
    // The diagonal is black; the most played pair is green, the least played red.
    assert_eq!(marks(sheet, 26, 3), vec![Style::BackgroundBlack]);
    assert_eq!(marks(sheet, 38, 3), vec![Style::BackgroundBlack]);
    assert_eq!(marks(sheet, 25, 1), vec![Style::BackgroundGreen]);
    assert_eq!(marks(sheet, 24, 2), vec![Style::BackgroundGreen]);
    assert_eq!(marks(sheet, 26, 1), vec![Style::BackgroundRed]);
    assert_eq!(marks(sheet, 24, 3), vec![Style::BackgroundRed]);
}

#[test]
fn races_of_the_list_that_are_none_of_the_eight_get_no_columns() {
    let mut model = model_of(three_games());
    model.races = vec![
        RaceInfo { id: 0, name: "Никто".to_string() },
        RaceInfo { id: 2, name: "Инферно".to_string() },
        RaceInfo { id: 9, name: "Лишний".to_string() },
        RaceInfo { id: 1, name: "Орден порядка".to_string() },
    ];
    let mut builder = PairStatsBuilder::new();
    let mut workbook = Workbook::new();
    builder.build(&model, &mut workbook).unwrap();
    let sheet = &workbook.sheets[0];
    for op in &sheet.ops {
        if let SheetOp::Write { value: CellValue::Text(text), .. } = op {
            assert_ne!(text, "Никто");
            assert_ne!(text, "Лишний");
        }
    }
    assert_eq!(text(sheet, 2, 0), "Орден порядка");
    assert_eq!(text(sheet, 3, 0), "Инферно");
    assert_eq!(number(sheet, 3, 1), 1);
    // The second race comes first in the list: of equal winrates it is marked.
    assert_eq!(marks(sheet, 13, 1), vec![Style::BackgroundGreen, Style::BackgroundRed]);
    assert_eq!(marks(sheet, 2, 17), vec![Style::BackgroundGreen]);
    assert_eq!(marks(sheet, 3, 17), vec![Style::BackgroundRed]);
}

#[test]
fn model_beyond_the_limits_gives_no_sheet_of_the_races() {
    let mut model = model_of(three_games());
    model.games[1].bargains_amount = Some(i64::MIN);
    let mut builder = PairStatsBuilder::new();
    builder.tally(&vec![game(4, 5, GameResult::SecondPlayerWon)]);
    let mut workbook = Workbook::new();
    assert_eq!(builder.build(&model, &mut workbook), Err(Error::ModelLimits));
    assert!(workbook.sheets.is_empty());
    assert_eq!(builder.wins_against(5, 4), 1);
    assert_eq!(builder.wins_against(1, 2), 0);
}

#[test]
fn strict_model_with_unknown_hero_gives_no_sheet_of_the_races() {
    let mut model = model_of(three_games());
    model.lookup_policy = LookupPolicy::AbortRun;
    let mut builder = PairStatsBuilder::new();
    let mut workbook = Workbook::new();
    assert_eq!(builder.build(&model, &mut workbook), Err(Error::UnknownHero { hero_id: 10 }));
    assert!(workbook.sheets.is_empty());
    model.lookup_policy = LookupPolicy::SkipRecord;
    assert_eq!(builder.build(&model, &mut workbook), Ok(()));
}
