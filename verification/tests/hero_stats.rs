use tournament_stats::games::{
    validate_games, BargainsColor, GameEntry, GameOutcome, GameResult, RawGame,
};
use tournament_stats::heroes::{
    calc_pick_rate, collect_picked_heroes, count_race_games, get_hero_stats,
    get_hero_stats_vs_race, get_heroes_pair_stats, HeroPick,
};
use tournament_stats::model::{Hero, RaceInfo, TournamentStatsModel};
use tournament_stats::hero_sheet::{build_hero_stats_vs_race, collect_heroes_of};
use tournament_stats::race::RaceStatsBuilder;
use tournament_stats::rates::WinrateType;
use tournament_stats::sheet::{CellValue, Sheet, SheetOp, Style};

fn game(
    first_race: i64,
    first_hero: i64,
    second_race: i64,
    second_hero: i64,
    result: GameResult,
) -> GameEntry {
    GameEntry {
        match_id: 1,
        first_player_race: first_race,
        first_player_hero: first_hero,
        second_player_race: second_race,
        second_player_hero: second_hero,
        bargains_amount: None,
        bargains_color: None,
        result,
        outcome: GameOutcome::FinalBattleVictory,
    }
}

fn games() -> Vec<GameEntry> {
    vec![
        game(1, 11, 2, 21, GameResult::FirstPlayerWon),
        game(2, 22, 1, 11, GameResult::FirstPlayerWon),
        game(1, 12, 2, 21, GameResult::SecondPlayerWon),
        game(1, 99, 2, 21, GameResult::FirstPlayerWon),
        game(1, 11, 1, 12, GameResult::FirstPlayerWon),
    ]
}

fn heroes() -> Vec<Hero> {
    vec![
        Hero { id: 21, name: "Аграил".to_string(), race: 2 },
        Hero { id: 11, name: "Айрис".to_string(), race: 1 },
        Hero { id: 12, name: "Витторио".to_string(), race: 1 },
        Hero { id: 22, name: "Грок".to_string(), race: 2 },
        Hero { id: 11, name: "Двойник".to_string(), race: 1 },
    ]
}

fn races() -> Vec<RaceInfo> {
    TournamentStatsModel::default().races
}

fn cell(sheet: &Sheet, at_row: u32, at_col: u16) -> Option<(CellValue, Style)> {
    let mut found = None;
    for op in &sheet.ops {
        if let SheetOp::Write { row, col, value, style } = op {
            if *row == at_row && *col == at_col {
                found = Some((value.clone(), *style));
            }
        }
    }
    found
}

fn text(sheet: &Sheet, row: u32, col: u16) -> String {
    match cell(sheet, row, col) {
        Some((CellValue::Text(text), _)) => text,
        other => panic!("no text at {} {}: {:?}", row, col, other),
    }
}

fn number(sheet: &Sheet, row: u32, col: u16) -> i64 {
    match cell(sheet, row, col) {
        Some((CellValue::Number(n), _)) => n,
        other => panic!("no number at {} {}: {:?}", row, col, other),
    }
}

fn style(sheet: &Sheet, row: u32, col: u16) -> Style {
    cell(sheet, row, col).unwrap().1
}

fn merge_at(sheet: &Sheet, row: u32, col: u16) -> Option<(u32, u16, String, Style)> {
    for op in &sheet.ops {
        if let SheetOp::Merge { first_row, first_col, last_row, last_col, text, style } = op {
            if *first_row == row && *first_col == col {
                return Some((*last_row, *last_col, text.clone(), *style));
            }
        }
    }
    None
}

#[test]
fn picked_heroes_come_once_in_the_order_of_the_games() {
    let picked = collect_picked_heroes(&games(), &heroes(), 1);
    assert_eq!(picked, vec![HeroPick { id: 11, index: 1 }, HeroPick { id: 12, index: 2 }]);
    let others = collect_picked_heroes(&games(), &heroes(), 2);
    assert_eq!(others, vec![HeroPick { id: 21, index: 0 }, HeroPick { id: 22, index: 3 }]);
}

#[test]
fn repeated_picks_are_dropped() {
    let many = vec![
        game(1, 12, 2, 21, GameResult::FirstPlayerWon),
        game(1, 11, 2, 21, GameResult::FirstPlayerWon),
        game(1, 12, 2, 21, GameResult::FirstPlayerWon),
        game(1, 11, 2, 21, GameResult::FirstPlayerWon),
        game(1, 12, 2, 21, GameResult::FirstPlayerWon),
    ];
    let picked = collect_picked_heroes(&many, &heroes(), 1);
    assert_eq!(picked, vec![HeroPick { id: 12, index: 2 }, HeroPick { id: 11, index: 1 }]);
    assert_eq!(collect_picked_heroes(&many, &heroes(), 2), vec![HeroPick { id: 21, index: 0 }]);
}

#[test]
fn unknown_hero_is_no_pick() {
    let one = vec![game(1, 99, 2, 98, GameResult::FirstPlayerWon)];
    assert!(collect_picked_heroes(&one, &heroes(), 1).is_empty());
    assert!(collect_picked_heroes(&one, &heroes(), 2).is_empty());
    assert!(collect_picked_heroes(&games(), &Vec::new(), 1).is_empty());
    assert!(collect_picked_heroes(&games(), &heroes(), 3).is_empty());
}

#[test]
fn both_heroes_of_a_mirror_game_are_picks() {
    let mirror = vec![game(1, 12, 1, 11, GameResult::NotSelected)];
    assert_eq!(
        collect_picked_heroes(&mirror, &heroes(), 1),
        vec![HeroPick { id: 12, index: 2 }, HeroPick { id: 11, index: 1 }]
    );
}

#[test]
fn rejected_game_is_in_no_hero_count() {
    let complete = RawGame {
        id: 1,
        match_id: 1,
        first_player_race: Some(1),
        first_player_hero: Some(11),
        second_player_race: Some(2),
        second_player_hero: Some(21),
        bargains_color: Some(BargainsColor::NotSelected),
        bargains_amount: None,
        result: GameResult::FirstPlayerWon,
        outcome: GameOutcome::FinalBattleVictory,
    };
    let mut broken = complete;
    broken.id = 2;
    broken.first_player_hero = None;
    broken.second_player_hero = Some(22);
    let (valid, rejected) = validate_games(&vec![complete, broken]);
    assert_eq!(rejected.len(), 1);
    assert_eq!(collect_picked_heroes(&valid, &heroes(), 2), vec![HeroPick { id: 21, index: 0 }]);
    assert_eq!(get_hero_stats(22, 2, &valid), (0, 0));
    assert_eq!(get_hero_stats(21, 2, &valid), (0, 1));
    assert_eq!(count_race_games(1, &valid), 1);
    assert_eq!(count_race_games(2, &valid), 1);
}

#[test]
fn wins_and_losses_of_a_hero() {
    assert_eq!(get_hero_stats(11, 1, &games()), (2, 1));
    assert_eq!(get_hero_stats(12, 1, &games()), (0, 2));
    assert_eq!(get_hero_stats(21, 2, &games()), (1, 2));
    assert_eq!(get_hero_stats(22, 2, &games()), (1, 0));
    assert_eq!(get_hero_stats(11, 2, &games()), (0, 0));
    assert_eq!(count_race_games(1, &games()), 5);
    assert_eq!(count_race_games(2, &games()), 4);
    assert_eq!(count_race_games(3, &games()), 0);
}

#[test]
fn hero_of_both_sides_wins_and_loses_the_mirror_game() {
    let mirror = vec![game(1, 11, 1, 11, GameResult::SecondPlayerWon)];
    assert_eq!(get_hero_stats(11, 1, &mirror), (1, 1));
    assert_eq!(count_race_games(1, &mirror), 1);
    assert_eq!(calc_pick_rate(2, 1), WinrateType::Normal(200_000));
}

#[test]
fn share_of_a_hero_among_the_games_of_its_race() {
    assert_eq!(calc_pick_rate(3, 5), WinrateType::Normal(60_000));
    assert_eq!(calc_pick_rate(2, 5), WinrateType::Normal(40_000));
    assert_eq!(calc_pick_rate(1, 3), WinrateType::Normal(33_333));
    assert_eq!(calc_pick_rate(0, 3), WinrateType::Normal(0));
    assert_eq!(calc_pick_rate(0, 0), WinrateType::NoGames);
}

#[test]
fn hero_against_a_race() {
    assert_eq!(get_hero_stats_vs_race(11, 1, 2, &games()), (1, 1));
    assert_eq!(get_hero_stats_vs_race(12, 1, 2, &games()), (0, 1));
    assert_eq!(get_hero_stats_vs_race(11, 1, 1, &games()), (1, 0));
    assert_eq!(get_hero_stats_vs_race(11, 1, 3, &games()), (0, 0));
}

#[test]
fn hero_against_a_hero() {
    let all = heroes();
    let race = RaceInfo { id: 1, name: "Орден порядка".to_string() };
    assert_eq!(get_heroes_pair_stats(&all[1], &race, &all[0], &games()), (1, 0));
    assert_eq!(get_heroes_pair_stats(&all[1], &race, &all[3], &games()), (0, 1));
    assert_eq!(get_heroes_pair_stats(&all[2], &race, &all[0], &games()), (0, 1));
    assert_eq!(get_heroes_pair_stats(&all[2], &race, &all[3], &games()), (0, 0));
}

#[test]
fn hero_played_by_another_race_is_not_that_hero_s_race() {
    // The hero 21 belongs to the second race but is played here by the third.
    let foreign = vec![game(1, 11, 3, 21, GameResult::FirstPlayerWon)];
    let all = heroes();
    let race = RaceInfo { id: 1, name: "Орден порядка".to_string() };
    assert_eq!(get_heroes_pair_stats(&all[1], &race, &all[0], &foreign), (0, 0));
    assert_eq!(get_hero_stats_vs_race(11, 1, 3, &foreign), (1, 0));
}

#[test]
fn heroes_of_a_race_by_place() {
    assert_eq!(collect_heroes_of(&heroes(), 1), vec![1, 2, 4]);
    assert_eq!(collect_heroes_of(&heroes(), 2), vec![0, 3]);
    assert!(collect_heroes_of(&heroes(), 3).is_empty());
}

#[test]
fn table_of_the_heroes_of_a_race() {
    let builder = RaceStatsBuilder::new();
    let all_races = races();
    let mut sheet = Sheet::new("Орден порядка".to_string());
    builder.build_heroes_stats(&all_races[0], &all_races, &heroes(), &games(), &mut sheet, 0);
    assert_eq!(
        merge_at(&sheet, 0, 4),
        Some((0, 9, "Общая статистика использования героев".to_string(), Style::TextBoldCentered))
    );
    assert_eq!(text(&sheet, 1, 1), "Всего побед");
    assert_eq!(text(&sheet, 1, 2), "Всего поражений");
    assert_eq!(text(&sheet, 1, 3), "Всего игр");
    assert_eq!(text(&sheet, 1, 4), "Процент выбора");
    assert_eq!(text(&sheet, 1, 5), "Игр vs Инферно");
    assert_eq!(text(&sheet, 1, 6), "Винрейт vs Инферно");
    assert_eq!(text(&sheet, 1, 7), "Игр vs Некрополис");
    assert_eq!(text(&sheet, 1, 17), "Игр vs Великая орда");
    assert_eq!(text(&sheet, 1, 18), "Винрейт vs Великая орда");
    assert_eq!(cell(&sheet, 2, 0), Some((CellValue::Text("Айрис".to_string()), Style::TextBoldCentered)));
    assert_eq!(number(&sheet, 2, 1), 2);
    assert_eq!(number(&sheet, 2, 2), 1);
    assert_eq!(number(&sheet, 2, 3), 3);
    assert_eq!(text(&sheet, 2, 4), "60.000%");
    assert_eq!(text(&sheet, 2, 5), "2");
    assert_eq!(text(&sheet, 2, 6), "50.000%");
    assert_eq!(text(&sheet, 2, 7), "Нет игр");
    assert_eq!(text(&sheet, 2, 8), "Нет игр");
    assert_eq!(text(&sheet, 3, 0), "Витторио");
    assert_eq!(number(&sheet, 3, 1), 0);
    assert_eq!(number(&sheet, 3, 2), 2);
    assert_eq!(number(&sheet, 3, 3), 2);
    assert_eq!(text(&sheet, 3, 4), "40.000%");
    assert_eq!(text(&sheet, 3, 5), "1");
    assert_eq!(text(&sheet, 3, 6), "0.000%");
}

#[test]
fn tables_against_the_heroes_of_the_opponents() {
    let builder = RaceStatsBuilder::new();
    let all_races = races();
    let mut sheet = Sheet::new("Орден порядка".to_string());
    builder.build_heroes_stats(&all_races[0], &all_races, &heroes(), &games(), &mut sheet, 0);
    // Against the second race, from the row 5.
    assert_eq!(
        merge_at(&sheet, 5, 4),
        Some((5, 9, "Орден порядка vs Инферно".to_string(), Style::TextBoldCentered))
    );
    assert_eq!(merge_at(&sheet, 6, 0), Some((7, 0, "VS".to_string(), Style::TextCenterColorRed)));
    assert_eq!(text(&sheet, 8, 0), "Айрис");
    assert_eq!(text(&sheet, 9, 0), "Витторио");
    assert_eq!(merge_at(&sheet, 6, 1), Some((6, 2, "Аграил".to_string(), Style::TextBoldCentered)));
    assert_eq!(merge_at(&sheet, 6, 3), Some((6, 4, "Грок".to_string(), Style::TextBoldCentered)));
    assert!(sheet.ops.contains(&SheetOp::ColumnWidth { col: 1, numerator: 12, denominator: 1 }));
    assert!(sheet.ops.contains(&SheetOp::ColumnWidth { col: 4, numerator: 12, denominator: 1 }));
    assert_eq!(text(&sheet, 7, 1), "Побед");
    assert_eq!(text(&sheet, 7, 4), "Поражений");
    assert_eq!(text(&sheet, 6, 6), "Всего игр");
    assert_eq!(text(&sheet, 6, 7), "Винрейт");
    assert!(sheet.ops.contains(&SheetOp::CellFormat { row: 7, col: 6, style: Style::BackgroundSilver }));
    assert!(sheet.ops.contains(&SheetOp::CellFormat { row: 7, col: 7, style: Style::BackgroundSilver }));
    assert_eq!(number(&sheet, 8, 1), 1);
    assert_eq!(style(&sheet, 8, 1), Style::BackgroundGreen);
    assert_eq!(number(&sheet, 8, 2), 0);
    assert_eq!(style(&sheet, 8, 2), Style::ThinBorderTextWrap);
    assert_eq!(number(&sheet, 8, 3), 0);
    assert_eq!(style(&sheet, 8, 3), Style::ThinBorderTextWrap);
    assert_eq!(number(&sheet, 8, 4), 1);
    assert_eq!(style(&sheet, 8, 4), Style::BackgroundRed);
    assert_eq!(text(&sheet, 8, 6), "2");
    assert_eq!(text(&sheet, 8, 7), "50.000%");
    assert_eq!(number(&sheet, 9, 2), 1);
    assert_eq!(text(&sheet, 9, 6), "1");
    assert_eq!(text(&sheet, 9, 7), "0.000%");
    // Against the third race, which has no heroes, six rows further down.
    assert_eq!(
        merge_at(&sheet, 11, 4),
        Some((11, 9, "Орден порядка vs Некрополис".to_string(), Style::TextBoldCentered))
    );
    assert_eq!(text(&sheet, 12, 2), "Всего игр");
    assert_eq!(text(&sheet, 12, 3), "Винрейт");
    assert_eq!(text(&sheet, 14, 0), "Айрис");
    assert_eq!(text(&sheet, 14, 2), "Нет игр");
    assert_eq!(text(&sheet, 14, 3), "Нет игр");
    // The last opponent is the eighth race.
    assert_eq!(
        merge_at(&sheet, 41, 4),
        Some((41, 9, "Орден порядка vs Великая орда".to_string(), Style::TextBoldCentered))
    );
    assert_eq!(merge_at(&sheet, 47, 4), None);
}

#[test]
fn one_table_against_one_opponent() {
    let all_races = races();
    let picks = vec![HeroPick { id: 12, index: 2 }];
    let mut sheet = Sheet::new("Орден порядка".to_string());
    build_hero_stats_vs_race(
        &all_races[0],
        &picks,
        &heroes(),
        &all_races[1],
        &games(),
        &mut sheet,
        100,
    );
    assert_eq!(
        merge_at(&sheet, 100, 4),
        Some((100, 9, "Орден порядка vs Инферно".to_string(), Style::TextBoldCentered))
    );
    assert_eq!(text(&sheet, 103, 0), "Витторио");
    assert_eq!(number(&sheet, 103, 1), 0);
    assert_eq!(number(&sheet, 103, 2), 1);
    assert_eq!(style(&sheet, 103, 2), Style::BackgroundRed);
    assert_eq!(text(&sheet, 103, 6), "1");
    assert_eq!(text(&sheet, 103, 7), "0.000%");
}

#[test]
fn race_without_picks_has_an_empty_table() {
    let builder = RaceStatsBuilder::new();
    let all_races = races();
    let mut sheet = Sheet::new("Некрополис".to_string());
    builder.build_heroes_stats(&all_races[2], &all_races, &heroes(), &games(), &mut sheet, 14);
    assert_eq!(
        merge_at(&sheet, 14, 4),
        Some((14, 9, "Общая статистика использования героев".to_string(), Style::TextBoldCentered))
    );
    assert_eq!(text(&sheet, 15, 5), "Игр vs Орден порядка");
    assert_eq!(cell(&sheet, 16, 0), None);
    assert_eq!(
        merge_at(&sheet, 17, 4),
        Some((17, 9, "Некрополис vs Орден порядка".to_string(), Style::TextBoldCentered))
    );
    assert_eq!(
        merge_at(&sheet, 21, 4),
        Some((21, 9, "Некрополис vs Инферно".to_string(), Style::TextBoldCentered))
    );
}
