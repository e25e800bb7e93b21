use tournament_stats::error::Error;
use tournament_stats::games::{
    validate_games, BargainsColor, GameOutcome, GameResult, GameType, ModType, RawGame,
};
use tournament_stats::model::{Hero, LookupPolicy, Match, Tournament, TournamentStatsModel, User};
use tournament_stats::pair::PairStatsBuilder;
use tournament_stats::player_sheet::build_player_stats;
use tournament_stats::race::RaceStatsBuilder;
use tournament_stats::report::build_report;
use tournament_stats::sheet::{CellValue, Sheet, SheetOp, Style, Workbook};

fn raw(id: u128, match_id: u128, first: (i64, i64), second: (i64, i64), amount: i64, first_won: bool) -> RawGame {
    RawGame {
        id,
        match_id,
        first_player_race: Some(first.0),
        first_player_hero: Some(first.1),
        second_player_race: Some(second.0),
        second_player_hero: Some(second.1),
        bargains_color: Some(BargainsColor::BargainsColorBlue),
        bargains_amount: Some(amount),
        result: if first_won { GameResult::FirstPlayerWon } else { GameResult::SecondPlayerWon },
        outcome: GameOutcome::NeutralsVictory,
    }
}

fn model() -> TournamentStatsModel {
    let mut broken = raw(4, 10, (1, 11), (2, 21), 0, true);
    broken.second_player_race = None;
    let records = vec![
        raw(1, 10, (1, 11), (2, 21), 1_000, true),
        raw(2, 10, (1, 11), (2, 21), -500, false),
        raw(3, 20, (3, 31), (1, 11), 0, false),
        broken,
    ];
    let (games, rejected) = validate_games(&records);
    assert_eq!(rejected.len(), 1);
    let mut model = TournamentStatsModel::default();
    model.tournament = Some(Tournament {
        id: 1,
        name: "Кубок".to_string(),
        mod_type: ModType::Universe,
        game_type: GameType::Arena,
        with_bargains: true,
        with_bargains_color: false,
        with_foreign_heroes: false,
    });
    model.users = vec![
        User { id: 1, nickname: "Альфа".to_string() },
        User { id: 2, nickname: "Бета".to_string() },
        User { id: 3, nickname: "Гамма".to_string() },
    ];
    model.matches = vec![
        Match { id: 10, tournament_id: 1, first_player: 1, second_player: 2 },
        Match { id: 20, tournament_id: 1, first_player: 3, second_player: 1 },
    ];
    model.heroes = vec![
        Hero { id: 11, name: "Айрис".to_string(), race: 1 },
        Hero { id: 21, name: "Аграил".to_string(), race: 2 },
        Hero { id: 31, name: "Каспар".to_string(), race: 3 },
    ];
    model.games = games;
    model
}

fn text(sheet: &Sheet, at_row: u32, at_col: u16) -> String {
    let mut found = None;
    for op in &sheet.ops {
        if let SheetOp::Write { row, col, value: CellValue::Text(text), .. } = op {
            if *row == at_row && *col == at_col {
                found = Some(text.clone());
            }
        }
    }
    found.unwrap()
}

#[test]
fn report_has_a_sheet_for_the_races_each_race_and_each_player() {
    let workbook = build_report(&model()).unwrap();
    let names: Vec<&str> = workbook.sheets.iter().map(|s| s.name.as_str()).collect();
    assert_eq!(
        names,
        vec![
            "Общая статистика по расам",
            "Орден порядка",
            "Инферно",
            "Некрополис",
            "Лесной союз",
            "Лига теней",
            "Академия волшебства",
            "Северные кланы",
            "Великая орда",
            "Альфа",
            "Бета",
            "Гамма",
        ]
    );
    // The first race won one of its two games against the second and one against the third.
    assert_eq!(text(&workbook.sheets[0], 12, 1), "66.667%");
    assert_eq!(text(&workbook.sheets[1], 2, 15), "1000.000");
    assert_eq!(text(&workbook.sheets[1], 2, 16), "-500.000");
    assert_eq!(text(&workbook.sheets[9], 7, 1), "66.667%");
}

#[test]
fn report_is_what_the_three_builders_give() {
    let model = model();
    let mut workbook = Workbook::new();
    PairStatsBuilder::new().build(&model, &mut workbook).unwrap();
    RaceStatsBuilder::new().build(&model, &mut workbook).unwrap();
    build_player_stats(&model, &mut workbook).unwrap();
    assert_eq!(build_report(&model), Ok(workbook));
}

#[test]
fn building_twice_gives_the_same_report() {
    let model = model();
    let first = build_report(&model);
    let second = build_report(&model);
    assert!(first.is_ok());
    assert_eq!(first, second);
    let copy = model.clone();
    assert_eq!(build_report(&copy), first);
}

#[test]
fn report_without_tournament_is_refused() {
    let mut model = model();
    model.tournament = None;
    assert_eq!(build_report(&model), Err(Error::NoTournament));
    model.games[0].bargains_amount = Some(i64::MIN);
    assert_eq!(build_report(&model), Err(Error::NoTournament));
}

#[test]
fn report_of_a_model_beyond_the_limits_is_refused() {
    let mut model = model();
    model.games[0].bargains_amount = Some(i64::MIN);
    assert_eq!(build_report(&model), Err(Error::ModelLimits));
}

#[test]
fn strict_report_needs_every_reference() {
    let mut model = model();
    model.lookup_policy = LookupPolicy::AbortRun;
    assert!(build_report(&model).is_ok());
    model.heroes.pop();
    assert_eq!(build_report(&model), Err(Error::UnknownHero { hero_id: 31 }));
    model.lookup_policy = LookupPolicy::SkipRecord;
    let workbook = build_report(&model).unwrap();
    // The game with the unknown hero is in no history.
    assert_eq!(text(&workbook.sheets[9], 6, 1), "50.000%");
    assert_eq!(text(&workbook.sheets[11], 4, 1), "Нет игр");
}

#[test]
fn sheets_are_added_behind_those_that_are_there() {
    let mut workbook = Workbook::new();
    workbook.push_worksheet(Sheet::new("a".to_string()));
    let mut late = Sheet::new("b".to_string());
    late.write_text(1, 2, "x", Style::ThinBorder);
    late.write_number(3, 4, -7, Style::BackgroundSilver);
    late.write_with_format(5, 6, CellValue::Number(8), Style::BackgroundBlack);
    late.merge_range(0, 0, 0, 3, "y", Style::TextBoldBare);
    late.set_column_width(2, 7, 2);
    late.set_cell_format(9, 9, Style::BackgroundGreen);
    workbook.append_worksheets(vec![late.clone(), Sheet::new("c".to_string())]);
    assert_eq!(workbook.sheets.len(), 3);
    assert_eq!(workbook.sheets[1], late);
    assert_eq!(
        late.ops,
        vec![
            SheetOp::Write { row: 1, col: 2, value: CellValue::Text("x".to_string()), style: Style::ThinBorder },
            SheetOp::Write { row: 3, col: 4, value: CellValue::Number(-7), style: Style::BackgroundSilver },
            SheetOp::Write { row: 5, col: 6, value: CellValue::Number(8), style: Style::BackgroundBlack },
            SheetOp::Merge {
                first_row: 0,
                first_col: 0,
                last_row: 0,
                last_col: 3,
                text: "y".to_string(),
                style: Style::TextBoldBare,
            },
            SheetOp::ColumnWidth { col: 2, numerator: 7, denominator: 2 },
            SheetOp::CellFormat { row: 9, col: 9, style: Style::BackgroundGreen },
        ]
    );
}
