use tournament_stats::error::Error;
use tournament_stats::games::{
    BargainsColor, GameEntry, GameOutcome, GameResult, GameType, ModType, Side,
};
use tournament_stats::model::{
    Hero, LookupPolicy, Match, Tournament, TournamentStatsModel, User,
};
use tournament_stats::player::{
    collect_hero_stats, collect_player_seats, collect_race_stats, color_name, count_wins,
    entry_for, outcome_name, GameHistoryEntry, PersonalStat, ResultOutput, Seat,
};
use tournament_stats::player_sheet::{
    build_game_history, build_player_stats, PlayerMatchHistoryHeaders,
};
use tournament_stats::sheet::{CellValue, Sheet, SheetOp, Style, Workbook};

fn tournament(with_bargains: bool, with_color: bool, game_type: GameType) -> Tournament {
    Tournament {
        id: 1,
        name: "Кубок".to_string(),
        mod_type: ModType::Hrta,
        game_type,
        with_bargains,
        with_bargains_color: with_color,
        with_foreign_heroes: false,
    }
}

fn game(
    match_id: u128,
    first: (i64, i64),
    second: (i64, i64),
    amount: Option<i64>,
    color: Option<BargainsColor>,
    result: GameResult,
) -> GameEntry {
    GameEntry {
        match_id,
        first_player_race: first.0,
        first_player_hero: first.1,
        second_player_race: second.0,
        second_player_hero: second.1,
        bargains_amount: amount,
        bargains_color: color,
        result,
        outcome: GameOutcome::FinalBattleVictory,
    }
}

fn model() -> TournamentStatsModel {
    let mut model = TournamentStatsModel::default();
    model.tournament = Some(tournament(true, true, GameType::Rmg));
    model.users = vec![
        User { id: 1, nickname: "Альфа".to_string() },
        User { id: 2, nickname: "Бета".to_string() },
        User { id: 3, nickname: "Гамма".to_string() },
        User { id: 4, nickname: "Дельта".to_string() },
    ];
    model.matches = vec![
        Match { id: 10, tournament_id: 1, first_player: 1, second_player: 2 },
        Match { id: 20, tournament_id: 1, first_player: 3, second_player: 1 },
        Match { id: 30, tournament_id: 1, first_player: 2, second_player: 3 },
    ];
    model.heroes = vec![
        Hero { id: 21, name: "Аграил".to_string(), race: 2 },
        Hero { id: 11, name: "Айрис".to_string(), race: 1 },
        Hero { id: 12, name: "Витторио".to_string(), race: 1 },
        Hero { id: 22, name: "Грок".to_string(), race: 2 },
    ];
    model.games = vec![
        game(10, (1, 11), (2, 21), Some(100), Some(BargainsColor::BargainsColorRed), GameResult::FirstPlayerWon),
        game(20, (2, 22), (1, 12), Some(300), Some(BargainsColor::BargainsColorBlue), GameResult::FirstPlayerWon),
        game(10, (1, 11), (2, 21), None, None, GameResult::SecondPlayerWon),
        game(30, (2, 21), (2, 22), Some(-5), Some(BargainsColor::NotSelected), GameResult::SecondPlayerWon),
        game(10, (1, 12), (2, 22), Some(1), None, GameResult::NotSelected),
        game(20, (2, 22), (1, 99), Some(7), None, GameResult::SecondPlayerWon),
    ];
    model
}

fn cell(sheet: &Sheet, at_row: u32, at_col: u16) -> Option<(CellValue, Style)> {
    let mut found = None;
    for op in &sheet.ops {
        if let SheetOp::Write { row, col, value, style } = op {
            if *row == at_row && *col == at_col {
                found = Some((value.clone(), *style));
            }
        }
    }
    found
}

fn text(sheet: &Sheet, row: u32, col: u16) -> String {
    match cell(sheet, row, col) {
        Some((CellValue::Text(text), _)) => text,
        other => panic!("no text at {} {}: {:?}", row, col, other),
    }
}

fn number(sheet: &Sheet, row: u32, col: u16) -> i64 {
    match cell(sheet, row, col) {
        Some((CellValue::Number(n), _)) => n,
        other => panic!("no number at {} {}: {:?}", row, col, other),
    }
}

fn merge_at(sheet: &Sheet, row: u32, col: u16) -> Option<(u32, u16, String, Style)> {
    for op in &sheet.ops {
        if let SheetOp::Merge { first_row, first_col, last_row, last_col, text, style } = op {
            if *first_row == row && *first_col == col {
                return Some((*last_row, *last_col, text.clone(), *style));
            }
        }
    }
    None
}

#[test]
fn heads_of_a_bare_tournament() {
    let heads = PlayerMatchHistoryHeaders::new(&tournament(false, false, GameType::Arena));
    assert_eq!(
        heads.headers,
        vec!["Фракция игрока", "Фракция оппонента", "Герой игрока", "Герой оппонента", "Результат"]
    );
}

#[test]
fn heads_of_a_tournament_with_bargains() {
    let heads = PlayerMatchHistoryHeaders::new(&tournament(true, false, GameType::Arena));
    assert_eq!(
        heads.headers,
        vec![
            "Фракция игрока",
            "Фракция оппонента",
            "Герой игрока",
            "Герой оппонента",
            "Торг игрока",
            "Результат",
        ]
    );
    let colored = PlayerMatchHistoryHeaders::new(&tournament(false, true, GameType::Arena));
    assert_eq!(colored.headers[4], "Цвет торга");
    assert_eq!(colored.headers.len(), 6);
}

#[test]
fn heads_of_a_tournament_on_random_maps() {
    let heads = PlayerMatchHistoryHeaders::new(&tournament(true, true, GameType::Rmg));
    assert_eq!(
        heads.headers,
        vec![
            "Фракция игрока",
            "Фракция оппонента",
            "Герой игрока",
            "Герой оппонента",
            "Торг игрока",
            "Цвет торга",
            "Результат",
            "Исход",
        ]
    );
}

#[test]
fn top_of_a_player_s_sheet() {
    let heads = PlayerMatchHistoryHeaders::new(&tournament(true, false, GameType::Arena));
    let mut sheet = Sheet::new("Альфа".to_string());
    heads.to_xlsx(&mut sheet);
    assert_eq!(
        sheet.ops[0],
        SheetOp::Merge {
            first_row: 0,
            first_col: 0,
            last_row: 0,
            last_col: 6,
            text: "История игр".to_string(),
            style: Style::TextBoldCentered,
        }
    );
    assert_eq!(sheet.ops[1], SheetOp::ColumnWidth { col: 0, numerator: 14, denominator: 1 });
    assert_eq!(cell(&sheet, 1, 0), Some((CellValue::Text("VS".to_string()), Style::TextCenterColorRed)));
    assert_eq!(text(&sheet, 1, 1), "Фракция игрока");
    assert_eq!(text(&sheet, 1, 5), "Торг игрока");
    assert_eq!(text(&sheet, 1, 6), "Результат");
    assert!(sheet.ops.contains(&SheetOp::ColumnWidth { col: 6, numerator: 14, denominator: 1 }));
    assert_eq!(sheet.ops.len(), 3 + 2 * 6);
}

#[test]
fn history_follows_the_matches_and_the_games() {
    let model = model();
    let seats = collect_player_seats(&model, 1).unwrap();
    assert_eq!(
        seats,
        vec![
            Seat { game: model.games[0], side: Side::First, opponent: 1 },
            Seat { game: model.games[2], side: Side::First, opponent: 1 },
            Seat { game: model.games[1], side: Side::Second, opponent: 2 },
        ]
    );
    let second = collect_player_seats(&model, 2).unwrap();
    assert_eq!(
        second,
        vec![
            Seat { game: model.games[0], side: Side::Second, opponent: 0 },
            Seat { game: model.games[2], side: Side::Second, opponent: 0 },
            Seat { game: model.games[3], side: Side::First, opponent: 2 },
        ]
    );
}

#[test]
fn player_without_games_has_an_empty_history() {
    let model = model();
    assert_eq!(collect_player_seats(&model, 4), Ok(Vec::new()));
    assert_eq!(collect_player_seats(&model, 77), Ok(Vec::new()));
}

#[test]
fn match_with_an_unknown_opponent_is_left_out() {
    let mut model = model();
    model.users.remove(1);
    let seats = collect_player_seats(&model, 1).unwrap();
    assert_eq!(seats, vec![Seat { game: model.games[1], side: Side::Second, opponent: 1 }]);
}

#[test]
fn bargain_is_negated_on_the_second_seat() {
    let model = model();
    let t = tournament(true, true, GameType::Rmg);
    let first = entry_for(&model, &t, &Seat { game: model.games[0], side: Side::First, opponent: 1 });
    assert_eq!(first.bargains_amount, Some(100));
    let second = entry_for(&model, &t, &Seat { game: model.games[0], side: Side::Second, opponent: 0 });
    assert_eq!(second.bargains_amount, Some(-100));
    let other = entry_for(&model, &t, &Seat { game: model.games[1], side: Side::Second, opponent: 2 });
    assert_eq!(other.bargains_amount, Some(-300));
    let negative = entry_for(&model, &t, &Seat { game: model.games[3], side: Side::Second, opponent: 1 });
    assert_eq!(negative.bargains_amount, Some(5));
    let unchanged = entry_for(&model, &t, &Seat { game: model.games[3], side: Side::First, opponent: 2 });
    assert_eq!(unchanged.bargains_amount, Some(-5));
    let none = entry_for(&model, &t, &Seat { game: model.games[2], side: Side::Second, opponent: 0 });
    assert_eq!(none.bargains_amount, None);
}

#[test]
fn entry_names_what_was_picked() {
    let model = model();
    let t = tournament(true, true, GameType::Rmg);
    let entry = entry_for(&model, &t, &Seat { game: model.games[1], side: Side::Second, opponent: 2 });
    assert_eq!(
        entry,
        GameHistoryEntry {
            opponent: &"Гамма".to_string(),
            player_race: &"Орден порядка".to_string(),
            player_hero: &"Витторио".to_string(),
            opponent_race: &"Инферно".to_string(),
            opponent_hero: &"Грок".to_string(),
            bargains_amount: Some(-300),
            bargains_color: Some("Синий"),
            result: ResultOutput::Loss,
            outcome: Some("Победа в финальной битве"),
        }
    );
}

#[test]
fn entry_of_a_bare_tournament_has_no_bargain_and_no_outcome() {
    let model = model();
    let t = tournament(false, false, GameType::Arena);
    let entry = entry_for(&model, &t, &Seat { game: model.games[0], side: Side::First, opponent: 1 });
    assert_eq!(entry.bargains_amount, None);
    assert_eq!(entry.bargains_color, None);
    assert_eq!(entry.outcome, None);
    assert_eq!(entry.result, ResultOutput::Win);
}

#[test]
fn names_of_colours_and_outcomes() {
    assert_eq!(color_name(Some(BargainsColor::BargainsColorRed)), Some("Красный"));
    assert_eq!(color_name(Some(BargainsColor::BargainsColorBlue)), Some("Синий"));
    assert_eq!(color_name(Some(BargainsColor::NotSelected)), None);
    assert_eq!(color_name(None), None);
    assert_eq!(outcome_name(GameOutcome::FinalBattleVictory), "Победа в финальной битве");
    assert_eq!(outcome_name(GameOutcome::NeutralsVictory), "Победа нейтралов");
    assert_eq!(outcome_name(GameOutcome::OpponentSurrender), "Сдача оппонента");
}

#[test]
fn row_of_a_full_entry() {
    let name = "имя".to_string();
    let entry = GameHistoryEntry {
        opponent: &name,
        player_race: &name,
        player_hero: &name,
        opponent_race: &name,
        opponent_hero: &name,
        bargains_amount: Some(-300),
        bargains_color: Some("Синий"),
        result: ResultOutput::Loss,
        outcome: Some("Сдача оппонента"),
    };
    let mut sheet = Sheet::new("лист".to_string());
    entry.to_xlsx(&mut sheet, 9);
    assert_eq!(sheet.ops.len(), 9);
    for col in 0..5 {
        assert_eq!(text(&sheet, 9, col), "имя");
    }
    assert_eq!(number(&sheet, 9, 5), -300);
    assert_eq!(text(&sheet, 9, 6), "Синий");
    assert_eq!(cell(&sheet, 9, 7), Some((CellValue::Text("Поражение".to_string()), Style::BackgroundRed)));
    assert_eq!(text(&sheet, 9, 8), "Сдача оппонента");
}

#[test]
fn row_of_a_bare_entry() {
    let name = "имя".to_string();
    let entry = GameHistoryEntry {
        opponent: &name,
        player_race: &name,
        player_hero: &name,
        opponent_race: &name,
        opponent_hero: &name,
        bargains_amount: None,
        bargains_color: None,
        result: ResultOutput::Win,
        outcome: None,
    };
    let mut sheet = Sheet::new("лист".to_string());
    entry.to_xlsx(&mut sheet, 2);
    assert_eq!(sheet.ops.len(), 6);
    assert_eq!(cell(&sheet, 2, 5), Some((CellValue::Text("Победа".to_string()), Style::BackgroundGreen)));
}

#[test]
fn wins_never_exceed_games() {
    let model = model();
    for user in [1u128, 2, 3, 4] {
        let seats = collect_player_seats(&model, user).unwrap();
        assert!(count_wins(&seats) <= seats.len() as u64);
        for stat in collect_race_stats(&model.races, &seats) {
            assert!(stat.wins <= stat.games);
        }
        for stat in collect_hero_stats(&model.heroes, &seats) {
            assert!(stat.wins <= stat.games);
        }
    }
    let seats = collect_player_seats(&model, 1).unwrap();
    assert_eq!(count_wins(&seats), 1);
    assert_eq!(count_wins(&collect_player_seats(&model, 3).unwrap()), 2);
}

#[test]
fn races_and_heroes_that_a_player_picked() {
    let model = model();
    let seats = collect_player_seats(&model, 1).unwrap();
    assert_eq!(
        collect_race_stats(&model.races, &seats),
        vec![PersonalStat { index: 0, games: 3, wins: 1 }]
    );
    assert_eq!(
        collect_hero_stats(&model.heroes, &seats),
        vec![
            PersonalStat { index: 1, games: 2, wins: 1 },
            PersonalStat { index: 2, games: 1, wins: 0 },
        ]
    );
    let second = collect_player_seats(&model, 2).unwrap();
    assert_eq!(
        collect_race_stats(&model.races, &second),
        vec![PersonalStat { index: 1, games: 3, wins: 1 }]
    );
    assert_eq!(
        collect_hero_stats(&model.heroes, &second),
        vec![PersonalStat { index: 0, games: 3, wins: 1 }]
    );
}

#[test]
fn share_of_a_race_that_was_never_picked_is_zero() {
    assert_eq!(PersonalStat { index: 0, games: 0, wins: 0 }.share(), 0);
    assert_eq!(PersonalStat { index: 0, games: 3, wins: 1 }.share(), 33_333);
    assert_eq!(PersonalStat { index: 0, games: 4, wins: 4 }.share(), 100_000);
}

#[test]
fn a_race_listed_twice_is_shown_once() {
    let mut model = model();
    let again = model.races[0].clone();
    model.races.push(again);
    let seats = collect_player_seats(&model, 1).unwrap();
    assert_eq!(
        collect_race_stats(&model.races, &seats),
        vec![PersonalStat { index: 0, games: 3, wins: 1 }]
    );
}

#[test]
fn sheet_of_a_player() {
    let model = model();
    let mut sheet = Sheet::new("Альфа".to_string());
    assert_eq!(build_game_history(&model, &mut sheet, 1), Ok(()));
    assert_eq!(text(&sheet, 2, 0), "Бета");
    assert_eq!(text(&sheet, 2, 1), "Орден порядка");
    assert_eq!(text(&sheet, 2, 2), "Айрис");
    assert_eq!(text(&sheet, 2, 3), "Инферно");
    assert_eq!(text(&sheet, 2, 4), "Аграил");
    assert_eq!(number(&sheet, 2, 5), 100);
    assert_eq!(text(&sheet, 2, 6), "Красный");
    assert_eq!(cell(&sheet, 2, 7), Some((CellValue::Text("Победа".to_string()), Style::BackgroundGreen)));
    assert_eq!(text(&sheet, 2, 8), "Победа в финальной битве");
    assert_eq!(text(&sheet, 3, 0), "Бета");
    assert_eq!(cell(&sheet, 3, 5), Some((CellValue::Text("Поражение".to_string()), Style::BackgroundRed)));
    assert_eq!(text(&sheet, 4, 0), "Гамма");
    assert_eq!(number(&sheet, 4, 5), -300);
    assert_eq!(text(&sheet, 4, 6), "Синий");
    assert_eq!(text(&sheet, 4, 7), "Поражение");
    assert_eq!(cell(&sheet, 5, 0), None);
    assert_eq!(text(&sheet, 6, 0), "Всего игр");
    assert_eq!(number(&sheet, 6, 1), 3);
    assert_eq!(text(&sheet, 7, 0), "Общий винрейт");
    assert_eq!(text(&sheet, 7, 1), "33.333%");
    assert_eq!(merge_at(&sheet, 9, 0), Some((9, 2, "Выбор рас".to_string(), Style::TextBoldCentered)));
    assert_eq!(text(&sheet, 10, 1), "Всего игр");
    assert_eq!(text(&sheet, 10, 2), "Винрейт");
    assert_eq!(text(&sheet, 11, 0), "Орден порядка");
    assert_eq!(number(&sheet, 11, 1), 3);
    assert_eq!(text(&sheet, 11, 2), "33.333%");
    assert_eq!(merge_at(&sheet, 13, 0), Some((13, 2, "Выбор героев".to_string(), Style::TextBoldCentered)));
    assert_eq!(text(&sheet, 14, 1), "Всего игр");
    assert_eq!(text(&sheet, 15, 0), "Айрис");
    assert_eq!(number(&sheet, 15, 1), 2);
    assert_eq!(text(&sheet, 15, 2), "50.000%");
    assert_eq!(text(&sheet, 16, 0), "Витторио");
    assert_eq!(number(&sheet, 16, 1), 1);
    assert_eq!(text(&sheet, 16, 2), "0.000%");
    assert_eq!(cell(&sheet, 17, 0), None);
}

#[test]
fn player_without_games_has_no_winrate() {
    let model = model();
    let mut sheet = Sheet::new("Дельта".to_string());
    assert_eq!(build_game_history(&model, &mut sheet, 4), Ok(()));
    assert_eq!(cell(&sheet, 2, 0), None);
    assert_eq!(text(&sheet, 3, 0), "Всего игр");
    assert_eq!(number(&sheet, 3, 1), 0);
    assert_eq!(text(&sheet, 4, 0), "Общий винрейт");
    assert_eq!(text(&sheet, 4, 1), "Нет игр");
    assert_eq!(merge_at(&sheet, 6, 0), Some((6, 2, "Выбор рас".to_string(), Style::TextBoldCentered)));
    assert_eq!(merge_at(&sheet, 9, 0), Some((9, 2, "Выбор героев".to_string(), Style::TextBoldCentered)));
    assert_eq!(text(&sheet, 10, 2), "Винрейт");
    assert_eq!(sheet.ops.len(), 4 + 3 + 3);
    let seats = collect_player_seats(&model, 4).unwrap();
    assert_eq!(count_wins(&seats), 0);
    assert!(collect_race_stats(&model.races, &seats).is_empty());
    assert!(collect_hero_stats(&model.heroes, &seats).is_empty());
}

#[test]
fn sheets_of_all_players() {
    let model = model();
    let mut workbook = Workbook::new();
    workbook.push_worksheet(Sheet::new("первый".to_string()));
    assert_eq!(build_player_stats(&model, &mut workbook), Ok(()));
    let names: Vec<&str> = workbook.sheets.iter().map(|s| s.name.as_str()).collect();
    assert_eq!(names, vec!["первый", "Альфа", "Бета", "Гамма", "Дельта"]);
    let alpha = &workbook.sheets[1];
    assert_eq!(merge_at(alpha, 0, 0), Some((0, 8, "История игр".to_string(), Style::TextBoldCentered)));
    assert_eq!(text(alpha, 1, 8), "Исход");
    assert_eq!(text(alpha, 2, 0), "Бета");
    assert_eq!(number(alpha, 6, 1), 3);
    let delta = &workbook.sheets[4];
    assert_eq!(number(delta, 3, 1), 0);
    assert_eq!(text(delta, 4, 1), "Нет игр");
}

#[test]
fn no_history_without_tournament_or_beyond_the_limits() {
    let mut model = model();
    model.games[0].bargains_amount = Some(i64::MIN);
    let mut sheet = Sheet::new("Альфа".to_string());
    assert_eq!(build_game_history(&model, &mut sheet, 1), Err(Error::ModelLimits));
    model.tournament = None;
    assert_eq!(build_game_history(&model, &mut sheet, 1), Err(Error::NoTournament));
    assert!(sheet.ops.is_empty());
}

#[test]
fn no_sheets_of_players_without_tournament() {
    let mut model = model();
    model.tournament = None;
    let mut workbook = Workbook::new();
    assert_eq!(build_player_stats(&model, &mut workbook), Err(Error::NoTournament));
    assert!(workbook.sheets.is_empty());
}

#[test]
fn strict_model_gives_up_on_an_unknown_hero() {
    let mut model = model();
    model.lookup_policy = LookupPolicy::AbortRun;
    let mut workbook = Workbook::new();
    assert_eq!(build_player_stats(&model, &mut workbook), Err(Error::UnknownHero { hero_id: 99 }));
    assert!(workbook.sheets.is_empty());
    model.games.pop();
    assert_eq!(build_player_stats(&model, &mut workbook), Ok(()));
    assert_eq!(workbook.sheets.len(), 4);
}

#[test]
fn strict_model_gives_up_on_an_unknown_user() {
    let mut model = model();
    model.games.pop();
    model.lookup_policy = LookupPolicy::AbortRun;
    model.matches.push(Match { id: 40, tournament_id: 1, first_player: 1, second_player: 9 });
    let mut workbook = Workbook::new();
    assert_eq!(build_player_stats(&model, &mut workbook), Err(Error::UnknownUser { user_id: 9 }));
    model.lookup_policy = LookupPolicy::SkipRecord;
    assert_eq!(build_player_stats(&model, &mut workbook), Ok(()));
}

#[test]
fn history_beyond_the_limit_gives_no_sheet() {
    let mut model = model();
    let one = model.games[0];
    model.games = vec![one; 1_000];
    model.matches = vec![Match { id: 10, tournament_id: 1, first_player: 1, second_player: 2 }; 1_001];
    assert_eq!(collect_player_seats(&model, 1), Err(Error::ModelLimits));
    assert_eq!(collect_player_seats(&model, 3), Ok(Vec::new()));
    let mut sheet = Sheet::new("Альфа".to_string());
    assert_eq!(build_game_history(&model, &mut sheet, 1), Err(Error::ModelLimits));
    assert!(sheet.ops.is_empty());
    let mut workbook = Workbook::new();
    assert_eq!(build_player_stats(&model, &mut workbook), Err(Error::ModelLimits));
    assert!(workbook.sheets.is_empty());
    model.matches.pop();
    assert_eq!(collect_player_seats(&model, 1).unwrap().len(), 1_000_000);
}
