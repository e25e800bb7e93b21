use tournament_stats::error::{Error, GameField};
use tournament_stats::games::{
    validate_games, BargainsColor, GameEntry, GameOutcome, GameResult, GameType, ModType, RawGame,
    Side,
};

fn raw(id: u128) -> RawGame {
    RawGame {
        id,
        match_id: 7,
        first_player_race: Some(1),
        first_player_hero: Some(11),
        second_player_race: Some(2),
        second_player_hero: Some(21),
        bargains_color: Some(BargainsColor::BargainsColorRed),
        bargains_amount: Some(1500),
        result: GameResult::FirstPlayerWon,
        outcome: GameOutcome::NeutralsVictory,
    }
}

#[test]
fn complete_record_becomes_a_game() {
    let game = GameEntry::try_from(raw(5)).unwrap();
    assert_eq!(
        game,
        GameEntry {
            match_id: 7,
            first_player_race: 1,
            first_player_hero: 11,
            second_player_race: 2,
            second_player_hero: 21,
            bargains_amount: Some(1500),
            bargains_color: Some(BargainsColor::BargainsColorRed),
            result: GameResult::FirstPlayerWon,
            outcome: GameOutcome::NeutralsVictory,
        }
    );
}

#[test]
fn missing_bargain_is_no_rejection() {
    let mut record = raw(5);
    record.bargains_amount = None;
    record.bargains_color = None;
    let game = GameEntry::try_from(record).unwrap();
    assert_eq!(game.bargains_amount, None);
    assert_eq!(game.bargains_color, None);
}

#[test]
fn missing_first_race_is_rejected() {
    let mut record = raw(41);
    record.first_player_race = None;
    assert_eq!(
        GameEntry::try_from(record),
        Err(Error::NoGameField { field: GameField::FirstPlayerRace, game_id: 41 })
    );
}

#[test]
fn missing_first_hero_is_rejected() {
    let mut record = raw(42);
    record.first_player_hero = None;
    assert_eq!(
        GameEntry::try_from(record),
        Err(Error::NoGameField { field: GameField::FirstPlayerHero, game_id: 42 })
    );
}

#[test]
fn missing_second_race_is_rejected() {
    let mut record = raw(43);
    record.second_player_race = None;
    assert_eq!(
        GameEntry::try_from(record),
        Err(Error::NoGameField { field: GameField::SecondPlayerRace, game_id: 43 })
    );
}

#[test]
fn missing_second_hero_is_rejected() {
    let mut record = raw(44);
    record.second_player_hero = None;
    assert_eq!(
        GameEntry::try_from(record),
        Err(Error::NoGameField { field: GameField::SecondPlayerHero, game_id: 44 })
    );
}

#[test]
fn first_missing_field_is_named() {
    let mut record = raw(45);
    record.second_player_hero = None;
    record.first_player_hero = None;
    record.second_player_race = None;
    assert_eq!(
        GameEntry::try_from(record),
        Err(Error::NoGameField { field: GameField::FirstPlayerHero, game_id: 45 })
    );
}

#[test]
fn field_names_are_those_of_the_provider() {
    assert_eq!(GameField::FirstPlayerRace.name(), "first_player_race");
    assert_eq!(GameField::FirstPlayerHero.name(), "first_player_hero");
    assert_eq!(GameField::SecondPlayerRace.name(), "second_player_race");
    assert_eq!(GameField::SecondPlayerHero.name(), "second_player_hero");
}

#[test]
fn game_without_first_hero_gives_one_rejection() {
    let mut broken = raw(2);
    broken.first_player_hero = None;
    let records = vec![raw(1), broken, raw(3)];
    let (games, rejected) = validate_games(&records);
    assert_eq!(games.len(), 2);
    assert_eq!(games[0], GameEntry::try_from(raw(1)).unwrap());
    assert_eq!(games[1], GameEntry::try_from(raw(3)).unwrap());
    assert_eq!(
        rejected,
        vec![Error::NoGameField { field: GameField::FirstPlayerHero, game_id: 2 }]
    );
    match rejected[0] {
        Error::NoGameField { field, game_id } => {
            assert_eq!(field.name(), "first_player_hero");
            assert_eq!(game_id, 2);
        }
        _ => panic!("another rejection"),
    }
}

#[test]
fn validation_keeps_the_order_of_the_records() {
    let mut a = raw(1);
    a.first_player_race = None;
    let mut b = raw(2);
    b.match_id = 20;
    let mut c = raw(3);
    c.second_player_hero = None;
    let mut d = raw(4);
    d.match_id = 40;
    let (games, rejected) = validate_games(&vec![a, b, c, d]);
    assert_eq!(games.iter().map(|g| g.match_id).collect::<Vec<u128>>(), vec![20, 40]);
    assert_eq!(
        rejected,
        vec![
            Error::NoGameField { field: GameField::FirstPlayerRace, game_id: 1 },
            Error::NoGameField { field: GameField::SecondPlayerHero, game_id: 3 },
        ]
    );
}

#[test]
fn validation_of_nothing_gives_nothing() {
    let (games, rejected) = validate_games(&Vec::new());
    assert!(games.is_empty());
    assert!(rejected.is_empty());
}

#[test]
fn result_codes_go_both_ways() {
    assert_eq!(GameResult::NotSelected.code(), 0);
    assert_eq!(GameResult::FirstPlayerWon.code(), 1);
    assert_eq!(GameResult::SecondPlayerWon.code(), 2);
    for code in 0..3 {
        assert_eq!(GameResult::from_code(code).unwrap().code(), code);
    }
    assert_eq!(GameResult::from_code(3), None);
    assert_eq!(GameResult::from_code(-1), None);
}

#[test]
fn outcome_codes_go_both_ways() {
    assert_eq!(GameOutcome::FinalBattleVictory.code(), 0);
    assert_eq!(GameOutcome::NeutralsVictory.code(), 1);
    assert_eq!(GameOutcome::OpponentSurrender.code(), 2);
    assert_eq!(GameOutcome::from_code(1), Some(GameOutcome::NeutralsVictory));
    assert_eq!(GameOutcome::from_code(7), None);
}

#[test]
fn color_codes_skip_one() {
    assert_eq!(BargainsColor::NotSelected.code(), 0);
    assert_eq!(BargainsColor::BargainsColorRed.code(), 2);
    assert_eq!(BargainsColor::BargainsColorBlue.code(), 3);
    assert_eq!(BargainsColor::from_code(1), None);
    assert_eq!(BargainsColor::from_code(2), Some(BargainsColor::BargainsColorRed));
    assert_eq!(BargainsColor::from_code(3), Some(BargainsColor::BargainsColorBlue));
    assert_eq!(BargainsColor::from_code(0), Some(BargainsColor::NotSelected));
}

#[test]
fn mod_codes_start_at_one() {
    assert_eq!(ModType::Universe.code(), 1);
    assert_eq!(ModType::Hrta.code(), 2);
    assert_eq!(ModType::from_code(0), None);
    assert_eq!(ModType::from_code(1), Some(ModType::Universe));
    assert_eq!(ModType::from_code(2), Some(ModType::Hrta));
    assert_ne!(GameType::Rmg, GameType::Arena);
}

#[test]
fn sides_are_each_other_s_other() {
    assert_eq!(Side::First.other(), Side::Second);
    assert_eq!(Side::Second.other(), Side::First);
}
