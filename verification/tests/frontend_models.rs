use tournament_stats::error::Error;
use tournament_stats::frontend::{
    get_heroes_of_race, load_matches, select_game, GameFrontendModel, HeroFrontendModel,
    MatchFrontendModel, TournamentFrontendModel, NOT_SET,
};
use tournament_stats::games::{
    BargainsColor, GameOutcome, GameResult, GameType, ModType, RawGame,
};
use tournament_stats::model::{Hero, Match, Tournament, User};
use tournament_stats::payloads::UpdateGamePayload;

fn users() -> Vec<User> {
    vec![
        User { id: 1, nickname: "Альфа".to_string() },
        User { id: 2, nickname: "Бета".to_string() },
        User { id: 1, nickname: "Двойник".to_string() },
    ]
}

fn raw(id: u128) -> RawGame {
    RawGame {
        id,
        match_id: 7,
        first_player_race: Some(1),
        first_player_hero: None,
        second_player_race: None,
        second_player_hero: Some(21),
        bargains_color: Some(BargainsColor::BargainsColorRed),
        bargains_amount: None,
        result: GameResult::NotSelected,
        outcome: GameOutcome::FinalBattleVictory,
    }
}

#[test]
fn tournament_is_shown_with_its_switches() {
    let shown = TournamentFrontendModel::from(Tournament {
        id: 9,
        name: "Кубок".to_string(),
        mod_type: ModType::Hrta,
        game_type: GameType::Rmg,
        with_bargains: true,
        with_bargains_color: false,
        with_foreign_heroes: true,
    });
    assert_eq!(
        shown,
        TournamentFrontendModel {
            id: 9,
            name: "Кубок".to_string(),
            mod_type: ModType::Hrta,
            game_type: GameType::Rmg,
            with_bargains: true,
            with_bargains_color: false,
            with_foreign_heroes: true,
        }
    );
}

#[test]
fn match_is_shown_with_nicknames() {
    let m = Match { id: 5, tournament_id: 1, first_player: 2, second_player: 1 };
    assert_eq!(
        m.into_frontend_model(&users()),
        Ok(MatchFrontendModel {
            id: 5,
            first_user_id: 2,
            first_user_nickname: "Бета".to_string(),
            second_user_id: 1,
            second_user_nickname: "Альфа".to_string(),
        })
    );
}

#[test]
fn match_of_an_unknown_player_is_not_shown() {
    let first = Match { id: 5, tournament_id: 1, first_player: 8, second_player: 9 };
    assert_eq!(first.into_frontend_model(&users()), Err(Error::UnknownUser { user_id: 8 }));
    let second = Match { id: 5, tournament_id: 1, first_player: 1, second_player: 9 };
    assert_eq!(second.into_frontend_model(&users()), Err(Error::UnknownUser { user_id: 9 }));
}

#[test]
fn matches_that_cannot_be_shown_are_left_out() {
    let matches = vec![
        Match { id: 1, tournament_id: 1, first_player: 1, second_player: 2 },
        Match { id: 2, tournament_id: 1, first_player: 1, second_player: 3 },
        Match { id: 3, tournament_id: 1, first_player: 2, second_player: 2 },
    ];
    let shown = load_matches(&matches, &users());
    assert_eq!(shown.iter().map(|m| m.id).collect::<Vec<u128>>(), vec![1, 3]);
    assert_eq!(shown[1].first_user_nickname, "Бета");
    assert_eq!(shown[1].second_user_nickname, "Бета");
    assert!(load_matches(&matches, &Vec::new()).is_empty());
}

#[test]
fn game_is_shown_with_what_is_missing_marked() {
    assert_eq!(NOT_SET, -1);
    assert_eq!(
        raw(3).into_frontend_model(),
        GameFrontendModel {
            id: 3,
            first_player_race: 1,
            first_player_hero: -1,
            second_player_race: -1,
            second_player_hero: 21,
            bargains_color: Some(BargainsColor::BargainsColorRed),
            bargains_amount: -1,
            result: GameResult::NotSelected,
            outcome: GameOutcome::FinalBattleVictory,
        }
    );
}

#[test]
fn game_is_selected_by_its_identifier() {
    let mut second = raw(2);
    second.bargains_amount = Some(40);
    let mut again = raw(2);
    again.bargains_amount = Some(50);
    let games = vec![raw(1), second, again];
    assert_eq!(select_game(&games, 2).unwrap().bargains_amount, 40);
    assert_eq!(select_game(&games, 1).unwrap().id, 1);
    assert_eq!(select_game(&games, 3), Err(Error::UnknownGame { game_id: 3 }));
    assert_eq!(select_game(&Vec::new(), 1), Err(Error::UnknownGame { game_id: 1 }));
}

#[test]
fn heroes_of_a_race_are_shown_in_their_order() {
    let heroes = vec![
        Hero { id: 21, name: "Аграил".to_string(), race: 2 },
        Hero { id: 11, name: "Айрис".to_string(), race: 1 },
        Hero { id: 22, name: "Грок".to_string(), race: 2 },
    ];
    assert_eq!(
        get_heroes_of_race(&heroes, 2),
        vec![
            HeroFrontendModel { id: 21, name: "Аграил".to_string() },
            HeroFrontendModel { id: 22, name: "Грок".to_string() },
        ]
    );
    assert_eq!(
        get_heroes_of_race(&heroes, 1),
        vec![HeroFrontendModel { id: 11, name: "Айрис".to_string() }]
    );
    assert!(get_heroes_of_race(&heroes, 3).is_empty());
}

#[test]
fn new_update_sets_nothing() {
    assert_eq!(
        UpdateGamePayload::new(5),
        UpdateGamePayload {
            id: 5,
            first_player_race: None,
            first_player_hero: None,
            second_player_race: None,
            second_player_hero: None,
            bargains_color: None,
            bargains_amount: None,
            result: None,
            outcome: None,
        }
    );
}

#[test]
fn update_sets_field_by_field() {
    let payload = UpdateGamePayload::new(5)
        .with_first_player_race(1)
        .with_first_player_hero(11)
        .with_second_player_race(2)
        .with_second_player_hero(21)
        .with_bargains_color(BargainsColor::BargainsColorBlue)
        .with_bargains_amount(-400)
        .with_result(GameResult::SecondPlayerWon)
        .with_outcome(GameOutcome::OpponentSurrender);
    assert_eq!(
        payload,
        UpdateGamePayload {
            id: 5,
            first_player_race: Some(1),
            first_player_hero: Some(11),
            second_player_race: Some(2),
            second_player_hero: Some(21),
            bargains_color: Some(BargainsColor::BargainsColorBlue),
            bargains_amount: Some(-400),
            result: Some(GameResult::SecondPlayerWon),
            outcome: Some(GameOutcome::OpponentSurrender),
        }
    );
}

#[test]
fn update_of_one_field_leaves_the_others() {
    let base = UpdateGamePayload::new(5).with_bargains_amount(3);
    let changed = base.with_result(GameResult::FirstPlayerWon);
    assert_eq!(changed.bargains_amount, Some(3));
    assert_eq!(changed.result, Some(GameResult::FirstPlayerWon));
    assert_eq!(changed.first_player_race, None);
    assert_eq!(base.result, None);
    assert_eq!(base.with_bargains_amount(4).bargains_amount, Some(4));
}
