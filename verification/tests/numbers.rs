use tournament_stats::rates::{calc_mean, calc_scaled_mean, calc_winrate, WinrateType};
use tournament_stats::text::{
    decimal_text, magnitude_of, percent_text, thousandths_text, winrate_text,
};

#[test]
fn winrate_of_no_games_is_the_sentinel() {
    assert_eq!(calc_winrate(0, 0), WinrateType::NoGames);
}

#[test]
fn winrate_is_in_thousandths_of_a_percent() {
    assert_eq!(calc_winrate(1, 2), WinrateType::Normal(50_000));
    assert_eq!(calc_winrate(0, 5), WinrateType::Normal(0));
    assert_eq!(calc_winrate(5, 5), WinrateType::Normal(100_000));
    assert_eq!(calc_winrate(1, 3), WinrateType::Normal(33_333));
    assert_eq!(calc_winrate(2, 3), WinrateType::Normal(66_667));
    assert_eq!(calc_winrate(1, 7), WinrateType::Normal(14_286));
}

#[test]
fn winrate_rounds_a_half_upwards() {
    // 1 of 64 is 1.5625 percent.
    assert_eq!(calc_winrate(1, 64), WinrateType::Normal(1_563));
    assert_eq!(calc_winrate(3, 64), WinrateType::Normal(4_688));
}

#[test]
fn winrate_of_many_games_does_not_overflow() {
    assert_eq!(calc_winrate(u64::MAX, u64::MAX), WinrateType::Normal(100_000));
    assert_eq!(calc_winrate(u64::MAX / 2, u64::MAX), WinrateType::Normal(50_000));
}

#[test]
fn mean_is_in_thousandths() {
    assert_eq!(calc_mean(10, 4), 2_500);
    assert_eq!(calc_mean(10, 3), 3_333);
    assert_eq!(calc_mean(20, 3), 6_667);
    assert_eq!(calc_mean(0, 9), 0);
    assert_eq!(calc_mean(1_000_000, 1), 1_000_000_000);
}

#[test]
fn mean_rounds_a_half_away_from_zero() {
    assert_eq!(calc_mean(1, 2000), 1);
    assert_eq!(calc_mean(-1, 2000), -1);
    assert_eq!(calc_mean(-10, 3), -3_333);
    assert_eq!(calc_mean(-20, 3), -6_667);
    assert_eq!(calc_mean(-7, 2), -3_500);
}

#[test]
fn mean_of_the_largest_amounts() {
    assert_eq!(calc_mean(i64::MAX as i128, 1), (i64::MAX as i128) * 1000);
    assert_eq!(calc_mean(-(i64::MAX as i128) * 3, 3), -(i64::MAX as i128) * 1000);
}

#[test]
fn scaled_mean_with_scale_one_is_the_rounded_mean() {
    assert_eq!(calc_scaled_mean(7, 2, 1), 4);
    assert_eq!(calc_scaled_mean(-7, 2, 1), -4);
    assert_eq!(calc_scaled_mean(6, 4, 1), 2);
    assert_eq!(calc_scaled_mean(5, 4, 1), 1);
    assert_eq!(calc_scaled_mean(9_000, 7, 1), 1_286);
    assert_eq!(calc_scaled_mean(6, 4, 1_000), 1_500);
}

#[test]
fn decimal_text_of_integers() {
    assert_eq!(decimal_text(0), "0");
    assert_eq!(decimal_text(7), "7");
    assert_eq!(decimal_text(1234), "1234");
    assert_eq!(decimal_text(-1234), "-1234");
    assert_eq!(decimal_text(i64::MIN as i128), "-9223372036854775808");
    assert_eq!(decimal_text(i128::MIN), "-170141183460469231731687303715884105728");
    assert_eq!(decimal_text(i128::MAX), "170141183460469231731687303715884105727");
}

#[test]
fn magnitude_of_integers() {
    assert_eq!(magnitude_of(0), 0);
    assert_eq!(magnitude_of(-5), 5);
    assert_eq!(magnitude_of(5), 5);
    assert_eq!(magnitude_of(i128::MIN), 1u128 << 127);
}

#[test]
fn thousandths_text_has_three_places() {
    assert_eq!(thousandths_text(12_345), "12.345");
    assert_eq!(thousandths_text(-12_345), "-12.345");
    assert_eq!(thousandths_text(5), "0.005");
    assert_eq!(thousandths_text(-5), "-0.005");
    assert_eq!(thousandths_text(0), "0.000");
    assert_eq!(thousandths_text(1_000), "1.000");
    assert_eq!(thousandths_text(-999), "-0.999");
    assert_eq!(thousandths_text(1_050), "1.050");
    assert_eq!(thousandths_text(i128::MIN), "-170141183460469231731687303715884105.728");
    assert_eq!(thousandths_text(i128::MAX), "170141183460469231731687303715884105.727");
}

#[test]
fn percent_text_ends_with_the_sign() {
    assert_eq!(percent_text(50_000), "50.000%");
    assert_eq!(percent_text(0), "0.000%");
    assert_eq!(percent_text(100_000), "100.000%");
    assert_eq!(percent_text(33_333), "33.333%");
    assert_eq!(percent_text(7), "0.007%");
}

#[test]
fn winrate_text_of_no_games_is_the_given_text() {
    assert_eq!(winrate_text(WinrateType::NoGames, "Нет игр"), "Нет игр");
    assert_eq!(winrate_text(WinrateType::Normal(66_667), "Нет игр"), "66.667%");
}
