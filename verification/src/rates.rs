//! Shares and averages, kept as whole numbers of thousandths.
use vstd::prelude::*;

verus! {

/// A share of wins among games.
///
/// `Normal` holds the share in thousandths of a percent, so that 50% is
/// 50000; `NoGames` stands for a share of no games at all.
#[derive(Clone, Copy, Debug, PartialEq, Eq, Structural)]
pub enum WinrateType {
    Normal(u32),
    NoGames,
}

/// `scale * num / den`, rounded to the nearest whole number, a half
/// upwards.
pub open spec fn rounded_ratio(num: nat, den: nat, scale: nat) -> nat
    recommends
        den > 0,
{
    (2 * scale * num + den) / (2 * den)
}

/// The share of `wins` among `games`, in thousandths of a percent.
pub open spec fn percent_thousandths(wins: nat, games: nat) -> nat
    recommends
        games > 0,
{
    rounded_ratio(wins, games, 100_000)
}

/// The winrate of `wins` among `games`.
pub open spec fn winrate_of(wins: nat, games: nat) -> WinrateType {
    if games == 0 {
        WinrateType::NoGames
    } else {
        WinrateType::Normal(percent_thousandths(wins, games) as u32)
    }
}

/// A share of wins is at most one hundred percent.
pub proof fn lemma_percent_bound(wins: nat, games: nat)
    requires
        wins <= games,
        games > 0,
    ensures
        percent_thousandths(wins, games) <= 100_000,
{
    let num = 2 * 100_000 * wins + games;
    let den = 2 * games;
    assert(num < 100_001 * den) by (nonlinear_arith)
        requires
            num == 2 * 100_000 * wins + games,
            den == 2 * games,
            wins <= games,
            games > 0,
    ;
    assert(num / den <= 100_000) by (nonlinear_arith)
        requires
            num < 100_001 * den,
            den > 0,
    ;
}

/// The winrate of `wins` among `total_games`: no games give the sentinel
/// `NoGames`, never a division by zero.
pub fn calc_winrate(wins: u64, total_games: u64) -> (rate: WinrateType)
    requires
        wins <= total_games,
    ensures
        rate == winrate_of(wins as nat, total_games as nat),
        total_games == 0 <==> rate == WinrateType::NoGames,
        rate matches WinrateType::Normal(share) ==> share <= 100_000,
{
    if total_games == 0 {
        return WinrateType::NoGames;
    }
    proof {
        lemma_percent_bound(wins as nat, total_games as nat);
    }
    let num: u128 = 200_000 * (wins as u128) + (total_games as u128);
    let den: u128 = 2 * (total_games as u128);
    WinrateType::Normal((num / den) as u32)
}

/// `scale` times the mean of values that add up to `sum`, rounded to the
/// nearest whole number, a half away from zero.
pub open spec fn mean_scaled(sum: int, count: nat, scale: nat) -> int
    recommends
        count > 0,
{
    if sum < 0 {
        -(rounded_ratio((-sum) as nat, count, scale) as int)
    } else {
        rounded_ratio(sum as nat, count, scale) as int
    }
}

/// The mean of values that add up to `sum`, in thousandths, rounded to
/// the nearest thousandth, a half away from zero.
pub open spec fn mean_thousandths(sum: int, count: nat) -> int
    recommends
        count > 0,
{
    mean_scaled(sum, count, 1_000)
}

/// The largest magnitude of a bargain seen from one side.
pub const AMOUNT_MAX: u64 = 0x7fff_ffff_ffff_ffff;

/// The largest magnitude of a mean that is kept.
pub const MEAN_LIMIT: u128 = 0x1_0000_0000_0000_0000_0000_0000;

/// Rounding a ratio may be done on the remainder alone.
pub proof fn lemma_rounded_ratio_split(num: nat, den: nat, scale: nat)
    requires
        den > 0,
    ensures
        rounded_ratio(num, den, scale) == scale * (num / den) + rounded_ratio(
            num % den,
            den,
            scale,
        ),
{
    let q = (num / den) as int;
    let r = (num % den) as int;
    let d2 = (2 * den) as int;
    vstd::arithmetic::div_mod::lemma_fundamental_div_mod(num as int, den as int);
    assert(2 * scale * num + den == (2 * scale * r + den) + (scale * q) * d2) by (nonlinear_arith)
        requires
            num == den * q + r,
            d2 == 2 * den,
    ;
    vstd::arithmetic::div_mod::lemma_hoist_over_denominator(
        2 * scale * r + den,
        scale * q,
        d2 as nat,
    );
}

/// `scale` times the mean of `count` values that add up to `sum` and
/// have a magnitude of at most `bound` each.
fn rounded_mean(sum: i128, count: u64, scale: u64, Ghost(bound): Ghost<nat>) -> (mean: i128)
    requires
        count > 0,
        1 <= scale <= 1_000,
        bound <= MEAN_LIMIT,
        -(count * bound) <= sum <= count * bound,
    ensures
        mean == mean_scaled(sum as int, count as nat, scale as nat),
        -(scale * bound) - scale <= mean <= scale * bound + scale,
{
    let negative = sum < 0;
    let magnitude: u128 = if sum >= 0 {
        sum as u128
    } else if sum == i128::MIN {
        0x8000_0000_0000_0000_0000_0000_0000_0000
    } else {
        (-sum) as u128
    };
    let den: u128 = count as u128;
    let wide: u128 = scale as u128;
    let whole: u128 = magnitude / den;
    let rest: u128 = magnitude % den;
    proof {
        lemma_rounded_ratio_split(magnitude as nat, count as nat, scale as nat);
        assert(whole <= bound) by (nonlinear_arith)
            requires
                whole == magnitude / den,
                magnitude <= den * bound,
                den > 0,
        ;
        assert(rest < den) by (nonlinear_arith)
            requires
                rest == magnitude % den,
                den > 0,
        ;
        assert(2 * wide * rest + den <= 0xffff_ffff_ffff_ffff_ffff && wide * whole
            <= 1_000 * MEAN_LIMIT && 2 * wide * rest + den < (wide + 1) * (2 * den)
            && wide * whole <= wide * bound) by (nonlinear_arith)
            requires
                rest < den,
                den <= 0xffff_ffff_ffff_ffff,
                1 <= wide <= 1_000,
                whole <= bound <= MEAN_LIMIT,
        ;
    }
    let part: u128 = (2 * wide * rest + den) / (2 * den);
    assert(part <= wide) by (nonlinear_arith)
        requires
            part == (2 * wide * rest + den) / (2 * den),
            2 * wide * rest + den < (wide + 1) * (2 * den),
            den > 0,
    ;
    let q: u128 = wide * whole + part;
    if negative {
        -(q as i128)
    } else {
        q as i128
    }
}

/// `scale` times the mean of `count` values that add up to `sum`, for a
/// scale of up to a thousand.
pub fn calc_scaled_mean(sum: i128, count: u64, scale: u64) -> (mean: i128)
    requires
        count > 0,
        1 <= scale <= 1_000,
        -(count * MEAN_LIMIT) <= sum <= count * MEAN_LIMIT,
    ensures
        mean == mean_scaled(sum as int, count as nat, scale as nat),
{
    rounded_mean(sum, count, scale, Ghost(MEAN_LIMIT as nat))
}

/// The mean of `count` bargains that add up to `sum`, in thousandths.
pub fn calc_mean(sum: i128, count: u64) -> (mean: i128)
    requires
        count > 0,
        -(count * AMOUNT_MAX) <= sum <= count * AMOUNT_MAX,
    ensures
        mean == mean_thousandths(sum as int, count as nat),
        -MEAN_LIMIT <= mean <= MEAN_LIMIT,
{
    rounded_mean(sum, count, 1_000, Ghost(AMOUNT_MAX as nat))
}

} // verus!
