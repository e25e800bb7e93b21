//! Wins, losses and mirror games between every two races.
use vstd::prelude::*;
use crate::games::{GameEntry, GameResult};
use crate::model::is_race_id;
use crate::rates::{calc_winrate, winrate_of, WinrateType};
use crate::tally::{
    count_by, count_where, lemma_count_agree, lemma_count_bound, lemma_count_none,
    lemma_count_split,
};

verus! {

/// Whether `race` beat `opp` in the game, on whichever side it sat.
pub open spec fn race_won(g: GameEntry, race: i64, opp: i64) -> bool {
    ||| g.first_player_race == race && g.second_player_race == opp && g.result
        == GameResult::FirstPlayerWon
    ||| g.first_player_race == opp && g.second_player_race == race && g.result
        == GameResult::SecondPlayerWon
}

/// Whether `race` lost to `opp` in the game, on whichever side it sat.
pub open spec fn race_lost(g: GameEntry, race: i64, opp: i64) -> bool {
    ||| g.first_player_race == race && g.second_player_race == opp && g.result
        == GameResult::SecondPlayerWon
    ||| g.first_player_race == opp && g.second_player_race == race && g.result
        == GameResult::FirstPlayerWon
}

/// Whether both sides of the game picked `race`.
pub open spec fn is_mirror_of(g: GameEntry, race: i64) -> bool {
    g.first_player_race == race && g.second_player_race == race
}

/// Whether `race` was picked on either side of the game.
pub open spec fn involves(g: GameEntry, race: i64) -> bool {
    g.first_player_race == race || g.second_player_race == race
}

/// The games that `race` won against another race `opp`; no games where
/// either is none of the eight races or both are the same.
pub open spec fn pair_wins(games: Seq<GameEntry>, race: i64, opp: i64) -> nat {
    if is_race_id(race) && is_race_id(opp) && race != opp {
        count_where(games, |g: GameEntry| race_won(g, race, opp))
    } else {
        0
    }
}

/// The games that `race` lost to another race `opp`.
pub open spec fn pair_losses(games: Seq<GameEntry>, race: i64, opp: i64) -> nat {
    if is_race_id(race) && is_race_id(opp) && race != opp {
        count_where(games, |g: GameEntry| race_lost(g, race, opp))
    } else {
        0
    }
}

/// The games in which both sides picked `race`.
pub open spec fn mirror_games(games: Seq<GameEntry>, race: i64) -> nat {
    if is_race_id(race) {
        count_where(games, |g: GameEntry| is_mirror_of(g, race))
    } else {
        0
    }
}

/// The sum of the numbers of a list.
pub open spec fn total(data: Seq<u64>) -> nat
    decreases data.len(),
{
    if data.len() == 0 {
        0
    } else {
        total(data.drop_last()) + data.last() as nat
    }
}

/// Adds up the numbers of a list.
pub fn calc_games(data: &Vec<u64>) -> (sum: u64)
    requires
        total(data@) <= u64::MAX,
    ensures
        sum == total(data@),
{
    let mut sum: u64 = 0;
    let mut i: usize = 0;
    while i < data.len()
        invariant
            i <= data@.len(),
            sum == total(data@.take(i as int)),
            total(data@) <= u64::MAX,
        decreases data@.len() - i,
    {
        assert(data@.take(i + 1).drop_last() == data@.take(i as int));
        proof {
            lemma_total_prefix(data@, i + 1);
        }
        sum = sum + data[i];
        i = i + 1;
    }
    assert(data@.take(i as int) == data@);
    sum
}

/// The numbers of a prefix add up to no more than those of the list.
pub proof fn lemma_total_prefix(data: Seq<u64>, n: int)
    requires
        0 <= n <= data.len(),
    ensures
        total(data.take(n)) <= total(data),
    decreases data.len() - n,
{
    if n < data.len() {
        lemma_total_prefix(data, n + 1);
        assert(data.take(n + 1).drop_last() == data.take(n));
    } else {
        assert(data.take(n) == data);
    }
}

/// The number of rows and columns of a table: one for each identifier
/// from 0 to 8, the first of them unused.
pub const RACE_SLOTS: usize = 9;

/// The tables of one report: for every two races the games that the first
/// won against the second and those that it lost, and for every race its
/// mirror games.
pub struct PairStatsBuilder {
    wins_by_race: Vec<Vec<u64>>,
    losses_by_race: Vec<Vec<u64>>,
    mirrors_by_race: Vec<u64>,
    counted: Ghost<Seq<GameEntry>>,
}

impl PairStatsBuilder {
    /// The games that the tables were counted from.
    pub closed spec fn games(self) -> Seq<GameEntry> {
        self.counted@
    }

    /// The tables as they stand: wins by race and opponent, losses by
    /// race and opponent, and mirror games by race.
    pub closed spec fn tables(self) -> (Seq<Seq<u64>>, Seq<Seq<u64>>, Seq<u64>) {
        (
            Seq::new(self.wins_by_race@.len(), |i: int| self.wins_by_race@[i]@),
            Seq::new(self.losses_by_race@.len(), |i: int| self.losses_by_race@[i]@),
            self.mirrors_by_race@,
        )
    }

    /// Counting the same games twice gives the same tables, number by
    /// number.
    pub proof fn lemma_tables_repeat(self, other: PairStatsBuilder)
        requires
            self.wf(),
            other.wf(),
            self.games() == other.games(),
        ensures
            self.tables() == other.tables(),
    {
        assert forall|i: int| 0 <= i < RACE_SLOTS implies self.wins_by_race@[i]@
            =~= other.wins_by_race@[i]@ by {
            assert forall|j: int| 0 <= j < RACE_SLOTS implies self.wins_by_race@[i]@[j]
                == other.wins_by_race@[i]@[j] by {}
        }
        assert forall|i: int| 0 <= i < RACE_SLOTS implies self.losses_by_race@[i]@
            =~= other.losses_by_race@[i]@ by {
            assert forall|j: int| 0 <= j < RACE_SLOTS implies self.losses_by_race@[i]@[j]
                == other.losses_by_race@[i]@[j] by {}
        }
        assert(self.tables().0 =~= other.tables().0);
        assert(self.tables().1 =~= other.tables().1);
        assert(self.tables().2 =~= other.tables().2);
    }

    /// The tables have nine rows of nine numbers, and every number is the
    /// count of `self.games()` that belongs in its place.
    pub closed spec fn wf(self) -> bool {
        &&& self.counted@.len() <= usize::MAX
        &&& self.wins_by_race@.len() == RACE_SLOTS
        &&& self.losses_by_race@.len() == RACE_SLOTS
        &&& self.mirrors_by_race@.len() == RACE_SLOTS
        &&& forall|i: int|
            0 <= i < RACE_SLOTS ==> (#[trigger] self.wins_by_race@[i])@.len() == RACE_SLOTS
        &&& forall|i: int|
            0 <= i < RACE_SLOTS ==> (#[trigger] self.losses_by_race@[i])@.len() == RACE_SLOTS
        &&& forall|race: int, opp: int|
            0 <= race < RACE_SLOTS && 0 <= opp < RACE_SLOTS ==> (
            #[trigger] self.wins_by_race@[race]@[opp]) == pair_wins(
                self.counted@,
                race as i64,
                opp as i64,
            )
        &&& forall|race: int, opp: int|
            0 <= race < RACE_SLOTS && 0 <= opp < RACE_SLOTS ==> (
            #[trigger] self.losses_by_race@[race]@[opp]) == pair_losses(
                self.counted@,
                race as i64,
                opp as i64,
            )
        &&& forall|race: int|
            0 <= race < RACE_SLOTS ==> #[trigger] self.mirrors_by_race@[race] == mirror_games(
                self.counted@,
                race as i64,
            )
    }

    /// Tables counted from no games: zero everywhere.
    pub fn new() -> (builder: PairStatsBuilder)
        ensures
            builder.wf(),
            builder.games() == Seq::<GameEntry>::empty(),
    {
        let empty: Vec<GameEntry> = Vec::new();
        assert(empty@ =~= Seq::<GameEntry>::empty());
        PairStatsBuilder {
            wins_by_race: tally_table(&empty, true),
            losses_by_race: tally_table(&empty, false),
            mirrors_by_race: tally_mirrors(&empty),
            counted: Ghost(empty@),
        }
    }

    /// Counts `games_data` anew: whatever the tables held before is
    /// replaced.
    pub fn tally(&mut self, games_data: &Vec<GameEntry>)
        ensures
            final(self).wf(),
            final(self).games() == games_data@,
    {
        assert(games_data@.len() == games_data.len());
        *self = PairStatsBuilder {
            wins_by_race: tally_table(games_data, true),
            losses_by_race: tally_table(games_data, false),
            mirrors_by_race: tally_mirrors(games_data),
            counted: Ghost(games_data@),
        };
    }

    /// The games that `race` won against `opp`; none where either is no
    /// race or both are the same.
    pub fn wins_against(&self, race: i64, opp: i64) -> (n: u64)
        requires
            self.wf(),
        ensures
            n == pair_wins(self.games(), race, opp),
    {
        if 0 <= race && race < 9 && 0 <= opp && opp < 9 {
            self.wins_by_race[race as usize][opp as usize]
        } else {
            0
        }
    }

    /// The games that `race` lost to `opp`; none where either is no race
    /// or both are the same.
    pub fn losses_against(&self, race: i64, opp: i64) -> (n: u64)
        requires
            self.wf(),
        ensures
            n == pair_losses(self.games(), race, opp),
    {
        if 0 <= race && race < 9 && 0 <= opp && opp < 9 {
            self.losses_by_race[race as usize][opp as usize]
        } else {
            0
        }
    }

    /// The mirror games of `race`; none where it is no race.
    pub fn mirrors_of(&self, race: i64) -> (n: u64)
        requires
            self.wf(),
        ensures
            n == mirror_games(self.games(), race),
    {
        if 0 <= race && race < 9 {
            self.mirrors_by_race[race as usize]
        } else {
            0
        }
    }

    /// All games that `race` won against other races.
    pub fn total_wins(&self, race: i64) -> (n: u64)
        requires
            self.wf(),
        ensures
            n == row_wins(self.games(), race),
            n <= self.games().len(),
    {
        proof {
            lemma_row_total(self.games(), race);
            lemma_count_bound(self.games(), |g: GameEntry| counts_for(g, race));
        }
        if 0 <= race && race < 9 {
            proof {
                lemma_total_nine(self.wins_by_race@[race as int]@);
            }
            calc_games(&self.wins_by_race[race as usize])
        } else {
            0
        }
    }

    /// All games that `race` lost to other races.
    pub fn total_losses(&self, race: i64) -> (n: u64)
        requires
            self.wf(),
        ensures
            n == row_losses(self.games(), race),
            n <= self.games().len(),
    {
        proof {
            lemma_row_total(self.games(), race);
            lemma_count_bound(self.games(), |g: GameEntry| counts_for(g, race));
        }
        if 0 <= race && race < 9 {
            proof {
                lemma_total_nine(self.losses_by_race@[race as int]@);
            }
            calc_games(&self.losses_by_race[race as usize])
        } else {
            0
        }
    }

    /// All games of `race`: won, lost and mirrored.
    pub fn total_games(&self, race: i64) -> (n: u64)
        requires
            self.wf(),
        ensures
            n == row_games(self.games(), race),
            n <= self.games().len(),
    {
        proof {
            lemma_row_total(self.games(), race);
            lemma_count_bound(self.games(), |g: GameEntry| counts_for(g, race));
        }
        self.total_wins(race) + self.total_losses(race) + self.mirrors_of(race)
    }

    /// The winrate of `race` over all other races. Mirror games do not
    /// count; a race without any other game has `NoGames`.
    pub fn winrate(&self, race: i64) -> (rate: WinrateType)
        requires
            self.wf(),
        ensures
            rate == race_winrate(self.games(), race),
            row_wins(self.games(), race) + row_losses(self.games(), race) == 0
                <==> rate == WinrateType::NoGames,
    {
        proof {
            lemma_row_total(self.games(), race);
            lemma_count_bound(self.games(), |g: GameEntry| counts_for(g, race));
        }
        let wins = self.total_wins(race);
        let losses = self.total_losses(race);
        calc_winrate(wins, wins + losses)
    }
}

/// The games that `race` won against all other races.
pub open spec fn row_wins(games: Seq<GameEntry>, race: i64) -> nat {
    pair_wins(games, race, 0) + pair_wins(games, race, 1) + pair_wins(games, race, 2) + pair_wins(
        games,
        race,
        3,
    ) + pair_wins(games, race, 4) + pair_wins(games, race, 5) + pair_wins(games, race, 6)
        + pair_wins(games, race, 7) + pair_wins(games, race, 8)
}

/// The games that `race` lost to all other races.
pub open spec fn row_losses(games: Seq<GameEntry>, race: i64) -> nat {
    pair_losses(games, race, 0) + pair_losses(games, race, 1) + pair_losses(games, race, 2)
        + pair_losses(games, race, 3) + pair_losses(games, race, 4) + pair_losses(games, race, 5)
        + pair_losses(games, race, 6) + pair_losses(games, race, 7) + pair_losses(games, race, 8)
}

/// The total of a race: what it won, what it lost, and its mirror games.
pub open spec fn row_games(games: Seq<GameEntry>, race: i64) -> nat {
    row_wins(games, race) + row_losses(games, race) + mirror_games(games, race)
}

/// The winrate of a race over all other races.
pub open spec fn race_winrate(games: Seq<GameEntry>, race: i64) -> WinrateType {
    winrate_of(row_wins(games, race), row_wins(games, race) + row_losses(games, race))
}

/// Whether the game is in the total of `race`: a mirror game of that
/// race, or a game with a winner between it and another of the eight
/// races.
pub open spec fn counts_for(g: GameEntry, race: i64) -> bool {
    is_race_id(race) && involves(g, race) && (is_mirror_of(g, race) || (g.decided() && is_race_id(
        g.first_player_race,
    ) && is_race_id(g.second_player_race)))
}

/// A list of nine numbers adds up to the sum of its nine entries.
pub proof fn lemma_total_nine(row: Seq<u64>)
    requires
        row.len() == 9,
    ensures
        total(row) == row[0] + row[1] + row[2] + row[3] + row[4] + row[5] + row[6] + row[7]
            + row[8],
{
    reveal_with_fuel(total, 10);
    let r8 = row.drop_last();
    let r7 = r8.drop_last();
    let r6 = r7.drop_last();
    let r5 = r6.drop_last();
    let r4 = r5.drop_last();
    let r3 = r4.drop_last();
    let r2 = r3.drop_last();
    let r1 = r2.drop_last();
    let r0 = r1.drop_last();
    assert(r0.len() == 0);
    assert(r1.last() == row[0]);
    assert(r2.last() == row[1]);
    assert(r3.last() == row[2]);
    assert(r4.last() == row[3]);
    assert(r5.last() == row[4]);
    assert(r6.last() == row[5]);
    assert(r7.last() == row[6]);
    assert(r8.last() == row[7]);
}

/// Every win of one race over another is a loss of the other to it: the
/// two tables agree.
pub proof fn lemma_wins_are_losses(games: Seq<GameEntry>, race: i64, opp: i64)
    ensures
        pair_wins(games, race, opp) == pair_losses(games, opp, race),
{
    lemma_count_agree(
        games,
        |g: GameEntry| race_won(g, race, opp),
        |g: GameEntry| race_lost(g, opp, race),
    );
}

/// Whether the game has a winner and was played between `race` and
/// another of the eight races whose identifier is below `bound`.
pub open spec fn played_below(g: GameEntry, race: i64, bound: i64) -> bool {
    &&& is_race_id(race)
    &&& g.decided()
    &&& {
        ||| g.first_player_race == race && g.second_player_race != race && is_race_id(
            g.second_player_race,
        ) && g.second_player_race < bound
        ||| g.second_player_race == race && g.first_player_race != race && is_race_id(
            g.first_player_race,
        ) && g.first_player_race < bound
    }
}

/// The games that `race` won or lost against the races whose identifier
/// is below `bound`.
pub open spec fn row_below(games: Seq<GameEntry>, race: i64, bound: i64) -> nat
    decreases bound,
{
    if bound <= 0 {
        0
    } else {
        row_below(games, race, (bound - 1) as i64) + pair_wins(games, race, (bound - 1) as i64)
            + pair_losses(games, race, (bound - 1) as i64)
    }
}

/// The wins and losses of a race against the races below a bound are the
/// games with a winner that it played against them.
pub proof fn lemma_row_below(games: Seq<GameEntry>, race: i64, bound: i64)
    requires
        0 <= bound <= RACE_SLOTS,
    ensures
        row_below(games, race, bound) == count_where(
            games,
            |g: GameEntry| played_below(g, race, bound),
        ),
    decreases bound,
{
    let after = |g: GameEntry| played_below(g, race, bound);
    if bound <= 0 {
        lemma_count_agree(games, after, |g: GameEntry| false);
        lemma_count_none(games);
    } else {
        let opp = (bound - 1) as i64;
        lemma_row_below(games, race, opp);
        let before = |g: GameEntry| played_below(g, race, opp);
        if is_race_id(race) && is_race_id(opp) && race != opp {
            let won = |g: GameEntry| race_won(g, race, opp);
            let lost = |g: GameEntry| race_lost(g, race, opp);
            let middle = |g: GameEntry| played_below(g, race, opp) || race_won(g, race, opp);
            lemma_count_split(games, before, won, middle);
            lemma_count_split(games, middle, lost, after);
        } else {
            lemma_count_agree(games, before, after);
        }
    }
}

/// The total of a race counts each of its games once: the mirror games of
/// the race, and the games with a winner that it played against another
/// of the eight races.
pub proof fn lemma_row_total(games: Seq<GameEntry>, race: i64)
    ensures
        row_games(games, race) == count_where(games, |g: GameEntry| counts_for(g, race)),
{
    reveal_with_fuel(row_below, 10);
    assert(row_below(games, race, 9) == row_wins(games, race) + row_losses(games, race));
    lemma_row_below(games, race, 9);
    let played = |g: GameEntry| played_below(g, race, 9);
    let counted = |g: GameEntry| counts_for(g, race);
    if is_race_id(race) {
        let mirror = |g: GameEntry| is_mirror_of(g, race);
        lemma_count_split(games, played, mirror, counted);
    } else {
        lemma_count_agree(games, played, counted);
    }
}

/// Where every game of a race is a mirror game or has a winner and
/// another of the eight races on the other side, the total of the race,
/// which is its wins and losses against every other race and its mirror
/// games, is the number of games in which the race was picked.
pub proof fn lemma_total_is_games_played(games: Seq<GameEntry>, race: i64)
    requires
        is_race_id(race),
        forall|i: int|
            0 <= i < games.len() && involves(#[trigger] games[i], race) ==> is_mirror_of(
                games[i],
                race,
            ) || (games[i].decided() && is_race_id(games[i].first_player_race) && is_race_id(
                games[i].second_player_race,
            )),
    ensures
        row_games(games, race) == count_where(games, |g: GameEntry| involves(g, race)),
{
    lemma_row_total(games, race);
    lemma_count_agree(
        games,
        |g: GameEntry| counts_for(g, race),
        |g: GameEntry| involves(g, race),
    );
}

/// Whether a cell of a table is one of two different races.
fn is_pair(race: usize, opp: usize) -> (b: bool)
    requires
        race < RACE_SLOTS,
        opp < RACE_SLOTS,
    ensures
        b == (is_race_id(race as i64) && is_race_id(opp as i64) && race != opp),
{
    1 <= race && race <= 8 && 1 <= opp && opp <= 8 && race != opp
}

/// One cell of a table: the games that `race` won against `opp`, or
/// those it lost.
fn tally_cell(games: &Vec<GameEntry>, race: usize, opp: usize, won: bool) -> (n: u64)
    requires
        race < RACE_SLOTS,
        opp < RACE_SLOTS,
    ensures
        n == if won {
            pair_wins(games@, race as i64, opp as i64)
        } else {
            pair_losses(games@, race as i64, opp as i64)
        },
{
    if !is_pair(race, opp) {
        return 0;
    }
    let r: i64 = race as i64;
    let o: i64 = opp as i64;
    if won {
        let f = |g: &GameEntry| -> (b: bool)
            ensures
                b == race_won(*g, r, o),
            {
                (g.first_player_race == r && g.second_player_race == o && g.result
                    == GameResult::FirstPlayerWon) || (g.first_player_race == o
                    && g.second_player_race == r && g.result == GameResult::SecondPlayerWon)
            };
        count_by(games, f, Ghost(|g: GameEntry| race_won(g, r, o)))
    } else {
        let f = |g: &GameEntry| -> (b: bool)
            ensures
                b == race_lost(*g, r, o),
            {
                (g.first_player_race == r && g.second_player_race == o && g.result
                    == GameResult::SecondPlayerWon) || (g.first_player_race == o
                    && g.second_player_race == r && g.result == GameResult::FirstPlayerWon)
            };
        count_by(games, f, Ghost(|g: GameEntry| race_lost(g, r, o)))
    }
}

/// One row of a table.
fn tally_row(games: &Vec<GameEntry>, race: usize, won: bool) -> (row: Vec<u64>)
    requires
        race < RACE_SLOTS,
    ensures
        row@.len() == RACE_SLOTS,
        forall|opp: int|
            0 <= opp < RACE_SLOTS ==> #[trigger] row@[opp] == if won {
                pair_wins(games@, race as i64, opp as i64)
            } else {
                pair_losses(games@, race as i64, opp as i64)
            },
{
    let mut row: Vec<u64> = Vec::new();
    let mut opp: usize = 0;
    while opp < RACE_SLOTS
        invariant
            race < RACE_SLOTS,
            opp <= RACE_SLOTS,
            row@.len() == opp,
            forall|k: int|
                0 <= k < opp ==> #[trigger] row@[k] == if won {
                    pair_wins(games@, race as i64, k as i64)
                } else {
                    pair_losses(games@, race as i64, k as i64)
                },
        decreases RACE_SLOTS - opp,
    {
        row.push(tally_cell(games, race, opp, won));
        opp = opp + 1;
    }
    row
}

/// A whole table.
fn tally_table(games: &Vec<GameEntry>, won: bool) -> (table: Vec<Vec<u64>>)
    ensures
        table@.len() == RACE_SLOTS,
        forall|race: int| 0 <= race < RACE_SLOTS ==> (#[trigger] table@[race])@.len() == RACE_SLOTS,
        forall|race: int, opp: int|
            0 <= race < RACE_SLOTS && 0 <= opp < RACE_SLOTS ==> (#[trigger] table@[race]@[opp])
                == if won {
                pair_wins(games@, race as i64, opp as i64)
            } else {
                pair_losses(games@, race as i64, opp as i64)
            },
{
    let mut table: Vec<Vec<u64>> = Vec::new();
    let mut race: usize = 0;
    while race < RACE_SLOTS
        invariant
            race <= RACE_SLOTS,
            table@.len() == race,
            forall|r: int| 0 <= r < race ==> (#[trigger] table@[r])@.len() == RACE_SLOTS,
            forall|r: int, opp: int|
                0 <= r < race && 0 <= opp < RACE_SLOTS ==> (#[trigger] table@[r]@[opp]) == if won {
                    pair_wins(games@, r as i64, opp as i64)
                } else {
                    pair_losses(games@, r as i64, opp as i64)
                },
        decreases RACE_SLOTS - race,
    {
        let row = tally_row(games, race, won);
        table.push(row);
        race = race + 1;
    }
    table
}

/// The mirror games of every race.
fn tally_mirrors(games: &Vec<GameEntry>) -> (mirrors: Vec<u64>)
    ensures
        mirrors@.len() == RACE_SLOTS,
        forall|race: int| 0 <= race < RACE_SLOTS ==> #[trigger] mirrors@[race] == mirror_games(games@, race as i64),
{
    let mut mirrors: Vec<u64> = Vec::new();
    let mut race: usize = 0;
    while race < RACE_SLOTS
        invariant
            race <= RACE_SLOTS,
            mirrors@.len() == race,
            forall|r: int| 0 <= r < race ==> #[trigger] mirrors@[r] == mirror_games(games@, r as i64),
        decreases RACE_SLOTS - race,
    {
        if 1 <= race && race <= 8 {
            let r: i64 = race as i64;
            let f = |g: &GameEntry| -> (b: bool)
                ensures
                    b == is_mirror_of(*g, r),
                {
                    g.first_player_race == r && g.second_player_race == r
                };
            let n = count_by(games, f, Ghost(|g: GameEntry| is_mirror_of(g, r)));
            mirrors.push(n);
        } else {
            mirrors.push(0);
        }
        race = race + 1;
    }
    mirrors
}

} // verus!
