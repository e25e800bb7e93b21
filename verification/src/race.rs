//! The bargains of each race over its opponents, and the sheets of the
//! races.
use vstd::prelude::*;
use crate::bargain_sheet::bargain_block_steps;
use crate::bargains::{
    amount_sum, amounts_in_range, bucket_amounts, bucket_losses, bucket_wins, collect_bucket,
    lemma_sum_bound, sum_amounts, BargainsGameData, Bucket,
};
use crate::error::Error;
use crate::games::GameEntry;
use crate::hero_sheet::heroes_block_steps;
use crate::layout::{join_all, join_upto};
use crate::model::{is_race_id, Hero, RaceInfo, TournamentStatsModel, MAX_GAMES};
use crate::pair::RACE_SLOTS;
use crate::rates::{calc_mean, mean_thousandths, MEAN_LIMIT};
use crate::sheet::{Sheet, SheetOpView, SheetView, Workbook};

verus! {

/// Whether an entry of the list of races is an opponent of `race`: one of
/// the eight races and not `race` itself.
pub open spec fn is_opponent(opp: RaceInfo, race: i64) -> bool {
    is_race_id(opp.id) && opp.id != race
}

/// The number of opponents of `race` among the first `n` entries of the
/// list.
pub open spec fn opponents_before(races: Seq<RaceInfo>, race: i64, n: int) -> nat
    decreases n,
{
    if n <= 0 {
        0
    } else {
        opponents_before(races, race, n - 1) + if is_opponent(races[n - 1], race) {
            1nat
        } else {
            0nat
        }
    }
}

/// The games that `race` played against `opp` in the bucket and that
/// have a winner.
pub open spec fn bucket_games(games: Seq<GameEntry>, race: i64, opp: i64, bucket: Bucket) -> nat {
    bucket_wins(games, race, opp, bucket) + bucket_losses(games, race, opp, bucket)
}

/// All that `race` bargained against `opp` in the bucket, added up.
pub open spec fn bucket_sum(games: Seq<GameEntry>, race: i64, opp: i64, bucket: Bucket) -> int {
    amount_sum(bucket_amounts(games, race, opp, bucket, true)) + amount_sum(
        bucket_amounts(games, race, opp, bucket, false),
    )
}

/// What `race` bargained against `opp` on average over the games with
/// more and with less gold, in thousandths; zero where there are none.
pub open spec fn pair_average(games: Seq<GameEntry>, race: i64, opp: i64) -> int {
    let count = bucket_games(games, race, opp, Bucket::Up) + bucket_games(
        games,
        race,
        opp,
        Bucket::Down,
    );
    let sum = bucket_sum(games, race, opp, Bucket::Up) + bucket_sum(games, race, opp, Bucket::Down);
    if count == 0 {
        0
    } else {
        mean_thousandths(sum, count)
    }
}

/// The bargains of one race over all its opponents.
#[derive(Clone, Debug, Default, PartialEq, Eq)]
pub struct RaceBargainsStats {
    /// For each opponent the average bargain, in thousandths.
    pub average_bargains: Vec<i128>,
    pub total_plus_bargain_games: u64,
    pub total_minus_bargain_games: u64,
    pub total_no_bargains_games: u64,
    pub total_plus_bargain_wins: u64,
    pub total_minus_bargain_wins: u64,
    pub total_no_bargains_wins: u64,
}

/// The bargains of one race as mathematical values.
pub struct RaceBargainsView {
    pub average_bargains: Seq<int>,
    pub total_plus_bargain_games: nat,
    pub total_minus_bargain_games: nat,
    pub total_no_bargains_games: nat,
    pub total_plus_bargain_wins: nat,
    pub total_minus_bargain_wins: nat,
    pub total_no_bargains_wins: nat,
}

impl View for RaceBargainsStats {
    type V = RaceBargainsView;

    open spec fn view(&self) -> RaceBargainsView {
        RaceBargainsView {
            average_bargains: Seq::new(
                self.average_bargains@.len(),
                |i: int| self.average_bargains@[i] as int,
            ),
            total_plus_bargain_games: self.total_plus_bargain_games as nat,
            total_minus_bargain_games: self.total_minus_bargain_games as nat,
            total_no_bargains_games: self.total_no_bargains_games as nat,
            total_plus_bargain_wins: self.total_plus_bargain_wins as nat,
            total_minus_bargain_wins: self.total_minus_bargain_wins as nat,
            total_no_bargains_wins: self.total_no_bargains_wins as nat,
        }
    }
}

impl RaceBargainsView {
    /// No opponent yet.
    pub open spec fn zero() -> RaceBargainsView {
        RaceBargainsView {
            average_bargains: Seq::empty(),
            total_plus_bargain_games: 0,
            total_minus_bargain_games: 0,
            total_no_bargains_games: 0,
            total_plus_bargain_wins: 0,
            total_minus_bargain_wins: 0,
            total_no_bargains_wins: 0,
        }
    }

    /// The totals with the games of `race` against one more opponent.
    pub open spec fn with_opponent(self, games: Seq<GameEntry>, race: i64, opp: i64) -> RaceBargainsView {
        RaceBargainsView {
            average_bargains: self.average_bargains.push(pair_average(games, race, opp)),
            total_plus_bargain_games: self.total_plus_bargain_games + bucket_games(
                games,
                race,
                opp,
                Bucket::Up,
            ),
            total_minus_bargain_games: self.total_minus_bargain_games + bucket_games(
                games,
                race,
                opp,
                Bucket::Down,
            ),
            total_no_bargains_games: self.total_no_bargains_games + bucket_games(
                games,
                race,
                opp,
                Bucket::Level,
            ),
            total_plus_bargain_wins: self.total_plus_bargain_wins + bucket_wins(
                games,
                race,
                opp,
                Bucket::Up,
            ),
            total_minus_bargain_wins: self.total_minus_bargain_wins + bucket_wins(
                games,
                race,
                opp,
                Bucket::Down,
            ),
            total_no_bargains_wins: self.total_no_bargains_wins + bucket_wins(
                games,
                race,
                opp,
                Bucket::Level,
            ),
        }
    }

    /// No total exceeds `limit`, and no average the limit of means.
    pub open spec fn within(self, limit: int) -> bool {
        &&& self.total_plus_bargain_games <= limit
        &&& self.total_minus_bargain_games <= limit
        &&& self.total_no_bargains_games <= limit
        &&& self.total_plus_bargain_wins <= self.total_plus_bargain_games
        &&& self.total_minus_bargain_wins <= self.total_minus_bargain_games
        &&& self.total_no_bargains_wins <= self.total_no_bargains_games
        &&& forall|i: int|
            0 <= i < self.average_bargains.len() ==> -MEAN_LIMIT <= #[trigger] self.average_bargains[i]
                <= MEAN_LIMIT
    }
}

/// The bargains of `race` over its opponents among the first `n` entries
/// of the list of races.
pub open spec fn bargains_upto(games: Seq<GameEntry>, races: Seq<RaceInfo>, race: i64, n: int) -> RaceBargainsView
    decreases n,
{
    if n <= 0 {
        RaceBargainsView::zero()
    } else {
        let before = bargains_upto(games, races, race, n - 1);
        if is_opponent(races[n - 1], race) {
            before.with_opponent(games, race, races[n - 1].id)
        } else {
            before
        }
    }
}

/// The bargains of `race` over all its opponents of the list.
pub open spec fn race_bargains(games: Seq<GameEntry>, races: Seq<RaceInfo>, race: i64) -> RaceBargainsView {
    bargains_upto(games, races, race, races.len() as int)
}

/// The three buckets of one race against one opponent.
pub struct OpponentBargains {
    pub plus: BargainsGameData,
    pub minus: BargainsGameData,
    pub none: BargainsGameData,
}

impl OpponentBargains {
    /// Whether these are the buckets that `games` hold for `race` against
    /// `opp`.
    pub open spec fn holds(self, games: Seq<GameEntry>, race: i64, opp: i64) -> bool {
        &&& self.plus.holds(games, race, opp, Bucket::Up)
        &&& self.minus.holds(games, race, opp, Bucket::Down)
        &&& self.none.holds(games, race, opp, Bucket::Level)
    }

    /// What the buckets need to be added up and averaged: no more games
    /// than the limit, one amount for each game with a bargain, and no
    /// amount that cannot be seen from the other side.
    pub open spec fn wf(self) -> bool {
        &&& self.plus.wins + self.plus.losses <= MAX_GAMES
        &&& self.minus.wins + self.minus.losses <= MAX_GAMES
        &&& self.none.wins + self.none.losses <= MAX_GAMES
        &&& self.plus.win_bargains@.len() == self.plus.wins
        &&& self.plus.loss_bargains@.len() == self.plus.losses
        &&& self.minus.win_bargains@.len() == self.minus.wins
        &&& self.minus.loss_bargains@.len() == self.minus.losses
        &&& forall|i: int| 0 <= i < self.plus.win_bargains@.len() ==> #[trigger] self.plus.win_bargains@[i] > i64::MIN
        &&& forall|i: int| 0 <= i < self.plus.loss_bargains@.len() ==> #[trigger] self.plus.loss_bargains@[i] > i64::MIN
        &&& forall|i: int| 0 <= i < self.minus.win_bargains@.len() ==> #[trigger] self.minus.win_bargains@[i] > i64::MIN
        &&& forall|i: int| 0 <= i < self.minus.loss_bargains@.len() ==> #[trigger] self.minus.loss_bargains@[i] > i64::MIN
    }

    /// Gathers the three buckets of `race` against `opp`.
    pub fn collect(games: &Vec<GameEntry>, race: i64, opp: i64) -> (data: OpponentBargains)
        requires
            games@.len() <= MAX_GAMES,
            amounts_in_range(games@),
        ensures
            data.holds(games@, race, opp),
            data.wf(),
    {
        OpponentBargains {
            plus: collect_bucket(games, race, opp, Bucket::Up),
            minus: collect_bucket(games, race, opp, Bucket::Down),
            none: collect_bucket(games, race, opp, Bucket::Level),
        }
    }

    /// The average bargain over the games with more and with less gold,
    /// in thousandths; zero where there are none.
    pub open spec fn spec_average(self) -> int {
        let count = self.plus.wins + self.plus.losses + self.minus.wins + self.minus.losses;
        let sum = amount_sum(self.plus.win_bargains@) + amount_sum(self.plus.loss_bargains@)
            + amount_sum(self.minus.win_bargains@) + amount_sum(self.minus.loss_bargains@);
        if count == 0 {
            0
        } else {
            mean_thousandths(sum, count as nat)
        }
    }

    /// The average bargain over the games with more and with less gold,
    /// in thousandths; zero where there are none.
    pub fn average(&self) -> (mean: i128)
        requires
            self.wf(),
        ensures
            mean == self.spec_average(),
            -MEAN_LIMIT <= mean <= MEAN_LIMIT,
    {
        let count = self.plus.wins + self.plus.losses + self.minus.wins + self.minus.losses;
        if count == 0 {
            return 0;
        }
        proof {
            lemma_sum_bound(self.plus.win_bargains@);
            lemma_sum_bound(self.plus.loss_bargains@);
            lemma_sum_bound(self.minus.win_bargains@);
            lemma_sum_bound(self.minus.loss_bargains@);
        }
        let sum = sum_amounts(&self.plus.win_bargains) + sum_amounts(&self.plus.loss_bargains)
            + sum_amounts(&self.minus.win_bargains) + sum_amounts(&self.minus.loss_bargains);
        calc_mean(sum, count)
    }
}

impl RaceBargainsStats {
    /// The bargains of a race that has met no opponent yet.
    pub fn new() -> (stats: RaceBargainsStats)
        ensures
            stats@ == RaceBargainsView::zero(),
    {
        let stats = RaceBargainsStats {
            average_bargains: Vec::new(),
            total_plus_bargain_games: 0,
            total_minus_bargain_games: 0,
            total_no_bargains_games: 0,
            total_plus_bargain_wins: 0,
            total_minus_bargain_wins: 0,
            total_no_bargains_wins: 0,
        };
        assert(stats@.average_bargains =~= Seq::<int>::empty());
        stats
    }
}

/// The bargains of every race, as far as they have been built.
pub struct RaceStatsBuilder {
    pub bargains_data: Vec<RaceBargainsStats>,
}

impl RaceStatsBuilder {
    /// There is one entry for each identifier from 0 to 8, the first of
    /// them unused.
    pub open spec fn wf(self) -> bool {
        self.bargains_data@.len() == RACE_SLOTS
    }

    /// The bargains of `race`, as far as they have been built.
    pub open spec fn stats(self, race: i64) -> RaceBargainsView {
        self.bargains_data@[race as int]@
    }

    /// A builder in which no race has met an opponent.
    pub fn new() -> (builder: RaceStatsBuilder)
        ensures
            builder.wf(),
            forall|race: i64|
                0 <= race < RACE_SLOTS ==> #[trigger] builder.stats(race) == RaceBargainsView::zero(),
    {
        let mut bargains_data: Vec<RaceBargainsStats> = Vec::new();
        let mut i: usize = 0;
        while i < RACE_SLOTS
            invariant
                i <= RACE_SLOTS,
                bargains_data@.len() == i,
                forall|k: int| 0 <= k < i ==> (#[trigger] bargains_data@[k])@ == RaceBargainsView::zero(),
            decreases RACE_SLOTS - i,
        {
            bargains_data.push(RaceBargainsStats::new());
            i = i + 1;
        }
        RaceStatsBuilder { bargains_data }
    }
}

impl Default for RaceStatsBuilder {
    /// A builder in which no race has met an opponent.
    fn default() -> (builder: RaceStatsBuilder)
        ensures
            builder.wf(),
            forall|race: i64|
                0 <= race < RACE_SLOTS ==> #[trigger] builder.stats(race) == RaceBargainsView::zero(),
    {
        RaceStatsBuilder::new()
    }
}

/// The sheet of a race: its bargains, where the tournament has them, and
/// below them its heroes; without bargains the heroes alone, from the
/// top.
pub open spec fn race_sheet_steps(
    games: Seq<GameEntry>,
    races: Seq<RaceInfo>,
    heroes: Seq<Hero>,
    race: RaceInfo,
    with_bargains: bool,
) -> Seq<SheetOpView> {
    if with_bargains {
        bargain_block_steps(games, races, race.id) + heroes_block_steps(
            games,
            races,
            heroes,
            race,
            14,
        )
    } else {
        heroes_block_steps(games, races, heroes, race, 0)
    }
}

/// Whether `race` is among the first `n` entries of the list of races.
pub open spec fn listed_before(races: Seq<RaceInfo>, race: i64, n: int) -> bool {
    exists|k: int| 0 <= k < n && (#[trigger] races[k]).id == race
}

/// The sheets of the races: one for each entry of the list that is one
/// of the eight races, under the name of the race.
pub open spec fn race_sheets(
    games: Seq<GameEntry>,
    races: Seq<RaceInfo>,
    heroes: Seq<Hero>,
    with_bargains: bool,
) -> Seq<SheetView> {
    join_all(
        races,
        |race: RaceInfo|
            if is_race_id(race.id) {
                seq![
                    SheetView {
                        name: race.name@,
                        ops: race_sheet_steps(games, races, heroes, race, with_bargains),
                    },
                ]
            } else {
                Seq::empty()
            },
    )
}

impl RaceStatsBuilder {
    /// Builds the sheet of the race at `index` of the list, if that is
    /// one of the eight races, and adds it to the workbook.
    fn build_race_sheet(
        &mut self,
        model: &TournamentStatsModel,
        index: usize,
        with_bargains: bool,
        workbook: &mut Workbook,
    )
        requires
            old(self).wf(),
            model.within_limits(),
            index < model.races@.len(),
        ensures
            final(self).wf(),
            forall|other: int|
                0 <= other < RACE_SLOTS && !(with_bargains && is_race_id(
                    model.races@[index as int].id,
                ) && other == model.races@[index as int].id) ==> final(self).bargains_data@[other]
                    == old(self).bargains_data@[other],
            with_bargains && is_race_id(model.races@[index as int].id) ==> final(self).stats(
                model.races@[index as int].id,
            ) == race_bargains(model.games@, model.races@, model.races@[index as int].id),
            final(workbook)@ == old(workbook)@ + if is_race_id(model.races@[index as int].id) {
                seq![
                    SheetView {
                        name: model.races@[index as int].name@,
                        ops: race_sheet_steps(
                            model.games@,
                            model.races@,
                            model.heroes@,
                            model.races@[index as int],
                            with_bargains,
                        ),
                    },
                ]
            } else {
                Seq::empty()
            },
    {
        let race = &model.races[index];
        if race.id < 1 || race.id > 8 {
            assert(workbook@ =~= old(workbook)@ + Seq::<SheetView>::empty());
            return ;
        }
        let mut worksheet = Sheet::new(race.name.clone());
        let mut row_offset: u32 = 0;
        if with_bargains {
            self.build_bargains_stats(race.id, &model.races, &model.games, &mut worksheet);
            row_offset = row_offset + 14;
        }
        self.build_heroes_stats(
            race,
            &model.races,
            &model.heroes,
            &model.games,
            &mut worksheet,
            row_offset,
        );
        assert(worksheet@.ops =~= race_sheet_steps(
            model.games@,
            model.races@,
            model.heroes@,
            *race,
            with_bargains,
        ));
        workbook.push_worksheet(worksheet);
        assert(workbook@ =~= old(workbook)@ + seq![
            SheetView {
                name: race.name@,
                ops: race_sheet_steps(
                    model.games@,
                    model.races@,
                    model.heroes@,
                    *race,
                    with_bargains,
                ),
            },
        ]);
    }

    /// Adds one sheet for each race of the list to the workbook: the
    /// bargains of the race, where the tournament has bargains, and its
    /// heroes. A model without tournament gives `NoTournament`, a model
    /// that is refused its refusal; either changes nothing.
    pub fn build(&mut self, model: &TournamentStatsModel, workbook: &mut Workbook) -> (res: Result<
        (),
        Error,
    >)
        requires
            old(self).wf(),
        ensures
            res is Ok <==> model.tournament is Some && model.refusal() is None,
            res matches Err(e) ==> e == (if model.tournament is None {
                Error::NoTournament
            } else {
                model.refusal()->0
            }) && *final(self) == *old(self) && *final(workbook) == *old(workbook),
            res is Ok ==> final(self).wf(),
            res is Ok ==> final(workbook)@ == old(workbook)@ + race_sheets(
                model.games@,
                model.races@,
                model.heroes@,
                model.tournament->0.with_bargains,
            ),
            res is Ok ==> forall|race: i64|
                0 <= race < RACE_SLOTS ==> #[trigger] final(self).stats(race) == if model.tournament->0.with_bargains
                    && is_race_id(race) && listed_before(
                    model.races@,
                    race,
                    model.races@.len() as int,
                ) {
                    race_bargains(model.games@, model.races@, race)
                } else {
                    old(self).stats(race)
                },
    {
        let with_bargains = match &model.tournament {
            None => {
                return Err(Error::NoTournament);
            },
            Some(tournament) => tournament.with_bargains,
        };
        match model.check() {
            Ok(()) => {},
            Err(e) => {
                return Err(e);
            },
        }
        let ghost sheet_of = |race: RaceInfo|
            if is_race_id(race.id) {
                seq![
                    SheetView {
                        name: race.name@,
                        ops: race_sheet_steps(
                            model.games@,
                            model.races@,
                            model.heroes@,
                            race,
                            with_bargains,
                        ),
                    },
                ]
            } else {
                Seq::empty()
            };
        let mut i: usize = 0;
        while i < model.races.len()
            invariant
                i <= model.races@.len(),
                self.wf(),
                model.within_limits(),
                workbook@ == old(workbook)@ + join_upto(model.races@, i as int, sheet_of),
                sheet_of == (|race: RaceInfo|
                    if is_race_id(race.id) {
                        seq![
                            SheetView {
                                name: race.name@,
                                ops: race_sheet_steps(
                                    model.games@,
                                    model.races@,
                                    model.heroes@,
                                    race,
                                    with_bargains,
                                ),
                            },
                        ]
                    } else {
                        Seq::empty()
                    }),
                forall|race: i64|
                    0 <= race < RACE_SLOTS ==> #[trigger] self.stats(race) == if with_bargains
                        && is_race_id(race) && listed_before(model.races@, race, i as int) {
                        race_bargains(model.games@, model.races@, race)
                    } else {
                        old(self).stats(race)
                    },
            decreases model.races@.len() - i,
        {
            let ghost before = *self;
            self.build_race_sheet(model, i, with_bargains, workbook);
            assert(workbook@ =~= old(workbook)@ + join_upto(model.races@, i + 1, sheet_of));
            assert forall|race: i64| 0 <= race < RACE_SLOTS implies #[trigger] self.stats(race)
                == if with_bargains && is_race_id(race) && listed_before(
                model.races@,
                race,
                i + 1,
            ) {
                race_bargains(model.games@, model.races@, race)
            } else {
                old(self).stats(race)
            } by {
                let here = model.races@[i as int].id;
                if race == here {
                    assert(model.races@[i as int].id == race);
                    assert(listed_before(model.races@, race, i + 1));
                    if !(with_bargains && is_race_id(race)) {
                        assert(self.bargains_data@[race as int] == before.bargains_data@[race as int]);
                        assert(self.stats(race) == before.stats(race));
                    }
                } else {
                    assert(self.bargains_data@[race as int] == before.bargains_data@[race as int]);
                    assert(self.stats(race) == before.stats(race));
                    if listed_before(model.races@, race, i + 1) {
                        let k = choose|k: int| 0 <= k < i + 1 && (#[trigger] model.races@[k]).id == race;
                        assert(k < i);
                        assert(listed_before(model.races@, race, i as int));
                    }
                    if listed_before(model.races@, race, i as int) {
                        let k = choose|k: int| 0 <= k < i && (#[trigger] model.races@[k]).id == race;
                        assert(model.races@[k].id == race);
                        assert(listed_before(model.races@, race, i + 1));
                    }
                }
            }
            i = i + 1;
        }
        Ok(())
    }
}

} // verus!
