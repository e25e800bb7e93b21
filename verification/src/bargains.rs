//! Bargains as one race saw them against another: how often it played
//! with more gold, with less, or without bargain, how those games ended,
//! and how much was bargained.
use vstd::prelude::*;
use crate::games::{GameEntry, GameResult, Side};
use crate::pair::{race_lost, race_won};
use crate::rates::AMOUNT_MAX;
use crate::tally::count_where;

verus! {

/// How a race came out of the bargaining of a game.
#[derive(Clone, Copy, Debug, PartialEq, Eq, Structural)]
pub enum Bucket {
    /// The race played with more gold.
    Up,
    /// The race played with less gold.
    Down,
    /// Both sides declined: the bargain was zero.
    Level,
}

/// The bucket of a bargain as a race saw it.
pub open spec fn bucket_of(amount: int) -> Bucket {
    if amount > 0 {
        Bucket::Up
    } else if amount < 0 {
        Bucket::Down
    } else {
        Bucket::Level
    }
}

/// The seat of `race` in a game between `race` and `opp`.
pub open spec fn seat_of(g: GameEntry, race: i64, opp: i64) -> Option<Side> {
    if g.first_player_race == race && g.second_player_race == opp {
        Some(Side::First)
    } else if g.second_player_race == race && g.first_player_race == opp {
        Some(Side::Second)
    } else {
        None
    }
}

/// The bargain of a game as `race` saw it against another race `opp`:
/// the stored amount where `race` sat first, its negation where it sat
/// second. Mirror games, games of other races and games without bargain
/// have none.
pub open spec fn bargain_seen(g: GameEntry, race: i64, opp: i64) -> Option<int> {
    if race == opp {
        None
    } else {
        match seat_of(g, race, opp) {
            Some(side) => g.amount_for(side),
            None => None,
        }
    }
}

/// Whether `race` played the game against `opp` in the bucket.
pub open spec fn in_bucket(g: GameEntry, race: i64, opp: i64, bucket: Bucket) -> bool {
    bargain_seen(g, race, opp) matches Some(amount) && bucket_of(amount) == bucket
}

/// A game that `race` played against another race with a bargain falls
/// into exactly one bucket; a mirror game, a game without bargain and a
/// game of other races fall into none.
pub proof fn lemma_one_bucket(g: GameEntry, race: i64, opp: i64)
    ensures
        bargain_seen(g, race, opp) is Some <==> in_bucket(g, race, opp, Bucket::Up) || in_bucket(
            g,
            race,
            opp,
            Bucket::Down,
        ) || in_bucket(g, race, opp, Bucket::Level),
        forall|a: Bucket, b: Bucket|
            in_bucket(g, race, opp, a) && in_bucket(g, race, opp, b) ==> a == b,
        race == opp || g.bargains_amount is None || seat_of(g, race, opp) is None ==> forall|
            a: Bucket,
        | !in_bucket(g, race, opp, a),
{
}

/// What is more gold for one race is less gold for the other.
pub proof fn lemma_buckets_mirror(g: GameEntry, race: i64, opp: i64)
    requires
        race != opp,
    ensures
        in_bucket(g, race, opp, Bucket::Up) <==> in_bucket(g, opp, race, Bucket::Down),
        in_bucket(g, race, opp, Bucket::Level) <==> in_bucket(g, opp, race, Bucket::Level),
{
}

/// Whether `race` won the game against `opp` in the bucket.
pub open spec fn bucket_win(g: GameEntry, race: i64, opp: i64, bucket: Bucket) -> bool {
    in_bucket(g, race, opp, bucket) && race_won(g, race, opp)
}

/// Whether `race` lost the game to `opp` in the bucket.
pub open spec fn bucket_loss(g: GameEntry, race: i64, opp: i64, bucket: Bucket) -> bool {
    in_bucket(g, race, opp, bucket) && race_lost(g, race, opp)
}

/// The games that `race` won against `opp` in the bucket.
pub open spec fn bucket_wins(games: Seq<GameEntry>, race: i64, opp: i64, bucket: Bucket) -> nat {
    count_where(games, |g: GameEntry| bucket_win(g, race, opp, bucket))
}

/// The games that `race` lost to `opp` in the bucket.
pub open spec fn bucket_losses(games: Seq<GameEntry>, race: i64, opp: i64, bucket: Bucket) -> nat {
    count_where(games, |g: GameEntry| bucket_loss(g, race, opp, bucket))
}

/// The bargains, as `race` saw them, of the games that it won against
/// `opp` in the bucket (`won`) or lost, in the order of the games.
pub open spec fn bucket_amounts(
    games: Seq<GameEntry>,
    race: i64,
    opp: i64,
    bucket: Bucket,
    won: bool,
) -> Seq<i64>
    decreases games.len(),
{
    if games.len() == 0 {
        Seq::empty()
    } else {
        let before = bucket_amounts(games.drop_last(), race, opp, bucket, won);
        let g = games.last();
        if (won && bucket_win(g, race, opp, bucket)) || (!won && bucket_loss(g, race, opp, bucket)) {
            before.push(bargain_seen(g, race, opp)->0 as i64)
        } else {
            before
        }
    }
}

/// The games of one bucket of a race against an opponent: wins, losses,
/// and the bargains of both.
#[derive(Clone, Debug, Default, PartialEq, Eq)]
pub struct BargainsGameData {
    pub wins: u64,
    pub losses: u64,
    pub win_bargains: Vec<i64>,
    pub loss_bargains: Vec<i64>,
}

impl BargainsGameData {
    /// Whether this is what `games` hold for `race` against `opp` in the
    /// bucket. The bucket without bargain keeps no amounts: they are all
    /// zero.
    pub open spec fn holds(
        self,
        games: Seq<GameEntry>,
        race: i64,
        opp: i64,
        bucket: Bucket,
    ) -> bool {
        &&& self.wins == bucket_wins(games, race, opp, bucket)
        &&& self.losses == bucket_losses(games, race, opp, bucket)
        &&& self.win_bargains@ == if bucket == Bucket::Level {
            Seq::<i64>::empty()
        } else {
            bucket_amounts(games, race, opp, bucket, true)
        }
        &&& self.loss_bargains@ == if bucket == Bucket::Level {
            Seq::<i64>::empty()
        } else {
            bucket_amounts(games, race, opp, bucket, false)
        }
    }
}

/// Every bargain of the games can be seen from the other side.
pub open spec fn amounts_in_range(games: Seq<GameEntry>) -> bool {
    forall|i: int| 0 <= i < games.len() ==> (#[trigger] games[i]).amount_in_range()
}

/// The bargain of a game as `race` saw it against `opp`.
pub fn seen_amount(g: &GameEntry, race: i64, opp: i64) -> (seen: Option<i64>)
    requires
        g.amount_in_range(),
    ensures
        seen is Some <==> bargain_seen(*g, race, opp) is Some,
        seen matches Some(amount) ==> amount == bargain_seen(*g, race, opp)->0 && amount
            > i64::MIN,
{
    if race == opp {
        return None;
    }
    match g.bargains_amount {
        None => None,
        Some(amount) => {
            if g.first_player_race == race && g.second_player_race == opp {
                Some(amount)
            } else if g.second_player_race == race && g.first_player_race == opp {
                Some(-amount)
            } else {
                None
            }
        },
    }
}

/// Whether an amount falls into a bucket.
fn falls_into(amount: i64, bucket: Bucket) -> (b: bool)
    ensures
        b == (bucket_of(amount as int) == bucket),
{
    match bucket {
        Bucket::Up => amount > 0,
        Bucket::Down => amount < 0,
        Bucket::Level => amount == 0,
    }
}

/// Gathers the games that `race` played against `opp` in one bucket.
pub fn collect_bucket(games: &Vec<GameEntry>, race: i64, opp: i64, bucket: Bucket) -> (data:
    BargainsGameData)
    requires
        amounts_in_range(games@),
    ensures
        data.holds(games@, race, opp, bucket),
        data.wins + data.losses <= games@.len(),
        bucket != Bucket::Level ==> data.win_bargains@.len() == data.wins
            && data.loss_bargains@.len() == data.losses,
        forall|i: int| 0 <= i < data.win_bargains@.len() ==> #[trigger] data.win_bargains@[i] > i64::MIN,
        forall|i: int| 0 <= i < data.loss_bargains@.len() ==> #[trigger] data.loss_bargains@[i] > i64::MIN,
{
    let mut data = BargainsGameData {
        wins: 0,
        losses: 0,
        win_bargains: Vec::new(),
        loss_bargains: Vec::new(),
    };
    let mut i: usize = 0;
    while i < games.len()
        invariant
            i <= games@.len(),
            amounts_in_range(games@),
            data.holds(games@.take(i as int), race, opp, bucket),
            data.wins + data.losses <= i,
            bucket != Bucket::Level ==> data.win_bargains@.len() == data.wins
                && data.loss_bargains@.len() == data.losses,
            forall|k: int|
                0 <= k < data.win_bargains@.len() ==> #[trigger] data.win_bargains@[k] > i64::MIN,
            forall|k: int|
                0 <= k < data.loss_bargains@.len() ==> #[trigger] data.loss_bargains@[k] > i64::MIN,
        decreases games@.len() - i,
    {
        assert(games@.take(i + 1).drop_last() == games@.take(i as int));
        let g = &games[i];
        match seen_amount(g, race, opp) {
            Some(amount) => {
                if falls_into(amount, bucket) {
                    let first = g.first_player_race == race;
                    let won = (first && g.result == GameResult::FirstPlayerWon) || (!first
                        && g.result == GameResult::SecondPlayerWon);
                    let lost = (first && g.result == GameResult::SecondPlayerWon) || (!first
                        && g.result == GameResult::FirstPlayerWon);
                    if won {
                        data.wins = data.wins + 1;
                        if bucket != Bucket::Level {
                            data.win_bargains.push(amount);
                        }
                    } else if lost {
                        data.losses = data.losses + 1;
                        if bucket != Bucket::Level {
                            data.loss_bargains.push(amount);
                        }
                    }
                }
            },
            None => {},
        }
        i = i + 1;
    }
    assert(games@.take(i as int) == games@);
    data
}

/// The sum of amounts.
pub open spec fn amount_sum(amounts: Seq<i64>) -> int
    decreases amounts.len(),
{
    if amounts.len() == 0 {
        0
    } else {
        amount_sum(amounts.drop_last()) + amounts.last()
    }
}

/// Adds amounts up.
pub fn sum_amounts(amounts: &Vec<i64>) -> (sum: i128)
    ensures
        sum == amount_sum(amounts@),
{
    let mut sum: i128 = 0;
    let mut i: usize = 0;
    while i < amounts.len()
        invariant
            i <= amounts@.len(),
            sum == amount_sum(amounts@.take(i as int)),
            -(i * 0x8000_0000_0000_0000) <= sum <= i * 0x8000_0000_0000_0000,
        decreases amounts@.len() - i,
    {
        assert(amounts@.take(i + 1).drop_last() == amounts@.take(i as int));
        sum = sum + (amounts[i] as i128);
        i = i + 1;
    }
    assert(amounts@.take(i as int) == amounts@);
    sum
}

/// The sum of amounts that each have a magnitude of at most `AMOUNT_MAX`
/// has a magnitude of at most so many times `AMOUNT_MAX`.
pub proof fn lemma_sum_bound(amounts: Seq<i64>)
    requires
        forall|i: int| 0 <= i < amounts.len() ==> #[trigger] amounts[i] > i64::MIN,
    ensures
        -(amounts.len() * AMOUNT_MAX) <= amount_sum(amounts) <= amounts.len() * AMOUNT_MAX,
    decreases amounts.len(),
{
    if amounts.len() > 0 {
        lemma_sum_bound(amounts.drop_last());
        assert(amounts.last() == amounts[amounts.len() - 1]);
    }
}

/// The greatest of the amounts.
pub open spec fn greatest(amounts: Seq<i64>) -> Option<i64>
    decreases amounts.len(),
{
    if amounts.len() == 0 {
        None
    } else {
        match greatest(amounts.drop_last()) {
            None => Some(amounts.last()),
            Some(best) => if amounts.last() > best {
                Some(amounts.last())
            } else {
                Some(best)
            },
        }
    }
}

/// The least of the amounts.
pub open spec fn least(amounts: Seq<i64>) -> Option<i64>
    decreases amounts.len(),
{
    if amounts.len() == 0 {
        None
    } else {
        match least(amounts.drop_last()) {
            None => Some(amounts.last()),
            Some(best) => if amounts.last() < best {
                Some(amounts.last())
            } else {
                Some(best)
            },
        }
    }
}

/// `greatest` gives an amount of the list that none of the list exceeds,
/// and nothing only for the empty list.
pub proof fn lemma_greatest(amounts: Seq<i64>)
    ensures
        greatest(amounts) is None <==> amounts.len() == 0,
        greatest(amounts) matches Some(best) ==> amounts.contains(best) && forall|i: int|
            0 <= i < amounts.len() ==> #[trigger] amounts[i] <= best,
    decreases amounts.len(),
{
    if amounts.len() > 0 {
        let front = amounts.drop_last();
        lemma_greatest(front);
        let best = greatest(amounts)->0;
        if best == amounts.last() {
            assert(amounts[amounts.len() - 1] == best);
        } else {
            let k = choose|k: int| 0 <= k < front.len() && front[k] == best;
            assert(amounts[k] == best);
        }
        assert forall|i: int| 0 <= i < amounts.len() implies #[trigger] amounts[i] <= best by {
            if i < front.len() {
                assert(front[i] == amounts[i]);
            }
        }
    }
}

/// `least` gives an amount of the list that none of the list falls
/// below, and nothing only for the empty list.
pub proof fn lemma_least(amounts: Seq<i64>)
    ensures
        least(amounts) is None <==> amounts.len() == 0,
        least(amounts) matches Some(best) ==> amounts.contains(best) && forall|i: int|
            0 <= i < amounts.len() ==> #[trigger] amounts[i] >= best,
    decreases amounts.len(),
{
    if amounts.len() > 0 {
        let front = amounts.drop_last();
        lemma_least(front);
        let best = least(amounts)->0;
        if best == amounts.last() {
            assert(amounts[amounts.len() - 1] == best);
        } else {
            let k = choose|k: int| 0 <= k < front.len() && front[k] == best;
            assert(amounts[k] == best);
        }
        assert forall|i: int| 0 <= i < amounts.len() implies #[trigger] amounts[i] >= best by {
            if i < front.len() {
                assert(front[i] == amounts[i]);
            }
        }
    }
}

/// The greatest bargain among those of the won and of the lost games;
/// nothing where there are none.
pub fn get_max_bargain(win_bargains: &Vec<i64>, loss_bargains: &Vec<i64>) -> (res: Option<i64>)
    ensures
        res == greatest(win_bargains@ + loss_bargains@),
        res is None <==> win_bargains@.len() + loss_bargains@.len() == 0,
        res matches Some(best) ==> (win_bargains@ + loss_bargains@).contains(best) && forall|
            i: int,
        |
            0 <= i < (win_bargains@ + loss_bargains@).len() ==> (#[trigger] (win_bargains@
                + loss_bargains@)[i]) <= best,
{
    let ghost all = win_bargains@ + loss_bargains@;
    let mut best: Option<i64> = None;
    let mut i: usize = 0;
    while i < win_bargains.len()
        invariant
            i <= win_bargains@.len(),
            all == win_bargains@ + loss_bargains@,
            best == greatest(all.take(i as int)),
        decreases win_bargains@.len() - i,
    {
        assert(all.take(i + 1).drop_last() == all.take(i as int));
        let amount = win_bargains[i];
        best = match best {
            None => Some(amount),
            Some(b) => if amount > b {
                Some(amount)
            } else {
                Some(b)
            },
        };
        i = i + 1;
    }
    let mut j: usize = 0;
    while j < loss_bargains.len()
        invariant
            j <= loss_bargains@.len(),
            all == win_bargains@ + loss_bargains@,
            best == greatest(all.take(win_bargains@.len() + j)),
        decreases loss_bargains@.len() - j,
    {
        assert(all.take(win_bargains@.len() + j + 1).drop_last() == all.take(
            win_bargains@.len() + j,
        ));
        let amount = loss_bargains[j];
        best = match best {
            None => Some(amount),
            Some(b) => if amount > b {
                Some(amount)
            } else {
                Some(b)
            },
        };
        j = j + 1;
    }
    assert(all.take(all.len() as int) == all);
    proof {
        lemma_greatest(all);
    }
    best
}

/// The least bargain among those of the won and of the lost games;
/// nothing where there are none.
pub fn get_min_bargain(win_bargains: &Vec<i64>, loss_bargains: &Vec<i64>) -> (res: Option<i64>)
    ensures
        res == least(win_bargains@ + loss_bargains@),
        res is None <==> win_bargains@.len() + loss_bargains@.len() == 0,
        res matches Some(best) ==> (win_bargains@ + loss_bargains@).contains(best) && forall|
            i: int,
        |
            0 <= i < (win_bargains@ + loss_bargains@).len() ==> (#[trigger] (win_bargains@
                + loss_bargains@)[i]) >= best,
{
    let ghost all = win_bargains@ + loss_bargains@;
    let mut best: Option<i64> = None;
    let mut i: usize = 0;
    while i < win_bargains.len()
        invariant
            i <= win_bargains@.len(),
            all == win_bargains@ + loss_bargains@,
            best == least(all.take(i as int)),
        decreases win_bargains@.len() - i,
    {
        assert(all.take(i + 1).drop_last() == all.take(i as int));
        let amount = win_bargains[i];
        best = match best {
            None => Some(amount),
            Some(b) => if amount < b {
                Some(amount)
            } else {
                Some(b)
            },
        };
        i = i + 1;
    }
    let mut j: usize = 0;
    while j < loss_bargains.len()
        invariant
            j <= loss_bargains@.len(),
            all == win_bargains@ + loss_bargains@,
            best == least(all.take(win_bargains@.len() + j)),
        decreases loss_bargains@.len() - j,
    {
        assert(all.take(win_bargains@.len() + j + 1).drop_last() == all.take(
            win_bargains@.len() + j,
        ));
        let amount = loss_bargains[j];
        best = match best {
            None => Some(amount),
            Some(b) => if amount < b {
                Some(amount)
            } else {
                Some(b)
            },
        };
        j = j + 1;
    }
    assert(all.take(all.len() as int) == all);
    proof {
        lemma_least(all);
    }
    best
}

} // verus!
