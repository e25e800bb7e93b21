//! What the sheets share: lists put together item by item, and the choice
//! of the entry to highlight.
use vstd::prelude::*;

verus! {

/// What `f` gives for the first `n` items, one item's yield after the
/// other's.
pub open spec fn join_upto<T, U>(items: Seq<T>, n: int, f: spec_fn(T) -> Seq<U>) -> Seq<U>
    decreases n,
{
    if n <= 0 {
        Seq::empty()
    } else {
        join_upto(items, n - 1, f) + f(items[n - 1])
    }
}

/// What `f` gives for all items, one item's yield after the other's.
pub open spec fn join_all<T, U>(items: Seq<T>, f: spec_fn(T) -> Seq<U>) -> Seq<U> {
    join_upto(items, items.len() as int, f)
}

/// What `f` gives for the numbers from 0 up to `n`, one number's yield
/// after the other's.
pub open spec fn join_range<U>(n: int, f: spec_fn(int) -> Seq<U>) -> Seq<U>
    decreases n,
{
    if n <= 0 {
        Seq::empty()
    } else {
        join_range(n - 1, f) + f(n - 1)
    }
}

/// What the first items give is the beginning of what more items give:
/// it is no longer.
pub proof fn lemma_join_grows<T, U>(items: Seq<T>, n: int, m: int, f: spec_fn(T) -> Seq<U>)
    requires
        n <= m,
    ensures
        join_upto(items, n, f).len() <= join_upto(items, m, f).len(),
    decreases m - n,
{
    if n < m {
        lemma_join_grows(items, n, m - 1, f);
    }
}

/// What one item yields is part of what all items yield.
pub proof fn lemma_join_contains<T, U>(items: Seq<T>, n: int, f: spec_fn(T) -> Seq<U>, k: int, x: U)
    requires
        0 <= k < n <= items.len(),
        f(items[k]).contains(x),
    ensures
        join_upto(items, n, f).contains(x),
    decreases n,
{
    let before = join_upto(items, n - 1, f);
    let last = f(items[n - 1]);
    if k < n - 1 {
        lemma_join_contains(items, n - 1, f, k, x);
        let i = choose|i: int| 0 <= i < before.len() && before[i] == x;
        assert(join_upto(items, n, f)[i] == x);
    } else {
        let i = choose|i: int| 0 <= i < last.len() && last[i] == x;
        assert(join_upto(items, n, f)[before.len() + i] == x);
    }
}

/// What one number yields is part of what all numbers yield.
pub proof fn lemma_join_range_contains<U>(n: int, f: spec_fn(int) -> Seq<U>, k: int, x: U)
    requires
        0 <= k < n,
        f(k).contains(x),
    ensures
        join_range(n, f).contains(x),
    decreases n,
{
    let before = join_range(n - 1, f);
    let last = f(n - 1);
    if k < n - 1 {
        lemma_join_range_contains(n - 1, f, k, x);
        let i = choose|i: int| 0 <= i < before.len() && before[i] == x;
        assert(join_range(n, f)[i] == x);
    } else {
        let i = choose|i: int| 0 <= i < last.len() && last[i] == x;
        assert(join_range(n, f)[before.len() + i] == x);
    }
}

/// Where every item yields only entries of which `p` holds, `p` holds of
/// every entry put together.
pub proof fn lemma_join_all_satisfy<T, U>(
    items: Seq<T>,
    n: int,
    f: spec_fn(T) -> Seq<U>,
    p: spec_fn(U) -> bool,
)
    requires
        0 <= n <= items.len(),
        forall|k: int, j: int|
            0 <= k < n && 0 <= j < f(items[k]).len() ==> p(#[trigger] f(items[k])[j]),
    ensures
        forall|i: int| 0 <= i < join_upto(items, n, f).len() ==> p(#[trigger] join_upto(items, n, f)[i]),
    decreases n,
{
    if n > 0 {
        lemma_join_all_satisfy(items, n - 1, f, p);
        let before = join_upto(items, n - 1, f);
        let last = f(items[n - 1]);
        assert forall|i: int| 0 <= i < join_upto(items, n, f).len() implies p(
            #[trigger] join_upto(items, n, f)[i],
        ) by {
            if i >= before.len() {
                assert(join_upto(items, n, f)[i] == last[i - before.len()]);
            }
        }
    }
}

/// The place of the greatest of the first `n` keys, the earliest where
/// several are equal; places without a key are passed over.
pub open spec fn first_max(keys: Seq<Option<u64>>, n: int) -> Option<int>
    decreases n,
{
    if n <= 0 {
        None
    } else {
        let before = first_max(keys, n - 1);
        match keys[n - 1] {
            None => before,
            Some(key) => match before {
                None => Some(n - 1),
                Some(best) => if key > keys[best]->0 {
                    Some(n - 1)
                } else {
                    before
                },
            },
        }
    }
}

/// The place of the least of the first `n` keys, the earliest where
/// several are equal; places without a key are passed over.
pub open spec fn first_min(keys: Seq<Option<u64>>, n: int) -> Option<int>
    decreases n,
{
    if n <= 0 {
        None
    } else {
        let before = first_min(keys, n - 1);
        match keys[n - 1] {
            None => before,
            Some(key) => match before {
                None => Some(n - 1),
                Some(best) => if key < keys[best]->0 {
                    Some(n - 1)
                } else {
                    before
                },
            },
        }
    }
}

/// What `first_max` picks has a key that no other key exceeds and that
/// no earlier key reaches; it picks nothing only where there is no key.
pub proof fn lemma_first_max(keys: Seq<Option<u64>>, n: int)
    requires
        0 <= n <= keys.len(),
    ensures
        match first_max(keys, n) {
            Some(best) => {
                &&& 0 <= best < n
                &&& keys[best] is Some
                &&& forall|i: int| 0 <= i < n && (#[trigger] keys[i]) is Some ==> keys[i]->0 <= keys[best]->0
                &&& forall|i: int| 0 <= i < best && (#[trigger] keys[i]) is Some ==> keys[i]->0 < keys[best]->0
            },
            None => forall|i: int| 0 <= i < n ==> (#[trigger] keys[i]) is None,
        },
    decreases n,
{
    if n > 0 {
        lemma_first_max(keys, n - 1);
    }
}

/// What `first_min` picks has a key that no other key falls below and
/// that no earlier key reaches; it picks nothing only where there is no
/// key.
pub proof fn lemma_first_min(keys: Seq<Option<u64>>, n: int)
    requires
        0 <= n <= keys.len(),
    ensures
        match first_min(keys, n) {
            Some(best) => {
                &&& 0 <= best < n
                &&& keys[best] is Some
                &&& forall|i: int| 0 <= i < n && (#[trigger] keys[i]) is Some ==> keys[i]->0 >= keys[best]->0
                &&& forall|i: int| 0 <= i < best && (#[trigger] keys[i]) is Some ==> keys[i]->0 > keys[best]->0
            },
            None => forall|i: int| 0 <= i < n ==> (#[trigger] keys[i]) is None,
        },
    decreases n,
{
    if n > 0 {
        lemma_first_min(keys, n - 1);
    }
}

/// The place of the greatest key, the earliest where several are equal.
pub fn find_first_max(keys: &Vec<Option<u64>>) -> (found: Option<usize>)
    ensures
        found is Some <==> first_max(keys@, keys@.len() as int) is Some,
        found matches Some(i) ==> first_max(keys@, keys@.len() as int) == Some(i as int) && i
            < keys@.len() && keys@[i as int] is Some,
{
    let mut found: Option<usize> = None;
    let mut best: u64 = 0;
    let mut i: usize = 0;
    while i < keys.len()
        invariant
            i <= keys@.len(),
            found is Some <==> first_max(keys@, i as int) is Some,
            found matches Some(k) ==> first_max(keys@, i as int) == Some(k as int) && k < i
                && keys@[k as int] == Some(best),
        decreases keys@.len() - i,
    {
        match keys[i] {
            None => {},
            Some(key) => {
                if found.is_none() || key > best {
                    found = Some(i);
                    best = key;
                }
            },
        }
        i = i + 1;
    }
    found
}

/// The place of the least key, the earliest where several are equal.
pub fn find_first_min(keys: &Vec<Option<u64>>) -> (found: Option<usize>)
    ensures
        found is Some <==> first_min(keys@, keys@.len() as int) is Some,
        found matches Some(i) ==> first_min(keys@, keys@.len() as int) == Some(i as int) && i
            < keys@.len() && keys@[i as int] is Some,
{
    let mut found: Option<usize> = None;
    let mut best: u64 = 0;
    let mut i: usize = 0;
    while i < keys.len()
        invariant
            i <= keys@.len(),
            found is Some <==> first_min(keys@, i as int) is Some,
            found matches Some(k) ==> first_min(keys@, i as int) == Some(k as int) && k < i
                && keys@[k as int] == Some(best),
        decreases keys@.len() - i,
    {
        match keys[i] {
            None => {},
            Some(key) => {
                if found.is_none() || key < best {
                    found = Some(i);
                    best = key;
                }
            },
        }
        i = i + 1;
    }
    found
}

} // verus!
