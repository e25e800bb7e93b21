//! Counting the entries of a list that meet a condition.
use vstd::prelude::*;

verus! {

/// The number of entries of `items` for which `p` holds.
pub open spec fn count_where<T>(items: Seq<T>, p: spec_fn(T) -> bool) -> nat
    decreases items.len(),
{
    if items.len() == 0 {
        0
    } else {
        count_where(items.drop_last(), p) + if p(items.last()) {
            1nat
        } else {
            0nat
        }
    }
}

/// No more entries are counted than the list holds.
pub proof fn lemma_count_bound<T>(items: Seq<T>, p: spec_fn(T) -> bool)
    ensures
        count_where(items, p) <= items.len(),
    decreases items.len(),
{
    if items.len() > 0 {
        lemma_count_bound(items.drop_last(), p);
    }
}

/// A condition that never holds counts nothing.
pub proof fn lemma_count_none<T>(items: Seq<T>)
    ensures
        count_where(items, |x: T| false) == 0,
    decreases items.len(),
{
    if items.len() > 0 {
        lemma_count_none(items.drop_last());
    }
}

/// Two conditions that agree on every entry of the list count the same.
pub proof fn lemma_count_agree<T>(items: Seq<T>, p: spec_fn(T) -> bool, q: spec_fn(T) -> bool)
    requires
        forall|i: int| 0 <= i < items.len() ==> p(#[trigger] items[i]) == q(items[i]),
    ensures
        count_where(items, p) == count_where(items, q),
    decreases items.len(),
{
    if items.len() > 0 {
        lemma_count_agree(items.drop_last(), p, q);
    }
}

/// A condition that implies another counts no more entries.
pub proof fn lemma_count_implies<T>(items: Seq<T>, p: spec_fn(T) -> bool, q: spec_fn(T) -> bool)
    requires
        forall|i: int| 0 <= i < items.len() ==> (p(#[trigger] items[i]) ==> q(items[i])),
    ensures
        count_where(items, p) <= count_where(items, q),
    decreases items.len(),
{
    if items.len() > 0 {
        lemma_count_implies(items.drop_last(), p, q);
    }
}

/// Two conditions that no entry of the list meets together count, added
/// up, what their disjunction counts.
pub proof fn lemma_count_split<T>(
    items: Seq<T>,
    p: spec_fn(T) -> bool,
    q: spec_fn(T) -> bool,
    both: spec_fn(T) -> bool,
)
    requires
        forall|i: int| 0 <= i < items.len() ==> !(p(#[trigger] items[i]) && q(items[i])),
        forall|i: int|
            0 <= i < items.len() ==> both(#[trigger] items[i]) == (p(items[i]) || q(items[i])),
    ensures
        count_where(items, p) + count_where(items, q) == count_where(items, both),
    decreases items.len(),
{
    if items.len() > 0 {
        lemma_count_split(items.drop_last(), p, q, both);
    }
}

/// Counts the entries for which `f` answers yes; `p` is what `f` decides.
pub(crate) fn count_by<T, F: Fn(&T) -> bool>(
    items: &Vec<T>,
    f: F,
    Ghost(p): Ghost<spec_fn(T) -> bool>,
) -> (n: u64)
    requires
        forall|x: &T| call_requires(f, (x,)),
        forall|x: &T, b: bool| call_ensures(f, (x,), b) ==> b == p(*x),
    ensures
        n == count_where(items@, p),
        n <= items@.len(),
{
    let mut n: u64 = 0;
    let mut i: usize = 0;
    while i < items.len()
        invariant
            i <= items.len(),
            n == count_where(items@.take(i as int), p),
            n <= i,
            forall|x: &T| call_requires(f, (x,)),
            forall|x: &T, b: bool| call_ensures(f, (x,), b) ==> b == p(*x),
        decreases items.len() - i,
    {
        assert(items@.take(i + 1).drop_last() == items@.take(i as int));
        if f(&items[i]) {
            n = n + 1;
        }
        i = i + 1;
    }
    assert(items@.take(i as int) == items@);
    n
}

} // verus!
