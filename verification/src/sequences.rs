//! Facts about filtered and mapped sequences, and the scan that keeps the
//! unmarked items of a vector.

use vstd::prelude::*;

verus! {

/// What holds of every item of a sequence holds of every item that a filter
/// keeps.
pub(crate) proof fn lemma_filter_keeps<T>(
    items: Seq<T>,
    keep: spec_fn(T) -> bool,
    holds: spec_fn(T) -> bool,
)
    requires
        forall|i: int| 0 <= i < items.len() ==> holds(#[trigger] items[i]),
    ensures
        forall|i: int|
            0 <= i < items.filter(keep).len() ==> holds(#[trigger] items.filter(keep)[i]),
{
    let kept = items.filter(keep);
    assert forall|i: int| 0 <= i < kept.len() implies holds(#[trigger] kept[i]) by {
        assert(kept.contains(kept[i]));
        items.lemma_filter_contains_rev(keep, kept[i]);
        let j = choose|j: int| 0 <= j < items.len() && items[j] == kept[i];
        assert(holds(items[j]));
    }
}

/// A filter that keeps everything changes nothing.
pub(crate) proof fn lemma_filter_all<T>(items: Seq<T>)
    ensures
        items.filter(|item: T| true) == items,
    decreases items.len(),
{
    reveal(Seq::filter);
    if items.len() > 0 {
        lemma_filter_all(items.drop_last());
        assert(items.drop_last().push(items.last()) =~= items);
    }
}

/// Two filters that agree on every item of a sequence keep the same of it.
pub(crate) proof fn lemma_filter_agrees<T>(items: Seq<T>, p: spec_fn(T) -> bool, q: spec_fn(T) -> bool)
    requires
        forall|i: int| 0 <= i < items.len() ==> p(#[trigger] items[i]) == q(items[i]),
    ensures
        items.filter(p) == items.filter(q),
    decreases items.len(),
{
    reveal(Seq::filter);
    if items.len() > 0 {
        let front = items.drop_last();
        assert forall|i: int| 0 <= i < front.len() implies p(#[trigger] front[i]) == q(
            front[i],
        ) by {
            assert(front[i] == items[i]);
        }
        lemma_filter_agrees(front, p, q);
        assert(p(items[items.len() - 1]) == q(items[items.len() - 1]));
    }
}

/// Filtering twice is filtering once by both tests.
pub(crate) proof fn lemma_filter_twice<T>(items: Seq<T>, p: spec_fn(T) -> bool, q: spec_fn(T) -> bool)
    ensures
        items.filter(p).filter(q) == items.filter(|item: T| p(item) && q(item)),
    decreases items.len(),
{
    let both = |item: T| p(item) && q(item);
    reveal(Seq::filter);
    if items.len() > 0 {
        let front = items.drop_last();
        let last = items.last();
        lemma_filter_twice(front, p, q);
        assert(items =~= front.push(last));
        front.lemma_filter_push(last, p);
        front.lemma_filter_push(last, both);
        if p(last) {
            front.filter(p).lemma_filter_push(last, q);
        }
    }
}

/// Filtering what a map gives is mapping what the filter keeps, the filter
/// then looking at what the map would give.
pub(crate) proof fn lemma_filter_of_map<A, B>(
    items: Seq<A>,
    f: spec_fn(A) -> B,
    keep: spec_fn(B) -> bool,
)
    ensures
        items.map_values(f).filter(keep) == items.filter(|item: A| keep(f(item))).map_values(f),
    decreases items.len(),
{
    let early = |item: A| keep(f(item));
    reveal(Seq::filter);
    if items.len() == 0 {
        assert(items.map_values(f) =~= Seq::<B>::empty());
        assert(items.filter(early).map_values(f) =~= Seq::<B>::empty());
    } else {
        let front = items.drop_last();
        let last = items.last();
        lemma_filter_of_map(front, f, keep);
        assert(items =~= front.push(last));
        assert(items.map_values(f) =~= front.map_values(f).push(f(last)));
        front.map_values(f).lemma_filter_push(f(last), keep);
        front.lemma_filter_push(last, early);
        if keep(f(last)) {
            assert(front.filter(early).push(last).map_values(f) =~= front.filter(
                early,
            ).map_values(f).push(f(last)));
        }
    }
}

/// The items of `items` whose mark is not set, in their order.
pub(crate) fn unmarked<T: Copy>(
    items: &Vec<T>,
    marks: &Vec<bool>,
    Ghost(keep): Ghost<spec_fn(T) -> bool>,
) -> (kept: Vec<T>)
    requires
        marks@.len() == items@.len(),
        forall|i: int| 0 <= i < items@.len() ==> marks@[i] == !keep(#[trigger] items@[i]),
    ensures
        kept@ == items@.filter(keep),
{
    let mut kept: Vec<T> = Vec::new();
    let n = items.len();
    let mut i: usize = 0;
    proof {
        assert(items@.take(0) =~= Seq::<T>::empty());
        reveal(Seq::filter);
    }
    while i < n
        invariant
            i <= n,
            items@.len() == n,
            marks@.len() == n,
            forall|i: int| 0 <= i < items@.len() ==> marks@[i] == !keep(#[trigger] items@[i]),
            kept@ == items@.take(i as int).filter(keep),
        decreases n - i,
    {
        let item = items[i];
        proof {
            assert(items@.take(i + 1) =~= items@.take(i as int).push(item));
            items@.take(i as int).lemma_filter_push(item, keep);
        }
        if !marks[i] {
            kept.push(item);
        }
        i += 1;
    }
    assert(items@.take(n as int) =~= items@);
    kept
}

/// As many marks as `n`, none set.
pub(crate) fn no_marks(n: usize) -> (marks: Vec<bool>)
    ensures
        marks@.len() == n,
        forall|i: int| 0 <= i < n ==> !marks@[i],
{
    let mut marks: Vec<bool> = Vec::new();
    let mut i: usize = 0;
    while i < n
        invariant
            i <= n,
            marks@.len() == i,
            forall|j: int| 0 <= j < i ==> !marks@[j],
        decreases n - i,
    {
        marks.push(false);
        i += 1;
    }
    marks
}

} // verus!
