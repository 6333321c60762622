//! Rows found by a property: the first of them, and the table with that row
//! replaced.
use vstd::prelude::*;

verus! {

/// How many items stand before the first one at which `stop` holds.
pub open spec fn until<T>(items: Seq<T>, stop: spec_fn(T) -> bool) -> nat
    decreases items.len(),
{
    if items.len() == 0 || stop(items[0]) {
        0
    } else {
        1 + until(items.skip(1), stop)
    }
}

pub proof fn lemma_until<T>(items: Seq<T>, stop: spec_fn(T) -> bool, i: nat)
    requires
        i <= items.len(),
        forall|j: int| 0 <= j < i ==> !stop(#[trigger] items[j]),
        i == items.len() || stop(items[i as int]),
    ensures
        until(items, stop) == i,
    decreases i,
{
    if i > 0 {
        assert(!stop(items[0]));
        assert forall|j: int| 0 <= j < i - 1 implies !stop(#[trigger] items.skip(1)[j]) by {
            assert(items.skip(1)[j] == items[j + 1]);
        }
        lemma_until(items.skip(1), stop, (i - 1) as nat);
    }
}

pub proof fn lemma_until_bounds<T>(items: Seq<T>, stop: spec_fn(T) -> bool)
    ensures
        until(items, stop) <= items.len(),
        forall|j: int| 0 <= j < until(items, stop) ==> !stop(#[trigger] items[j]),
        until(items, stop) < items.len() ==> stop(items[until(items, stop) as int]),
    decreases items.len(),
{
    if items.len() > 0 && !stop(items[0]) {
        lemma_until_bounds(items.skip(1), stop);
        let rest = until(items.skip(1), stop);
        assert forall|j: int| 0 <= j < 1 + rest implies !stop(#[trigger] items[j]) by {
            if j > 0 {
                assert(items.skip(1)[j - 1] == items[j]);
            }
        }
        if rest < items.skip(1).len() {
            assert(items.skip(1)[rest as int] == items[(rest + 1) as int]);
        }
    }
}

/// Whether any item satisfies `wanted`.
pub open spec fn present<T>(items: Seq<T>, wanted: spec_fn(T) -> bool) -> bool {
    until(items, wanted) < items.len()
}

/// The first item that satisfies `wanted`.
pub open spec fn first<T>(items: Seq<T>, wanted: spec_fn(T) -> bool) -> Option<T> {
    if present(items, wanted) {
        Some(items[until(items, wanted) as int])
    } else {
        None
    }
}

/// The items with the first that satisfies `wanted` replaced by `item`.
pub open spec fn replaced_row<T>(items: Seq<T>, wanted: spec_fn(T) -> bool, item: T) -> Seq<T> {
    if present(items, wanted) {
        items.update(until(items, wanted) as int, item)
    } else {
        items
    }
}

/// The items with the first that satisfies `wanted` replaced by `item`, or
/// with `item` behind them where none does.
pub open spec fn put<T>(items: Seq<T>, wanted: spec_fn(T) -> bool, item: T) -> Seq<T> {
    if present(items, wanted) {
        items.update(until(items, wanted) as int, item)
    } else {
        items.push(item)
    }
}

/// Finding is by existence: some item satisfies `wanted` exactly when one is
/// found.
pub proof fn lemma_present<T>(items: Seq<T>, wanted: spec_fn(T) -> bool)
    ensures
        present(items, wanted) <==> exists|i: int|
            0 <= i < items.len() && wanted(#[trigger] items[i]),
        present(items, wanted) ==> wanted(items[until(items, wanted) as int]),
{
    lemma_until_bounds(items, wanted);
    if present(items, wanted) {
        assert(wanted(items[until(items, wanted) as int]));
    }
}

/// After `put` the first row found is the row that was put, where it has the
/// property itself.
pub proof fn lemma_put_first<T>(items: Seq<T>, wanted: spec_fn(T) -> bool, item: T)
    requires
        wanted(item),
    ensures
        first(put(items, wanted, item), wanted) == Some(item),
        until(put(items, wanted, item), wanted) == until(items, wanted),
{
    lemma_until_bounds(items, wanted);
    let at = until(items, wanted);
    let after = put(items, wanted, item);
    assert forall|j: int| 0 <= j < at implies !wanted(#[trigger] after[j]) by {
        assert(after[j] == items[j]);
    }
    lemma_until(after, wanted, at);
}

/// A row that was put is not seen by a search whose property neither the row
/// nor what it replaced has.
pub proof fn lemma_put_other<T>(
    items: Seq<T>,
    wanted: spec_fn(T) -> bool,
    item: T,
    other: spec_fn(T) -> bool,
)
    requires
        !other(item),
        forall|row: T| #[trigger] wanted(row) ==> !other(row),
    ensures
        first(put(items, wanted, item), other) == first(items, other),
{
    lemma_until_bounds(items, wanted);
    lemma_until_bounds(items, other);
    let after = put(items, wanted, item);
    let at = until(items, other);
    let changed = until(items, wanted);
    if at < items.len() {
        assert(other(items[at as int]));
        assert(changed != at);
        assert forall|j: int| 0 <= j < at implies !other(#[trigger] after[j]) by {
            if j != changed {
                assert(after[j] == items[j]);
            }
        }
        assert(after[at as int] == items[at as int]);
        lemma_until(after, other, at);
    } else {
        assert forall|j: int| 0 <= j < after.len() implies !other(#[trigger] after[j]) by {
            if j != changed && j < items.len() {
                assert(after[j] == items[j]);
            }
        }
        lemma_until(after, other, after.len());
    }
}


/// The items without the first that satisfies `wanted`.
pub open spec fn removed<T>(items: Seq<T>, wanted: spec_fn(T) -> bool) -> Seq<T> {
    if present(items, wanted) {
        items.remove(until(items, wanted) as int)
    } else {
        items
    }
}

/// The last `count` items, or all of a shorter list.
pub open spec fn last_items<T>(items: Seq<T>, count: nat) -> Seq<T> {
    if items.len() <= count {
        items
    } else {
        items.skip(items.len() - count)
    }
}

/// No two items have the same key.
pub open spec fn unique<T, K>(items: Seq<T>, key: spec_fn(T) -> K) -> bool {
    forall|i: int, j: int|
        0 <= i < j < items.len() ==> key(#[trigger] items[i]) != key(#[trigger] items[j])
}

/// Putting a row under its key keeps keys unique.
pub proof fn lemma_put_unique<T, K>(
    items: Seq<T>,
    wanted: spec_fn(T) -> bool,
    item: T,
    key: spec_fn(T) -> K,
)
    requires
        forall|row: T| #[trigger] wanted(row) <==> key(row) == key(item),
    ensures
        unique(items, key) ==> unique(put(items, wanted, item), key),
{
    lemma_until_bounds(items, wanted);
    if unique(items, key) {
        let after = put(items, wanted, item);
        let at = until(items, wanted) as int;
        assert forall|i: int, j: int| 0 <= i < j < after.len() implies key(
            #[trigger] after[i],
        ) != key(#[trigger] after[j]) by {
            if i == at {
                assert(after[j] == items[j]);
                if at < items.len() {
                    assert(wanted(items[at]));
                }
            } else if j == at {
                assert(after[i] == items[i]);
                assert(!wanted(items[i]));
            } else {
                assert(after[i] == items[i] && after[j] == items[j]);
            }
        }
    }
}

pub proof fn lemma_removed_unique<T, K>(
    items: Seq<T>,
    wanted: spec_fn(T) -> bool,
    key: spec_fn(T) -> K,
)
    ensures
        unique(items, key) ==> unique(removed(items, wanted), key),
{
    lemma_until_bounds(items, wanted);
    if unique(items, key) {
        let after = removed(items, wanted);
        let at = until(items, wanted) as int;
        assert forall|i: int, j: int| 0 <= i < j < after.len() implies key(
            #[trigger] after[i],
        ) != key(#[trigger] after[j]) by {
            let a = if i < at { i } else { i + 1 };
            let b = if j < at { j } else { j + 1 };
            if present(items, wanted) {
                assert(after[i] == items[a] && after[j] == items[b]);
            }
        }
    }
}

// ---------------------------------------------------------------------------
// Searching and sorting rows by their views
// ---------------------------------------------------------------------------

pub proof fn lemma_deep_push<T: DeepView>(before: Vec<T>, after: Vec<T>, item: T)
    requires
        after@ == before@.push(item),
    ensures
        after.deep_view() == before.deep_view().push(item.deep_view()),
{
    assert(after.deep_view() =~= before.deep_view().push(item.deep_view()));
}

pub proof fn lemma_deep_update<T: DeepView>(before: Vec<T>, after: Vec<T>, i: int, item: T)
    requires
        0 <= i < before@.len(),
        after@ == before@.update(i, item),
    ensures
        after.deep_view() == before.deep_view().update(i, item.deep_view()),
{
    assert(after.deep_view() =~= before.deep_view().update(i, item.deep_view()));
}

pub proof fn lemma_deep_remove<T: DeepView>(before: Vec<T>, after: Vec<T>, i: int)
    requires
        0 <= i < before@.len(),
        after@ == before@.remove(i),
    ensures
        after.deep_view() == before.deep_view().remove(i),
{
    assert(after.deep_view() =~= before.deep_view().remove(i));
}

/// The position of the first row that passes `test`, or the number of rows.
pub fn position<T: DeepView, F: Fn(&T) -> bool>(
    rows: &Vec<T>,
    test: F,
    Ghost(wanted): Ghost<spec_fn(T::V) -> bool>,
) -> (at: usize)
    requires
        forall|row: &T| #[trigger] test.requires((row,)),
        forall|row: &T, yes: bool| #[trigger]
            test.ensures((row,), yes) ==> yes == wanted(row.deep_view()),
    ensures
        at <= rows@.len(),
        at == until(rows.deep_view(), wanted),
        at < rows@.len() ==> wanted(rows@[at as int].deep_view()),
{
    let mut i: usize = 0;
    while i < rows.len()
        invariant
            i <= rows@.len(),
            forall|row: &T| #[trigger] test.requires((row,)),
            forall|row: &T, yes: bool| #[trigger]
                test.ensures((row,), yes) ==> yes == wanted(row.deep_view()),
            forall|j: int| 0 <= j < i ==> !wanted(#[trigger] rows.deep_view()[j]),
        decreases rows@.len() - i,
    {
        if test(&rows[i]) {
            proof {
                lemma_until(rows.deep_view(), wanted, i as nat);
            }
            return i;
        }
        assert(!wanted(rows.deep_view()[i as int]));
        i += 1;
    }
    proof {
        lemma_until(rows.deep_view(), wanted, i as nat);
    }
    i
}

/// Cloning a row keeps what it says.
pub open spec fn faithful_clone<T: DeepView + Clone>() -> bool {
    forall|row: &T, copy: T| #[trigger]
        call_ensures(T::clone, (row,), copy) ==> copy.deep_view() == row.deep_view()
}

/// Copies of the rows that pass `test`, in their order.
pub fn select<T: DeepView + Clone, F: Fn(&T) -> bool>(
    rows: &Vec<T>,
    test: F,
    Ghost(wanted): Ghost<spec_fn(T::V) -> bool>,
) -> (kept: Vec<T>)
    requires
        faithful_clone::<T>(),
        forall|row: &T| #[trigger] test.requires((row,)),
        forall|row: &T, yes: bool| #[trigger]
            test.ensures((row,), yes) ==> yes == wanted(row.deep_view()),
    ensures
        kept.deep_view() == rows.deep_view().filter(wanted),
{
    let mut kept: Vec<T> = Vec::new();
    let mut i: usize = 0;
    assert(rows.deep_view().take(0) =~= Seq::empty());
    assert(kept.deep_view() =~= Seq::empty());
    reveal(Seq::filter);
    while i < rows.len()
        invariant
            i <= rows@.len(),
            faithful_clone::<T>(),
            forall|row: &T| #[trigger] test.requires((row,)),
            forall|row: &T, yes: bool| #[trigger]
                test.ensures((row,), yes) ==> yes == wanted(row.deep_view()),
            kept.deep_view() == rows.deep_view().take(i as int).filter(wanted),
        decreases rows@.len() - i,
    {
        proof {
            reveal(Seq::filter);
            let now = rows.deep_view().take(i + 1);
            assert(now.drop_last() =~= rows.deep_view().take(i as int));
            assert(now.last() == rows@[i as int].deep_view());
        }
        if test(&rows[i]) {
            let copy = rows[i].clone();
            let ghost before = kept;
            kept.push(copy);
            proof {
                lemma_deep_push(before, kept, copy);
            }
        }
        i += 1;
    }
    assert(rows.deep_view().take(i as int) =~= rows.deep_view());
    kept
}

/// How many rows pass `test`.
pub fn count<T: DeepView, F: Fn(&T) -> bool>(
    rows: &Vec<T>,
    test: F,
    Ghost(wanted): Ghost<spec_fn(T::V) -> bool>,
) -> (number: usize)
    requires
        forall|row: &T| #[trigger] test.requires((row,)),
        forall|row: &T, yes: bool| #[trigger]
            test.ensures((row,), yes) ==> yes == wanted(row.deep_view()),
    ensures
        number == rows.deep_view().filter(wanted).len(),
        number <= rows@.len(),
{
    let mut number: usize = 0;
    let mut i: usize = 0;
    assert(rows.deep_view().take(0) =~= Seq::empty());
    reveal(Seq::filter);
    while i < rows.len()
        invariant
            i <= rows@.len(),
            number <= i,
            forall|row: &T| #[trigger] test.requires((row,)),
            forall|row: &T, yes: bool| #[trigger]
                test.ensures((row,), yes) ==> yes == wanted(row.deep_view()),
            number == rows.deep_view().take(i as int).filter(wanted).len(),
        decreases rows@.len() - i,
    {
        proof {
            reveal(Seq::filter);
            let now = rows.deep_view().take(i + 1);
            assert(now.drop_last() =~= rows.deep_view().take(i as int));
            assert(now.last() == rows@[i as int].deep_view());
        }
        if test(&rows[i]) {
            number += 1;
        }
        i += 1;
    }
    assert(rows.deep_view().take(i as int) =~= rows.deep_view());
    number
}

/// Copies of all rows.
pub fn copy_rows<T: DeepView + Clone>(rows: &Vec<T>) -> (copies: Vec<T>)
    requires
        faithful_clone::<T>(),
    ensures
        copies.deep_view() == rows.deep_view(),
{
    let copies = rows.clone();
    assert forall|i: int| 0 <= i < rows@.len() implies copies@[i].deep_view()
        == rows@[i].deep_view() by {
        assert(cloned::<T>(rows@[i], copies@[i]));
    }
    assert(copies.deep_view() =~= rows.deep_view());
    copies
}

/// Holds of the items that `item` goes before.
pub open spec fn goes_before<V>(less: spec_fn(V, V) -> bool, item: V) -> spec_fn(V) -> bool {
    |other: V| less(item, other)
}

/// The items in the order of `less`, equal ones in the order they had.
pub open spec fn stable_sorted<V>(items: Seq<V>, less: spec_fn(V, V) -> bool) -> Seq<V>
    decreases items.len(),
{
    if items.len() == 0 {
        items
    } else {
        let head = stable_sorted(items.drop_last(), less);
        let item = items.last();
        head.insert(until(head, goes_before(less, item)) as int, item)
    }
}

pub fn stable_sort<T: DeepView, F: Fn(&T, &T) -> bool>(
    items: Vec<T>,
    before: F,
    Ghost(less): Ghost<spec_fn(T::V, T::V) -> bool>,
) -> (sorted: Vec<T>)
    requires
        forall|a: &T, b: &T| #[trigger] before.requires((a, b)),
        forall|a: &T, b: &T, yes: bool| #[trigger]
            before.ensures((a, b), yes) ==> yes == less(a.deep_view(), b.deep_view()),
    ensures
        sorted.deep_view() == stable_sorted(items.deep_view(), less),
{
    let ghost all = items.deep_view();
    let mut rest = items;
    let mut sorted: Vec<T> = Vec::new();
    let ghost mut done: int = 0;
    assert(all.take(0) =~= Seq::empty());
    assert(sorted.deep_view() =~= all.take(0));
    assert(rest.deep_view() =~= all.skip(0));
    while rest.len() > 0
        invariant
            forall|a: &T, b: &T| #[trigger] before.requires((a, b)),
            forall|a: &T, b: &T, yes: bool| #[trigger]
                before.ensures((a, b), yes) ==> yes == less(a.deep_view(), b.deep_view()),
            0 <= done <= all.len(),
            rest.deep_view() == all.skip(done),
            rest@.len() == all.len() - done,
            sorted.deep_view() == stable_sorted(all.take(done), less),
        decreases rest@.len(),
    {
        let ghost before_rest = rest;
        let item = rest.remove(0);
        let ghost key = item.deep_view();
        proof {
            assert(key == before_rest.deep_view()[0]);
            assert(key == all[done]);
            lemma_deep_remove(before_rest, rest, 0);
            assert(all.skip(done).remove(0) =~= all.skip(done + 1));
            assert(all.take(done + 1).drop_last() =~= all.take(done));
        }
        let mut at: usize = 0;
        while at < sorted.len() && !before(&item, &sorted[at])
            invariant
                at <= sorted@.len(),
                key == item.deep_view(),
                forall|a: &T, b: &T| #[trigger] before.requires((a, b)),
                forall|a: &T, b: &T, yes: bool| #[trigger]
                    before.ensures((a, b), yes) ==> yes == less(a.deep_view(), b.deep_view()),
                forall|j: int| 0 <= j < at ==> !less(key, #[trigger] sorted.deep_view()[j]),
            decreases sorted@.len() - at,
        {
            assert(!less(key, sorted.deep_view()[at as int]));
            at += 1;
        }
        proof {
            lemma_until(sorted.deep_view(), goes_before(less, key), at as nat);
        }
        let ghost old_sorted = sorted;
        sorted.insert(at, item);
        proof {
            assert(sorted.deep_view() =~= old_sorted.deep_view().insert(at as int, key));
            done = done + 1;
        }
    }
    assert(all.take(done) =~= all);
    sorted
}

/// A strict order in which two items that neither precede each other are
/// interchangeable.
pub open spec fn weakly_ordered<V>(less: spec_fn(V, V) -> bool) -> bool {
    &&& forall|a: V| !#[trigger] less(a, a)
    &&& forall|a: V, b: V, c: V| #[trigger] less(a, b) && #[trigger] less(b, c) ==> less(a, c)
    &&& forall|a: V, b: V, c: V|
        !#[trigger] less(a, b) && !#[trigger] less(b, c) ==> !less(a, c)
}

/// Sorting puts no item before one that precedes it.
pub proof fn sort_is_ordered<V>(items: Seq<V>, less: spec_fn(V, V) -> bool)
    requires
        weakly_ordered(less),
    ensures
        forall|i: int, j: int|
            0 <= i < j < stable_sorted(items, less).len() ==> !less(
                #[trigger] stable_sorted(items, less)[j],
                #[trigger] stable_sorted(items, less)[i],
            ),
    decreases items.len(),
{
    if items.len() > 0 {
        sort_is_ordered(items.drop_last(), less);
        let head = stable_sorted(items.drop_last(), less);
        let item = items.last();
        let at = until(head, goes_before(less, item)) as int;
        lemma_until_bounds(head, goes_before(less, item));
        let whole = head.insert(at, item);
        assert forall|i: int, j: int| 0 <= i < j < whole.len() implies !less(
            #[trigger] whole[j],
            #[trigger] whole[i],
        ) by {
            if j < at {
                assert(whole[j] == head[j] && whole[i] == head[i]);
            } else if j == at {
                assert(whole[i] == head[i]);
                assert(!goes_before(less, item)(head[i]));
            } else if i > at {
                assert(whole[j] == head[j - 1] && whole[i] == head[i - 1]);
            } else {
                assert(whole[j] == head[j - 1]);
                assert(less(item, head[at]));
                assert(at < j - 1 ==> !less(head[j - 1], head[at]));
                if less(whole[j], item) {
                    assert(less(head[j - 1], head[at]));
                }
                if i < at {
                    assert(whole[i] == head[i]);
                }
            }
        }
    }
}

/// Sorting loses no item and adds none.
pub proof fn sort_keeps_items<V>(items: Seq<V>, less: spec_fn(V, V) -> bool)
    ensures
        stable_sorted(items, less).to_multiset() == items.to_multiset(),
        stable_sorted(items, less).len() == items.len(),
    decreases items.len(),
{
    broadcast use vstd::seq_lib::group_to_multiset_ensures;

    if items.len() > 0 {
        sort_keeps_items(items.drop_last(), less);
        let head = stable_sorted(items.drop_last(), less);
        let item = items.last();
        let at = until(head, goes_before(less, item)) as int;
        lemma_until_bounds(head, goes_before(less, item));
        vstd::seq_lib::to_multiset_insert(head, at, item);
        assert(items =~= items.drop_last().push(item));
    }
}

/// What was picked from a list stands in it and satisfies the property.
pub proof fn lemma_picked<T>(items: Seq<T>, wanted: spec_fn(T) -> bool, k: int)
    requires
        0 <= k < items.filter(wanted).len(),
    ensures
        wanted(items.filter(wanted)[k]),
        items.contains(items.filter(wanted)[k]),
    decreases items.len(),
{
    reveal(Seq::filter);
    let rest = items.drop_last();
    let before = rest.filter(wanted);
    let found = items.filter(wanted)[k];
    if k < before.len() {
        lemma_picked(rest, wanted, k);
        assert(found == before[k]);
        let j = choose|j: int| 0 <= j < rest.len() && rest[j] == found;
        assert(items[j] == found);
    } else {
        assert(found == items[items.len() - 1]);
    }
}

/// Whatever in a list satisfies the property is picked.
pub proof fn lemma_picks<T>(items: Seq<T>, wanted: spec_fn(T) -> bool, i: int)
    requires
        0 <= i < items.len(),
        wanted(items[i]),
    ensures
        items.filter(wanted).contains(items[i]),
    decreases items.len(),
{
    reveal(Seq::filter);
    let rest = items.drop_last();
    let before = rest.filter(wanted);
    let all = items.filter(wanted);
    if i < rest.len() {
        assert(rest[i] == items[i]);
        lemma_picks(rest, wanted, i);
        let k = choose|k: int| 0 <= k < before.len() && before[k] == items[i];
        assert(all[k] == items[i]);
    } else {
        assert(all[before.len() as int] == items[i]);
    }
}

} // verus!
