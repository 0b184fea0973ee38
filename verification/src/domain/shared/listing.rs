use vstd::prelude::*;

use super::nested_map::views_of;
use super::ordering::{insert_position, lemma_insert_position_bound, stable_sorted};

verus! {

/// The elements that satisfy `keep`, in order.
pub open spec fn kept<V>(items: Seq<V>, keep: spec_fn(V) -> bool) -> Seq<V>
    decreases items.len(),
{
    if items.len() == 0 {
        Seq::empty()
    } else {
        let rest = kept(items.drop_last(), keep);
        if keep(items.last()) {
            rest.push(items.last())
        } else {
            rest
        }
    }
}

/// The position of the first element that satisfies `pred`, or -1.
pub open spec fn first_index<V>(items: Seq<V>, pred: spec_fn(V) -> bool) -> int
    decreases items.len(),
{
    if items.len() == 0 {
        -1
    } else if pred(items[0]) {
        0
    } else {
        let rest = first_index(items.drop_first(), pred);
        if rest < 0 {
            -1
        } else {
            rest + 1
        }
    }
}

/// The first element that satisfies `pred`, if any.
pub open spec fn first_where<V>(items: Seq<V>, pred: spec_fn(V) -> bool) -> Option<V> {
    let i = first_index(items, pred);
    if i >= 0 {
        Some(items[i])
    } else {
        None
    }
}

pub proof fn lemma_first_index_found<V>(items: Seq<V>, pred: spec_fn(V) -> bool, i: int)
    requires
        0 <= i < items.len(),
        pred(items[i]),
        forall|k: int| 0 <= k < i ==> !pred(#[trigger] items[k]),
    ensures
        first_index(items, pred) == i,
    decreases i,
{
    if i > 0 {
        let rest = items.drop_first();
        assert forall|k: int| 0 <= k < i - 1 implies !pred(#[trigger] rest[k]) by {
            assert(rest[k] == items[k + 1]);
        }
        lemma_first_index_found(rest, pred, i - 1);
    }
}

pub proof fn lemma_first_index_absent<V>(items: Seq<V>, pred: spec_fn(V) -> bool)
    requires
        forall|k: int| 0 <= k < items.len() ==> !pred(#[trigger] items[k]),
    ensures
        first_index(items, pred) == -1,
    decreases items.len(),
{
    if items.len() > 0 {
        let rest = items.drop_first();
        assert forall|k: int| 0 <= k < rest.len() implies !pred(#[trigger] rest[k]) by {
            assert(rest[k] == items[k + 1]);
        }
        lemma_first_index_absent(rest, pred);
    }
}

pub proof fn lemma_first_index_bounds<V>(items: Seq<V>, pred: spec_fn(V) -> bool)
    ensures
        -1 <= first_index(items, pred) < items.len(),
        first_index(items, pred) >= 0 ==> pred(items[first_index(items, pred)]),
        first_index(items, pred) < 0 ==> forall|k: int|
            0 <= k < items.len() ==> !pred(#[trigger] items[k]),
        forall|k: int|
            0 <= k < first_index(items, pred) ==> !pred(#[trigger] items[k]),
    decreases items.len(),
{
    if items.len() > 0 {
        let rest = items.drop_first();
        lemma_first_index_bounds(rest, pred);
        assert forall|k: int| 0 <= k < first_index(items, pred) implies !pred(#[trigger] items[k]) by {
            if k > 0 {
                assert(items[k] == rest[k - 1]);
            }
        }
        if first_index(items, pred) < 0 {
            assert forall|k: int| 0 <= k < items.len() implies !pred(#[trigger] items[k]) by {
                if k > 0 {
                    assert(items[k] == rest[k - 1]);
                }
            }
        }
    }
}

pub proof fn lemma_kept_step<V>(items: Seq<V>, keep: spec_fn(V) -> bool, i: int)
    requires
        0 <= i < items.len(),
    ensures
        kept(items.take(i + 1), keep) == if keep(items[i]) {
            kept(items.take(i), keep).push(items[i])
        } else {
            kept(items.take(i), keep)
        },
{
    assert(items.take(i + 1).drop_last() =~= items.take(i));
}

/// The abstract values of the kept elements are the kept abstract values.
pub proof fn lemma_kept_views<T: View>(
    items: Seq<T>,
    keep: spec_fn(T) -> bool,
    keep_view: spec_fn(T::V) -> bool,
)
    requires
        forall|t: T| #[trigger] keep(t) == keep_view(t@),
    ensures
        views_of(kept(items, keep)) == kept(views_of(items), keep_view),
    decreases items.len(),
{
    if items.len() > 0 {
        lemma_kept_views(items.drop_last(), keep, keep_view);
        assert(views_of(items).drop_last() =~= views_of(items.drop_last()));
        assert(views_of(kept(items.drop_last(), keep).push(items.last())) =~= views_of(
            kept(items.drop_last(), keep),
        ).push(items.last()@));
    }
}

/// The abstract values of a stable sort are the stable sort of the abstract values.
pub proof fn lemma_sorted_views<T: View>(
    items: Seq<T>,
    less: spec_fn(T, T) -> bool,
    less_view: spec_fn(T::V, T::V) -> bool,
)
    requires
        forall|a: T, b: T| #[trigger] less(a, b) == less_view(a@, b@),
    ensures
        views_of(stable_sorted(items, less)) == stable_sorted(views_of(items), less_view),
    decreases items.len(),
{
    if items.len() > 0 {
        let rest = stable_sorted(items.drop_last(), less);
        lemma_sorted_views(items.drop_last(), less, less_view);
        assert(views_of(items).drop_last() =~= views_of(items.drop_last()));
        lemma_insert_position_views(rest, items.last(), less, less_view);
        let p = insert_position(rest, items.last(), less) as int;
        lemma_insert_position_bound(rest, items.last(), less);
        assert(views_of(rest.insert(p, items.last())) =~= views_of(rest).insert(p, items.last()@));
    }
}

proof fn lemma_insert_position_views<T: View>(
    items: Seq<T>,
    x: T,
    less: spec_fn(T, T) -> bool,
    less_view: spec_fn(T::V, T::V) -> bool,
)
    requires
        forall|a: T, b: T| #[trigger] less(a, b) == less_view(a@, b@),
    ensures
        insert_position(items, x, less) == insert_position(views_of(items), x@, less_view),
    decreases items.len(),
{
    if items.len() > 0 {
        assert(views_of(items).drop_last() =~= views_of(items.drop_last()));
        assert(less(x, items.last()) == less_view(x@, items.last()@));
        lemma_insert_position_views(items.drop_last(), x, less, less_view);
    }
}

/// The abstract value of the first element found is the first abstract value found.
pub proof fn lemma_first_where_views<T: View>(
    items: Seq<T>,
    pred: spec_fn(T) -> bool,
    pred_view: spec_fn(T::V) -> bool,
)
    requires
        forall|t: T| #[trigger] pred(t) == pred_view(t@),
    ensures
        first_index(items, pred) == first_index(views_of(items), pred_view),
    decreases items.len(),
{
    if items.len() > 0 {
        assert(views_of(items).drop_first() =~= views_of(items.drop_first()));
        assert(pred(items[0]) == pred_view(items[0]@));
        lemma_first_where_views(items.drop_first(), pred, pred_view);
    }
}


/// The kept elements are elements of the list that satisfy `keep`, and every
/// element of the list that satisfies `keep` is kept.
pub proof fn lemma_kept_members<V>(items: Seq<V>, keep: spec_fn(V) -> bool)
    ensures
        forall|i: int|
            0 <= i < kept(items, keep).len() ==> keep(#[trigger] kept(items, keep)[i]) && items.contains(
                kept(items, keep)[i],
            ),
        forall|i: int| 0 <= i < items.len() && keep(#[trigger] items[i]) ==> kept(items, keep).contains(items[i]),
    decreases items.len(),
{
    if items.len() > 0 {
        let init = items.drop_last();
        lemma_kept_members(init, keep);
        let rest = kept(init, keep);
        let all = kept(items, keep);
        assert forall|i: int| 0 <= i < all.len() implies keep(#[trigger] all[i]) && items.contains(all[i]) by {
            if i < rest.len() {
                assert(all[i] == rest[i]);
                let k = choose|k: int| 0 <= k < init.len() && init[k] == rest[i];
                assert(items[k] == rest[i]);
            } else {
                assert(all[i] == items.last());
                assert(items[items.len() - 1] == items.last());
            }
        }
        assert forall|i: int| 0 <= i < items.len() && keep(#[trigger] items[i]) implies all.contains(items[i]) by {
            if i < init.len() {
                assert(init[i] == items[i]);
                assert(rest.contains(items[i]));
                let k = choose|k: int| 0 <= k < rest.len() && rest[k] == items[i];
                assert(all[k] == items[i]);
            } else {
                assert(all[all.len() - 1] == items[i]);
            }
        }
    }
}

} // verus!
