use vstd::prelude::*;

verus! {

broadcast use {vstd::seq_lib::to_multiset_remove, vstd::seq_lib::to_multiset_insert};

/// `a` comes strictly before `b` in lexicographic byte order.
pub open spec fn bytes_less(a: Seq<u8>, b: Seq<u8>) -> bool
    decreases a.len(),
{
    if b.len() == 0 {
        false
    } else if a.len() == 0 {
        true
    } else if a[0] != b[0] {
        a[0] < b[0]
    } else {
        bytes_less(a.drop_first(), b.drop_first())
    }
}

/// `a` comes strictly before `b` when texts are ordered by their UTF-8 bytes,
/// which is how `str` orders.
pub open spec fn text_less(a: Seq<char>, b: Seq<char>) -> bool {
    bytes_less(vstd::utf8::encode_utf8(a), vstd::utf8::encode_utf8(b))
}

pub proof fn lemma_bytes_less_asymmetric(a: Seq<u8>, b: Seq<u8>)
    ensures
        bytes_less(a, b) ==> !bytes_less(b, a),
    decreases a.len(),
{
    if a.len() > 0 && b.len() > 0 && a[0] == b[0] {
        lemma_bytes_less_asymmetric(a.drop_first(), b.drop_first());
    }
}

pub proof fn lemma_bytes_less_negative_transitive(a: Seq<u8>, b: Seq<u8>, c: Seq<u8>)
    ensures
        !bytes_less(a, b) && !bytes_less(b, c) ==> !bytes_less(a, c),
    decreases a.len(),
{
    if a.len() > 0 && b.len() > 0 && c.len() > 0 {
        lemma_bytes_less_negative_transitive(a.drop_first(), b.drop_first(), c.drop_first());
    }
}

/// Strict "comes before" for byte strings, decided from the bytes themselves.
pub fn slice_less(a: &[u8], b: &[u8]) -> (less: bool)
    ensures
        less == bytes_less(a@, b@),
{
    let mut i: usize = 0;
    assert(a@.skip(0) =~= a@);
    assert(b@.skip(0) =~= b@);
    while i < a.len() && i < b.len()
        invariant
            i <= a.len(),
            i <= b.len(),
            bytes_less(a@, b@) == bytes_less(a@.skip(i as int), b@.skip(i as int)),
        decreases a.len() - i,
    {
        if a[i] != b[i] {
            return a[i] < b[i];
        }
        assert(a@.skip(i as int).drop_first() =~= a@.skip(i + 1));
        assert(b@.skip(i as int).drop_first() =~= b@.skip(i + 1));
        i = i + 1;
    }
    i < b.len()
}

/// Strict "comes before" for texts, as `str` orders them.
pub fn str_less(a: &str, b: &str) -> (less: bool)
    ensures
        less == text_less(a@, b@),
{
    slice_less(a.as_bytes(), b.as_bytes())
}

/// `less` is a strict weak order: asymmetric, and "not before" is transitive.
pub open spec fn strict_weak_order<T>(less: spec_fn(T, T) -> bool) -> bool {
    &&& forall|a: T, b: T| #[trigger] less(a, b) ==> !less(b, a)
    &&& forall|a: T, b: T, c: T|
        !#[trigger] less(a, b) && !#[trigger] less(b, c) ==> !less(a, c)
}

/// No element comes strictly before an element placed ahead of it.
pub open spec fn sorted_by<T>(items: Seq<T>, less: spec_fn(T, T) -> bool) -> bool {
    forall|i: int, j: int| 0 <= i < j < items.len() ==> !less(#[trigger] items[j], #[trigger] items[i])
}

/// Where `x` goes when inserted into `items`: after the last element it does not
/// come strictly before.
pub open spec fn insert_position<T>(items: Seq<T>, x: T, less: spec_fn(T, T) -> bool) -> nat
    decreases items.len(),
{
    if items.len() == 0 || !less(x, items.last()) {
        items.len()
    } else {
        insert_position(items.drop_last(), x, less)
    }
}

/// The stable sort of `items`: each element, in order, is inserted after every
/// element already placed that it does not come strictly before.
pub open spec fn stable_sorted<T>(items: Seq<T>, less: spec_fn(T, T) -> bool) -> Seq<T>
    decreases items.len(),
{
    if items.len() == 0 {
        items
    } else {
        let rest = stable_sorted(items.drop_last(), less);
        rest.insert(insert_position(rest, items.last(), less) as int, items.last())
    }
}

pub proof fn lemma_insert_position_bound<T>(items: Seq<T>, x: T, less: spec_fn(T, T) -> bool)
    ensures
        insert_position(items, x, less) <= items.len(),
    decreases items.len(),
{
    if items.len() > 0 {
        lemma_insert_position_bound(items.drop_last(), x, less);
    }
}

/// Sorting by an order under which nothing comes before anything keeps the
/// elements where they are.
pub proof fn lemma_stable_sorted_unordered<T>(items: Seq<T>, less: spec_fn(T, T) -> bool)
    requires
        forall|a: T, b: T| !#[trigger] less(a, b),
    ensures
        stable_sorted(items, less) == items,
    decreases items.len(),
{
    if items.len() > 0 {
        lemma_stable_sorted_unordered(items.drop_last(), less);
        let rest = stable_sorted(items.drop_last(), less);
        assert(insert_position(rest, items.last(), less) == rest.len());
        assert(rest.insert(rest.len() as int, items.last()) =~= items);
    }
}

proof fn lemma_insert_position<T>(items: Seq<T>, x: T, less: spec_fn(T, T) -> bool, j: int)
    requires
        0 <= j <= items.len(),
        forall|k: int| j <= k < items.len() ==> less(x, #[trigger] items[k]),
        j > 0 ==> !less(x, items[j - 1]),
    ensures
        insert_position(items, x, less) == j,
    decreases items.len(),
{
    if items.len() > j {
        assert(less(x, items.last()));
        lemma_insert_position(items.drop_last(), x, less, j);
    }
}

/// Where an element is inserted, every element from there on comes strictly
/// after it, and the element just before it does not.
proof fn lemma_insert_position_split<T>(items: Seq<T>, x: T, less: spec_fn(T, T) -> bool)
    ensures
        insert_position(items, x, less) <= items.len(),
        forall|k: int|
            insert_position(items, x, less) <= k < items.len() ==> less(x, #[trigger] items[k]),
        insert_position(items, x, less) > 0 ==> !less(x, items[insert_position(items, x, less) - 1]),
    decreases items.len(),
{
    if items.len() > 0 && less(x, items.last()) {
        let front = items.drop_last();
        lemma_insert_position_split(front, x, less);
        let p = insert_position(front, x, less);
        assert forall|k: int| p <= k < items.len() implies less(x, #[trigger] items[k]) by {
            if k < items.len() - 1 {
                assert(items[k] == front[k]);
            }
        }
        if p > 0 {
            assert(items[p - 1] == front[p - 1]);
        }
    }
}

/// The stable sort of a list is sorted, and holds the same elements as the
/// list, as often.
pub proof fn lemma_stable_sorted<T>(items: Seq<T>, less: spec_fn(T, T) -> bool)
    requires
        strict_weak_order(less),
    ensures
        sorted_by(stable_sorted(items, less), less),
        stable_sorted(items, less).to_multiset() == items.to_multiset(),
    decreases items.len(),
{
    if items.len() > 0 {
        let front = items.drop_last();
        lemma_stable_sorted(front, less);
        let rest = stable_sorted(front, less);
        let x = items.last();
        lemma_insert_position_split(rest, x, less);
        let p = insert_position(rest, x, less) as int;
        let w = rest.insert(p, x);
        assert(stable_sorted(items, less) == w);
        assert forall|a: int, b: int| 0 <= a < b < w.len() implies !less(#[trigger] w[b], #[trigger] w[a]) by {
            assert(forall|k: int| 0 <= k < p ==> w[k] == rest[k]);
            assert(forall|k: int| p < k < w.len() ==> w[k] == rest[k - 1]);
            if b < p {
                assert(!less(rest[b], rest[a]));
            } else if b == p {
                assert(!less(x, rest[p - 1]));
                if a < p - 1 {
                    assert(!less(rest[p - 1], rest[a]));
                }
                assert(!less(x, rest[a]));
            } else if a < p {
                assert(!less(rest[b - 1], rest[a]));
            } else if a == p {
                assert(less(x, rest[b - 1]));
                assert(!less(rest[b - 1], x));
            } else {
                assert(!less(rest[b - 1], rest[a - 1]));
            }
        }
        assert(items =~= front.insert(front.len() as int, x));
    }
}

/// An order decided between two values.
pub trait LessThan<T> {
    /// `a` comes strictly before `b`.
    spec fn less(&self, a: T, b: T) -> bool;

    fn less_than(&self, a: &T, b: &T) -> (less: bool)
        ensures
            less == self.less(*a, *b),
    ;
}

/// Sorts in place with a stable insertion sort.
pub fn sort_by<T, C: LessThan<T>>(items: &mut Vec<T>, order: &C)
    requires
        strict_weak_order(|a: T, b: T| order.less(a, b)),
    ensures
        sorted_by(final(items)@, |a: T, b: T| order.less(a, b)),
        final(items)@.to_multiset() == old(items)@.to_multiset(),
        final(items)@ == stable_sorted(old(items)@, |a: T, b: T| order.less(a, b)),
{
    let ghost less = |a: T, b: T| order.less(a, b);
    let n = items.len();
    if n == 0 {
        assert(old(items)@ =~= stable_sorted(old(items)@, less));
        return;
    }
    let ghost initial = items@;
    assert(initial.take(1).drop_last() =~= initial.take(0));
    assert(stable_sorted(initial.take(0), less) =~= Seq::<T>::empty());
    assert(items@.take(1) =~= stable_sorted(initial.take(1), less));
    let mut i: usize = 1;
    while i < n
        invariant
            1 <= i <= n,
            items.len() == n,
            less == (|a: T, b: T| order.less(a, b)),
            strict_weak_order(less),
            sorted_by(items@.take(i as int), less),
            items@.to_multiset() == old(items)@.to_multiset(),
            items@.take(i as int) == stable_sorted(old(items)@.take(i as int), less),
            items@.skip(i as int) == old(items)@.skip(i as int),
            initial == old(items)@,
            initial.len() == n,
        decreases n - i,
    {
        let ghost before = items@;
        let x = items.remove(i);
        let mut j: usize = i;
        loop
            invariant
                j <= i,
                i < n,
                items.len() == n - 1,
                items@ == before.remove(i as int),
                x == before[i as int],
                less == (|a: T, b: T| order.less(a, b)),
                forall|k: int| j <= k < i ==> less(x, #[trigger] items@[k]),
            ensures
                j <= i,
                forall|k: int| j <= k < i ==> less(x, #[trigger] items@[k]),
                j > 0 ==> !less(x, items@[j - 1]),
            decreases j,
        {
            if j == 0 {
                break;
            }
            let goes_before = order.less_than(&x, &items[j - 1]);
            if !goes_before {
                break;
            }
            j = j - 1;
        }
        let ghost removed = items@;
        items.insert(j, x);
        proof {
            let prefix = before.take(i as int);
            assert forall|a: int, b: int| 0 <= a < b < i + 1 implies !less(
                #[trigger] items@.take(i + 1)[b],
                #[trigger] items@.take(i + 1)[a],
            ) by {
                let w = items@;
                assert(forall|k: int| 0 <= k < j ==> w[k] == prefix[k]);
                assert(forall|k: int| j < k <= i ==> w[k] == prefix[k - 1]);
                if a < j && b < j {
                    assert(!less(prefix[b], prefix[a]));
                } else if a < j && b == j {
                    assert(!less(prefix[j - 1], prefix[a]) || a == j - 1);
                    assert(!less(x, prefix[j - 1]));
                    assert(!less(x, prefix[a]));
                } else if a < j && b > j {
                    assert(!less(prefix[b - 1], prefix[a]));
                } else if a == j {
                    assert(less(x, removed[b - 1]));
                    assert(!less(prefix[b - 1], x));
                } else {
                    assert(!less(prefix[b - 1], prefix[a - 1]));
                }
            }
            assert(items@ == before.remove(i as int).insert(j as int, x));
            let r = before.remove(i as int);
            assert(r.to_multiset() == before.to_multiset().remove(x));
            assert(r.insert(j as int, x).to_multiset() == r.to_multiset().insert(x));
            vstd::seq_lib::to_multiset_contains(before, x);
            assert(before.contains(x)) by {
                assert(before[i as int] == x);
            }
            assert(before.to_multiset().contains(x));
            assert(before.to_multiset().remove(x).insert(x) =~= before.to_multiset());
            let prefix_sorted = before.take(i as int);
            assert(removed.take(i as int) =~= prefix_sorted);
            lemma_insert_position(prefix_sorted, x, less, j as int);
            assert(initial.take(i + 1).drop_last() =~= initial.take(i as int));
            assert(initial.take(i + 1).last() == x) by {
                assert(before.skip(i as int)[0] == before[i as int]);
                assert(initial.skip(i as int)[0] == initial[i as int]);
            }
            assert(items@.take(i + 1) =~= prefix_sorted.insert(j as int, x));
            assert(items@.skip(i + 1) =~= initial.skip(i + 1)) by {
                assert forall|k: int| 0 <= k < items@.skip(i + 1).len() implies #[trigger] items@.skip(i + 1)[k]
                    == initial.skip(i + 1)[k] by {
                    assert(items@[i + 1 + k] == before[i + 1 + k]);
                    assert(before.skip(i as int)[k + 1] == initial.skip(i as int)[k + 1]);
                }
            }
        }
        i = i + 1;
    }
    assert(items@.take(n as int) =~= items@);
    assert(initial.take(n as int) =~= initial);
}

} // verus!
