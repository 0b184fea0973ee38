use vstd::prelude::*;

use super::listing::lemma_sorted_views;
use super::nested_map::{views_of, NestedItem};
use super::ordering::{
    lemma_bytes_less_asymmetric, lemma_bytes_less_negative_transitive, sort_by, stable_sorted,
    strict_weak_order, str_less, text_less, LessThan,
};

verus! {

/// Something with a name that listings order by.
pub trait Named: NestedItem {
    spec fn name_of(value: Self::V) -> Seq<char>;

    fn name_text(&self) -> (name: &str)
        ensures
            name@ == Self::name_of(self@),
    ;
}

/// `a`'s name comes strictly before `b`'s, in byte order.
pub open spec fn name_less<T: Named>(a: T::V, b: T::V) -> bool {
    text_less(T::name_of(a), T::name_of(b))
}

/// The values ordered by name; values with equal names keep their order.
pub open spec fn sorted_by_name<T: Named>(values: Seq<T::V>) -> Seq<T::V> {
    stable_sorted(values, |a: T::V, b: T::V| name_less::<T>(a, b))
}

/// Orders by name.
pub struct ByName;

impl<T: Named> LessThan<T> for ByName {
    open spec fn less(&self, a: T, b: T) -> bool {
        name_less::<T>(a@, b@)
    }

    fn less_than(&self, a: &T, b: &T) -> (less: bool) {
        str_less(a.name_text(), b.name_text())
    }
}

pub proof fn lemma_name_order_is_strict_weak<T: Named>()
    ensures
        strict_weak_order(|a: T, b: T| name_less::<T>(a@, b@)),
{
    let less = |a: T, b: T| name_less::<T>(a@, b@);
    assert forall|a: T, b: T| #[trigger] less(a, b) implies !less(b, a) by {
        lemma_bytes_less_asymmetric(
            vstd::utf8::encode_utf8(T::name_of(a@)),
            vstd::utf8::encode_utf8(T::name_of(b@)),
        );
    }
    assert forall|a: T, b: T, c: T| !#[trigger] less(a, b) && !#[trigger] less(b, c) implies !less(
        a,
        c,
    ) by {
        lemma_bytes_less_negative_transitive(
            vstd::utf8::encode_utf8(T::name_of(a@)),
            vstd::utf8::encode_utf8(T::name_of(b@)),
            vstd::utf8::encode_utf8(T::name_of(c@)),
        );
    }
}

/// Copies of the items, ordered by name; items with equal names keep their order.
pub fn copies_by_name<T: Named>(items: &Vec<T>) -> (sorted: Vec<T>)
    ensures
        views_of(sorted@) == sorted_by_name::<T>(views_of(items@)),
{
    let mut copies: Vec<T> = Vec::new();
    for i in 0..items.len()
        invariant
            views_of(copies@) == views_of(items@).take(i as int),
    {
        let ghost before = views_of(copies@);
        copies.push(items[i].duplicate());
        assert(views_of(copies@) =~= before.push(items@[i as int]@));
        assert(views_of(items@).take(i + 1) =~= views_of(items@).take(i as int).push(
            items@[i as int]@,
        ));
    }
    assert(views_of(items@).take(items.len() as int) =~= views_of(items@));
    let ghost unsorted = copies@;
    let ghost less = |a: T, b: T| name_less::<T>(a@, b@);
    proof {
        lemma_name_order_is_strict_weak::<T>();
        assert((|a: T, b: T| <ByName as LessThan<T>>::less(&ByName, a, b)) =~= less);
    }
    sort_by(&mut copies, &ByName);
    proof {
        lemma_sorted_views(unsorted, less, |a: T::V, b: T::V| name_less::<T>(a, b));
    }
    copies
}

} // verus!
