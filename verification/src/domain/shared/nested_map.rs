use vstd::prelude::*;

use super::text::text_eq;

verus! {

broadcast use {vstd::seq_lib::group_seq_properties};

/// Something identified by a UUID value.
pub trait Keyed: View + Sized {
    /// The key of an abstract value.
    spec fn key_of(value: Self::V) -> u128;

    fn key(&self) -> (key: u128)
        ensures
            key == Self::key_of(self@),
    ;

    fn duplicate(&self) -> (copy: Self)
        ensures
            copy@ == self@,
    ;
}

/// No two values share a key.
pub open spec fn keys_distinct<T: Keyed>(values: Seq<T::V>) -> bool {
    forall|i: int, j: int|
        0 <= i < j < values.len() ==> T::key_of(#[trigger] values[i]) != T::key_of(
            #[trigger] values[j],
        )
}

/// An item held in a nested collection, kept under a key text.
pub trait NestedItem: View + Sized {
    /// The text an abstract value is kept under.
    spec fn key_text_of(value: Self::V) -> Seq<char>;

    fn key_text(&self) -> (key: &str)
        ensures
            key@ == Self::key_text_of(self@),
    ;

    fn duplicate(&self) -> (copy: Self)
        ensures
            copy@ == self@,
    ;
}

/// No two items share a key text.
pub open spec fn item_keys_distinct<T: NestedItem>(values: Seq<T::V>) -> bool {
    forall|i: int, j: int|
        0 <= i < j < values.len() ==> T::key_text_of(#[trigger] values[i]) != T::key_text_of(
            #[trigger] values[j],
        )
}

/// Some value has the key.
pub open spec fn contains_key<T: NestedItem>(values: Seq<T::V>, key: Seq<char>) -> bool {
    exists|i: int| 0 <= i < values.len() && T::key_text_of(#[trigger] values[i]) == key
}

/// The position of the value with the key (meaningful where there is one).
pub open spec fn index_of_key<T: NestedItem>(values: Seq<T::V>, key: Seq<char>) -> int {
    choose|i: int| 0 <= i < values.len() && T::key_text_of(#[trigger] values[i]) == key
}

/// The value with the key, if any.
pub open spec fn value_at_key<T: NestedItem>(values: Seq<T::V>, key: Seq<char>) -> Option<T::V> {
    if contains_key::<T>(values, key) {
        Some(values[index_of_key::<T>(values, key)])
    } else {
        None
    }
}

/// The values after putting `value` under its key: a value with the same key is
/// replaced in place, otherwise `value` is added at the end.
pub open spec fn with_value<T: NestedItem>(values: Seq<T::V>, value: T::V) -> Seq<T::V> {
    let key = T::key_text_of(value);
    if contains_key::<T>(values, key) {
        values.update(index_of_key::<T>(values, key), value)
    } else {
        values.push(value)
    }
}

/// The values after dropping the one with the key, if any.
pub open spec fn without_key<T: NestedItem>(values: Seq<T::V>, key: Seq<char>) -> Seq<T::V> {
    if contains_key::<T>(values, key) {
        values.remove(index_of_key::<T>(values, key))
    } else {
        values
    }
}

/// The values obtained by putting each value of a list under its key, in order:
/// a later value replaces an earlier one with the same key.
pub open spec fn collected<T: NestedItem>(list: Seq<T::V>) -> Seq<T::V>
    decreases list.len(),
{
    if list.len() == 0 {
        Seq::empty()
    } else {
        with_value::<T>(collected::<T>(list.drop_last()), list.last())
    }
}

/// The abstract values of a list of concrete ones.
pub open spec fn views_of<T: View>(items: Seq<T>) -> Seq<T::V> {
    items.map_values(|t: T| t@)
}

pub proof fn lemma_index_of_key<T: NestedItem>(values: Seq<T::V>, i: int)
    requires
        item_keys_distinct::<T>(values),
        0 <= i < values.len(),
    ensures
        contains_key::<T>(values, T::key_text_of(values[i])),
        index_of_key::<T>(values, T::key_text_of(values[i])) == i,
{
    assert(contains_key::<T>(values, T::key_text_of(values[i])));
}

pub proof fn lemma_with_value<T: NestedItem>(values: Seq<T::V>, value: T::V)
    requires
        item_keys_distinct::<T>(values),
    ensures
        item_keys_distinct::<T>(with_value::<T>(values, value)),
        value_at_key::<T>(with_value::<T>(values, value), T::key_text_of(value)) == Some(value),
        forall|k: Seq<char>|
            k != T::key_text_of(value) ==> #[trigger] value_at_key::<T>(with_value::<T>(values, value), k)
                == value_at_key::<T>(values, k),
{
    let key = T::key_text_of(value);
    let r = with_value::<T>(values, value);
    let p = if contains_key::<T>(values, key) {
        index_of_key::<T>(values, key)
    } else {
        values.len() as int
    };
    assert(r[p] == value);
    assert(item_keys_distinct::<T>(r)) by {
        assert forall|i: int, j: int| 0 <= i < j < r.len() implies T::key_text_of(#[trigger] r[i])
            != T::key_text_of(#[trigger] r[j]) by {
            if i != p && j != p {
                assert(r[i] == values[i] && r[j] == values[j]);
            }
        }
    }
    lemma_index_of_key::<T>(r, p);
    assert forall|k: Seq<char>| k != key implies #[trigger] value_at_key::<T>(r, k) == value_at_key::<T>(
        values,
        k,
    ) by {
        if contains_key::<T>(values, k) {
            let i = index_of_key::<T>(values, k);
            assert(r[i] == values[i]);
            lemma_index_of_key::<T>(r, i);
        } else {
            if contains_key::<T>(r, k) {
                let i = index_of_key::<T>(r, k);
                assert(i != p);
                assert(values[i] == r[i]);
            }
        }
    }
}

pub proof fn lemma_without_key<T: NestedItem>(values: Seq<T::V>, key: Seq<char>)
    requires
        item_keys_distinct::<T>(values),
    ensures
        item_keys_distinct::<T>(without_key::<T>(values, key)),
        !contains_key::<T>(without_key::<T>(values, key), key),
        forall|k: Seq<char>|
            k != key ==> #[trigger] value_at_key::<T>(without_key::<T>(values, key), k)
                == value_at_key::<T>(values, k),
{
    let r = without_key::<T>(values, key);
    if contains_key::<T>(values, key) {
        let p = index_of_key::<T>(values, key);
        assert(forall|i: int| 0 <= i < p ==> r[i] == values[i]);
        assert(forall|i: int| p <= i < r.len() ==> r[i] == values[i + 1]);
        assert(item_keys_distinct::<T>(r)) by {
            assert forall|i: int, j: int| 0 <= i < j < r.len() implies T::key_text_of(#[trigger] r[i])
                != T::key_text_of(#[trigger] r[j]) by {
                let oi = if i < p { i } else { i + 1 };
                let oj = if j < p { j } else { j + 1 };
                assert(r[i] == values[oi] && r[j] == values[oj]);
            }
        }
        if contains_key::<T>(r, key) {
            let i = index_of_key::<T>(r, key);
            let oi = if i < p { i } else { i + 1 };
            assert(r[i] == values[oi]);
        }
        assert forall|k: Seq<char>| k != key implies #[trigger] value_at_key::<T>(r, k)
            == value_at_key::<T>(values, k) by {
            if contains_key::<T>(values, k) {
                let i = index_of_key::<T>(values, k);
                assert(i != p);
                let ri = if i < p { i } else { i - 1 };
                assert(r[ri] == values[i]);
                lemma_index_of_key::<T>(r, ri);
            } else if contains_key::<T>(r, k) {
                let i = index_of_key::<T>(r, k);
                let oi = if i < p { i } else { i + 1 };
                assert(r[i] == values[oi]);
            }
        }
    }
}

pub proof fn lemma_collected_distinct<T: NestedItem>(list: Seq<T::V>)
    ensures
        item_keys_distinct::<T>(collected::<T>(list)),
    decreases list.len(),
{
    if list.len() > 0 {
        lemma_collected_distinct::<T>(list.drop_last());
        lemma_with_value::<T>(collected::<T>(list.drop_last()), list.last());
    }
}

/// Each collected value is a value of the list, and each key of the list is
/// the key of a collected value.
pub proof fn lemma_collected_members<T: NestedItem>(list: Seq<T::V>)
    ensures
        forall|i: int| 0 <= i < collected::<T>(list).len() ==> list.contains(#[trigger] collected::<T>(list)[i]),
        forall|i: int| 0 <= i < list.len() ==> contains_key::<T>(collected::<T>(list), T::key_text_of(#[trigger] list[i])),
    decreases list.len(),
{
    if list.len() > 0 {
        let init = list.drop_last();
        let last = list.last();
        let key = T::key_text_of(last);
        lemma_collected_members::<T>(init);
        lemma_collected_distinct::<T>(init);
        lemma_with_value::<T>(collected::<T>(init), last);
        let prev = collected::<T>(init);
        let now = collected::<T>(list);
        assert(now == with_value::<T>(prev, last));
        assert forall|i: int| 0 <= i < now.len() implies list.contains(#[trigger] now[i]) by {
            assert(list[list.len() - 1] == last);
            if contains_key::<T>(prev, key) && i != index_of_key::<T>(prev, key) || !contains_key::<T>(prev, key) && i < prev.len() {
                assert(now[i] == prev[i]);
                assert(init.contains(prev[i]));
                let k = choose|k: int| 0 <= k < init.len() && init[k] == prev[i];
                assert(list[k] == init[k]);
            } else {
                assert(now[i] == last);
            }
        }
        assert forall|i: int| 0 <= i < list.len() implies contains_key::<T>(now, T::key_text_of(#[trigger] list[i])) by {
            let k = T::key_text_of(list[i]);
            if k == key {
                assert(value_at_key::<T>(now, key) is Some);
            } else {
                assert(list[i] == init[i]);
                assert(contains_key::<T>(prev, k));
                assert(value_at_key::<T>(now, k) == value_at_key::<T>(prev, k));
            }
        }
    }
}

/// A list whose keys are distinct is collected unchanged.
pub proof fn lemma_collected_of_distinct<T: NestedItem>(list: Seq<T::V>)
    requires
        item_keys_distinct::<T>(list),
    ensures
        collected::<T>(list) == list,
    decreases list.len(),
{
    if list.len() > 0 {
        let rest = list.drop_last();
        assert(item_keys_distinct::<T>(rest)) by {
            assert forall|i: int, j: int| 0 <= i < j < rest.len() implies T::key_text_of(#[trigger] rest[i])
                != T::key_text_of(#[trigger] rest[j]) by {
                assert(rest[i] == list[i] && rest[j] == list[j]);
            }
        }
        lemma_collected_of_distinct::<T>(rest);
        assert(!contains_key::<T>(rest, T::key_text_of(list.last()))) by {
            if contains_key::<T>(rest, T::key_text_of(list.last())) {
                let i = choose|i: int| 0 <= i < rest.len() && T::key_text_of(#[trigger] rest[i]) == T::key_text_of(list.last());
                assert(list[i] == rest[i]);
                assert(T::key_text_of(list[i]) != T::key_text_of(list[list.len() - 1]));
            }
        }
        assert(rest.push(list.last()) =~= list);
    }
}

/// Items kept under their key texts, one per text, in the order texts first arrived.
#[derive(Debug)]
pub struct NestedMap<T: NestedItem> {
    items: Vec<T>,
}

impl<T: NestedItem> View for NestedMap<T> {
    type V = Seq<T::V>;

    closed spec fn view(&self) -> Seq<T::V> {
        views_of(self.items@)
    }
}

impl<T: NestedItem> NestedMap<T> {
    #[verifier::type_invariant]
    closed spec fn wf(&self) -> bool {
        item_keys_distinct::<T>(self@)
    }

    /// Nothing kept.
    pub fn new() -> (map: Self)
        ensures
            map@ == Seq::<T::V>::empty(),
    {
        let map = NestedMap { items: Vec::new() };
        assert(map@ =~= Seq::<T::V>::empty());
        map
    }

    /// Keeps every value of the list under its key, in order; a later value
    /// replaces an earlier one with the same key.
    pub fn from_list(list: Vec<T>) -> (map: Self)
        ensures
            map@ == collected::<T>(views_of(list@)),
    {
        let mut map = NestedMap::new();
        let ghost all = views_of(list@);
        let mut rest = list;
        let mut taken: Vec<T> = Vec::new();
        // Values are taken from the back of the list; collect them in list order.
        while rest.len() > 0
            invariant
                views_of(rest@) + views_of(taken@).reverse() == all,
            decreases rest.len(),
        {
            let item = rest.pop().unwrap();
            proof {
                let r = views_of(rest@);
                assert(views_of(taken@.push(item)).reverse() =~= seq![item@] + views_of(taken@).reverse());
            }
            taken.push(item);
            proof {
                assert(views_of(rest@) + views_of(taken@).reverse() =~= all);
            }
        }
        assert(views_of(taken@).reverse() =~= all);
        let n = taken.len();
        let mut i: usize = 0;
        while taken.len() > 0
            invariant
                i + taken.len() == n,
                views_of(taken@).reverse() == all.skip(i as int),
                map@ == collected::<T>(all.take(i as int)),
                n == all.len(),
            decreases taken.len(),
        {
            let item = taken.pop().unwrap();
            proof {
                assert(all.take(i + 1).drop_last() =~= all.take(i as int));
                assert(all[i as int] == item@) by {
                    assert(views_of(taken@.push(item)).reverse()[0] == item@);
                }
                assert(views_of(taken@).reverse() =~= all.skip(i + 1)) by {
                    assert(views_of(taken@.push(item)).reverse() =~= seq![item@] + views_of(taken@).reverse());
                }
            }
            map.put(item);
            i = i + 1;
        }
        assert(all.take(n as int) =~= all);
        map
    }

    /// The number of values kept.
    pub fn len(&self) -> (n: usize)
        ensures
            n == self@.len(),
    {
        self.items.len()
    }

    /// Whether nothing is kept.
    pub fn is_empty(&self) -> (empty: bool)
        ensures
            empty == (self@.len() == 0),
    {
        self.items.len() == 0
    }

    /// The values kept, in order.
    pub fn values(&self) -> (values: &Vec<T>)
        ensures
            views_of(values@) == self@,
            item_keys_distinct::<T>(self@),
    {
        proof {
            use_type_invariant(self);
        }
        &self.items
    }

    /// The position of the value with the key.
    pub fn position(&self, key: &str) -> (pos: Option<usize>)
        ensures
            match pos {
                Some(i) => i < self@.len() && contains_key::<T>(self@, key@) && index_of_key::<T>(
                    self@,
                    key@,
                ) == i,
                None => !contains_key::<T>(self@, key@),
            },
    {
        proof {
            use_type_invariant(self);
        }
        let mut i: usize = 0;
        while i < self.items.len()
            invariant
                i <= self.items.len(),
                item_keys_distinct::<T>(self@),
                forall|j: int| 0 <= j < i ==> T::key_text_of(#[trigger] self@[j]) != key@,
            decreases self.items.len() - i,
        {
            if text_eq(self.items[i].key_text(), key) {
                proof {
                    lemma_index_of_key::<T>(self@, i as int);
                }
                return Some(i);
            }
            i = i + 1;
        }
        None
    }

    /// The value with the key, if any.
    pub fn get(&self, key: &str) -> (value: Option<&T>)
        ensures
            match value {
                Some(v) => value_at_key::<T>(self@, key@) == Some(v@),
                None => value_at_key::<T>(self@, key@) is None,
            },
    {
        match self.position(key) {
            Some(i) => Some(&self.items[i]),
            None => None,
        }
    }

    /// Whether a value has the key.
    pub fn contains(&self, key: &str) -> (found: bool)
        ensures
            found == contains_key::<T>(self@, key@),
    {
        self.position(key).is_some()
    }

    /// Puts a value under its key, replacing the value kept there.
    pub fn put(&mut self, value: T)
        ensures
            final(self)@ == with_value::<T>(old(self)@, value@),
    {
        proof {
            use_type_invariant(&*self);
            lemma_with_value::<T>(self@, value@);
        }
        let position = self.position(value.key_text());
        let mut items: Vec<T> = Vec::new();
        std::mem::swap(&mut items, &mut self.items);
        let ghost before = views_of(items@);
        match position {
            Some(i) => {
                let _ = items.remove(i);
                items.insert(i, value);
            },
            None => {
                items.push(value);
            },
        }
        assert(views_of(items@) =~= with_value::<T>(before, value@));
        self.items = items;
    }

    /// Drops the value with the key, if any.
    pub fn remove(&mut self, key: &str)
        ensures
            final(self)@ == without_key::<T>(old(self)@, key@),
    {
        proof {
            use_type_invariant(&*self);
            lemma_without_key::<T>(self@, key@);
        }
        let position = self.position(key);
        let mut items: Vec<T> = Vec::new();
        std::mem::swap(&mut items, &mut self.items);
        let ghost before = views_of(items@);
        match position {
            Some(i) => {
                let _ = items.remove(i);
            },
            None => {},
        }
        assert(views_of(items@) =~= without_key::<T>(before, key@));
        self.items = items;
    }
}

impl<T: NestedItem> Clone for NestedMap<T> {
    fn clone(&self) -> (copy: Self)
        ensures
            copy@ == self@,
    {
        proof {
            use_type_invariant(self);
        }
        let mut items: Vec<T> = Vec::new();
        for i in 0..self.items.len()
            invariant
                item_keys_distinct::<T>(self@),
                views_of(items@) == self@.take(i as int),
        {
            let ghost before = views_of(items@);
            items.push(self.items[i].duplicate());
            assert(views_of(items@) =~= before.push(self@[i as int]));
            assert(self@.take(i + 1) =~= self@.take(i as int).push(self@[i as int]));
        }
        assert(self@.take(self.items.len() as int) =~= self@);
        NestedMap { items }
    }
}

} // verus!
