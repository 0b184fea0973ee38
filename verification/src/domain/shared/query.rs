use vstd::prelude::*;

use super::listing::{first_index, first_where, kept, lemma_first_index_bounds, lemma_kept_members};
use super::nested_map::Keyed;
use super::ordering::{
    lemma_bytes_less_asymmetric, lemma_bytes_less_negative_transitive, lemma_stable_sorted,
    lemma_stable_sorted_unordered, sorted_by,
    stable_sorted, str_less, strict_weak_order, text_less, LessThan,
};
use super::repository::SortDirection;
use super::timestamp::Timestamp;

verus! {

/// An entity held by a repository: what its reads filter and order by.
pub trait Stored: Keyed {
    /// The value a listing can be narrowed to (activity, type, publication).
    type Filter: Copy;

    spec fn deleted_of(value: Self::V) -> bool;

    spec fn text_of(value: Self::V) -> Seq<char>;

    spec fn created_of(value: Self::V) -> Timestamp;

    spec fn filter_of(value: Self::V) -> Self::Filter;

    fn is_deleted(&self) -> (deleted: bool)
        ensures
            deleted == Self::deleted_of(self@),
    ;

    fn sort_text(&self) -> (text: &str)
        ensures
            text@ == Self::text_of(self@),
    ;

    fn created(&self) -> (created: Timestamp)
        ensures
            created == Self::created_of(self@),
    ;

    fn has_filter(&self, filter: Self::Filter) -> (has: bool)
        ensures
            has == (Self::filter_of(self@) == filter),
    ;
}

/// What a listing is ordered by.
#[derive(Debug, Clone, Copy, PartialEq, Eq, Structural)]
pub enum SortKey {
    /// The name (or title), in byte order.
    Text,
    /// The creation time.
    CreatedAt,
    /// Storage order is kept.
    Unordered,
}

/// `a` comes strictly before `b` when ordered ascending by `key`.
pub open spec fn ascending_less<T: Stored>(key: SortKey, a: T::V, b: T::V) -> bool {
    match key {
        SortKey::Text => text_less(T::text_of(a), T::text_of(b)),
        SortKey::CreatedAt => T::created_of(a) < T::created_of(b),
        SortKey::Unordered => false,
    }
}

/// `a` comes strictly before `b` when ordered by `key` in `direction`.
pub open spec fn order_less<T: Stored>(
    key: SortKey,
    direction: SortDirection,
    a: T::V,
    b: T::V,
) -> bool {
    match direction {
        SortDirection::Asc => ascending_less::<T>(key, a, b),
        SortDirection::Desc => ascending_less::<T>(key, b, a),
    }
}

/// A read shows a value unless soft-deleted values are left out and it is one.
pub open spec fn shown<T: Stored>(hides_deleted: bool, value: T::V) -> bool {
    !hides_deleted || !T::deleted_of(value)
}

/// The value has the id (when one is asked) and the filter value (when one is asked).
pub open spec fn meets_filter<T: Stored>(id: Option<u128>, filter: Option<T::Filter>, value: T::V) -> bool {
    &&& (id matches Some(k) ==> T::key_of(value) == k)
    &&& (filter matches Some(f) ==> T::filter_of(value) == f)
}

/// The values a filtered read returns before ordering.
pub open spec fn selected<T: Stored>(
    stored: Seq<T::V>,
    hides_deleted: bool,
    id: Option<u128>,
    filter: Option<T::Filter>,
) -> Seq<T::V> {
    kept(stored, |v: T::V| shown::<T>(hides_deleted, v) && meets_filter::<T>(id, filter, v))
}

/// The first value a filtered read finds.
pub open spec fn first_selected<T: Stored>(
    stored: Seq<T::V>,
    hides_deleted: bool,
    id: Option<u128>,
    filter: Option<T::Filter>,
) -> Option<T::V> {
    first_where(stored, |v: T::V| shown::<T>(hides_deleted, v) && meets_filter::<T>(id, filter, v))
}

/// The values an ordered, filtered read returns.
pub open spec fn listed<T: Stored>(
    stored: Seq<T::V>,
    hides_deleted: bool,
    id: Option<u128>,
    filter: Option<T::Filter>,
    key: SortKey,
    direction: SortDirection,
) -> Seq<T::V> {
    stable_sorted(
        selected::<T>(stored, hides_deleted, id, filter),
        |a: T::V, b: T::V| order_less::<T>(key, direction, a, b),
    )
}

/// The values found for a list of ids, one per id that some shown value has.
pub open spec fn found_for_ids<T: Stored>(
    stored: Seq<T::V>,
    hides_deleted: bool,
    ids: Seq<u128>,
) -> Seq<T::V>
    decreases ids.len(),
{
    if ids.len() == 0 {
        Seq::empty()
    } else {
        let rest = found_for_ids::<T>(stored, hides_deleted, ids.drop_last());
        match first_selected::<T>(stored, hides_deleted, Some(ids.last()), None) {
            Some(v) => rest.push(v),
            None => rest,
        }
    }
}

/// The ids of a list that no shown value has, in order.
pub open spec fn missing_ids<T: Stored>(stored: Seq<T::V>, hides_deleted: bool, ids: Seq<u128>) -> Seq<
    u128,
> {
    kept(ids, |k: u128| first_selected::<T>(stored, hides_deleted, Some(k), None) is None)
}

/// Some stored value has the id, deleted or not.
pub open spec fn stores_id<T: Stored>(stored: Seq<T::V>, id: u128) -> bool {
    exists|i: int| 0 <= i < stored.len() && T::key_of(#[trigger] stored[i]) == id
}

/// The value has the id.
pub open spec fn id_is<T: Stored>(id: u128) -> spec_fn(T::V) -> bool {
    |v: T::V| T::key_of(v) == id
}

/// The position of the first stored value with the id, or -1.
pub open spec fn position_of_id<T: Stored>(stored: Seq<T::V>, id: u128) -> int {
    first_index(stored, id_is::<T>(id))
}

pub proof fn lemma_order_is_strict_weak<T: Stored>(key: SortKey, direction: SortDirection)
    ensures
        strict_weak_order(|a: T::V, b: T::V| order_less::<T>(key, direction, a, b)),
{
    let less = |a: T::V, b: T::V| order_less::<T>(key, direction, a, b);
    assert forall|a: T::V, b: T::V| #[trigger] less(a, b) implies !less(b, a) by {
        lemma_bytes_less_asymmetric(
            vstd::utf8::encode_utf8(T::text_of(a)),
            vstd::utf8::encode_utf8(T::text_of(b)),
        );
        lemma_bytes_less_asymmetric(
            vstd::utf8::encode_utf8(T::text_of(b)),
            vstd::utf8::encode_utf8(T::text_of(a)),
        );
    }
    assert forall|a: T::V, b: T::V, c: T::V|
        !#[trigger] less(a, b) && !#[trigger] less(b, c) implies !less(a, c) by {
        let ea = vstd::utf8::encode_utf8(T::text_of(a));
        let eb = vstd::utf8::encode_utf8(T::text_of(b));
        let ec = vstd::utf8::encode_utf8(T::text_of(c));
        lemma_bytes_less_negative_transitive(ea, eb, ec);
        lemma_bytes_less_negative_transitive(ec, eb, ea);
    }
}

/// A listing is ordered as asked, and holds exactly the values the read
/// shows and the filters keep, each as often as it is stored: the listing is
/// a reordering of them.
pub proof fn lemma_listed_sorted_reordering<T: Stored>(
    stored: Seq<T::V>,
    hides_deleted: bool,
    id: Option<u128>,
    filter: Option<T::Filter>,
    key: SortKey,
    direction: SortDirection,
)
    ensures
        sorted_by(
            listed::<T>(stored, hides_deleted, id, filter, key, direction),
            |a: T::V, b: T::V| order_less::<T>(key, direction, a, b),
        ),
        listed::<T>(stored, hides_deleted, id, filter, key, direction).to_multiset() == selected::<T>(
            stored,
            hides_deleted,
            id,
            filter,
        ).to_multiset(),
{
    lemma_order_is_strict_weak::<T>(key, direction);
    lemma_stable_sorted(
        selected::<T>(stored, hides_deleted, id, filter),
        |a: T::V, b: T::V| order_less::<T>(key, direction, a, b),
    );
}

/// The listing a repository gives for a requested way of ordering.
pub open spec fn listing<T: Stored>(
    stored: Seq<T::V>,
    hides_deleted: bool,
    id: Option<u128>,
    filter: Option<T::Filter>,
    order: (SortKey, SortDirection),
) -> Seq<T::V> {
    listed::<T>(stored, hides_deleted, id, filter, order.0, order.1)
}

/// Each listed value is a stored value that the read shows and the filters
/// keep, and each stored value that the read shows and the filters keep is
/// listed.
pub proof fn lemma_listed_members<T: Stored>(
    stored: Seq<T::V>,
    hides_deleted: bool,
    id: Option<u128>,
    filter: Option<T::Filter>,
    key: SortKey,
    direction: SortDirection,
)
    ensures
        forall|i: int|
            0 <= i < listed::<T>(stored, hides_deleted, id, filter, key, direction).len() ==> {
                let v = #[trigger] listed::<T>(stored, hides_deleted, id, filter, key, direction)[i];
                shown::<T>(hides_deleted, v) && meets_filter::<T>(id, filter, v) && stored.contains(v)
            },
        forall|i: int|
            0 <= i < stored.len() && shown::<T>(hides_deleted, #[trigger] stored[i]) && meets_filter::<T>(
                id,
                filter,
                stored[i],
            ) ==> listed::<T>(stored, hides_deleted, id, filter, key, direction).contains(stored[i]),
{
    let keep = |v: T::V| shown::<T>(hides_deleted, v) && meets_filter::<T>(id, filter, v);
    let sel = selected::<T>(stored, hides_deleted, id, filter);
    let l = listed::<T>(stored, hides_deleted, id, filter, key, direction);
    lemma_listed_sorted_reordering::<T>(stored, hides_deleted, id, filter, key, direction);
    lemma_kept_members(stored, keep);
    l.to_multiset_ensures();
    sel.to_multiset_ensures();
    assert forall|i: int| 0 <= i < l.len() implies {
        let v = #[trigger] l[i];
        shown::<T>(hides_deleted, v) && meets_filter::<T>(id, filter, v) && stored.contains(v)
    } by {
        assert(l.contains(l[i]));
        assert(l.to_multiset().count(l[i]) > 0);
        assert(sel.contains(l[i]));
        let k = choose|k: int| 0 <= k < sel.len() && sel[k] == l[i];
        assert(keep(sel[k]));
    }
    assert forall|i: int|
        0 <= i < stored.len() && shown::<T>(hides_deleted, #[trigger] stored[i]) && meets_filter::<T>(
            id,
            filter,
            stored[i],
        ) implies l.contains(stored[i]) by {
        assert(keep(stored[i]));
        assert(sel.contains(stored[i]));
        assert(sel.to_multiset().count(stored[i]) > 0);
    }
}

/// The values run in order of creation time: from the earliest ascending, from
/// the latest descending.
pub open spec fn in_creation_order<T: Stored>(values: Seq<T::V>, direction: SortDirection) -> bool {
    forall|i: int, j: int|
        0 <= i < j < values.len() ==> match direction {
            SortDirection::Asc => T::created_of(#[trigger] values[i]) <= T::created_of(#[trigger] values[j]),
            SortDirection::Desc => T::created_of(values[i]) >= T::created_of(values[j]),
        }
}

/// The values run in the byte order of their texts ascending, and in the
/// reverse of it descending: no text comes strictly before one ahead of it.
pub open spec fn in_text_order<T: Stored>(values: Seq<T::V>, direction: SortDirection) -> bool {
    forall|i: int, j: int|
        0 <= i < j < values.len() ==> match direction {
            SortDirection::Asc => !text_less(T::text_of(#[trigger] values[j]), T::text_of(#[trigger] values[i])),
            SortDirection::Desc => !text_less(T::text_of(values[i]), T::text_of(values[j])),
        }
}

/// A listing ordered by creation time is in creation order.
pub proof fn lemma_listed_by_creation<T: Stored>(
    stored: Seq<T::V>,
    hides_deleted: bool,
    id: Option<u128>,
    filter: Option<T::Filter>,
    direction: SortDirection,
)
    ensures
        in_creation_order::<T>(listed::<T>(stored, hides_deleted, id, filter, SortKey::CreatedAt, direction), direction),
{
    lemma_listed_sorted_reordering::<T>(stored, hides_deleted, id, filter, SortKey::CreatedAt, direction);
}

/// A listing ordered by text is in text order.
pub proof fn lemma_listed_by_text<T: Stored>(
    stored: Seq<T::V>,
    hides_deleted: bool,
    id: Option<u128>,
    filter: Option<T::Filter>,
    direction: SortDirection,
)
    ensures
        in_text_order::<T>(listed::<T>(stored, hides_deleted, id, filter, SortKey::Text, direction), direction),
{
    lemma_listed_sorted_reordering::<T>(stored, hides_deleted, id, filter, SortKey::Text, direction);
}

/// A listing in storage order holds the values the read shows and the
/// filters keep, in the order they are stored.
pub proof fn lemma_listed_unordered<T: Stored>(
    stored: Seq<T::V>,
    hides_deleted: bool,
    id: Option<u128>,
    filter: Option<T::Filter>,
    direction: SortDirection,
)
    ensures
        listed::<T>(stored, hides_deleted, id, filter, SortKey::Unordered, direction) == selected::<T>(
            stored,
            hides_deleted,
            id,
            filter,
        ),
{
    lemma_stable_sorted_unordered(
        selected::<T>(stored, hides_deleted, id, filter),
        |a: T::V, b: T::V| order_less::<T>(SortKey::Unordered, direction, a, b),
    );
}

/// A value a filtered read finds is a stored value that the read shows and the
/// filters keep, and the read finds one whenever some stored value is such.
pub proof fn lemma_first_selected_member<T: Stored>(
    stored: Seq<T::V>,
    hides_deleted: bool,
    id: Option<u128>,
    filter: Option<T::Filter>,
)
    ensures
        first_selected::<T>(stored, hides_deleted, id, filter) matches Some(v) ==> shown::<T>(hides_deleted, v)
            && meets_filter::<T>(id, filter, v) && stored.contains(v),
        forall|i: int|
            0 <= i < stored.len() && shown::<T>(hides_deleted, #[trigger] stored[i]) && meets_filter::<T>(
                id,
                filter,
                stored[i],
            ) ==> first_selected::<T>(stored, hides_deleted, id, filter) is Some,
{
    let pred = |v: T::V| shown::<T>(hides_deleted, v) && meets_filter::<T>(id, filter, v);
    lemma_first_index_bounds(stored, pred);
    let k = first_index(stored, pred);
    if k >= 0 {
        assert(stored[k] == stored[k]);
    }
}

/// An ordering of stored entities by a key and a direction.
pub struct StoreOrder {
    pub key: SortKey,
    pub direction: SortDirection,
}

impl<T: Stored> LessThan<T> for StoreOrder {
    open spec fn less(&self, a: T, b: T) -> bool {
        order_less::<T>(self.key, self.direction, a@, b@)
    }

    fn less_than(&self, a: &T, b: &T) -> (less: bool) {
        order_less_exec(self.key, self.direction, a, b)
    }
}

/// Decides [`order_less`] on two stored values.
pub fn order_less_exec<T: Stored>(key: SortKey, direction: SortDirection, a: &T, b: &T) -> (less: bool)
    ensures
        less == order_less::<T>(key, direction, a@, b@),
{
    let (first, second) = match direction {
        SortDirection::Asc => (a, b),
        SortDirection::Desc => (b, a),
    };
    match key {
        SortKey::Text => str_less(first.sort_text(), second.sort_text()),
        SortKey::CreatedAt => first.created() < second.created(),
        SortKey::Unordered => false,
    }
}

} // verus!

verus! {

/// A value a read finds under an id is stored under that id.
pub proof fn lemma_selected_has_position<T: Stored>(
    stored: Seq<T::V>,
    hides_deleted: bool,
    id: u128,
    filter: Option<T::Filter>,
)
    requires
        first_selected::<T>(stored, hides_deleted, Some(id), filter) is Some,
    ensures
        0 <= position_of_id::<T>(stored, id) < stored.len(),
        first_selected::<T>(stored, hides_deleted, Some(id), filter) matches Some(v) && T::key_of(v)
            == id && shown::<T>(hides_deleted, v) && meets_filter::<T>(Some(id), filter, v),
{
    let pred = |v: T::V| shown::<T>(hides_deleted, v) && meets_filter::<T>(Some(id), filter, v);
    super::listing::lemma_first_index_bounds(stored, pred);
    super::listing::lemma_first_index_bounds(stored, id_is::<T>(id));
    let i = first_index(stored, pred);
    assert(id_is::<T>(id)(stored[i]));
}

} // verus!

verus! {

/// A read by id after an entity is appended finds what it found before, and
/// otherwise the new entity when reads show it.
pub proof fn lemma_find_after_insert<T: Stored>(stored: Seq<T::V>, hides_deleted: bool, value: T::V)
    ensures
        first_selected::<T>(stored.push(value), hides_deleted, Some(T::key_of(value)), None) == match first_selected::<T>(
            stored,
            hides_deleted,
            Some(T::key_of(value)),
            None,
        ) {
            Some(found) => Some(found),
            None => if shown::<T>(hides_deleted, value) {
                Some(value)
            } else {
                None
            },
        },
{
    let k = T::key_of(value);
    let pred = |v: T::V| shown::<T>(hides_deleted, v) && meets_filter::<T>(Some(k), None, v);
    let after = stored.push(value);
    super::listing::lemma_first_index_bounds(stored, pred);
    super::listing::lemma_first_index_bounds(after, pred);
    let i = first_index(stored, pred);
    if i >= 0 {
        assert(after[i] == stored[i]);
        assert forall|j: int| 0 <= j < i implies !pred(#[trigger] after[j]) by {
            assert(after[j] == stored[j]);
        }
        super::listing::lemma_first_index_found(after, pred, i);
    } else {
        assert forall|j: int| 0 <= j < stored.len() implies !pred(#[trigger] after[j]) by {
            assert(after[j] == stored[j]);
        }
        if pred(value) {
            super::listing::lemma_first_index_found(after, pred, stored.len() as int);
        } else {
            super::listing::lemma_first_index_absent(after, pred);
        }
    }
}

/// A read by id after the first entity with that id is replaced finds the
/// replacement, when reads show it.
pub proof fn lemma_find_after_update<T: Stored>(stored: Seq<T::V>, hides_deleted: bool, value: T::V)
    requires
        position_of_id::<T>(stored, T::key_of(value)) >= 0,
        shown::<T>(hides_deleted, value),
    ensures
        first_selected::<T>(
            stored.update(position_of_id::<T>(stored, T::key_of(value)), value),
            hides_deleted,
            Some(T::key_of(value)),
            None,
        ) == Some(value),
{
    let k = T::key_of(value);
    let p = position_of_id::<T>(stored, k);
    let after = stored.update(p, value);
    let pred = |v: T::V| shown::<T>(hides_deleted, v) && meets_filter::<T>(Some(k), None, v);
    super::listing::lemma_first_index_bounds(stored, id_is::<T>(k));
    assert forall|j: int| 0 <= j < p implies !pred(#[trigger] after[j]) by {
        assert(after[j] == stored[j]);
        assert(!id_is::<T>(k)(stored[j]));
    }
    super::listing::lemma_first_index_found(after, pred, p);
}

/// When no two stored entities share an id, a read by id after the entity
/// with that id is removed finds nothing.
pub proof fn lemma_find_after_remove<T: Stored>(stored: Seq<T::V>, hides_deleted: bool, id: u128)
    requires
        super::nested_map::keys_distinct::<T>(stored),
        position_of_id::<T>(stored, id) >= 0,
    ensures
        first_selected::<T>(stored.remove(position_of_id::<T>(stored, id)), hides_deleted, Some(id), None) is None,
{
    let p = position_of_id::<T>(stored, id);
    let after = stored.remove(p);
    let pred = |v: T::V| shown::<T>(hides_deleted, v) && meets_filter::<T>(Some(id), None, v);
    super::listing::lemma_first_index_bounds(stored, id_is::<T>(id));
    assert forall|j: int| 0 <= j < after.len() implies !pred(#[trigger] after[j]) by {
        if j < p {
            assert(after[j] == stored[j]);
            assert(T::key_of(stored[j]) != T::key_of(stored[p]));
        } else {
            assert(after[j] == stored[j + 1]);
            assert(T::key_of(stored[p]) != T::key_of(stored[j + 1]));
        }
    }
    super::listing::lemma_first_index_absent(after, pred);
}

/// When no two stored entities share an id and reads hide soft-deleted
/// entities, a read by id finds nothing once the entity with that id is
/// replaced by a soft-deleted copy.
pub proof fn lemma_hidden_after_soft_delete<T: Stored>(stored: Seq<T::V>, value: T::V)
    requires
        super::nested_map::keys_distinct::<T>(stored),
        position_of_id::<T>(stored, T::key_of(value)) >= 0,
        T::deleted_of(value),
    ensures
        first_selected::<T>(
            stored.update(position_of_id::<T>(stored, T::key_of(value)), value),
            true,
            Some(T::key_of(value)),
            None,
        ) is None,
{
    let k = T::key_of(value);
    let p = position_of_id::<T>(stored, k);
    let after = stored.update(p, value);
    let pred = |v: T::V| shown::<T>(true, v) && meets_filter::<T>(Some(k), None, v);
    super::listing::lemma_first_index_bounds(stored, id_is::<T>(k));
    assert forall|j: int| 0 <= j < after.len() implies !pred(#[trigger] after[j]) by {
        if j != p {
            assert(after[j] == stored[j]);
            if j < p {
                assert(T::key_of(stored[j]) != T::key_of(stored[p]));
            } else {
                assert(T::key_of(stored[p]) != T::key_of(stored[j]));
            }
        }
    }
    super::listing::lemma_first_index_absent(after, pred);
}

} // verus!
