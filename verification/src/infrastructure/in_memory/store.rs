use vstd::prelude::*;

use crate::domain::shared::listing::{
    kept, lemma_first_index_absent, lemma_first_index_found, lemma_kept_step, lemma_sorted_views,
};
use crate::domain::shared::nested_map::views_of;
use crate::domain::shared::ordering::{sort_by, strict_weak_order, LessThan};
use crate::domain::shared::query::{
    first_selected, found_for_ids, id_is, lemma_order_is_strict_weak, listed, meets_filter, missing_ids,
    order_less, position_of_id, shown, stores_id, SortKey, StoreOrder, Stored,
};
use crate::domain::shared::repository::SortDirection;

verus! {

/// The entities of an in-memory repository, in storage order, and whether its
/// reads leave out soft-deleted entities.
pub struct InMemoryStore<T: Stored> {
    items: Vec<T>,
    hides_deleted: bool,
}

impl<T: Stored> InMemoryStore<T> {
    /// The stored values, in storage order.
    pub closed spec fn stored(&self) -> Seq<T::V> {
        views_of(self.items@)
    }

    /// Whether reads leave out soft-deleted values.
    pub closed spec fn hides_deleted(&self) -> bool {
        self.hides_deleted
    }

    /// An empty store whose reads see everything.
    pub fn new() -> (store: Self)
        ensures
            store.stored() == Seq::<T::V>::empty(),
            !store.hides_deleted(),
    {
        let store = InMemoryStore { items: Vec::new(), hides_deleted: false };
        assert(store.stored() =~= Seq::<T::V>::empty());
        store
    }

    /// Makes reads leave out soft-deleted values, or see them again.
    pub fn set_hides_deleted(&mut self, hides_deleted: bool)
        ensures
            final(self).stored() == old(self).stored(),
            final(self).hides_deleted() == hides_deleted,
    {
        self.hides_deleted = hides_deleted;
    }

    fn shown_exec(&self, item: &T) -> (shown_now: bool)
        ensures
            shown_now == shown::<T>(self.hides_deleted(), item@),
    {
        !self.hides_deleted || !item.is_deleted()
    }

    fn matches_exec(item: &T, id: Option<u128>, filter: Option<T::Filter>) -> (m: bool)
        ensures
            m == meets_filter::<T>(id, filter, item@),
    {
        let id_match = match id {
            Some(k) => item.key() == k,
            None => true,
        };
        let filter_match = match filter {
            Some(f) => item.has_filter(f),
            None => true,
        };
        id_match && filter_match
    }

    /// Stores a copy of the entity after the others.
    pub fn insert(&mut self, entity: &T)
        ensures
            final(self).stored() == old(self).stored().push(entity@),
            final(self).hides_deleted() == old(self).hides_deleted(),
    {
        let ghost before = self.stored();
        self.items.push(entity.duplicate());
        assert(self.stored() =~= before.push(entity@));
    }

    /// Stores copies of the entities, in order, after the others.
    pub fn bulk_insert(&mut self, entities: &[T])
        ensures
            final(self).stored() == old(self).stored() + views_of(entities@),
            final(self).hides_deleted() == old(self).hides_deleted(),
    {
        let ghost before = self.stored();
        for i in 0..entities.len()
            invariant
                self.stored() == before + views_of(entities@).take(i as int),
                self.hides_deleted() == old(self).hides_deleted(),
        {
            let ghost prev = self.stored();
            self.items.push(entities[i].duplicate());
            assert(self.stored() =~= prev.push(entities@[i as int]@));
            assert(views_of(entities@).take(i + 1) =~= views_of(entities@).take(i as int).push(
                entities@[i as int]@,
            ));
        }
        assert(views_of(entities@).take(entities@.len() as int) =~= views_of(entities@));
    }

    /// A copy of the first shown entity with the id (when asked) and the filter
    /// value (when asked).
    pub fn find_one_by(&self, id: Option<u128>, filter: Option<T::Filter>) -> (found: Option<T>)
        ensures
            match found {
                Some(t) => first_selected::<T>(self.stored(), self.hides_deleted(), id, filter)
                    == Some(t@),
                None => first_selected::<T>(self.stored(), self.hides_deleted(), id, filter) is None,
            },
    {
        let ghost pred = |v: T::V| shown::<T>(self.hides_deleted(), v) && meets_filter::<T>(id, filter, v);
        let mut i: usize = 0;
        while i < self.items.len()
            invariant
                i <= self.items.len(),
                pred == (|v: T::V| shown::<T>(self.hides_deleted(), v) && meets_filter::<T>(id, filter, v)),
                forall|k: int| 0 <= k < i ==> !pred(#[trigger] self.stored()[k]),
            decreases self.items.len() - i,
        {
            let item = &self.items[i];
            if self.shown_exec(item) && Self::matches_exec(item, id, filter) {
                proof {
                    lemma_first_index_found(self.stored(), pred, i as int);
                }
                return Some(item.duplicate());
            }
            i = i + 1;
        }
        proof {
            lemma_first_index_absent(self.stored(), pred);
        }
        None
    }

    /// Copies of the shown entities with the id (when asked) and the filter value
    /// (when asked), stably ordered by `key` in `direction`.
    pub fn find_by(
        &self,
        id: Option<u128>,
        filter: Option<T::Filter>,
        key: SortKey,
        direction: SortDirection,
    ) -> (found: Vec<T>)
        ensures
            views_of(found@) == listed::<T>(self.stored(), self.hides_deleted(), id, filter, key, direction),
    {
        let ghost pred = |v: T::V| shown::<T>(self.hides_deleted(), v) && meets_filter::<T>(id, filter, v);
        let mut found: Vec<T> = Vec::new();
        for i in 0..self.items.len()
            invariant
                pred == (|v: T::V| shown::<T>(self.hides_deleted(), v) && meets_filter::<T>(id, filter, v)),
                views_of(found@) == kept(self.stored().take(i as int), pred),
        {
            let item = &self.items[i];
            proof {
                lemma_kept_step(self.stored(), pred, i as int);
            }
            if self.shown_exec(item) && Self::matches_exec(item, id, filter) {
                let ghost prev = views_of(found@);
                found.push(item.duplicate());
                assert(views_of(found@) =~= prev.push(self.stored()[i as int]));
            }
        }
        assert(self.stored().take(self.items.len() as int) =~= self.stored());
        let ghost less_view = |a: T::V, b: T::V| order_less::<T>(key, direction, a, b);
        let ghost less = |a: T, b: T| order_less::<T>(key, direction, a@, b@);
        proof {
            lemma_order_is_strict_weak::<T>(key, direction);
            assert(strict_weak_order(less)) by {
                assert forall|a: T, b: T| #[trigger] less(a, b) implies !less(b, a) by {
                    assert(less_view(a@, b@));
                }
                assert forall|a: T, b: T, c: T| !#[trigger] less(a, b) && !#[trigger] less(b, c) implies !less(
                    a,
                    c,
                ) by {
                    assert(!less_view(a@, b@) && !less_view(b@, c@));
                }
            }
        }
        let ghost unsorted = found@;
        let order = StoreOrder { key, direction };
        assert(less == (|a: T, b: T| order.less(a, b)));
        sort_by(&mut found, &order);
        proof {
            lemma_sorted_views(unsorted, less, less_view);
        }
        found
    }

    /// Copies of every shown entity, in storage order.
    pub fn find_all(&self) -> (all: Vec<T>)
        ensures
            views_of(all@) == kept(self.stored(), |v: T::V| shown::<T>(self.hides_deleted(), v)),
    {
        let ghost pred = |v: T::V| shown::<T>(self.hides_deleted(), v);
        let mut all: Vec<T> = Vec::new();
        for i in 0..self.items.len()
            invariant
                pred == (|v: T::V| shown::<T>(self.hides_deleted(), v)),
                views_of(all@) == kept(self.stored().take(i as int), pred),
        {
            let item = &self.items[i];
            proof {
                lemma_kept_step(self.stored(), pred, i as int);
            }
            if self.shown_exec(item) {
                let ghost prev = views_of(all@);
                all.push(item.duplicate());
                assert(views_of(all@) =~= prev.push(self.stored()[i as int]));
            }
        }
        assert(self.stored().take(self.items.len() as int) =~= self.stored());
        all
    }

    /// For each id in order: a copy of the first shown entity with it, or the id
    /// among those not found.
    pub fn find_by_ids(&self, ids: &[u128]) -> (result: (Vec<T>, Vec<u128>))
        ensures
            views_of(result.0@) == found_for_ids::<T>(self.stored(), self.hides_deleted(), ids@),
            result.1@ == missing_ids::<T>(self.stored(), self.hides_deleted(), ids@),
    {
        let ghost absent = |k: u128| first_selected::<T>(self.stored(), self.hides_deleted(), Some(k), None) is None;
        let mut exists: Vec<T> = Vec::new();
        let mut not_exists: Vec<u128> = Vec::new();
        for i in 0..ids.len()
            invariant
                absent == (|k: u128| first_selected::<T>(self.stored(), self.hides_deleted(), Some(k), None) is None),
                views_of(exists@) == found_for_ids::<T>(self.stored(), self.hides_deleted(), ids@.take(i as int)),
                not_exists@ == kept(ids@.take(i as int), absent),
        {
            proof {
                lemma_kept_step(ids@, absent, i as int);
                assert(ids@.take(i + 1).drop_last() =~= ids@.take(i as int));
            }
            match self.find_one_by(Some(ids[i]), None) {
                Some(item) => {
                    let ghost prev = views_of(exists@);
                    exists.push(item);
                    assert(views_of(exists@) =~= prev.push(item@));
                },
                None => {
                    not_exists.push(ids[i]);
                },
            }
        }
        assert(ids@.take(ids@.len() as int) =~= ids@);
        (exists, not_exists)
    }

    /// Whether some stored entity has the id, deleted or not.
    pub fn stores(&self, id: u128) -> (found: bool)
        ensures
            found == stores_id::<T>(self.stored(), id),
    {
        let mut i: usize = 0;
        while i < self.items.len()
            invariant
                i <= self.items.len(),
                forall|k: int| 0 <= k < i ==> T::key_of(#[trigger] self.stored()[k]) != id,
            decreases self.items.len() - i,
        {
            if self.items[i].key() == id {
                assert(T::key_of(self.stored()[i as int]) == id);
                return true;
            }
            i = i + 1;
        }
        false
    }

    /// The ids of the list that some stored entity has, and those none has, in order.
    pub fn exists_by_id(&self, ids: &[u128]) -> (result: (Vec<u128>, Vec<u128>))
        ensures
            result.0@ == kept(ids@, |k: u128| stores_id::<T>(self.stored(), k)),
            result.1@ == kept(ids@, |k: u128| !stores_id::<T>(self.stored(), k)),
    {
        let ghost present = |k: u128| stores_id::<T>(self.stored(), k);
        let ghost absent = |k: u128| !stores_id::<T>(self.stored(), k);
        let mut exists: Vec<u128> = Vec::new();
        let mut not_exists: Vec<u128> = Vec::new();
        for i in 0..ids.len()
            invariant
                present == (|k: u128| stores_id::<T>(self.stored(), k)),
                absent == (|k: u128| !stores_id::<T>(self.stored(), k)),
                exists@ == kept(ids@.take(i as int), present),
                not_exists@ == kept(ids@.take(i as int), absent),
        {
            proof {
                lemma_kept_step(ids@, present, i as int);
                lemma_kept_step(ids@, absent, i as int);
            }
            if self.stores(ids[i]) {
                exists.push(ids[i]);
            } else {
                not_exists.push(ids[i]);
            }
        }
        assert(ids@.take(ids@.len() as int) =~= ids@);
        (exists, not_exists)
    }

    fn position(&self, id: u128) -> (pos: Option<usize>)
        ensures
            match pos {
                Some(i) => i == position_of_id::<T>(self.stored(), id) && i < self.stored().len(),
                None => position_of_id::<T>(self.stored(), id) == -1,
            },
    {
        let ghost pred = id_is::<T>(id);
        let mut i: usize = 0;
        while i < self.items.len()
            invariant
                i <= self.items.len(),
                pred == id_is::<T>(id),
                forall|k: int| 0 <= k < i ==> !pred(#[trigger] self.stored()[k]),
            decreases self.items.len() - i,
        {
            if self.items[i].key() == id {
                proof {
                    lemma_first_index_found(self.stored(), pred, i as int);
                }
                return Some(i);
            }
            i = i + 1;
        }
        proof {
            lemma_first_index_absent(self.stored(), pred);
        }
        None
    }

    /// Replaces the first stored entity with the entity's id; false when none has it.
    pub fn update(&mut self, entity: &T) -> (updated: bool)
        ensures
            updated == (position_of_id::<T>(old(self).stored(), T::key_of(entity@)) >= 0),
            final(self).stored() == if updated {
                old(self).stored().update(
                    position_of_id::<T>(old(self).stored(), T::key_of(entity@)),
                    entity@,
                )
            } else {
                old(self).stored()
            },
            final(self).hides_deleted() == old(self).hides_deleted(),
    {
        match self.position(entity.key()) {
            Some(i) => {
                let ghost before = self.stored();
                self.items.set(i, entity.duplicate());
                assert(self.stored() =~= before.update(i as int, entity@));
                true
            },
            None => false,
        }
    }

    /// Removes the first stored entity with the id; false when none has it.
    pub fn delete(&mut self, id: u128) -> (deleted: bool)
        ensures
            deleted == (position_of_id::<T>(old(self).stored(), id) >= 0),
            final(self).stored() == if deleted {
                old(self).stored().remove(position_of_id::<T>(old(self).stored(), id))
            } else {
                old(self).stored()
            },
            final(self).hides_deleted() == old(self).hides_deleted(),
    {
        match self.position(id) {
            Some(i) => {
                let ghost before = self.stored();
                let _ = self.items.remove(i);
                assert(self.stored() =~= before.remove(i as int));
                true
            },
            None => false,
        }
    }
}

impl<T: Stored> Clone for InMemoryStore<T> {
    fn clone(&self) -> (copy: Self)
        ensures
            copy.stored() == self.stored(),
            copy.hides_deleted() == self.hides_deleted(),
    {
        let mut items: Vec<T> = Vec::new();
        for i in 0..self.items.len()
            invariant
                views_of(items@) == self.stored().take(i as int),
                self.stored() == views_of(self.items@),
        {
            let ghost before = views_of(items@);
            items.push(self.items[i].duplicate());
            assert(views_of(items@) =~= before.push(self.stored()[i as int]));
            assert(self.stored().take(i + 1) =~= self.stored().take(i as int).push(
                self.stored()[i as int],
            ));
        }
        assert(self.stored().take(self.items.len() as int) =~= self.stored());
        InMemoryStore { items, hides_deleted: self.hides_deleted }
    }
}

} // verus!
