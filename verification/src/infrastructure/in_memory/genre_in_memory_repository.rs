use vstd::prelude::*;

use crate::domain::genre::aggregate::{Genre, GenreView};
use crate::domain::genre::genre_id::GenreId;
use crate::domain::category::category_repository::uuid_values;
use crate::domain::genre::genre_repository::{genre_order, genre_uuids, IGenreRepository};
use crate::domain::shared::criteria::ScopedRepository;
use crate::domain::shared::query::{position_of_id, SortKey};
use crate::domain::shared::repository::{
    ExistsByIdResult, FindByIdsResult, SortDirection, SortOrder,
};
use crate::domain::shared::text::text_eq;
use crate::domain::shared::value_object::{uuid_text, UuidVo};

use super::category_in_memory_repository::{not_found, uuids_of, InMemoryError};
use super::store::InMemoryStore;

verus! {

/// The UUID values of genre ids, in order.
pub fn genre_values(ids: &[GenreId]) -> (values: Vec<u128>)
    ensures
        values@ == genre_uuids(ids@),
{
    let mut values: Vec<u128> = Vec::new();
    for i in 0..ids.len()
        invariant
            values@ == genre_uuids(ids@).take(i as int),
    {
        values.push(ids[i].0.id);
        assert(values@ =~= genre_uuids(ids@).take(i + 1));
    }
    assert(genre_uuids(ids@).take(ids@.len() as int) =~= genre_uuids(ids@));
    values
}

/// The sort key and direction for a requested order of genres.
pub fn genre_sort(order: Option<&SortOrder>) -> (sort: (SortKey, SortDirection))
    ensures
        sort == genre_order(
            match order {
                Some(o) => Some(*o),
                None => None,
            },
        ),
{
    match order {
        Some(o) => {
            let key = if text_eq(o.field.as_str(), "name") {
                SortKey::Text
            } else if text_eq(o.field.as_str(), "created_at") {
                SortKey::CreatedAt
            } else {
                SortKey::Unordered
            };
            (key, o.direction)
        },
        None => (SortKey::CreatedAt, SortDirection::Desc),
    }
}

/// Genres kept in memory, in insertion order.
pub struct GenreInMemoryRepository {
    store: InMemoryStore<Genre>,
}

impl GenreInMemoryRepository {
    /// An empty repository.
    pub fn new() -> (repo: Self)
        ensures
            repo.stored() == Seq::<GenreView>::empty(),
            !repo.hides_deleted(),
            repo.reliable(),
    {
        GenreInMemoryRepository { store: InMemoryStore::new() }
    }
}

impl Default for GenreInMemoryRepository {
    fn default() -> (repo: Self)
        ensures
            repo.stored() == Seq::<GenreView>::empty(),
            !repo.hides_deleted(),
    {
        Self::new()
    }
}

impl IGenreRepository for GenreInMemoryRepository {
    type Error = InMemoryError;

    closed spec fn stored(&self) -> Seq<GenreView> {
        self.store.stored()
    }

    closed spec fn hides_deleted(&self) -> bool {
        self.store.hides_deleted()
    }

    open spec fn reliable(&self) -> bool {
        true
    }

    fn sortable_fields(&self) -> (fields: Vec<&'static str>) {
        let mut fields: Vec<&'static str> = Vec::new();
        fields.push("name");
        fields.push("created_at");
        fields
    }

    fn insert(&mut self, entity: &Genre) -> (result: Result<(), InMemoryError>)
        ensures
            result is Ok,
    {
        self.store.insert(entity);
        Ok(())
    }

    fn bulk_insert(&mut self, entities: &[Genre]) -> (result: Result<(), InMemoryError>)
        ensures
            result is Ok,
    {
        self.store.bulk_insert(entities);
        Ok(())
    }

    fn find_by_id(&self, id: &GenreId) -> (result: Result<Option<Genre>, InMemoryError>)
        ensures
            result is Ok,
    {
        Ok(self.store.find_one_by(Some(id.0.id), None))
    }

    fn find_one_by(&self, genre_id: Option<&GenreId>, is_active: Option<bool>) -> (result: Result<
        Option<Genre>,
        InMemoryError,
    >)
        ensures
            result is Ok,
    {
        let id = match genre_id {
            Some(c) => Some(c.0.id),
            None => None,
        };
        Ok(self.store.find_one_by(id, is_active))
    }

    fn find_by(
        &self,
        genre_id: Option<&GenreId>,
        is_active: Option<bool>,
        order: Option<&SortOrder>,
    ) -> (result: Result<Vec<Genre>, InMemoryError>)
        ensures
            result is Ok,
    {
        let id = match genre_id {
            Some(c) => Some(c.0.id),
            None => None,
        };
        let (key, direction) = genre_sort(order);
        Ok(self.store.find_by(id, is_active, key, direction))
    }

    fn find_all(&self) -> (result: Result<Vec<Genre>, InMemoryError>)
        ensures
            result is Ok,
    {
        Ok(self.store.find_all())
    }

    fn find_by_ids(&self, ids: &[GenreId]) -> (result: Result<FindByIdsResult<Genre>, InMemoryError>)
        ensures
            result is Ok,
    {
        let values = genre_values(ids);
        let (exists, missing) = self.store.find_by_ids(values.as_slice());
        Ok(FindByIdsResult { exists, not_exists: uuids_of(missing) })
    }

    fn exists_by_id(&self, ids: &[GenreId]) -> (result: Result<ExistsByIdResult, InMemoryError>)
        ensures
            result is Ok,
    {
        let values = genre_values(ids);
        let (present, missing) = self.store.exists_by_id(values.as_slice());
        Ok(ExistsByIdResult { exists: uuids_of(present), not_exists: uuids_of(missing) })
    }

    fn update(&mut self, entity: &Genre) -> (result: Result<(), InMemoryError>)
        ensures
            result is Ok <==> position_of_id::<Genre>(old(self).stored(), entity@.genre_id.0.id) >= 0,
            result is Err ==> final(self).stored() == old(self).stored(),
            result is Err ==> (result matches Err(InMemoryError::NotFound(e)) && e.id@ == uuid_text(
                entity@.genre_id.0.id,
            ) && e.entity_name@ == "Genre"@),
    {
        if self.store.update(entity) {
            Ok(())
        } else {
            Err(not_found(&entity.genre_id().0, "Genre"))
        }
    }

    fn delete(&mut self, id: &GenreId) -> (result: Result<(), InMemoryError>)
        ensures
            result is Ok <==> position_of_id::<Genre>(old(self).stored(), id.0.id) >= 0,
            result is Err ==> final(self).stored() == old(self).stored(),
            result is Err ==> (result matches Err(InMemoryError::NotFound(e)) && e.id@ == uuid_text(
                id.0.id,
            ) && e.entity_name@ == "Genre"@),
    {
        if self.store.delete(id.0.id) {
            Ok(())
        } else {
            Err(not_found(&id.0, "Genre"))
        }
    }
}

impl ScopedRepository for GenreInMemoryRepository {
    fn ignore_soft_deleted(&mut self)
        ensures
            final(self).stored() == old(self).stored(),
            final(self).hides_deleted(),
    {
        self.store.set_hides_deleted(true);
    }

    fn clear_scopes(&mut self)
        ensures
            final(self).stored() == old(self).stored(),
            !final(self).hides_deleted(),
    {
        self.store.set_hides_deleted(false);
    }
}

} // verus!
