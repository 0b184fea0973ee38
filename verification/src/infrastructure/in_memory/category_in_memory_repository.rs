use vstd::prelude::*;

use crate::domain::category::aggregate::{Category, CategoryView};
use crate::domain::category::category_id::CategoryId;
use crate::domain::category::category_repository::{
    category_order, category_uuids, uuid_values, ICategoryRepository,
};
use crate::domain::shared::errors::{not_found_message, ErrorMessage, NotFoundError};
use crate::domain::shared::query::{position_of_id, SortKey};
use crate::domain::shared::repository::{
    ExistsByIdResult, FindByIdsResult, SortDirection, SortOrder,
};
use crate::domain::shared::text::text_eq;
use crate::domain::shared::value_object::{uuid_text, UuidVo};

use super::store::InMemoryStore;

verus! {

/// Why an in-memory repository refused a request.
#[derive(Debug)]
pub enum InMemoryError {
    /// No stored entity has the id.
    NotFound(NotFoundError),
    /// The storage could not be reached. The repositories here own their
    /// storage directly and never report it.
    LockPoisoned,
}

impl ErrorMessage for InMemoryError {
    /// The not-found message, or `lock poisoned`.
    open spec fn message_text(&self) -> Seq<char> {
        match self {
            InMemoryError::NotFound(e) => not_found_message(e.id@, e.entity_name@),
            InMemoryError::LockPoisoned => "lock poisoned"@,
        }
    }

    fn message(&self) -> (message: String) {
        match self {
            InMemoryError::NotFound(e) => e.to_string(),
            InMemoryError::LockPoisoned => String::from_str("lock poisoned"),
        }
    }
}

/// The not-found error for an entity kind and an id.
pub fn not_found(id: &UuidVo, entity_name: &str) -> (error: InMemoryError)
    ensures
        error matches InMemoryError::NotFound(e) && e.id@ == uuid_text(id.id) && e.entity_name@
            == entity_name@,
{
    let text = id.to_string();
    InMemoryError::NotFound(NotFoundError::new(text.as_str(), entity_name))
}

/// The UUID values of category ids, in order.
pub fn category_values(ids: &[CategoryId]) -> (values: Vec<u128>)
    ensures
        values@ == category_uuids(ids@),
{
    let mut values: Vec<u128> = Vec::new();
    for i in 0..ids.len()
        invariant
            values@ == category_uuids(ids@).take(i as int),
    {
        values.push(ids[i].0.id);
        assert(values@ =~= category_uuids(ids@).take(i + 1));
    }
    assert(category_uuids(ids@).take(ids@.len() as int) =~= category_uuids(ids@));
    values
}

/// UUIDs for a list of values, in order.
pub fn uuids_of(values: Vec<u128>) -> (ids: Vec<UuidVo>)
    ensures
        uuid_values(ids@) == values@,
{
    let mut ids: Vec<UuidVo> = Vec::new();
    for i in 0..values.len()
        invariant
            uuid_values(ids@) == values@.take(i as int),
    {
        let ghost before = ids@;
        ids.push(UuidVo { id: values[i] });
        assert(uuid_values(ids@) =~= uuid_values(before).push(values@[i as int]));
        assert(values@.take(i + 1) =~= values@.take(i as int).push(values@[i as int]));
    }
    assert(values@.take(values@.len() as int) =~= values@);
    ids
}

/// The sort key and direction for a requested order of categories.
pub fn category_sort(order: Option<&SortOrder>) -> (sort: (SortKey, SortDirection))
    ensures
        sort == category_order(
            match order {
                Some(o) => Some(*o),
                None => None,
            },
        ),
{
    match order {
        Some(o) => {
            let key = if text_eq(o.field.as_str(), "name") {
                SortKey::Text
            } else if text_eq(o.field.as_str(), "created_at") {
                SortKey::CreatedAt
            } else {
                SortKey::Unordered
            };
            (key, o.direction)
        },
        None => (SortKey::Unordered, SortDirection::Asc),
    }
}

/// Categories kept in memory, in insertion order.
pub struct CategoryInMemoryRepository {
    store: InMemoryStore<Category>,
}

impl CategoryInMemoryRepository {
    /// An empty repository.
    pub fn new() -> (repo: Self)
        ensures
            repo.stored() == Seq::<CategoryView>::empty(),
            !repo.hides_deleted(),
            repo.reliable(),
    {
        CategoryInMemoryRepository { store: InMemoryStore::new() }
    }
}

impl Default for CategoryInMemoryRepository {
    fn default() -> (repo: Self)
        ensures
            repo.stored() == Seq::<CategoryView>::empty(),
            !repo.hides_deleted(),
    {
        Self::new()
    }
}

impl Clone for CategoryInMemoryRepository {
    /// An independent repository holding the same categories.
    fn clone(&self) -> (copy: Self)
        ensures
            copy.stored() == self.stored(),
            copy.hides_deleted() == self.hides_deleted(),
            copy.reliable(),
    {
        CategoryInMemoryRepository { store: self.store.clone() }
    }
}

impl ICategoryRepository for CategoryInMemoryRepository {
    type Error = InMemoryError;

    closed spec fn stored(&self) -> Seq<CategoryView> {
        self.store.stored()
    }

    closed spec fn hides_deleted(&self) -> bool {
        self.store.hides_deleted()
    }

    open spec fn reliable(&self) -> bool {
        true
    }

    fn sortable_fields(&self) -> (fields: Vec<&'static str>) {
        let mut fields: Vec<&'static str> = Vec::new();
        fields.push("name");
        fields.push("created_at");
        fields
    }

    fn insert(&mut self, entity: &Category) -> (result: Result<(), InMemoryError>)
        ensures
            result is Ok,
    {
        self.store.insert(entity);
        Ok(())
    }

    fn bulk_insert(&mut self, entities: &[Category]) -> (result: Result<(), InMemoryError>)
        ensures
            result is Ok,
    {
        self.store.bulk_insert(entities);
        Ok(())
    }

    fn find_by_id(&self, id: &CategoryId) -> (result: Result<Option<Category>, InMemoryError>)
        ensures
            result is Ok,
    {
        Ok(self.store.find_one_by(Some(id.0.id), None))
    }

    fn find_one_by(&self, category_id: Option<&CategoryId>, is_active: Option<bool>) -> (result: Result<
        Option<Category>,
        InMemoryError,
    >)
        ensures
            result is Ok,
    {
        let id = match category_id {
            Some(c) => Some(c.0.id),
            None => None,
        };
        Ok(self.store.find_one_by(id, is_active))
    }

    fn find_by(
        &self,
        category_id: Option<&CategoryId>,
        is_active: Option<bool>,
        order: Option<&SortOrder>,
    ) -> (result: Result<Vec<Category>, InMemoryError>)
        ensures
            result is Ok,
    {
        let id = match category_id {
            Some(c) => Some(c.0.id),
            None => None,
        };
        let (key, direction) = category_sort(order);
        Ok(self.store.find_by(id, is_active, key, direction))
    }

    fn find_all(&self) -> (result: Result<Vec<Category>, InMemoryError>)
        ensures
            result is Ok,
    {
        Ok(self.store.find_all())
    }

    fn find_by_ids(&self, ids: &[CategoryId]) -> (result: Result<FindByIdsResult<Category>, InMemoryError>)
        ensures
            result is Ok,
    {
        let values = category_values(ids);
        let (exists, missing) = self.store.find_by_ids(values.as_slice());
        Ok(FindByIdsResult { exists, not_exists: uuids_of(missing) })
    }

    fn exists_by_id(&self, ids: &[CategoryId]) -> (result: Result<ExistsByIdResult, InMemoryError>)
        ensures
            result is Ok,
    {
        let values = category_values(ids);
        let (present, missing) = self.store.exists_by_id(values.as_slice());
        Ok(ExistsByIdResult { exists: uuids_of(present), not_exists: uuids_of(missing) })
    }

    fn update(&mut self, entity: &Category) -> (result: Result<(), InMemoryError>)
        ensures
            result is Ok <==> position_of_id::<Category>(old(self).stored(), entity@.category_id.0.id) >= 0,
            result is Err ==> final(self).stored() == old(self).stored(),
            result is Err ==> (result matches Err(InMemoryError::NotFound(e)) && e.id@ == uuid_text(
                entity@.category_id.0.id,
            ) && e.entity_name@ == "Category"@),
    {
        if self.store.update(entity) {
            Ok(())
        } else {
            Err(not_found(&entity.category_id().0, "Category"))
        }
    }

    fn delete(&mut self, id: &CategoryId) -> (result: Result<(), InMemoryError>)
        ensures
            result is Ok <==> position_of_id::<Category>(old(self).stored(), id.0.id) >= 0,
            result is Err ==> final(self).stored() == old(self).stored(),
            result is Err ==> (result matches Err(InMemoryError::NotFound(e)) && e.id@ == uuid_text(
                id.0.id,
            ) && e.entity_name@ == "Category"@),
    {
        if self.store.delete(id.0.id) {
            Ok(())
        } else {
            Err(not_found(&id.0, "Category"))
        }
    }
}

} // verus!
