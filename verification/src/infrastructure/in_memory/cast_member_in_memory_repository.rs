use vstd::prelude::*;

use crate::domain::cast_member::aggregate::{CastMember, CastMemberView};
use crate::domain::cast_member::cast_member_id::CastMemberId;
use crate::domain::cast_member::cast_member_type::CastMemberType;
use crate::domain::category::category_repository::uuid_values;
use crate::domain::cast_member::cast_member_repository::{cast_member_order, cast_member_uuids, ICastMemberRepository};
use crate::domain::shared::criteria::ScopedRepository;
use crate::domain::shared::query::{position_of_id, SortKey};
use crate::domain::shared::repository::{
    ExistsByIdResult, FindByIdsResult, SortDirection, SortOrder,
};
use crate::domain::shared::text::text_eq;
use crate::domain::shared::value_object::{uuid_text, UuidVo};

use super::category_in_memory_repository::{not_found, uuids_of, InMemoryError};
use super::store::InMemoryStore;

verus! {

/// The UUID values of cast member ids, in order.
pub fn cast_member_values(ids: &[CastMemberId]) -> (values: Vec<u128>)
    ensures
        values@ == cast_member_uuids(ids@),
{
    let mut values: Vec<u128> = Vec::new();
    for i in 0..ids.len()
        invariant
            values@ == cast_member_uuids(ids@).take(i as int),
    {
        values.push(ids[i].0.id);
        assert(values@ =~= cast_member_uuids(ids@).take(i + 1));
    }
    assert(cast_member_uuids(ids@).take(ids@.len() as int) =~= cast_member_uuids(ids@));
    values
}

/// The sort key and direction for a requested order of cast members.
pub fn cast_member_sort(order: Option<&SortOrder>) -> (sort: (SortKey, SortDirection))
    ensures
        sort == cast_member_order(
            match order {
                Some(o) => Some(*o),
                None => None,
            },
        ),
{
    match order {
        Some(o) => {
            let key = if text_eq(o.field.as_str(), "name") {
                SortKey::Text
            } else if text_eq(o.field.as_str(), "created_at") {
                SortKey::CreatedAt
            } else {
                SortKey::Unordered
            };
            (key, o.direction)
        },
        None => (SortKey::CreatedAt, SortDirection::Desc),
    }
}

/// Cast members kept in memory, in insertion order.
pub struct CastMemberInMemoryRepository {
    store: InMemoryStore<CastMember>,
}

impl CastMemberInMemoryRepository {
    /// An empty repository.
    pub fn new() -> (repo: Self)
        ensures
            repo.stored() == Seq::<CastMemberView>::empty(),
            !repo.hides_deleted(),
            repo.reliable(),
    {
        CastMemberInMemoryRepository { store: InMemoryStore::new() }
    }
}

impl Default for CastMemberInMemoryRepository {
    fn default() -> (repo: Self)
        ensures
            repo.stored() == Seq::<CastMemberView>::empty(),
            !repo.hides_deleted(),
    {
        Self::new()
    }
}

impl ICastMemberRepository for CastMemberInMemoryRepository {
    type Error = InMemoryError;

    closed spec fn stored(&self) -> Seq<CastMemberView> {
        self.store.stored()
    }

    closed spec fn hides_deleted(&self) -> bool {
        self.store.hides_deleted()
    }

    open spec fn reliable(&self) -> bool {
        true
    }

    fn sortable_fields(&self) -> (fields: Vec<&'static str>) {
        let mut fields: Vec<&'static str> = Vec::new();
        fields.push("name");
        fields.push("created_at");
        fields
    }

    fn insert(&mut self, entity: &CastMember) -> (result: Result<(), InMemoryError>)
        ensures
            result is Ok,
    {
        self.store.insert(entity);
        Ok(())
    }

    fn bulk_insert(&mut self, entities: &[CastMember]) -> (result: Result<(), InMemoryError>)
        ensures
            result is Ok,
    {
        self.store.bulk_insert(entities);
        Ok(())
    }

    fn find_by_id(&self, id: &CastMemberId) -> (result: Result<Option<CastMember>, InMemoryError>)
        ensures
            result is Ok,
    {
        Ok(self.store.find_one_by(Some(id.0.id), None))
    }

    fn find_one_by(&self, cast_member_id: Option<&CastMemberId>, cast_member_type: Option<CastMemberType>) -> (result: Result<
        Option<CastMember>,
        InMemoryError,
    >)
        ensures
            result is Ok,
    {
        let id = match cast_member_id {
            Some(c) => Some(c.0.id),
            None => None,
        };
        Ok(self.store.find_one_by(id, cast_member_type))
    }

    fn find_by(
        &self,
        cast_member_id: Option<&CastMemberId>,
        cast_member_type: Option<CastMemberType>,
        order: Option<&SortOrder>,
    ) -> (result: Result<Vec<CastMember>, InMemoryError>)
        ensures
            result is Ok,
    {
        let id = match cast_member_id {
            Some(c) => Some(c.0.id),
            None => None,
        };
        let (key, direction) = cast_member_sort(order);
        Ok(self.store.find_by(id, cast_member_type, key, direction))
    }

    fn find_all(&self) -> (result: Result<Vec<CastMember>, InMemoryError>)
        ensures
            result is Ok,
    {
        Ok(self.store.find_all())
    }

    fn find_by_ids(&self, ids: &[CastMemberId]) -> (result: Result<FindByIdsResult<CastMember>, InMemoryError>)
        ensures
            result is Ok,
    {
        let values = cast_member_values(ids);
        let (exists, missing) = self.store.find_by_ids(values.as_slice());
        Ok(FindByIdsResult { exists, not_exists: uuids_of(missing) })
    }

    fn exists_by_id(&self, ids: &[CastMemberId]) -> (result: Result<ExistsByIdResult, InMemoryError>)
        ensures
            result is Ok,
    {
        let values = cast_member_values(ids);
        let (present, missing) = self.store.exists_by_id(values.as_slice());
        Ok(ExistsByIdResult { exists: uuids_of(present), not_exists: uuids_of(missing) })
    }

    fn update(&mut self, entity: &CastMember) -> (result: Result<(), InMemoryError>)
        ensures
            result is Ok <==> position_of_id::<CastMember>(old(self).stored(), entity@.cast_member_id.0.id) >= 0,
            result is Err ==> final(self).stored() == old(self).stored(),
            result is Err ==> (result matches Err(InMemoryError::NotFound(e)) && e.id@ == uuid_text(
                entity@.cast_member_id.0.id,
            ) && e.entity_name@ == "CastMember"@),
    {
        if self.store.update(entity) {
            Ok(())
        } else {
            Err(not_found(&entity.cast_member_id().0, "CastMember"))
        }
    }

    fn delete(&mut self, id: &CastMemberId) -> (result: Result<(), InMemoryError>)
        ensures
            result is Ok <==> position_of_id::<CastMember>(old(self).stored(), id.0.id) >= 0,
            result is Err ==> final(self).stored() == old(self).stored(),
            result is Err ==> (result matches Err(InMemoryError::NotFound(e)) && e.id@ == uuid_text(
                id.0.id,
            ) && e.entity_name@ == "CastMember"@),
    {
        if self.store.delete(id.0.id) {
            Ok(())
        } else {
            Err(not_found(&id.0, "CastMember"))
        }
    }
}

impl ScopedRepository for CastMemberInMemoryRepository {
    fn ignore_soft_deleted(&mut self)
        ensures
            final(self).stored() == old(self).stored(),
            final(self).hides_deleted(),
    {
        self.store.set_hides_deleted(true);
    }

    fn clear_scopes(&mut self)
        ensures
            final(self).stored() == old(self).stored(),
            !final(self).hides_deleted(),
    {
        self.store.set_hides_deleted(false);
    }
}

} // verus!
