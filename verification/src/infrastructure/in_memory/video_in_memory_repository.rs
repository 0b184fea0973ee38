use vstd::prelude::*;

use crate::domain::video::aggregate::{Video, VideoView};
use crate::domain::video::video_id::VideoId;
use crate::domain::category::category_repository::uuid_values;
use crate::domain::video::video_repository::{video_order, video_uuids, IVideoRepository};
use crate::domain::shared::criteria::ScopedRepository;
use crate::domain::shared::query::{position_of_id, SortKey};
use crate::domain::shared::repository::{
    ExistsByIdResult, FindByIdsResult, SortDirection, SortOrder,
};
use crate::domain::shared::text::text_eq;
use crate::domain::shared::value_object::{uuid_text, UuidVo};

use super::category_in_memory_repository::{not_found, uuids_of, InMemoryError};
use super::store::InMemoryStore;

verus! {

/// The UUID values of video ids, in order.
pub fn video_values(ids: &[VideoId]) -> (values: Vec<u128>)
    ensures
        values@ == video_uuids(ids@),
{
    let mut values: Vec<u128> = Vec::new();
    for i in 0..ids.len()
        invariant
            values@ == video_uuids(ids@).take(i as int),
    {
        values.push(ids[i].0.id);
        assert(values@ =~= video_uuids(ids@).take(i + 1));
    }
    assert(video_uuids(ids@).take(ids@.len() as int) =~= video_uuids(ids@));
    values
}

/// The sort key and direction for a requested order of videos.
pub fn video_sort(order: Option<&SortOrder>) -> (sort: (SortKey, SortDirection))
    ensures
        sort == video_order(
            match order {
                Some(o) => Some(*o),
                None => None,
            },
        ),
{
    match order {
        Some(o) => {
            let key = if text_eq(o.field.as_str(), "title") {
                SortKey::Text
            } else if text_eq(o.field.as_str(), "created_at") {
                SortKey::CreatedAt
            } else {
                SortKey::Unordered
            };
            (key, o.direction)
        },
        None => (SortKey::CreatedAt, SortDirection::Desc),
    }
}

/// Videos kept in memory, in insertion order.
pub struct VideoInMemoryRepository {
    store: InMemoryStore<Video>,
}

impl VideoInMemoryRepository {
    /// An empty repository.
    pub fn new() -> (repo: Self)
        ensures
            repo.stored() == Seq::<VideoView>::empty(),
            !repo.hides_deleted(),
            repo.reliable(),
    {
        VideoInMemoryRepository { store: InMemoryStore::new() }
    }
}

impl Default for VideoInMemoryRepository {
    fn default() -> (repo: Self)
        ensures
            repo.stored() == Seq::<VideoView>::empty(),
            !repo.hides_deleted(),
    {
        Self::new()
    }
}

impl IVideoRepository for VideoInMemoryRepository {
    type Error = InMemoryError;

    closed spec fn stored(&self) -> Seq<VideoView> {
        self.store.stored()
    }

    closed spec fn hides_deleted(&self) -> bool {
        self.store.hides_deleted()
    }

    open spec fn reliable(&self) -> bool {
        true
    }

    fn sortable_fields(&self) -> (fields: Vec<&'static str>) {
        let mut fields: Vec<&'static str> = Vec::new();
        fields.push("title");
        fields.push("created_at");
        fields
    }

    fn insert(&mut self, entity: &Video) -> (result: Result<(), InMemoryError>)
        ensures
            result is Ok,
    {
        self.store.insert(entity);
        Ok(())
    }

    fn bulk_insert(&mut self, entities: &[Video]) -> (result: Result<(), InMemoryError>)
        ensures
            result is Ok,
    {
        self.store.bulk_insert(entities);
        Ok(())
    }

    fn find_by_id(&self, id: &VideoId) -> (result: Result<Option<Video>, InMemoryError>)
        ensures
            result is Ok,
    {
        Ok(self.store.find_one_by(Some(id.0.id), None))
    }

    fn find_one_by(&self, video_id: Option<&VideoId>, is_published: Option<bool>) -> (result: Result<
        Option<Video>,
        InMemoryError,
    >)
        ensures
            result is Ok,
    {
        let id = match video_id {
            Some(c) => Some(c.0.id),
            None => None,
        };
        Ok(self.store.find_one_by(id, is_published))
    }

    fn find_by(
        &self,
        video_id: Option<&VideoId>,
        is_published: Option<bool>,
        order: Option<&SortOrder>,
    ) -> (result: Result<Vec<Video>, InMemoryError>)
        ensures
            result is Ok,
    {
        let id = match video_id {
            Some(c) => Some(c.0.id),
            None => None,
        };
        let (key, direction) = video_sort(order);
        Ok(self.store.find_by(id, is_published, key, direction))
    }

    fn find_all(&self) -> (result: Result<Vec<Video>, InMemoryError>)
        ensures
            result is Ok,
    {
        Ok(self.store.find_all())
    }

    fn find_by_ids(&self, ids: &[VideoId]) -> (result: Result<FindByIdsResult<Video>, InMemoryError>)
        ensures
            result is Ok,
    {
        let values = video_values(ids);
        let (exists, missing) = self.store.find_by_ids(values.as_slice());
        Ok(FindByIdsResult { exists, not_exists: uuids_of(missing) })
    }

    fn exists_by_id(&self, ids: &[VideoId]) -> (result: Result<ExistsByIdResult, InMemoryError>)
        ensures
            result is Ok,
    {
        let values = video_values(ids);
        let (present, missing) = self.store.exists_by_id(values.as_slice());
        Ok(ExistsByIdResult { exists: uuids_of(present), not_exists: uuids_of(missing) })
    }

    fn update(&mut self, entity: &Video) -> (result: Result<(), InMemoryError>)
        ensures
            result is Ok <==> position_of_id::<Video>(old(self).stored(), entity@.video_id.0.id) >= 0,
            result is Err ==> final(self).stored() == old(self).stored(),
            result is Err ==> (result matches Err(InMemoryError::NotFound(e)) && e.id@ == uuid_text(
                entity@.video_id.0.id,
            ) && e.entity_name@ == "Video"@),
    {
        if self.store.update(entity) {
            Ok(())
        } else {
            Err(not_found(&entity.video_id().0, "Video"))
        }
    }

    fn delete(&mut self, id: &VideoId) -> (result: Result<(), InMemoryError>)
        ensures
            result is Ok <==> position_of_id::<Video>(old(self).stored(), id.0.id) >= 0,
            result is Err ==> final(self).stored() == old(self).stored(),
            result is Err ==> (result matches Err(InMemoryError::NotFound(e)) && e.id@ == uuid_text(
                id.0.id,
            ) && e.entity_name@ == "Video"@),
    {
        if self.store.delete(id.0.id) {
            Ok(())
        } else {
            Err(not_found(&id.0, "Video"))
        }
    }
}

impl ScopedRepository for VideoInMemoryRepository {
    fn ignore_soft_deleted(&mut self)
        ensures
            final(self).stored() == old(self).stored(),
            final(self).hides_deleted(),
    {
        self.store.set_hides_deleted(true);
    }

    fn clear_scopes(&mut self)
        ensures
            final(self).stored() == old(self).stored(),
            !final(self).hides_deleted(),
    {
        self.store.set_hides_deleted(false);
    }
}

} // verus!
