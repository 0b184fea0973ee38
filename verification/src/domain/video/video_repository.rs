use vstd::prelude::*;

use crate::domain::shared::errors::ErrorMessage;
use crate::domain::shared::listing::kept;
use crate::domain::shared::nested_map::views_of;
use crate::domain::shared::ordering::text_less;
use crate::domain::shared::query::{
    first_selected, found_for_ids, lemma_first_selected_member, lemma_listed_by_creation, lemma_listed_by_text,
    lemma_listed_members, lemma_listed_unordered, listed, listing, meets_filter, missing_ids, position_of_id,
    selected, shown, stores_id, SortKey,
};
use crate::domain::shared::repository::{
    ExistsByIdResult, FindByIdsResult, SortDirection, SortOrder,
};
use crate::domain::category::category_repository::uuid_values;

use super::aggregate::{Video, VideoView};
use super::video_id::VideoId;

verus! {

/// How videos are ordered for a requested order: by `title` or by `created_at`,
/// any other field keeping storage order; with no order, newest first.
pub open spec fn video_order(order: Option<SortOrder>) -> (SortKey, SortDirection) {
    match order {
        Some(o) => (
            if o.field@ == "title"@ {
                SortKey::Text
            } else if o.field@ == "created_at"@ {
                SortKey::CreatedAt
            } else {
                SortKey::Unordered
            },
            o.direction,
        ),
        None => (SortKey::CreatedAt, SortDirection::Desc),
    }
}

/// The UUIDs of a list of video ids.
pub open spec fn video_uuids(ids: Seq<VideoId>) -> Seq<u128> {
    ids.map_values(|id: VideoId| id.0.id)
}

/// Where videos are kept. Reads see the stored videos in storage order,
/// leaving out soft-deleted ones when `hides_deleted` holds.
pub trait IVideoRepository {
    type Error: ErrorMessage;

    /// The stored videos, in storage order.
    spec fn stored(&self) -> Seq<VideoView>;

    /// Whether reads leave out soft-deleted videos.
    spec fn hides_deleted(&self) -> bool;

    /// Requests fail only where a contract below says they may (an update or a
    /// delete of a missing video); otherwise the store behind can fail any time.
    spec fn reliable(&self) -> bool;

    /// The fields a listing can be ordered by.
    fn sortable_fields(&self) -> (fields: Vec<&'static str>)
        ensures
            fields@.len() == 2,
            fields@[0]@ == "title"@,
            fields@[1]@ == "created_at"@,
    ;

    fn insert(&mut self, entity: &Video) -> (result: Result<(), Self::Error>)
        ensures
            old(self).reliable() ==> result is Ok,
            final(self).reliable() == old(self).reliable(),
            result is Ok ==> final(self).stored() == old(self).stored().push(entity@)
                && final(self).hides_deleted() == old(self).hides_deleted(),
    ;

    fn bulk_insert(&mut self, entities: &[Video]) -> (result: Result<(), Self::Error>)
        ensures
            old(self).reliable() ==> result is Ok,
            final(self).reliable() == old(self).reliable(),
            result is Ok ==> final(self).stored() == old(self).stored() + views_of(entities@)
                && final(self).hides_deleted() == old(self).hides_deleted(),
    ;

    fn find_by_id(&self, id: &VideoId) -> (result: Result<Option<Video>, Self::Error>)
        ensures
            self.reliable() ==> result is Ok,
            result matches Ok(found) ==> match found {
                Some(c) => first_selected::<Video>(self.stored(), self.hides_deleted(), Some(id.0.id), None) == Some(c@),
                None => first_selected::<Video>(self.stored(), self.hides_deleted(), Some(id.0.id), None) is None,
            },
    ;

    fn find_one_by(&self, video_id: Option<&VideoId>, is_published: Option<bool>) -> (result: Result<
        Option<Video>,
        Self::Error,
    >)
        ensures
            self.reliable() ==> result is Ok,
            result matches Ok(found) ==> ({
                let selection = first_selected::<Video>(
                    self.stored(),
                    self.hides_deleted(),
                    match video_id {
                        Some(id) => Some(id.0.id),
                        None => None,
                    },
                    is_published,
                );
                match found {
                    Some(c) => selection == Some(c@),
                    None => selection is None,
                }
            }),
    ;

    fn find_by(
        &self,
        video_id: Option<&VideoId>,
        is_published: Option<bool>,
        order: Option<&SortOrder>,
    ) -> (result: Result<Vec<Video>, Self::Error>)
        ensures
            self.reliable() ==> result is Ok,
            result matches Ok(found) ==> views_of(found@) == listed::<Video>(
                self.stored(),
                self.hides_deleted(),
                match video_id {
                    Some(id) => Some(id.0.id),
                    None => None,
                },
                is_published,
                video_order(
                    match order {
                        Some(o) => Some(*o),
                        None => None,
                    },
                ).0,
                video_order(
                    match order {
                        Some(o) => Some(*o),
                        None => None,
                    },
                ).1,
            ),
    ;

    fn find_all(&self) -> (result: Result<Vec<Video>, Self::Error>)
        ensures
            self.reliable() ==> result is Ok,
            result matches Ok(all) ==> views_of(all@) == kept(
                self.stored(),
                |v: VideoView| shown::<Video>(self.hides_deleted(), v),
            ),
    ;

    fn find_by_ids(&self, ids: &[VideoId]) -> (result: Result<FindByIdsResult<Video>, Self::Error>)
        ensures
            self.reliable() ==> result is Ok,
            result matches Ok(r) ==> views_of(r.exists@) == found_for_ids::<Video>(
                self.stored(),
                self.hides_deleted(),
                video_uuids(ids@),
            ) && uuid_values(r.not_exists@) == missing_ids::<Video>(
                self.stored(),
                self.hides_deleted(),
                video_uuids(ids@),
            ),
    ;

    fn exists_by_id(&self, ids: &[VideoId]) -> (result: Result<ExistsByIdResult, Self::Error>)
        ensures
            self.reliable() ==> result is Ok,
            result matches Ok(r) ==> uuid_values(r.exists@) == kept(
                video_uuids(ids@),
                |k: u128| stores_id::<Video>(self.stored(), k),
            ) && uuid_values(r.not_exists@) == kept(
                video_uuids(ids@),
                |k: u128| !stores_id::<Video>(self.stored(), k),
            ),
    ;

    fn update(&mut self, entity: &Video) -> (result: Result<(), Self::Error>)
        ensures
            old(self).reliable() ==> (result is Ok <==> position_of_id::<Video>(
                old(self).stored(),
                entity@.video_id.0.id,
            ) >= 0),
            final(self).reliable() == old(self).reliable(),
            result is Ok ==> position_of_id::<Video>(old(self).stored(), entity@.video_id.0.id) >= 0
                && final(self).stored() == old(self).stored().update(
                position_of_id::<Video>(old(self).stored(), entity@.video_id.0.id),
                entity@,
            ) && final(self).hides_deleted() == old(self).hides_deleted(),
    ;

    fn delete(&mut self, id: &VideoId) -> (result: Result<(), Self::Error>)
        ensures
            old(self).reliable() ==> (result is Ok <==> position_of_id::<Video>(
                old(self).stored(),
                id.0.id,
            ) >= 0),
            final(self).reliable() == old(self).reliable(),
            result is Ok ==> position_of_id::<Video>(old(self).stored(), id.0.id) >= 0
                && final(self).stored() == old(self).stored().remove(
                position_of_id::<Video>(old(self).stored(), id.0.id),
            ) && final(self).hides_deleted() == old(self).hides_deleted(),
    ;
}

} // verus!

verus! {

/// A read keeps a video: it is not soft-deleted where those are left out, and
/// it has the id asked (if one is) and the publication state asked (if one is).
pub open spec fn video_kept_by_read(
    hides_deleted: bool,
    id: Option<u128>,
    is_published: Option<bool>,
    value: VideoView,
) -> bool {
    &&& !hides_deleted || value.deleted_at is None
    &&& id matches Some(k) ==> value.video_id.0.id == k
    &&& is_published matches Some(f) ==> value.is_published == f
}

/// The videos run by title: in the byte order of the UTF-8 text ascending, and
/// in its reverse descending.
pub open spec fn videos_by_title(values: Seq<VideoView>, direction: SortDirection) -> bool {
    forall|i: int, j: int|
        0 <= i < j < values.len() ==> match direction {
            SortDirection::Asc => !text_less((#[trigger] values[j]).title, (#[trigger] values[i]).title),
            SortDirection::Desc => !text_less(values[i].title, values[j].title),
        }
}

/// The videos run by creation time: earliest first ascending, latest first
/// descending.
pub open spec fn videos_by_creation(values: Seq<VideoView>, direction: SortDirection) -> bool {
    forall|i: int, j: int|
        0 <= i < j < values.len() ==> match direction {
            SortDirection::Asc => (#[trigger] values[i]).created_at <= (#[trigger] values[j]).created_at,
            SortDirection::Desc => values[i].created_at >= values[j].created_at,
        }
}

/// What a listing of videos holds and in which order: each listed video is
/// a stored one that the read keeps, and each stored video that the read
/// keeps is listed; ordered by `title` or by `created_at` in the requested
/// direction when one of those fields is asked, in storage order for any other
/// field, newest first when no order is asked.
pub proof fn lemma_video_listing(
    stored: Seq<VideoView>,
    hides_deleted: bool,
    id: Option<u128>,
    is_published: Option<bool>,
    order: Option<SortOrder>,
)
    ensures
        forall|i: int|
            0 <= i < listing::<Video>(stored, hides_deleted, id, is_published, video_order(order)).len() ==> video_kept_by_read(
                hides_deleted,
                id,
                is_published,
                #[trigger] listing::<Video>(stored, hides_deleted, id, is_published, video_order(order))[i],
            ) && stored.contains(listing::<Video>(stored, hides_deleted, id, is_published, video_order(order))[i]),
        forall|i: int|
            0 <= i < stored.len() && video_kept_by_read(hides_deleted, id, is_published, #[trigger] stored[i])
                ==> listing::<Video>(stored, hides_deleted, id, is_published, video_order(order)).contains(stored[i]),
        order matches Some(o) ==> (o.field@ == "title"@) ==> videos_by_title(listing::<Video>(stored, hides_deleted, id, is_published, video_order(order)), o.direction),
        order matches Some(o) ==> (o.field@ == "created_at"@) ==> videos_by_creation(listing::<Video>(stored, hides_deleted, id, is_published, video_order(order)), o.direction),
        order matches Some(o) ==> (o.field@ != "title"@ && o.field@ != "created_at"@) ==> listing::<Video>(stored, hides_deleted, id, is_published, video_order(order)) == kept(
            stored,
            |x: VideoView| video_kept_by_read(hides_deleted, id, is_published, x),
        ),
        order is None ==> videos_by_creation(listing::<Video>(stored, hides_deleted, id, is_published, video_order(order)), SortDirection::Desc),
{
    reveal_strlit("title");
    reveal_strlit("created_at");
    assert("title"@.len() == 5 && "created_at"@.len() == 10);
    let (key, direction) = video_order(order);
    lemma_listed_members::<Video>(stored, hides_deleted, id, is_published, key, direction);
    lemma_listed_by_text::<Video>(stored, hides_deleted, id, is_published, direction);
    lemma_listed_by_creation::<Video>(stored, hides_deleted, id, is_published, direction);
    lemma_listed_unordered::<Video>(stored, hides_deleted, id, is_published, direction);
    let keep = |x: VideoView| video_kept_by_read(hides_deleted, id, is_published, x);
    let read_keep = |v: VideoView| shown::<Video>(hides_deleted, v) && meets_filter::<Video>(id, is_published, v);
    assert(read_keep =~= keep);
    assert(selected::<Video>(stored, hides_deleted, id, is_published) == kept(stored, keep));
}

/// A video a read finds is a stored one that the read keeps, and the
/// read finds one whenever some stored video is kept.
pub proof fn lemma_video_found_by_read(
    stored: Seq<VideoView>,
    hides_deleted: bool,
    id: Option<u128>,
    is_published: Option<bool>,
)
    ensures
        first_selected::<Video>(stored, hides_deleted, id, is_published) matches Some(x) ==> video_kept_by_read(
            hides_deleted,
            id,
            is_published,
            x,
        ) && stored.contains(x),
        forall|i: int|
            0 <= i < stored.len() && video_kept_by_read(hides_deleted, id, is_published, #[trigger] stored[i])
                ==> first_selected::<Video>(stored, hides_deleted, id, is_published) is Some,
{
    lemma_first_selected_member::<Video>(stored, hides_deleted, id, is_published);
}

} // verus!
