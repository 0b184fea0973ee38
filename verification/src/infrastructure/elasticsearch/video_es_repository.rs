use vstd::prelude::*;

use crate::domain::video::aggregate::{Video, VideoView};
use crate::domain::video::video_id::VideoId;
use crate::domain::video::video_repository::video_uuids;
use crate::domain::category::category_repository::uuid_values;
use crate::domain::shared::errors::{not_found_message, ErrorMessage, NotFoundError};
use crate::domain::shared::nested_map::views_of;
use crate::domain::shared::listing::kept;
use crate::domain::shared::repository::{FindByIdsResult, SortDirection, SortOrder};
use crate::domain::shared::value_object::{uuid_text, UuidVo};

use super::video_mapper::{video_from_document, VideoDocument, VideoDocumentView, VideoElasticSearchMapper, VIDEO_DOCUMENT_TYPE};
use super::search::{
    hit_id_texts, hit_ids, mapped_sort_field, pair_texts, sort_for, split_by_found, SearchFilter, SearchSort,
};

verus! {

/// Why a request to the video index failed.
#[derive(Debug)]
pub enum VideoEsRepositoryError {
    NotFound(NotFoundError),
    Elasticsearch(String),
    Mapping(String),
}

impl VideoEsRepositoryError {
    /// `elasticsearch error: <m>`, `mapping error: <m>`, or the not-found message.
    pub fn to_string(&self) -> (message: String)
        ensures
            self matches VideoEsRepositoryError::NotFound(e) ==> message@ == not_found_message(e.id@, e.entity_name@),
            self matches VideoEsRepositoryError::Elasticsearch(m) ==> message@ == "elasticsearch error: "@ + m@,
            self matches VideoEsRepositoryError::Mapping(m) ==> message@ == "mapping error: "@ + m@,
    {
        match self {
            VideoEsRepositoryError::NotFound(e) => e.to_string(),
            VideoEsRepositoryError::Elasticsearch(m) => {
                let mut message = String::from_str("elasticsearch error: ");
                message.append(m.as_str());
                message
            },
            VideoEsRepositoryError::Mapping(m) => {
                let mut message = String::from_str("mapping error: ");
                message.append(m.as_str());
                message
            },
        }
    }
}

impl ErrorMessage for VideoEsRepositoryError {
    /// The not-found message, `elasticsearch error: <m>` or `mapping error: <m>`.
    open spec fn message_text(&self) -> Seq<char> {
        match self {
            VideoEsRepositoryError::NotFound(e) => not_found_message(e.id@, e.entity_name@),
            VideoEsRepositoryError::Elasticsearch(m) => "elasticsearch error: "@ + m@,
            VideoEsRepositoryError::Mapping(m) => "mapping error: "@ + m@,
        }
    }

    fn message(&self) -> (message: String) {
        self.to_string()
    }
}

/// The search for videos: of type `Video`, with the id and the publication when
/// given, leaving out deleted ones when soft-deleted videos are hidden.
pub fn video_filter(video_id: Option<&VideoId>, is_published: Option<bool>, exclude_deleted: bool) -> (filter:
    SearchFilter)
    ensures
        filter.doc_type@ == "Video"@,
        match video_id {
            Some(id) => filter.id matches Some(t) && t@ == uuid_text(id.0.id),
            None => filter.id is None,
        },
        match is_published {
            Some(b) => filter.flag matches Some(f) && f.0@ == "is_published"@ && f.1 == b,
            None => filter.flag is None,
        },
        filter.exclude_deleted == exclude_deleted,
{
    let id = match video_id {
        Some(id) => Some(id.to_string()),
        None => None,
    };
    SearchFilter::new(VIDEO_DOCUMENT_TYPE, id, "is_published", is_published, exclude_deleted)
}

/// The index field a requested order of videos sorts by: `title` sorts by
/// `video_title`, `created_at` by `created_at`; no other field sorts.
pub open spec fn video_sort_field(field: Seq<char>) -> Option<Seq<char>> {
    if field == "title"@ {
        Some("video_title"@)
    } else if field == "created_at"@ {
        Some("created_at"@)
    } else {
        None
    }
}

/// The order of the index for a requested order of videos.
pub fn video_sort(order: Option<&SortOrder>) -> (sort: Option<SearchSort>)
    ensures
        match order {
            None => sort is None,
            Some(o) => match video_sort_field(o.field@) {
                None => sort is None,
                Some(f) => sort matches Some(s) && s.field@ == f && s.direction == o.direction,
            },
        },
{
    let fields = [("title", "video_title"), ("created_at", "created_at")];
    let sort = sort_for(&fields, order);
    proof {
        reveal_strlit("title");
        reveal_strlit("video_title");
        reveal_strlit("created_at");
        if let Some(o) = order {
            let pairs = pair_texts(fields@);
            assert(pairs.len() == 2);
            assert(pairs[0] == ("title"@, "video_title"@));
            assert(pairs[1] == ("created_at"@, "created_at"@));
            assert(pairs.drop_first()[0] == pairs[1]);
            assert(pairs.drop_first().drop_first().len() == 0);
            assert(mapped_sort_field(pairs.drop_first().drop_first(), Some(*o)) is None);
            assert(mapped_sort_field(pairs.drop_first(), Some(*o)) == (if "created_at"@ == o.field@ {
                Some("created_at"@)
            } else {
                None::<Seq<char>>
            }));
            assert(mapped_sort_field(pairs, Some(*o)) == video_sort_field(o.field@));
        }
    }
    sort
}

/// The videos of search hits, each loaded from its document under its id,
/// if every one loads.
pub open spec fn videos_of_hits(hits: Seq<(Seq<char>, VideoDocumentView)>) -> Option<Seq<VideoView>> {
    if forall|i: int| 0 <= i < hits.len() ==> #[trigger] video_from_document(hits[i].0, hits[i].1) is Ok {
        Some(
            hits.map_values(
                |h: (Seq<char>, VideoDocumentView)|
                    match video_from_document(h.0, h.1) {
                        Ok(g) => g,
                        Err(_) => arbitrary(),
                    },
            ),
        )
    } else {
        None
    }
}

/// The abstract values of search hits.
pub open spec fn video_hit_views(hits: Seq<(String, VideoDocument)>) -> Seq<(Seq<char>, VideoDocumentView)> {
    hits.map_values(|h: (String, VideoDocument)| (h.0@, h.1@))
}

/// Loads the videos of search hits, in order; a hit that does not load fails
/// the whole read with `mapping error: Load Entity Error`.
pub fn videos_from_hits(hits: &Vec<(String, VideoDocument)>) -> (result: Result<Vec<Video>, VideoEsRepositoryError>)
    ensures
        match videos_of_hits(video_hit_views(hits@)) {
            Some(videos) => result matches Ok(v) && views_of(v@) == videos,
            None => result matches Err(VideoEsRepositoryError::Mapping(m)) && m@ == "Load Entity Error"@,
        },
{
    let ghost all = video_hit_views(hits@);
    let mut videos: Vec<Video> = Vec::new();
    for i in 0..hits.len()
        invariant
            all == video_hit_views(hits@),
            videos@.len() == i,
            forall|k: int| 0 <= k < i ==> #[trigger] video_from_document(all[k].0, all[k].1) is Ok,
            forall|k: int|
                0 <= k < i ==> video_from_document(all[k].0, all[k].1) == Ok::<VideoView, Seq<Seq<char>>>(
                    (#[trigger] videos@[k])@,
                ),
    {
        let hit = &hits[i];
        match VideoElasticSearchMapper::to_entity(hit.0.as_str(), &hit.1) {
            Ok(video) => {
                videos.push(video);
            },
            Err(e) => {
                assert(!(video_from_document(all[i as int].0, all[i as int].1) is Ok));
                return Err(VideoEsRepositoryError::Mapping(e.to_string()));
            },
        }
    }
    proof {
        assert(views_of(videos@) =~= all.map_values(
            |h: (Seq<char>, VideoDocumentView)|
                match video_from_document(h.0, h.1) {
                    Ok(g) => g,
                    Err(_) => arbitrary(),
                },
        ));
    }
    Ok(videos)
}

/// Loads the video of the first search hit, if there is one.
pub fn first_video_from_hits(hits: &Vec<(String, VideoDocument)>) -> (result: Result<
    Option<Video>,
    VideoEsRepositoryError,
>)
    ensures
        hits@.len() == 0 ==> result matches Ok(None),
        hits@.len() > 0 ==> match video_from_document(hits@[0].0@, hits@[0].1@) {
            Ok(g) => result matches Ok(Some(x)) && x@ == g,
            Err(_) => result matches Err(VideoEsRepositoryError::Mapping(m)) && m@ == "Load Entity Error"@,
        },
{
    if hits.len() == 0 {
        return Ok(None);
    }
    match VideoElasticSearchMapper::to_entity(hits[0].0.as_str(), &hits[0].1) {
        Ok(video) => Ok(Some(video)),
        Err(e) => Err(VideoEsRepositoryError::Mapping(e.to_string())),
    }
}

/// The UUIDs of video ids, in order.
fn uuids_of_ids(ids: &[VideoId]) -> (uuids: Vec<UuidVo>)
    ensures
        uuid_values(uuids@) == video_uuids(ids@),
{
    let mut uuids: Vec<UuidVo> = Vec::new();
    for i in 0..ids.len()
        invariant
            uuid_values(uuids@) == video_uuids(ids@).take(i as int),
    {
        let ghost before = uuids@;
        uuids.push(ids[i].0);
        assert(uuids@ == before.push(ids@[i as int].0));
        assert(uuid_values(uuids@) =~= uuid_values(before).push(ids@[i as int].0.id));
        assert(video_uuids(ids@).take(i + 1) =~= video_uuids(ids@).take(i as int).push(ids@[i as int].0.id));
    }
    assert(video_uuids(ids@).take(ids@.len() as int) =~= video_uuids(ids@));
    uuids
}

/// What a search for `ids` gives: the videos of its hits, in order, and the
/// ids, in order, that no hit has; a hit that does not load fails the whole
/// read with `mapping error: Load Entity Error`.
pub fn videos_found_by_ids(ids: &[VideoId], hits: &Vec<(String, VideoDocument)>) -> (result: Result<
    FindByIdsResult<Video>,
    VideoEsRepositoryError,
>)
    ensures
        match videos_of_hits(video_hit_views(hits@)) {
            Some(found) => result matches Ok(r) && views_of(r.exists@) == found && uuid_values(r.not_exists@)
                == kept(video_uuids(ids@), |k: u128| !hit_id_texts(hits@).contains(uuid_text(k))),
            None => result matches Err(VideoEsRepositoryError::Mapping(m)) && m@ == "Load Entity Error"@,
        },
{
    let exists = match videos_from_hits(hits) {
        Ok(found) => found,
        Err(e) => {
            return Err(e);
        },
    };
    let found_ids = hit_ids(hits);
    let uuids = uuids_of_ids(ids);
    let split = split_by_found(&uuids, &found_ids);
    Ok(FindByIdsResult { exists, not_exists: split.not_exists })
}

} // verus!
