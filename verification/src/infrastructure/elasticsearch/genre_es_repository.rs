use vstd::prelude::*;

use crate::domain::genre::aggregate::{Genre, GenreView};
use crate::domain::genre::genre_id::GenreId;
use crate::domain::genre::genre_repository::genre_uuids;
use crate::domain::category::category_repository::uuid_values;
use crate::domain::shared::errors::{not_found_message, ErrorMessage, NotFoundError};
use crate::domain::shared::nested_map::views_of;
use crate::domain::shared::listing::kept;
use crate::domain::shared::repository::{FindByIdsResult, SortDirection, SortOrder};
use crate::domain::shared::value_object::{uuid_text, UuidVo};

use super::genre_mapper::{genre_from_document, GenreDocument, GenreDocumentView, GenreElasticSearchMapper, GENRE_DOCUMENT_TYPE};
use super::search::{
    hit_id_texts, hit_ids, mapped_sort_field, pair_texts, sort_for, split_by_found, SearchFilter, SearchSort,
};

verus! {

/// Why a request to the genre index failed.
#[derive(Debug)]
pub enum GenreEsRepositoryError {
    NotFound(NotFoundError),
    Elasticsearch(String),
    Mapping(String),
}

impl GenreEsRepositoryError {
    /// `elasticsearch error: <m>`, `mapping error: <m>`, or the not-found message.
    pub fn to_string(&self) -> (message: String)
        ensures
            self matches GenreEsRepositoryError::NotFound(e) ==> message@ == not_found_message(e.id@, e.entity_name@),
            self matches GenreEsRepositoryError::Elasticsearch(m) ==> message@ == "elasticsearch error: "@ + m@,
            self matches GenreEsRepositoryError::Mapping(m) ==> message@ == "mapping error: "@ + m@,
    {
        match self {
            GenreEsRepositoryError::NotFound(e) => e.to_string(),
            GenreEsRepositoryError::Elasticsearch(m) => {
                let mut message = String::from_str("elasticsearch error: ");
                message.append(m.as_str());
                message
            },
            GenreEsRepositoryError::Mapping(m) => {
                let mut message = String::from_str("mapping error: ");
                message.append(m.as_str());
                message
            },
        }
    }
}

impl ErrorMessage for GenreEsRepositoryError {
    /// The not-found message, `elasticsearch error: <m>` or `mapping error: <m>`.
    open spec fn message_text(&self) -> Seq<char> {
        match self {
            GenreEsRepositoryError::NotFound(e) => not_found_message(e.id@, e.entity_name@),
            GenreEsRepositoryError::Elasticsearch(m) => "elasticsearch error: "@ + m@,
            GenreEsRepositoryError::Mapping(m) => "mapping error: "@ + m@,
        }
    }

    fn message(&self) -> (message: String) {
        self.to_string()
    }
}

/// The search for genres: of type `Genre`, with the id and the activity when
/// given, leaving out deleted ones when soft-deleted genres are hidden.
pub fn genre_filter(genre_id: Option<&GenreId>, is_active: Option<bool>, exclude_deleted: bool) -> (filter:
    SearchFilter)
    ensures
        filter.doc_type@ == "Genre"@,
        match genre_id {
            Some(id) => filter.id matches Some(t) && t@ == uuid_text(id.0.id),
            None => filter.id is None,
        },
        match is_active {
            Some(b) => filter.flag matches Some(f) && f.0@ == "is_active"@ && f.1 == b,
            None => filter.flag is None,
        },
        filter.exclude_deleted == exclude_deleted,
{
    let id = match genre_id {
        Some(id) => Some(id.to_string()),
        None => None,
    };
    SearchFilter::new(GENRE_DOCUMENT_TYPE, id, "is_active", is_active, exclude_deleted)
}

/// The index field a requested order of genres sorts by: `name` sorts by
/// `genre_name`, `created_at` by `created_at`; no other field sorts.
pub open spec fn genre_sort_field(field: Seq<char>) -> Option<Seq<char>> {
    if field == "name"@ {
        Some("genre_name"@)
    } else if field == "created_at"@ {
        Some("created_at"@)
    } else {
        None
    }
}

/// The order of the index for a requested order of genres.
pub fn genre_sort(order: Option<&SortOrder>) -> (sort: Option<SearchSort>)
    ensures
        match order {
            None => sort is None,
            Some(o) => match genre_sort_field(o.field@) {
                None => sort is None,
                Some(f) => sort matches Some(s) && s.field@ == f && s.direction == o.direction,
            },
        },
{
    let fields = [("name", "genre_name"), ("created_at", "created_at")];
    let sort = sort_for(&fields, order);
    proof {
        reveal_strlit("name");
        reveal_strlit("genre_name");
        reveal_strlit("created_at");
        if let Some(o) = order {
            let pairs = pair_texts(fields@);
            assert(pairs.len() == 2);
            assert(pairs[0] == ("name"@, "genre_name"@));
            assert(pairs[1] == ("created_at"@, "created_at"@));
            assert(pairs.drop_first()[0] == pairs[1]);
            assert(pairs.drop_first().drop_first().len() == 0);
            assert(mapped_sort_field(pairs.drop_first().drop_first(), Some(*o)) is None);
            assert(mapped_sort_field(pairs.drop_first(), Some(*o)) == (if "created_at"@ == o.field@ {
                Some("created_at"@)
            } else {
                None::<Seq<char>>
            }));
            assert(mapped_sort_field(pairs, Some(*o)) == genre_sort_field(o.field@));
        }
    }
    sort
}

/// The genres of search hits, each loaded from its document under its id,
/// if every one loads.
pub open spec fn genres_of_hits(hits: Seq<(Seq<char>, GenreDocumentView)>) -> Option<Seq<GenreView>> {
    if forall|i: int| 0 <= i < hits.len() ==> #[trigger] genre_from_document(hits[i].0, hits[i].1) is Ok {
        Some(
            hits.map_values(
                |h: (Seq<char>, GenreDocumentView)|
                    match genre_from_document(h.0, h.1) {
                        Ok(g) => g,
                        Err(_) => arbitrary(),
                    },
            ),
        )
    } else {
        None
    }
}

/// The abstract values of search hits.
pub open spec fn genre_hit_views(hits: Seq<(String, GenreDocument)>) -> Seq<(Seq<char>, GenreDocumentView)> {
    hits.map_values(|h: (String, GenreDocument)| (h.0@, h.1@))
}

/// Loads the genres of search hits, in order; a hit that does not load fails
/// the whole read with `mapping error: Load Entity Error`.
pub fn genres_from_hits(hits: &Vec<(String, GenreDocument)>) -> (result: Result<Vec<Genre>, GenreEsRepositoryError>)
    ensures
        match genres_of_hits(genre_hit_views(hits@)) {
            Some(genres) => result matches Ok(v) && views_of(v@) == genres,
            None => result matches Err(GenreEsRepositoryError::Mapping(m)) && m@ == "Load Entity Error"@,
        },
{
    let ghost all = genre_hit_views(hits@);
    let mut genres: Vec<Genre> = Vec::new();
    for i in 0..hits.len()
        invariant
            all == genre_hit_views(hits@),
            genres@.len() == i,
            forall|k: int| 0 <= k < i ==> #[trigger] genre_from_document(all[k].0, all[k].1) is Ok,
            forall|k: int|
                0 <= k < i ==> genre_from_document(all[k].0, all[k].1) == Ok::<GenreView, Seq<Seq<char>>>(
                    (#[trigger] genres@[k])@,
                ),
    {
        let hit = &hits[i];
        match GenreElasticSearchMapper::to_entity(hit.0.as_str(), &hit.1) {
            Ok(genre) => {
                genres.push(genre);
            },
            Err(e) => {
                assert(!(genre_from_document(all[i as int].0, all[i as int].1) is Ok));
                return Err(GenreEsRepositoryError::Mapping(e.to_string()));
            },
        }
    }
    proof {
        assert(views_of(genres@) =~= all.map_values(
            |h: (Seq<char>, GenreDocumentView)|
                match genre_from_document(h.0, h.1) {
                    Ok(g) => g,
                    Err(_) => arbitrary(),
                },
        ));
    }
    Ok(genres)
}

/// Loads the genre of the first search hit, if there is one.
pub fn first_genre_from_hits(hits: &Vec<(String, GenreDocument)>) -> (result: Result<
    Option<Genre>,
    GenreEsRepositoryError,
>)
    ensures
        hits@.len() == 0 ==> result matches Ok(None),
        hits@.len() > 0 ==> match genre_from_document(hits@[0].0@, hits@[0].1@) {
            Ok(g) => result matches Ok(Some(x)) && x@ == g,
            Err(_) => result matches Err(GenreEsRepositoryError::Mapping(m)) && m@ == "Load Entity Error"@,
        },
{
    if hits.len() == 0 {
        return Ok(None);
    }
    match GenreElasticSearchMapper::to_entity(hits[0].0.as_str(), &hits[0].1) {
        Ok(genre) => Ok(Some(genre)),
        Err(e) => Err(GenreEsRepositoryError::Mapping(e.to_string())),
    }
}

/// The UUIDs of genre ids, in order.
fn uuids_of_ids(ids: &[GenreId]) -> (uuids: Vec<UuidVo>)
    ensures
        uuid_values(uuids@) == genre_uuids(ids@),
{
    let mut uuids: Vec<UuidVo> = Vec::new();
    for i in 0..ids.len()
        invariant
            uuid_values(uuids@) == genre_uuids(ids@).take(i as int),
    {
        let ghost before = uuids@;
        uuids.push(ids[i].0);
        assert(uuids@ == before.push(ids@[i as int].0));
        assert(uuid_values(uuids@) =~= uuid_values(before).push(ids@[i as int].0.id));
        assert(genre_uuids(ids@).take(i + 1) =~= genre_uuids(ids@).take(i as int).push(ids@[i as int].0.id));
    }
    assert(genre_uuids(ids@).take(ids@.len() as int) =~= genre_uuids(ids@));
    uuids
}

/// What a search for `ids` gives: the genres of its hits, in order, and the
/// ids, in order, that no hit has; a hit that does not load fails the whole
/// read with `mapping error: Load Entity Error`.
pub fn genres_found_by_ids(ids: &[GenreId], hits: &Vec<(String, GenreDocument)>) -> (result: Result<
    FindByIdsResult<Genre>,
    GenreEsRepositoryError,
>)
    ensures
        match genres_of_hits(genre_hit_views(hits@)) {
            Some(found) => result matches Ok(r) && views_of(r.exists@) == found && uuid_values(r.not_exists@)
                == kept(genre_uuids(ids@), |k: u128| !hit_id_texts(hits@).contains(uuid_text(k))),
            None => result matches Err(GenreEsRepositoryError::Mapping(m)) && m@ == "Load Entity Error"@,
        },
{
    let exists = match genres_from_hits(hits) {
        Ok(found) => found,
        Err(e) => {
            return Err(e);
        },
    };
    let found_ids = hit_ids(hits);
    let uuids = uuids_of_ids(ids);
    let split = split_by_found(&uuids, &found_ids);
    Ok(FindByIdsResult { exists, not_exists: split.not_exists })
}

} // verus!
