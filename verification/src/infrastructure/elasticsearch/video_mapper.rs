use vstd::prelude::*;

use crate::domain::cast_member::cast_member_id::CastMemberId;
use crate::domain::cast_member::cast_member_type::{
    cast_member_type_number, cast_member_type_of, invalid_cast_member_type_message, CastMemberType,
};
use crate::domain::cast_member::nested_cast_member::{NestedCastMember, NestedCastMemberView};
use crate::domain::category::nested_category::{NestedCategory, NestedCategoryView};
use crate::domain::genre::genre_id::GenreId;
use crate::domain::genre::nested_genre::{NestedGenre, NestedGenreView};
use crate::domain::shared::entity::Entity;
use crate::domain::shared::errors::LoadEntityError;
use crate::domain::shared::notification::error_lines;
use crate::domain::shared::validation::{checked_length, exceeds_max_length};
use crate::domain::shared::listing::{first_index, lemma_first_index_absent, lemma_first_index_found};
use crate::domain::shared::nested_map::{
    collected, item_keys_distinct, lemma_collected_of_distinct, views_of, NestedMap,
};
use crate::domain::shared::text::{clone_option_text, option_text, option_to_owned, text_eq};
use crate::domain::shared::timestamp::Timestamp;
use crate::domain::shared::value_object::{invalid_uuid_message, uuid_parse, uuid_text, UuidVo};
use crate::domain::video::aggregate::{Video, VideoView};
use crate::domain::video::rating::{invalid_rating_message, rating_of, rating_text, Rating};
use crate::domain::video::video_id::VideoId;

use super::category_mapper::{invalid_document_type, invalid_type_error, load_error, validation_error};
use super::genre_mapper::{
    lemma_nested_categories_round_trip, nested_categories_from, nested_categories_from_documents,
    nested_category_document_of, nested_category_documents, nested_category_unchecked, uuid_value,
    NestedCategoryDocumentView,
};

pub use super::genre_mapper::NestedCategoryDocument;

verus! {

/// The `type` of a video's search document.
pub const VIDEO_DOCUMENT_TYPE: &'static str = "Video";

/// A genre as stored inside a video's document.
#[derive(Debug, Clone)]
pub struct NestedGenreDocument {
    pub genre_id: String,
    pub genre_name: String,
    pub is_active: bool,
    pub deleted_at: Option<Timestamp>,
    pub is_deleted: bool,
}

/// The abstract value of a [`NestedGenreDocument`].
pub struct NestedGenreDocumentView {
    pub genre_id: Seq<char>,
    pub genre_name: Seq<char>,
    pub is_active: bool,
    pub deleted_at: Option<Timestamp>,
    pub is_deleted: bool,
}

impl View for NestedGenreDocument {
    type V = NestedGenreDocumentView;

    open spec fn view(&self) -> NestedGenreDocumentView {
        NestedGenreDocumentView {
            genre_id: self.genre_id@,
            genre_name: self.genre_name@,
            is_active: self.is_active,
            deleted_at: self.deleted_at,
            is_deleted: self.is_deleted,
        }
    }
}

/// A cast member as stored inside a video's document; the type by number.
#[derive(Debug, Clone)]
pub struct NestedCastMemberDocument {
    pub cast_member_id: String,
    pub cast_member_name: String,
    pub cast_member_type: u8,
    pub deleted_at: Option<Timestamp>,
    pub is_deleted: bool,
}

/// The abstract value of a [`NestedCastMemberDocument`].
pub struct NestedCastMemberDocumentView {
    pub cast_member_id: Seq<char>,
    pub cast_member_name: Seq<char>,
    pub cast_member_type: u8,
    pub deleted_at: Option<Timestamp>,
    pub is_deleted: bool,
}

impl View for NestedCastMemberDocument {
    type V = NestedCastMemberDocumentView;

    open spec fn view(&self) -> NestedCastMemberDocumentView {
        NestedCastMemberDocumentView {
            cast_member_id: self.cast_member_id@,
            cast_member_name: self.cast_member_name@,
            cast_member_type: self.cast_member_type,
            deleted_at: self.deleted_at,
            is_deleted: self.is_deleted,
        }
    }
}

/// A video as stored in the search index, under its id; its rating as text.
#[derive(Debug, Clone)]
pub struct VideoDocument {
    pub video_title: String,
    pub video_description: String,
    pub year_launched: i32,
    pub duration: i32,
    pub rating: String,
    pub is_opened: bool,
    pub is_published: bool,
    pub banner_url: Option<String>,
    pub thumbnail_url: Option<String>,
    pub thumbnail_half_url: Option<String>,
    pub trailer_url: String,
    pub video_url: String,
    pub categories: Vec<NestedCategoryDocument>,
    pub genres: Vec<NestedGenreDocument>,
    pub cast_members: Vec<NestedCastMemberDocument>,
    pub created_at: Timestamp,
    pub deleted_at: Option<Timestamp>,
    pub doc_type: String,
}

/// The abstract value of a [`VideoDocument`].
pub struct VideoDocumentView {
    pub video_title: Seq<char>,
    pub video_description: Seq<char>,
    pub year_launched: i32,
    pub duration: i32,
    pub rating: Seq<char>,
    pub is_opened: bool,
    pub is_published: bool,
    pub banner_url: Option<Seq<char>>,
    pub thumbnail_url: Option<Seq<char>>,
    pub thumbnail_half_url: Option<Seq<char>>,
    pub trailer_url: Seq<char>,
    pub video_url: Seq<char>,
    pub categories: Seq<NestedCategoryDocumentView>,
    pub genres: Seq<NestedGenreDocumentView>,
    pub cast_members: Seq<NestedCastMemberDocumentView>,
    pub created_at: Timestamp,
    pub deleted_at: Option<Timestamp>,
    pub doc_type: Seq<char>,
}

impl View for VideoDocument {
    type V = VideoDocumentView;

    open spec fn view(&self) -> VideoDocumentView {
        VideoDocumentView {
            video_title: self.video_title@,
            video_description: self.video_description@,
            year_launched: self.year_launched,
            duration: self.duration,
            rating: self.rating@,
            is_opened: self.is_opened,
            is_published: self.is_published,
            banner_url: option_text(self.banner_url),
            thumbnail_url: option_text(self.thumbnail_url),
            thumbnail_half_url: option_text(self.thumbnail_half_url),
            trailer_url: self.trailer_url@,
            video_url: self.video_url@,
            categories: views_of(self.categories@),
            genres: views_of(self.genres@),
            cast_members: views_of(self.cast_members@),
            created_at: self.created_at,
            deleted_at: self.deleted_at,
            doc_type: self.doc_type@,
        }
    }
}

/// The document a nested genre is stored as.
pub open spec fn nested_genre_document_of(nested: NestedGenreView) -> NestedGenreDocumentView {
    NestedGenreDocumentView {
        genre_id: uuid_text(nested.genre_id.0.id),
        genre_name: nested.name,
        is_active: nested.is_active,
        deleted_at: nested.deleted_at,
        is_deleted: nested.deleted_at is Some,
    }
}

/// The nested genre a document loads as (meaningful where its id reads).
pub open spec fn nested_genre_from_document(document: NestedGenreDocumentView) -> NestedGenreView {
    NestedGenreView {
        key: document.genre_id,
        genre_id: GenreId(UuidVo { id: uuid_value(document.genre_id) }),
        name: document.genre_name,
        is_active: document.is_active,
        deleted_at: document.deleted_at,
        notification: Seq::empty(),
    }
}

/// A nested genre without its validation errors.
pub open spec fn nested_genre_unchecked(nested: NestedGenreView) -> NestedGenreView {
    NestedGenreView { notification: Seq::empty(), ..nested }
}

/// The nested genres that documents load as, one per id text (a later one
/// replacing an earlier), or the error of the first whose id is no UUID.
/// Entries are kept under each document's id text as stored: texts that
/// differ, even when they read as one UUID (upper and lower case, say), make
/// separate entries, and a later document with the same text replaces the
/// earlier.
pub open spec fn nested_genres_from_documents(documents: Seq<NestedGenreDocumentView>) -> Result<
    Seq<NestedGenreView>,
    Seq<Seq<char>>,
> {
    let bad = first_index(documents, |d: NestedGenreDocumentView| uuid_parse(d.genre_id) is None);
    if bad >= 0 {
        Err(seq![invalid_uuid_message(documents[bad].genre_id)])
    } else {
        Ok(collected::<NestedGenre>(documents.map_values(|d: NestedGenreDocumentView| nested_genre_from_document(d))))
    }
}

/// The document a nested cast member is stored as.
pub open spec fn nested_cast_member_document_of(nested: NestedCastMemberView) -> NestedCastMemberDocumentView {
    NestedCastMemberDocumentView {
        cast_member_id: uuid_text(nested.cast_member_id.0.id),
        cast_member_name: nested.name,
        cast_member_type: cast_member_type_number(nested.cast_member_type),
        deleted_at: nested.deleted_at,
        is_deleted: nested.deleted_at is Some,
    }
}

/// The type a number names (meaningful where it names one).
pub open spec fn cast_member_type_value(number: u8) -> CastMemberType {
    match cast_member_type_of(number) {
        Ok(t) => t,
        Err(_) => CastMemberType::Director,
    }
}

/// The nested cast member a document loads as (meaningful where it loads).
pub open spec fn nested_cast_member_from_document(document: NestedCastMemberDocumentView) -> NestedCastMemberView {
    NestedCastMemberView {
        key: document.cast_member_id,
        cast_member_id: CastMemberId(UuidVo { id: uuid_value(document.cast_member_id) }),
        name: document.cast_member_name,
        cast_member_type: cast_member_type_value(document.cast_member_type),
        deleted_at: document.deleted_at,
        notification: Seq::empty(),
    }
}

/// A nested cast member without its validation errors.
pub open spec fn nested_cast_member_unchecked(nested: NestedCastMemberView) -> NestedCastMemberView {
    NestedCastMemberView { notification: Seq::empty(), ..nested }
}

/// A nested cast member document does not load: its id is no UUID, or its
/// type number names no type.
pub open spec fn cast_member_document_refused(document: NestedCastMemberDocumentView) -> bool {
    uuid_parse(document.cast_member_id) is None || cast_member_type_of(document.cast_member_type) is Err
}

/// The error of a nested cast member document that does not load: its id
/// first, then its type.
pub open spec fn cast_member_document_error(document: NestedCastMemberDocumentView) -> Seq<char> {
    if uuid_parse(document.cast_member_id) is None {
        invalid_uuid_message(document.cast_member_id)
    } else {
        invalid_cast_member_type_message(document.cast_member_type)
    }
}

/// The nested cast members that documents load as, one per id text (a later one
/// replacing an earlier), or the error of the first that does not load.
/// Entries are kept under each document's id text as stored: texts that
/// differ, even when they read as one UUID (upper and lower case, say), make
/// separate entries, and a later document with the same text replaces the
/// earlier.
pub open spec fn nested_cast_members_from_documents(documents: Seq<NestedCastMemberDocumentView>) -> Result<
    Seq<NestedCastMemberView>,
    Seq<Seq<char>>,
> {
    let bad = first_index(documents, |d: NestedCastMemberDocumentView| cast_member_document_refused(d));
    if bad >= 0 {
        Err(seq![cast_member_document_error(documents[bad])])
    } else {
        Ok(
            collected::<NestedCastMember>(
                documents.map_values(|d: NestedCastMemberDocumentView| nested_cast_member_from_document(d)),
            ),
        )
    }
}

/// The document a video is stored as; its related items in the video's order.
pub open spec fn video_document_of(video: VideoView) -> VideoDocumentView {
    VideoDocumentView {
        video_title: video.title,
        video_description: video.description,
        year_launched: video.year_launched,
        duration: video.duration,
        rating: rating_text(video.rating),
        is_opened: video.is_opened,
        is_published: video.is_published,
        banner_url: video.banner_url,
        thumbnail_url: video.thumbnail_url,
        thumbnail_half_url: video.thumbnail_half_url,
        trailer_url: video.trailer_url,
        video_url: video.video_url,
        categories: video.categories.map_values(|n: NestedCategoryView| nested_category_document_of(n)),
        genres: video.genres.map_values(|n: NestedGenreView| nested_genre_document_of(n)),
        cast_members: video.cast_members.map_values(|n: NestedCastMemberView| nested_cast_member_document_of(n)),
        created_at: video.created_at,
        deleted_at: video.deleted_at,
        doc_type: "Video"@,
    }
}

/// The video a document stored under `id` loads as, or the errors that refuse
/// it, checked in this order: the `type`, the id, the rating, the categories,
/// the genres, the cast members, then the validation errors of the loaded
/// video, one line `field: message` each.
pub open spec fn video_from_document(id: Seq<char>, document: VideoDocumentView) -> Result<VideoView, Seq<Seq<char>>> {
    if document.doc_type != "Video"@ {
        Err(invalid_document_type())
    } else {
        match uuid_parse(id) {
            None => Err(seq![invalid_uuid_message(id)]),
            Some(v) => match rating_of(document.rating) {
                None => Err(seq![invalid_rating_message(document.rating)]),
                Some(rating) => match nested_categories_from_documents(document.categories) {
                    Err(errors) => Err(errors),
                    Ok(categories) => match nested_genres_from_documents(document.genres) {
                        Err(errors) => Err(errors),
                        Ok(genres) => match nested_cast_members_from_documents(document.cast_members) {
                            Err(errors) => Err(errors),
                            Ok(cast_members) => if checked_length(Seq::empty(), "title"@, document.video_title).len()
                                > 0 {
                                Err(error_lines(checked_length(Seq::empty(), "title"@, document.video_title)))
                            } else {
                                Ok(
                                VideoView {
                                    video_id: VideoId(UuidVo { id: v }),
                                    title: document.video_title,
                                    description: document.video_description,
                                    year_launched: document.year_launched,
                                    duration: document.duration,
                                    rating,
                                    is_opened: document.is_opened,
                                    is_published: document.is_published,
                                    banner_url: document.banner_url,
                                    thumbnail_url: document.thumbnail_url,
                                    thumbnail_half_url: document.thumbnail_half_url,
                                    trailer_url: document.trailer_url,
                                    video_url: document.video_url,
                                    categories,
                                    genres,
                                    cast_members,
                                    created_at: document.created_at,
                                    deleted_at: document.deleted_at,
                                    notification: Seq::empty(),
                                },
                            )
                            },
                        },
                    },
                },
            },
        }
    }
}

/// The documents of nested genres, in order.
pub fn nested_genre_documents(nested: &Vec<NestedGenre>) -> (documents: Vec<NestedGenreDocument>)
    ensures
        views_of(documents@) == views_of(nested@).map_values(|n: NestedGenreView| nested_genre_document_of(n)),
        forall|i: int|
            0 <= i < documents@.len() ==> uuid_parse(#[trigger] documents@[i].genre_id@) == Some(
                nested@[i]@.genre_id.0.id,
            ),
{
    let mut documents: Vec<NestedGenreDocument> = Vec::new();
    for i in 0..nested.len()
        invariant
            documents@.len() == i,
            forall|k: int| 0 <= k < i ==> (#[trigger] documents@[k])@ == nested_genre_document_of(nested@[k]@),
            forall|k: int|
                0 <= k < i ==> uuid_parse(#[trigger] documents@[k].genre_id@) == Some(nested@[k]@.genre_id.0.id),
    {
        let item = &nested[i];
        let deleted_at = item.deleted_at();
        documents.push(
            NestedGenreDocument {
                genre_id: item.genre_id().to_string(),
                genre_name: String::from_str(item.name()),
                is_active: item.is_active(),
                deleted_at,
                is_deleted: deleted_at.is_some(),
            },
        );
    }
    assert(views_of(documents@) =~= views_of(nested@).map_values(
        |n: NestedGenreView| nested_genre_document_of(n),
    ));
    documents
}

/// The documents of nested cast members, in order.
pub fn nested_cast_member_documents(nested: &Vec<NestedCastMember>) -> (documents: Vec<NestedCastMemberDocument>)
    ensures
        views_of(documents@) == views_of(nested@).map_values(
            |n: NestedCastMemberView| nested_cast_member_document_of(n),
        ),
        forall|i: int|
            0 <= i < documents@.len() ==> uuid_parse(#[trigger] documents@[i].cast_member_id@) == Some(
                nested@[i]@.cast_member_id.0.id,
            ),
{
    let mut documents: Vec<NestedCastMemberDocument> = Vec::new();
    for i in 0..nested.len()
        invariant
            documents@.len() == i,
            forall|k: int|
                0 <= k < i ==> (#[trigger] documents@[k])@ == nested_cast_member_document_of(nested@[k]@),
            forall|k: int|
                0 <= k < i ==> uuid_parse(#[trigger] documents@[k].cast_member_id@) == Some(
                    nested@[k]@.cast_member_id.0.id,
                ),
    {
        let item = &nested[i];
        let deleted_at = item.deleted_at();
        documents.push(
            NestedCastMemberDocument {
                cast_member_id: item.cast_member_id().to_string(),
                cast_member_name: String::from_str(item.name()),
                cast_member_type: item.cast_member_type().value(),
                deleted_at,
                is_deleted: deleted_at.is_some(),
            },
        );
    }
    assert(views_of(documents@) =~= views_of(nested@).map_values(
        |n: NestedCastMemberView| nested_cast_member_document_of(n),
    ));
    documents
}

/// Loads the nested genres of documents, one per id text.
/// Entries are kept under each document's id text as stored: texts that
/// differ, even when they read as one UUID (upper and lower case, say), make
/// separate entries, and a later document with the same text replaces the
/// earlier.
pub fn nested_genres_from(documents: &Vec<NestedGenreDocument>) -> (result: Result<NestedMap<NestedGenre>, LoadEntityError>)
    ensures
        match nested_genres_from_documents(views_of(documents@)) {
            Ok(v) => result matches Ok(m) && m@ == v,
            Err(errors) => result matches Err(e) && e.errors.deep_view() == errors,
        },
{
    let ghost docs = views_of(documents@);
    let ghost is_bad = |d: NestedGenreDocumentView| uuid_parse(d.genre_id) is None;
    let mut nested: Vec<NestedGenre> = Vec::new();
    for i in 0..documents.len()
        invariant
            docs == views_of(documents@),
            is_bad == (|d: NestedGenreDocumentView| uuid_parse(d.genre_id) is None),
            nested@.len() == i,
            forall|k: int| 0 <= k < i ==> !is_bad(#[trigger] docs[k]),
            forall|k: int| 0 <= k < i ==> (#[trigger] nested@[k])@ == nested_genre_from_document(docs[k]),
    {
        let document = &documents[i];
        match GenreId::from(document.genre_id.as_str()) {
            Ok(genre_id) => {
                nested.push(
                    NestedGenre::new(genre_id, document.genre_name.clone(), document.is_active, document.deleted_at)
                        .with_key(document.genre_id.clone()),
                );
            },
            Err(e) => {
                proof {
                    lemma_first_index_found(docs, is_bad, i as int);
                }
                return Err(load_error(e.to_string()));
            },
        }
    }
    proof {
        lemma_first_index_absent(docs, is_bad);
        assert(views_of(nested@) =~= docs.map_values(|d: NestedGenreDocumentView| nested_genre_from_document(d)));
    }
    Ok(NestedMap::from_list(nested))
}

/// Loads the nested cast members of documents, one per id text.
/// Entries are kept under each document's id text as stored: texts that
/// differ, even when they read as one UUID (upper and lower case, say), make
/// separate entries, and a later document with the same text replaces the
/// earlier.
pub fn nested_cast_members_from(documents: &Vec<NestedCastMemberDocument>) -> (result: Result<
    NestedMap<NestedCastMember>,
    LoadEntityError,
>)
    ensures
        match nested_cast_members_from_documents(views_of(documents@)) {
            Ok(v) => result matches Ok(m) && m@ == v,
            Err(errors) => result matches Err(e) && e.errors.deep_view() == errors,
        },
{
    let ghost docs = views_of(documents@);
    let ghost is_bad = |d: NestedCastMemberDocumentView| cast_member_document_refused(d);
    let mut nested: Vec<NestedCastMember> = Vec::new();
    for i in 0..documents.len()
        invariant
            docs == views_of(documents@),
            is_bad == (|d: NestedCastMemberDocumentView| cast_member_document_refused(d)),
            nested@.len() == i,
            forall|k: int| 0 <= k < i ==> !is_bad(#[trigger] docs[k]),
            forall|k: int| 0 <= k < i ==> (#[trigger] nested@[k])@ == nested_cast_member_from_document(docs[k]),
    {
        let document = &documents[i];
        let cast_member_id = match CastMemberId::from(document.cast_member_id.as_str()) {
            Ok(cast_member_id) => cast_member_id,
            Err(e) => {
                proof {
                    lemma_first_index_found(docs, is_bad, i as int);
                }
                return Err(load_error(e.to_string()));
            },
        };
        let cast_member_type = match CastMemberType::from_u8(document.cast_member_type) {
            Ok(t) => t,
            Err(e) => {
                proof {
                    lemma_first_index_found(docs, is_bad, i as int);
                }
                return Err(load_error(e.to_string()));
            },
        };
        nested.push(
            NestedCastMember::new(
                cast_member_id,
                document.cast_member_name.clone(),
                cast_member_type,
                document.deleted_at,
            ).with_key(document.cast_member_id.clone()),
        );
    }
    proof {
        lemma_first_index_absent(docs, is_bad);
        assert(views_of(nested@) =~= docs.map_values(
            |d: NestedCastMemberDocumentView| nested_cast_member_from_document(d),
        ));
    }
    Ok(NestedMap::from_list(nested))
}

/// The related items of a video are kept under distinct texts within each kind, and the
/// text of each id reads back as that id.
pub open spec fn ids_read_back(video: VideoView) -> bool {
    &&& item_keys_distinct::<NestedCategory>(video.categories)
    &&& item_keys_distinct::<NestedGenre>(video.genres)
    &&& item_keys_distinct::<NestedCastMember>(video.cast_members)
    &&& forall|i: int|
        0 <= i < video.categories.len() ==> uuid_parse(uuid_text(#[trigger] video.categories[i].category_id.0.id))
            == Some(video.categories[i].category_id.0.id)
    &&& forall|i: int|
        0 <= i < video.genres.len() ==> uuid_parse(uuid_text(#[trigger] video.genres[i].genre_id.0.id)) == Some(
            video.genres[i].genre_id.0.id,
        )
    &&& forall|i: int|
        0 <= i < video.cast_members.len() ==> uuid_parse(
            uuid_text(#[trigger] video.cast_members[i].cast_member_id.0.id),
        ) == Some(video.cast_members[i].cast_member_id.0.id)
}

/// Each related item of a video is kept under the text of its id, as the
/// video's own operations keep them.
pub open spec fn kept_under_id_texts(video: VideoView) -> bool {
    &&& forall|i: int|
        0 <= i < video.categories.len() ==> (#[trigger] video.categories[i]).key == uuid_text(
            video.categories[i].category_id.0.id,
        )
    &&& forall|i: int|
        0 <= i < video.genres.len() ==> (#[trigger] video.genres[i]).key == uuid_text(video.genres[i].genre_id.0.id)
    &&& forall|i: int|
        0 <= i < video.cast_members.len() ==> (#[trigger] video.cast_members[i]).key == uuid_text(
            video.cast_members[i].cast_member_id.0.id,
        )
}

/// Loading the documents of nested genres kept under distinct texts, each the
/// text of the genre's id, which reads back, gives the nested genres without their validation errors.
pub proof fn lemma_nested_genres_round_trip(nested: Seq<NestedGenreView>)
    requires
        item_keys_distinct::<NestedGenre>(nested),
        forall|i: int|
            0 <= i < nested.len() ==> uuid_parse(uuid_text(#[trigger] nested[i].genre_id.0.id)) == Some(
                nested[i].genre_id.0.id,
            ),
        forall|i: int| 0 <= i < nested.len() ==> (#[trigger] nested[i]).key == uuid_text(nested[i].genre_id.0.id),
    ensures
        nested_genres_from_documents(nested.map_values(|n: NestedGenreView| nested_genre_document_of(n)))
            == Ok::<Seq<NestedGenreView>, Seq<Seq<char>>>(
            nested.map_values(|n: NestedGenreView| nested_genre_unchecked(n)),
        ),
{
    let docs = nested.map_values(|n: NestedGenreView| nested_genre_document_of(n));
    let is_bad = |d: NestedGenreDocumentView| uuid_parse(d.genre_id) is None;
    assert forall|k: int| 0 <= k < docs.len() implies !is_bad(#[trigger] docs[k]) by {
        assert(docs[k].genre_id == uuid_text(nested[k].genre_id.0.id));
    }
    lemma_first_index_absent(docs, is_bad);
    let loaded = docs.map_values(|d: NestedGenreDocumentView| nested_genre_from_document(d));
    let stripped = nested.map_values(|n: NestedGenreView| nested_genre_unchecked(n));
    assert forall|k: int| 0 <= k < loaded.len() implies #[trigger] loaded[k] == stripped[k] by {
        assert(docs[k].genre_id == uuid_text(nested[k].genre_id.0.id));
    }
    assert(loaded =~= stripped);
    assert(item_keys_distinct::<NestedGenre>(stripped)) by {
        assert forall|i: int, j: int| 0 <= i < j < stripped.len() implies (#[trigger] stripped[i]).key
            != (#[trigger] stripped[j]).key by {
            assert(nested[i].key != nested[j].key);
        }
    }
    lemma_collected_of_distinct::<NestedGenre>(stripped);
}

/// Loading the documents of nested cast members kept under distinct texts,
/// each the text of the member's id, which reads back, gives the nested cast members without their validation errors.
pub proof fn lemma_nested_cast_members_round_trip(nested: Seq<NestedCastMemberView>)
    requires
        item_keys_distinct::<NestedCastMember>(nested),
        forall|i: int|
            0 <= i < nested.len() ==> uuid_parse(uuid_text(#[trigger] nested[i].cast_member_id.0.id)) == Some(
                nested[i].cast_member_id.0.id,
            ),
        forall|i: int| 0 <= i < nested.len() ==> (#[trigger] nested[i]).key == uuid_text(nested[i].cast_member_id.0.id),
    ensures
        nested_cast_members_from_documents(
            nested.map_values(|n: NestedCastMemberView| nested_cast_member_document_of(n)),
        ) == Ok::<Seq<NestedCastMemberView>, Seq<Seq<char>>>(
            nested.map_values(|n: NestedCastMemberView| nested_cast_member_unchecked(n)),
        ),
{
    let docs = nested.map_values(|n: NestedCastMemberView| nested_cast_member_document_of(n));
    let is_bad = |d: NestedCastMemberDocumentView| cast_member_document_refused(d);
    assert forall|k: int| 0 <= k < docs.len() implies !is_bad(#[trigger] docs[k]) by {
        assert(docs[k].cast_member_id == uuid_text(nested[k].cast_member_id.0.id));
        crate::domain::cast_member::cast_member_type::lemma_cast_member_type_round_trip(
            nested[k].cast_member_type,
        );
    }
    lemma_first_index_absent(docs, is_bad);
    let loaded = docs.map_values(|d: NestedCastMemberDocumentView| nested_cast_member_from_document(d));
    let stripped = nested.map_values(|n: NestedCastMemberView| nested_cast_member_unchecked(n));
    assert forall|k: int| 0 <= k < loaded.len() implies #[trigger] loaded[k] == stripped[k] by {
        assert(docs[k].cast_member_id == uuid_text(nested[k].cast_member_id.0.id));
        crate::domain::cast_member::cast_member_type::lemma_cast_member_type_round_trip(
            nested[k].cast_member_type,
        );
    }
    assert(loaded =~= stripped);
    assert(item_keys_distinct::<NestedCastMember>(stripped)) by {
        assert forall|i: int, j: int| 0 <= i < j < stripped.len() implies (#[trigger] stripped[i]).key
            != (#[trigger] stripped[j]).key by {
            assert(nested[i].key != nested[j].key);
        }
    }
    lemma_collected_of_distinct::<NestedCastMember>(stripped);
}

/// Storing a video whose title passes validation and loading it back under
/// the text of its id gives the video again, without its validation errors or those of its related items.
/// ([`VideoElasticSearchMapper::to_document`] ensures [`ids_read_back`]; the
/// video's own operations keep its related items under their id texts.)
pub proof fn lemma_video_document_round_trip(video: VideoView, id: Seq<char>)
    requires
        uuid_parse(id) == Some(video.video_id.0.id),
        !exceeds_max_length(video.title),
        ids_read_back(video),
        kept_under_id_texts(video),
    ensures
        video_from_document(id, video_document_of(video)) == Ok::<VideoView, Seq<Seq<char>>>(
            VideoView {
                categories: video.categories.map_values(|n: NestedCategoryView| nested_category_unchecked(n)),
                genres: video.genres.map_values(|n: NestedGenreView| nested_genre_unchecked(n)),
                cast_members: video.cast_members.map_values(
                    |n: NestedCastMemberView| nested_cast_member_unchecked(n),
                ),
                notification: Seq::empty(),
                ..video
            },
        ),
{
    crate::domain::video::rating::lemma_rating_text_round_trip(video.rating);
    lemma_nested_categories_round_trip(video.categories);
    lemma_nested_genres_round_trip(video.genres);
    lemma_nested_cast_members_round_trip(video.cast_members);
}

/// Turns videos into search documents and back.
pub struct VideoElasticSearchMapper;

impl VideoElasticSearchMapper {
    /// Loads the video stored under `id`, and refuses it when it fails validation.
    pub fn to_entity(id: &str, document: &VideoDocument) -> (result: Result<Video, LoadEntityError>)
        ensures
            match video_from_document(id@, document@) {
                Ok(v) => result matches Ok(x) && x@ == v,
                Err(errors) => result matches Err(e) && e.errors.deep_view() == errors,
            },
    {
        if !text_eq(document.doc_type.as_str(), VIDEO_DOCUMENT_TYPE) {
            return Err(invalid_type_error());
        }
        let video_id = match VideoId::from(id) {
            Ok(video_id) => video_id,
            Err(e) => {
                return Err(load_error(e.to_string()));
            },
        };
        let rating = match Rating::from_str(document.rating.as_str()) {
            Ok(rating) => rating,
            Err(e) => {
                return Err(load_error(e.to_string()));
            },
        };
        let categories = match nested_categories_from(&document.categories) {
            Ok(categories) => categories,
            Err(e) => {
                return Err(e);
            },
        };
        let genres = match nested_genres_from(&document.genres) {
            Ok(genres) => genres,
            Err(e) => {
                return Err(e);
            },
        };
        let cast_members = match nested_cast_members_from(&document.cast_members) {
            Ok(cast_members) => cast_members,
            Err(e) => {
                return Err(e);
            },
        };
        let mut video = Video::new(
            video_id,
            document.video_title.clone(),
            document.video_description.clone(),
            document.year_launched,
            document.duration,
            rating,
            document.is_opened,
            document.is_published,
            clone_option_text(&document.banner_url),
            clone_option_text(&document.thumbnail_url),
            clone_option_text(&document.thumbnail_half_url),
            document.trailer_url.clone(),
            document.video_url.clone(),
            categories,
            genres,
            cast_members,
            document.created_at,
            document.deleted_at,
        );
        video.validate();
        if video.notification().has_errors() {
            return Err(validation_error(video.notification()));
        }
        assert(video@.notification =~= Seq::empty());
        Ok(video)
    }

    /// The document the video is stored as.
    pub fn to_document(entity: &Video) -> (document: VideoDocument)
        ensures
            document@ == video_document_of(entity@),
            ids_read_back(entity@),
    {
        let category_values = entity.categories().values();
        let genre_values = entity.genres().values();
        let cast_member_values = entity.cast_members().values();
        let categories = nested_category_documents(category_values);
        let genres = nested_genre_documents(genre_values);
        let cast_members = nested_cast_member_documents(cast_member_values);
        proof {
            let v = entity@;
            assert forall|i: int| 0 <= i < v.categories.len() implies uuid_parse(
                uuid_text(#[trigger] v.categories[i].category_id.0.id),
            ) == Some(v.categories[i].category_id.0.id) by {
                assert(views_of(category_values@).len() == category_values@.len());
                assert(views_of(categories@).len() == categories@.len());
                assert(views_of(category_values@)[i] == category_values@[i]@);
                assert(views_of(categories@)[i] == categories@[i]@);
            }
            assert forall|i: int| 0 <= i < v.genres.len() implies uuid_parse(
                uuid_text(#[trigger] v.genres[i].genre_id.0.id),
            ) == Some(v.genres[i].genre_id.0.id) by {
                assert(views_of(genre_values@).len() == genre_values@.len());
                assert(views_of(genres@).len() == genres@.len());
                assert(views_of(genre_values@)[i] == genre_values@[i]@);
                assert(views_of(genres@)[i] == genres@[i]@);
            }
            assert forall|i: int| 0 <= i < v.cast_members.len() implies uuid_parse(
                uuid_text(#[trigger] v.cast_members[i].cast_member_id.0.id),
            ) == Some(v.cast_members[i].cast_member_id.0.id) by {
                assert(views_of(cast_member_values@).len() == cast_member_values@.len());
                assert(views_of(cast_members@).len() == cast_members@.len());
                assert(views_of(cast_member_values@)[i] == cast_member_values@[i]@);
                assert(views_of(cast_members@)[i] == cast_members@[i]@);
            }
        }
        VideoDocument {
            video_title: String::from_str(entity.title()),
            video_description: String::from_str(entity.description()),
            year_launched: entity.year_launched(),
            duration: entity.duration(),
            rating: entity.rating().to_string(),
            is_opened: entity.is_opened(),
            is_published: entity.is_published(),
            banner_url: option_to_owned(entity.banner_url()),
            thumbnail_url: option_to_owned(entity.thumbnail_url()),
            thumbnail_half_url: option_to_owned(entity.thumbnail_half_url()),
            trailer_url: String::from_str(entity.trailer_url()),
            video_url: String::from_str(entity.video_url()),
            categories,
            genres,
            cast_members,
            created_at: entity.created_at(),
            deleted_at: entity.deleted_at(),
            doc_type: String::from_str(VIDEO_DOCUMENT_TYPE),
        }
    }
}

} // verus!

verus! {

/// A nested genre's document carries the text of its id, its name, its
/// activity and deletion time, and tells whether it is deleted.
pub proof fn lemma_nested_genre_document_fields(nested: NestedGenreView)
    ensures
        nested_genre_document_of(nested).genre_id == uuid_text(nested.genre_id.0.id),
        nested_genre_document_of(nested).genre_name == nested.name,
        nested_genre_document_of(nested).is_active == nested.is_active,
        nested_genre_document_of(nested).deleted_at == nested.deleted_at,
        nested_genre_document_of(nested).is_deleted == (nested.deleted_at is Some),
{
}

/// A nested genre loaded from a document is kept under the document's id
/// text, has the UUID that text reads as, and the document's name, activity
/// and deletion time.
pub proof fn lemma_nested_genre_loaded_fields(document: NestedGenreDocumentView)
    ensures
        nested_genre_from_document(document).key == document.genre_id,
        uuid_parse(document.genre_id) matches Some(v) ==> nested_genre_from_document(document).genre_id.0.id == v,
        nested_genre_from_document(document).name == document.genre_name,
        nested_genre_from_document(document).is_active == document.is_active,
        nested_genre_from_document(document).deleted_at == document.deleted_at,
{
}

/// A nested cast member's document carries the text of its id, its name, the
/// number of its type (which reads back as that type) and its deletion time,
/// and tells whether it is deleted.
pub proof fn lemma_nested_cast_member_document_fields(nested: NestedCastMemberView)
    ensures
        nested_cast_member_document_of(nested).cast_member_id == uuid_text(nested.cast_member_id.0.id),
        nested_cast_member_document_of(nested).cast_member_name == nested.name,
        cast_member_type_of(nested_cast_member_document_of(nested).cast_member_type) == Ok::<
            CastMemberType,
            crate::domain::cast_member::cast_member_type::InvalidCastMemberTypeError,
        >(nested.cast_member_type),
        nested_cast_member_document_of(nested).deleted_at == nested.deleted_at,
        nested_cast_member_document_of(nested).is_deleted == (nested.deleted_at is Some),
{
    crate::domain::cast_member::cast_member_type::lemma_cast_member_type_round_trip(nested.cast_member_type);
}

/// A nested cast member loaded from a document is kept under the document's id
/// text, has the UUID that text reads as, the type its number names, and the
/// document's name and deletion time.
pub proof fn lemma_nested_cast_member_loaded_fields(document: NestedCastMemberDocumentView)
    ensures
        nested_cast_member_from_document(document).key == document.cast_member_id,
        uuid_parse(document.cast_member_id) matches Some(v) ==> nested_cast_member_from_document(
            document,
        ).cast_member_id.0.id == v,
        cast_member_type_of(document.cast_member_type) matches Ok(t) ==> nested_cast_member_from_document(
            document,
        ).cast_member_type == t,
        nested_cast_member_from_document(document).name == document.cast_member_name,
        nested_cast_member_from_document(document).deleted_at == document.deleted_at,
{
}

/// A video's document carries each value of the video under the field of the
/// same name: title, description, year of launch, duration, the text of its
/// rating (which reads back as that rating), whether it is opened and
/// published, the banner, thumbnail, half thumbnail, trailer and video URLs,
/// the creation and deletion times, and the document of each related item in
/// order; its `type` is `Video`.
pub proof fn lemma_video_document_fields(video: VideoView)
    ensures
        video_document_of(video).video_title == video.title,
        video_document_of(video).video_description == video.description,
        video_document_of(video).year_launched == video.year_launched,
        video_document_of(video).duration == video.duration,
        rating_of(video_document_of(video).rating) == Some(video.rating),
        video_document_of(video).is_opened == video.is_opened,
        video_document_of(video).is_published == video.is_published,
        video_document_of(video).banner_url == video.banner_url,
        video_document_of(video).thumbnail_url == video.thumbnail_url,
        video_document_of(video).thumbnail_half_url == video.thumbnail_half_url,
        video_document_of(video).trailer_url == video.trailer_url,
        video_document_of(video).video_url == video.video_url,
        video_document_of(video).created_at == video.created_at,
        video_document_of(video).deleted_at == video.deleted_at,
        video_document_of(video).doc_type == "Video"@,
        video_document_of(video).categories.len() == video.categories.len(),
        forall|i: int|
            0 <= i < video.categories.len() ==> #[trigger] video_document_of(video).categories[i]
                == nested_category_document_of(video.categories[i]),
        video_document_of(video).genres.len() == video.genres.len(),
        forall|i: int|
            0 <= i < video.genres.len() ==> #[trigger] video_document_of(video).genres[i] == nested_genre_document_of(
                video.genres[i],
            ),
        video_document_of(video).cast_members.len() == video.cast_members.len(),
        forall|i: int|
            0 <= i < video.cast_members.len() ==> #[trigger] video_document_of(video).cast_members[i]
                == nested_cast_member_document_of(video.cast_members[i]),
{
    crate::domain::video::rating::lemma_rating_text_round_trip(video.rating);
}

/// A video loaded from a document stored under `id` has the UUID that `id`
/// reads as, the rating the document's text names, and the document's value
/// under each field of the same name: title, description, year of launch,
/// duration, whether it is opened and published, the banner, thumbnail, half
/// thumbnail, trailer and video URLs, the creation and deletion times. Each
/// related item is one loaded from an item document of that kind in the
/// video's document, and each id text there keys one of them.
pub proof fn lemma_video_loaded_fields(id: Seq<char>, document: VideoDocumentView)
    requires
        video_from_document(id, document) is Ok,
    ensures
        video_from_document(id, document) matches Ok(v) && uuid_parse(id) == Some(v.video_id.0.id) && rating_of(
            document.rating,
        ) == Some(v.rating) && v.title == document.video_title && v.description == document.video_description
            && v.year_launched == document.year_launched && v.duration == document.duration && v.is_opened
            == document.is_opened && v.is_published == document.is_published && v.banner_url
            == document.banner_url && v.thumbnail_url == document.thumbnail_url && v.thumbnail_half_url
            == document.thumbnail_half_url && v.trailer_url == document.trailer_url && v.video_url
            == document.video_url && v.created_at == document.created_at && v.deleted_at == document.deleted_at
            && (forall|i: int|
            0 <= i < v.categories.len() ==> document.categories.map_values(
                |d: NestedCategoryDocumentView| crate::infrastructure::elasticsearch::genre_mapper::nested_category_from_document(d),
            ).contains(#[trigger] v.categories[i])) && (forall|i: int|
            0 <= i < v.genres.len() ==> document.genres.map_values(
                |d: NestedGenreDocumentView| nested_genre_from_document(d),
            ).contains(#[trigger] v.genres[i])) && (forall|i: int|
            0 <= i < v.cast_members.len() ==> document.cast_members.map_values(
                |d: NestedCastMemberDocumentView| nested_cast_member_from_document(d),
            ).contains(#[trigger] v.cast_members[i])) && (forall|k: int|
            0 <= k < document.categories.len() ==> crate::domain::shared::nested_map::contains_key::<NestedCategory>(
                v.categories,
                (#[trigger] document.categories[k]).category_id,
            )) && (forall|k: int|
            0 <= k < document.genres.len() ==> crate::domain::shared::nested_map::contains_key::<NestedGenre>(
                v.genres,
                (#[trigger] document.genres[k]).genre_id,
            )) && (forall|k: int|
            0 <= k < document.cast_members.len() ==> crate::domain::shared::nested_map::contains_key::<
                NestedCastMember,
            >(v.cast_members, (#[trigger] document.cast_members[k]).cast_member_id)),
{
    let categories = document.categories.map_values(
        |d: NestedCategoryDocumentView| crate::infrastructure::elasticsearch::genre_mapper::nested_category_from_document(d),
    );
    let genres = document.genres.map_values(|d: NestedGenreDocumentView| nested_genre_from_document(d));
    let members = document.cast_members.map_values(
        |d: NestedCastMemberDocumentView| nested_cast_member_from_document(d),
    );
    crate::domain::shared::nested_map::lemma_collected_members::<NestedCategory>(categories);
    crate::domain::shared::nested_map::lemma_collected_members::<NestedGenre>(genres);
    crate::domain::shared::nested_map::lemma_collected_members::<NestedCastMember>(members);
    assert forall|k: int| 0 <= k < document.categories.len() implies crate::domain::shared::nested_map::contains_key::<
        NestedCategory,
    >(collected::<NestedCategory>(categories), (#[trigger] document.categories[k]).category_id) by {
        assert(categories[k].key == document.categories[k].category_id);
    }
    assert forall|k: int| 0 <= k < document.genres.len() implies crate::domain::shared::nested_map::contains_key::<
        NestedGenre,
    >(collected::<NestedGenre>(genres), (#[trigger] document.genres[k]).genre_id) by {
        assert(genres[k].key == document.genres[k].genre_id);
    }
    assert forall|k: int| 0 <= k < document.cast_members.len() implies crate::domain::shared::nested_map::contains_key::<
        NestedCastMember,
    >(collected::<NestedCastMember>(members), (#[trigger] document.cast_members[k]).cast_member_id) by {
        assert(members[k].key == document.cast_members[k].cast_member_id);
    }
}

} // verus!
