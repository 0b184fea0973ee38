use vstd::prelude::*;

use crate::domain::category::category_id::CategoryId;
use crate::domain::category::nested_category::{NestedCategory, NestedCategoryView};
use crate::domain::genre::aggregate::{Genre, GenreView};
use crate::domain::genre::genre_id::GenreId;
use crate::domain::shared::entity::Entity;
use crate::domain::shared::errors::LoadEntityError;
use crate::domain::shared::notification::error_lines;
use crate::domain::shared::validation::{checked_length, exceeds_max_length};
use crate::domain::shared::listing::{first_index, lemma_first_index_absent, lemma_first_index_found};
use crate::domain::shared::nested_map::{
    collected, item_keys_distinct, lemma_collected_of_distinct, views_of, NestedMap,
};
use crate::domain::shared::text::text_eq;
use crate::domain::shared::timestamp::Timestamp;
use crate::domain::shared::value_object::{invalid_uuid_message, uuid_parse, uuid_text, UuidVo};

use super::category_mapper::{invalid_document_type, invalid_type_error, load_error, validation_error};

verus! {

/// The `type` of a genre's search document.
pub const GENRE_DOCUMENT_TYPE: &'static str = "Genre";

/// A category as stored inside another document.
#[derive(Debug, Clone)]
pub struct NestedCategoryDocument {
    pub category_id: String,
    pub category_name: String,
    pub is_active: bool,
    pub deleted_at: Option<Timestamp>,
    pub is_deleted: bool,
}

/// The abstract value of a [`NestedCategoryDocument`].
pub struct NestedCategoryDocumentView {
    pub category_id: Seq<char>,
    pub category_name: Seq<char>,
    pub is_active: bool,
    pub deleted_at: Option<Timestamp>,
    pub is_deleted: bool,
}

impl View for NestedCategoryDocument {
    type V = NestedCategoryDocumentView;

    open spec fn view(&self) -> NestedCategoryDocumentView {
        NestedCategoryDocumentView {
            category_id: self.category_id@,
            category_name: self.category_name@,
            is_active: self.is_active,
            deleted_at: self.deleted_at,
            is_deleted: self.is_deleted,
        }
    }
}

/// A genre as stored in the search index, under its id.
#[derive(Debug, Clone)]
pub struct GenreDocument {
    pub genre_name: String,
    pub categories: Vec<NestedCategoryDocument>,
    pub is_active: bool,
    pub created_at: Timestamp,
    pub deleted_at: Option<Timestamp>,
    pub doc_type: String,
}

/// The abstract value of a [`GenreDocument`].
pub struct GenreDocumentView {
    pub genre_name: Seq<char>,
    pub categories: Seq<NestedCategoryDocumentView>,
    pub is_active: bool,
    pub created_at: Timestamp,
    pub deleted_at: Option<Timestamp>,
    pub doc_type: Seq<char>,
}

impl View for GenreDocument {
    type V = GenreDocumentView;

    open spec fn view(&self) -> GenreDocumentView {
        GenreDocumentView {
            genre_name: self.genre_name@,
            categories: views_of(self.categories@),
            is_active: self.is_active,
            created_at: self.created_at,
            deleted_at: self.deleted_at,
            doc_type: self.doc_type@,
        }
    }
}

/// The UUID a text reads as (meaningful where it reads as one).
pub open spec fn uuid_value(text: Seq<char>) -> u128 {
    match uuid_parse(text) {
        Some(v) => v,
        None => 0,
    }
}

/// The document a nested category is stored as; `is_deleted` tells whether
/// it has a deletion time.
pub open spec fn nested_category_document_of(nested: NestedCategoryView) -> NestedCategoryDocumentView {
    NestedCategoryDocumentView {
        category_id: uuid_text(nested.category_id.0.id),
        category_name: nested.name,
        is_active: nested.is_active,
        deleted_at: nested.deleted_at,
        is_deleted: nested.deleted_at is Some,
    }
}

/// The nested category a document loads as (meaningful where its id reads).
pub open spec fn nested_category_from_document(document: NestedCategoryDocumentView) -> NestedCategoryView {
    NestedCategoryView {
        key: document.category_id,
        category_id: CategoryId(UuidVo { id: uuid_value(document.category_id) }),
        name: document.category_name,
        is_active: document.is_active,
        deleted_at: document.deleted_at,
        notification: Seq::empty(),
    }
}

/// A nested category without its validation errors.
pub open spec fn nested_category_unchecked(nested: NestedCategoryView) -> NestedCategoryView {
    NestedCategoryView { notification: Seq::empty(), ..nested }
}

/// The nested categories that documents load as, one per id text (a later one
/// replacing an earlier), or the error of the first whose id is no UUID.
/// Entries are kept under each document's id text as stored: texts that
/// differ, even when they read as one UUID (upper and lower case, say), make
/// separate entries, and a later document with the same text replaces the
/// earlier.
pub open spec fn nested_categories_from_documents(documents: Seq<NestedCategoryDocumentView>) -> Result<
    Seq<NestedCategoryView>,
    Seq<Seq<char>>,
> {
    let bad = first_index(documents, |d: NestedCategoryDocumentView| uuid_parse(d.category_id) is None);
    if bad >= 0 {
        Err(seq![invalid_uuid_message(documents[bad].category_id)])
    } else {
        Ok(
            collected::<NestedCategory>(
                documents.map_values(|d: NestedCategoryDocumentView| nested_category_from_document(d)),
            ),
        )
    }
}

/// The document a genre is stored as; its categories in the genre's order.
pub open spec fn genre_document_of(genre: GenreView) -> GenreDocumentView {
    GenreDocumentView {
        genre_name: genre.name,
        categories: genre.categories.map_values(|n: NestedCategoryView| nested_category_document_of(n)),
        is_active: genre.is_active,
        created_at: genre.created_at,
        deleted_at: genre.deleted_at,
        doc_type: "Genre"@,
    }
}

/// The genre a document stored under `id` loads as, or the errors that refuse
/// it: a wrong `type`, an id that is no UUID, the first nested category whose
/// id is no UUID, then the validation errors of the loaded genre, one line
/// `field: message` each.
pub open spec fn genre_from_document(id: Seq<char>, document: GenreDocumentView) -> Result<GenreView, Seq<Seq<char>>> {
    if document.doc_type != "Genre"@ {
        Err(invalid_document_type())
    } else {
        match uuid_parse(id) {
            None => Err(seq![invalid_uuid_message(id)]),
            Some(v) => match nested_categories_from_documents(document.categories) {
                Err(errors) => Err(errors),
                Ok(categories) => {
                    let checks = checked_length(Seq::empty(), "name"@, document.genre_name);
                    if checks.len() > 0 {
                        Err(error_lines(checks))
                    } else {
                        Ok(
                            GenreView {
                                genre_id: GenreId(UuidVo { id: v }),
                                name: document.genre_name,
                                categories,
                                is_active: document.is_active,
                                created_at: document.created_at,
                                deleted_at: document.deleted_at,
                                notification: Seq::empty(),
                            },
                        )
                    }
                },
            },
        }
    }
}

/// The documents of nested categories, in order.
pub fn nested_category_documents(nested: &Vec<NestedCategory>) -> (documents: Vec<NestedCategoryDocument>)
    ensures
        views_of(documents@) == views_of(nested@).map_values(
            |n: NestedCategoryView| nested_category_document_of(n),
        ),
        forall|i: int|
            0 <= i < documents@.len() ==> uuid_parse(#[trigger] documents@[i].category_id@) == Some(
                nested@[i]@.category_id.0.id,
            ),
{
    let mut documents: Vec<NestedCategoryDocument> = Vec::new();
    for i in 0..nested.len()
        invariant
            documents@.len() == i,
            forall|k: int|
                0 <= k < i ==> (#[trigger] documents@[k])@ == nested_category_document_of(nested@[k]@),
            forall|k: int|
                0 <= k < i ==> uuid_parse(#[trigger] documents@[k].category_id@) == Some(
                    nested@[k]@.category_id.0.id,
                ),
    {
        let item = &nested[i];
        let deleted_at = item.deleted_at();
        let id_text = item.category_id().to_string();
        assert(uuid_parse(id_text@) == Some(nested@[i as int]@.category_id.0.id));
        let ghost before = documents@;
        documents.push(
            NestedCategoryDocument {
                category_id: id_text,
                category_name: String::from_str(item.name()),
                is_active: item.is_active(),
                deleted_at,
                is_deleted: deleted_at.is_some(),
            },
        );
        assert(uuid_parse(documents@[i as int].category_id@) == Some(nested@[i as int]@.category_id.0.id));
        assert forall|k: int| 0 <= k < i implies uuid_parse(#[trigger] documents@[k].category_id@) == Some(
            nested@[k]@.category_id.0.id,
        ) by {
            assert(documents@[k] == before[k]);
            assert(uuid_parse(before[k].category_id@) == Some(nested@[k]@.category_id.0.id));
        }
    }
    assert(views_of(documents@) =~= views_of(nested@).map_values(
        |n: NestedCategoryView| nested_category_document_of(n),
    ));
    documents
}

/// Loads the nested categories of documents, one per id text.
/// Entries are kept under each document's id text as stored: texts that
/// differ, even when they read as one UUID (upper and lower case, say), make
/// separate entries, and a later document with the same text replaces the
/// earlier.
pub fn nested_categories_from(documents: &Vec<NestedCategoryDocument>) -> (result: Result<
    NestedMap<NestedCategory>,
    LoadEntityError,
>)
    ensures
        match nested_categories_from_documents(views_of(documents@)) {
            Ok(v) => result matches Ok(m) && m@ == v,
            Err(errors) => result matches Err(e) && e.errors.deep_view() == errors,
        },
{
    let ghost docs = views_of(documents@);
    let ghost is_bad = |d: NestedCategoryDocumentView| uuid_parse(d.category_id) is None;
    let mut nested: Vec<NestedCategory> = Vec::new();
    for i in 0..documents.len()
        invariant
            docs == views_of(documents@),
            is_bad == (|d: NestedCategoryDocumentView| uuid_parse(d.category_id) is None),
            nested@.len() == i,
            forall|k: int| 0 <= k < i ==> !is_bad(#[trigger] docs[k]),
            forall|k: int|
                0 <= k < i ==> (#[trigger] nested@[k])@ == nested_category_from_document(docs[k]),
    {
        let document = &documents[i];
        match CategoryId::from(document.category_id.as_str()) {
            Ok(category_id) => {
                nested.push(
                    NestedCategory::new(
                        category_id,
                        document.category_name.clone(),
                        document.is_active,
                        document.deleted_at,
                    ).with_key(document.category_id.clone()),
                );
            },
            Err(e) => {
                proof {
                    lemma_first_index_found(docs, is_bad, i as int);
                }
                return Err(load_error(e.to_string()));
            },
        }
    }
    proof {
        lemma_first_index_absent(docs, is_bad);
        assert(views_of(nested@) =~= docs.map_values(
            |d: NestedCategoryDocumentView| nested_category_from_document(d),
        ));
    }
    Ok(NestedMap::from_list(nested))
}

/// Loading the documents of nested categories kept under distinct texts, each
/// the text of the category's id, which reads back, gives the nested categories without their validation errors.
pub proof fn lemma_nested_categories_round_trip(nested: Seq<NestedCategoryView>)
    requires
        item_keys_distinct::<NestedCategory>(nested),
        forall|i: int|
            0 <= i < nested.len() ==> uuid_parse(uuid_text(#[trigger] nested[i].category_id.0.id)) == Some(
                nested[i].category_id.0.id,
            ),
        forall|i: int| 0 <= i < nested.len() ==> (#[trigger] nested[i]).key == uuid_text(nested[i].category_id.0.id),
    ensures
        nested_categories_from_documents(nested.map_values(|n: NestedCategoryView| nested_category_document_of(n)))
            == Ok::<Seq<NestedCategoryView>, Seq<Seq<char>>>(
            nested.map_values(|n: NestedCategoryView| nested_category_unchecked(n)),
        ),
{
    let docs = nested.map_values(|n: NestedCategoryView| nested_category_document_of(n));
    let is_bad = |d: NestedCategoryDocumentView| uuid_parse(d.category_id) is None;
    assert forall|k: int| 0 <= k < docs.len() implies !is_bad(#[trigger] docs[k]) by {
        assert(docs[k].category_id == uuid_text(nested[k].category_id.0.id));
    }
    lemma_first_index_absent(docs, is_bad);
    let loaded = docs.map_values(|d: NestedCategoryDocumentView| nested_category_from_document(d));
    let stripped = nested.map_values(|n: NestedCategoryView| nested_category_unchecked(n));
    assert forall|k: int| 0 <= k < loaded.len() implies #[trigger] loaded[k] == stripped[k] by {
        assert(docs[k].category_id == uuid_text(nested[k].category_id.0.id));
    }
    assert(loaded =~= stripped);
    assert(item_keys_distinct::<NestedCategory>(stripped)) by {
        assert forall|i: int, j: int| 0 <= i < j < stripped.len() implies (#[trigger] stripped[i]).key
            != (#[trigger] stripped[j]).key by {
            assert(nested[i].key != nested[j].key);
        }
    }
    lemma_collected_of_distinct::<NestedCategory>(stripped);
}

/// Turns genres into search documents and back.
pub struct GenreElasticSearchMapper;

impl GenreElasticSearchMapper {
    /// Loads the genre stored under `id`, and refuses it when it fails validation.
    pub fn to_entity(id: &str, document: &GenreDocument) -> (result: Result<Genre, LoadEntityError>)
        ensures
            match genre_from_document(id@, document@) {
                Ok(v) => result matches Ok(g) && g@ == v,
                Err(errors) => result matches Err(e) && e.errors.deep_view() == errors,
            },
    {
        if !text_eq(document.doc_type.as_str(), GENRE_DOCUMENT_TYPE) {
            return Err(invalid_type_error());
        }
        let genre_id = match GenreId::from(id) {
            Ok(genre_id) => genre_id,
            Err(e) => {
                return Err(load_error(e.to_string()));
            },
        };
        let categories = match nested_categories_from(&document.categories) {
            Ok(categories) => categories,
            Err(e) => {
                return Err(e);
            },
        };
        let mut genre = Genre::new(
            genre_id,
            document.genre_name.clone(),
            categories,
            document.is_active,
            document.created_at,
            document.deleted_at,
        );
        genre.validate();
        if genre.notification().has_errors() {
            return Err(validation_error(genre.notification()));
        }
        assert(genre@.notification =~= Seq::empty());
        Ok(genre)
    }

    /// The document the genre is stored as. Its categories are kept under
    /// distinct texts, and each id text reads back as its id.
    pub fn to_document(entity: &Genre) -> (document: GenreDocument)
        ensures
            document@ == genre_document_of(entity@),
            item_keys_distinct::<NestedCategory>(entity@.categories),
            forall|i: int|
                0 <= i < entity@.categories.len() ==> uuid_parse(
                    uuid_text(#[trigger] entity@.categories[i].category_id.0.id),
                ) == Some(entity@.categories[i].category_id.0.id),
    {
        let values = entity.categories().values();
        let categories = nested_category_documents(values);
        proof {
            assert forall|i: int| 0 <= i < entity@.categories.len() implies uuid_parse(
                uuid_text(#[trigger] entity@.categories[i].category_id.0.id),
            ) == Some(entity@.categories[i].category_id.0.id) by {
                assert(views_of(values@).len() == values@.len());
                assert(views_of(categories@).len() == categories@.len());
                assert(views_of(values@)[i] == values@[i]@);
                assert(views_of(categories@)[i] == categories@[i]@);
                assert(categories@[i]@ == nested_category_document_of(values@[i]@));
            }
        }
        GenreDocument {
            genre_name: String::from_str(entity.name()),
            categories,
            is_active: entity.is_active(),
            created_at: entity.created_at(),
            deleted_at: entity.deleted_at(),
            doc_type: String::from_str(GENRE_DOCUMENT_TYPE),
        }
    }
}

/// Storing a genre whose name passes validation and loading it back under
/// the text of its id gives the genre again, without its validation errors or those of its categories.
/// (Its categories are kept under distinct texts; the genre's own operations
/// keep each under the text of its id, and [`GenreElasticSearchMapper::to_document`]
/// ensures that their id texts read back.)
pub proof fn lemma_genre_document_round_trip(genre: GenreView, id: Seq<char>)
    requires
        uuid_parse(id) == Some(genre.genre_id.0.id),
        !exceeds_max_length(genre.name),
        item_keys_distinct::<NestedCategory>(genre.categories),
        forall|i: int|
            0 <= i < genre.categories.len() ==> (#[trigger] genre.categories[i]).key == uuid_text(
                genre.categories[i].category_id.0.id,
            ),
        forall|i: int|
            0 <= i < genre.categories.len() ==> uuid_parse(uuid_text(#[trigger] genre.categories[i].category_id.0.id))
                == Some(genre.categories[i].category_id.0.id),
    ensures
        genre_from_document(id, genre_document_of(genre)) == Ok::<GenreView, Seq<Seq<char>>>(
            GenreView {
                categories: genre.categories.map_values(|n: NestedCategoryView| nested_category_unchecked(n)),
                notification: Seq::empty(),
                ..genre
            },
        ),
{
    lemma_nested_categories_round_trip(genre.categories);
}

} // verus!

verus! {

/// A nested category's document carries the text of its id, its name, its
/// activity and deletion time, and tells whether it is deleted.
pub proof fn lemma_nested_category_document_fields(nested: NestedCategoryView)
    ensures
        nested_category_document_of(nested).category_id == uuid_text(nested.category_id.0.id),
        nested_category_document_of(nested).category_name == nested.name,
        nested_category_document_of(nested).is_active == nested.is_active,
        nested_category_document_of(nested).deleted_at == nested.deleted_at,
        nested_category_document_of(nested).is_deleted == (nested.deleted_at is Some),
{
}

/// A nested category loaded from a document is kept under the document's id
/// text, has the UUID that text reads as, and the document's name, activity
/// and deletion time.
pub proof fn lemma_nested_category_loaded_fields(document: NestedCategoryDocumentView)
    ensures
        nested_category_from_document(document).key == document.category_id,
        uuid_parse(document.category_id) matches Some(v) ==> nested_category_from_document(document).category_id.0.id
            == v,
        nested_category_from_document(document).name == document.category_name,
        nested_category_from_document(document).is_active == document.is_active,
        nested_category_from_document(document).deleted_at == document.deleted_at,
{
}

/// A genre's document carries its name, activity, creation and deletion times,
/// and the document of each of its categories, in order; its `type` is `Genre`.
pub proof fn lemma_genre_document_fields(genre: GenreView)
    ensures
        genre_document_of(genre).genre_name == genre.name,
        genre_document_of(genre).is_active == genre.is_active,
        genre_document_of(genre).created_at == genre.created_at,
        genre_document_of(genre).deleted_at == genre.deleted_at,
        genre_document_of(genre).doc_type == "Genre"@,
        genre_document_of(genre).categories.len() == genre.categories.len(),
        forall|i: int|
            0 <= i < genre.categories.len() ==> #[trigger] genre_document_of(genre).categories[i]
                == nested_category_document_of(genre.categories[i]),
{
}

/// A genre loaded from a document stored under `id` has the UUID that `id`
/// reads as, and the document's name, activity, creation and deletion times;
/// each of its categories is one loaded from a category document of the
/// genre's document, and each id text there keys one of them.
pub proof fn lemma_genre_loaded_fields(id: Seq<char>, document: GenreDocumentView)
    requires
        genre_from_document(id, document) is Ok,
    ensures
        genre_from_document(id, document) matches Ok(g) && uuid_parse(id) == Some(g.genre_id.0.id) && g.name
            == document.genre_name && g.is_active == document.is_active && g.created_at == document.created_at
            && g.deleted_at == document.deleted_at && (forall|i: int|
            0 <= i < g.categories.len() ==> document.categories.map_values(
                |d: NestedCategoryDocumentView| nested_category_from_document(d),
            ).contains(#[trigger] g.categories[i])) && (forall|k: int|
            0 <= k < document.categories.len() ==> crate::domain::shared::nested_map::contains_key::<NestedCategory>(
                g.categories,
                (#[trigger] document.categories[k]).category_id,
            )),
{
    let loaded = document.categories.map_values(|d: NestedCategoryDocumentView| nested_category_from_document(d));
    crate::domain::shared::nested_map::lemma_collected_members::<NestedCategory>(loaded);
    assert forall|k: int| 0 <= k < document.categories.len() implies crate::domain::shared::nested_map::contains_key::<
        NestedCategory,
    >(collected::<NestedCategory>(loaded), (#[trigger] document.categories[k]).category_id) by {
        assert(loaded[k].key == document.categories[k].category_id);
    }
}

} // verus!
