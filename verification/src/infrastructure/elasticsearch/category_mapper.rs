use vstd::prelude::*;

use crate::domain::category::aggregate::{Category, CategoryView};
use crate::domain::category::category_id::CategoryId;
use crate::domain::shared::entity::Entity;
use crate::domain::shared::errors::LoadEntityError;
use crate::domain::shared::notification::{error_lines, Notification};
use crate::domain::shared::validation::{checked_length, exceeds_max_length};
use crate::domain::shared::text::{clone_option_text, option_text, option_to_owned, text_eq};
use crate::domain::shared::timestamp::Timestamp;
use crate::domain::shared::value_object::{invalid_uuid_message, uuid_parse, UuidVo};

verus! {

/// The `type` of a category's search document.
pub const CATEGORY_DOCUMENT_TYPE: &'static str = "Category";

/// A category as stored in the search index, under its id.
#[derive(Debug, Clone)]
pub struct CategoryDocument {
    pub category_name: String,
    pub category_description: Option<String>,
    pub is_active: bool,
    pub created_at: Timestamp,
    pub deleted_at: Option<Timestamp>,
    pub doc_type: String,
}

/// The abstract value of a [`CategoryDocument`].
pub struct CategoryDocumentView {
    pub category_name: Seq<char>,
    pub category_description: Option<Seq<char>>,
    pub is_active: bool,
    pub created_at: Timestamp,
    pub deleted_at: Option<Timestamp>,
    pub doc_type: Seq<char>,
}

impl View for CategoryDocument {
    type V = CategoryDocumentView;

    open spec fn view(&self) -> CategoryDocumentView {
        CategoryDocumentView {
            category_name: self.category_name@,
            category_description: option_text(self.category_description),
            is_active: self.is_active,
            created_at: self.created_at,
            deleted_at: self.deleted_at,
            doc_type: self.doc_type@,
        }
    }
}

/// The errors of a document whose `type` is not the expected one.
pub open spec fn invalid_document_type() -> Seq<Seq<char>> {
    seq!["Invalid document type"@]
}

/// The document a category is stored as.
pub open spec fn category_document_of(category: CategoryView) -> CategoryDocumentView {
    CategoryDocumentView {
        category_name: category.name,
        category_description: category.description,
        is_active: category.is_active,
        created_at: category.created_at,
        deleted_at: category.deleted_at,
        doc_type: "Category"@,
    }
}

/// The category a document stored under `id` loads as, or the errors that
/// refuse it: a wrong `type`, then an id that is no UUID, then the validation
/// errors of the loaded category, one line `field: message` each.
pub open spec fn category_from_document(id: Seq<char>, document: CategoryDocumentView) -> Result<
    CategoryView,
    Seq<Seq<char>>,
> {
    if document.doc_type != "Category"@ {
        Err(invalid_document_type())
    } else {
        match uuid_parse(id) {
            None => Err(seq![invalid_uuid_message(id)]),
            Some(v) => {
                let checks = checked_length(Seq::empty(), "name"@, document.category_name);
                if checks.len() > 0 {
                    Err(error_lines(checks))
                } else {
                    Ok(
                        CategoryView {
                            category_id: CategoryId(UuidVo { id: v }),
                            name: document.category_name,
                            description: document.category_description,
                            is_active: document.is_active,
                            created_at: document.created_at,
                            deleted_at: document.deleted_at,
                            notification: Seq::empty(),
                        },
                    )
                }
            },
        }
    }
}

/// The error that refuses a stored document.
pub fn load_error(message: String) -> (error: LoadEntityError)
    ensures
        error.errors.deep_view() == seq![message@],
{
    let error = LoadEntityError { errors: vec![message] };
    assert(error.errors.deep_view() =~= seq![message@]);
    error
}

/// The error that refuses a loaded entity with validation errors: one line
/// `field: message` per message.
pub fn validation_error(notification: &Notification) -> (error: LoadEntityError)
    ensures
        error.errors.deep_view() == error_lines(notification@),
{
    LoadEntityError { errors: notification.to_error_messages() }
}

/// The error of a document whose `type` is not the expected one.
pub fn invalid_type_error() -> (error: LoadEntityError)
    ensures
        error.errors.deep_view() == invalid_document_type(),
{
    load_error(String::from_str("Invalid document type"))
}

/// Turns categories into search documents and back.
pub struct CategoryElasticSearchMapper;

impl CategoryElasticSearchMapper {
    /// Loads the category stored under `id`, and refuses it when it fails validation.
    pub fn to_entity(id: &str, document: &CategoryDocument) -> (result: Result<Category, LoadEntityError>)
        ensures
            match category_from_document(id@, document@) {
                Ok(v) => result matches Ok(c) && c@ == v,
                Err(errors) => result matches Err(e) && e.errors.deep_view() == errors,
            },
    {
        if !text_eq(document.doc_type.as_str(), CATEGORY_DOCUMENT_TYPE) {
            return Err(invalid_type_error());
        }
        let category_id = match CategoryId::from(id) {
            Ok(category_id) => category_id,
            Err(e) => {
                return Err(load_error(e.to_string()));
            },
        };
        let mut category = Category::new(
            category_id,
            document.category_name.clone(),
            clone_option_text(&document.category_description),
            document.is_active,
            document.created_at,
            document.deleted_at,
        );
        category.validate();
        if category.notification().has_errors() {
            return Err(validation_error(category.notification()));
        }
        assert(category@.notification =~= Seq::empty());
        Ok(category)
    }

    /// The document the category is stored as.
    pub fn to_document(entity: &Category) -> (document: CategoryDocument)
        ensures
            document@ == category_document_of(entity@),
    {
        CategoryDocument {
            category_name: String::from_str(entity.name()),
            category_description: option_to_owned(entity.description()),
            is_active: entity.is_active(),
            created_at: entity.created_at(),
            deleted_at: entity.deleted_at(),
            doc_type: String::from_str(CATEGORY_DOCUMENT_TYPE),
        }
    }
}

/// Storing a category whose name passes validation and loading it back under
/// the text of its id gives the category again, without its validation errors.
pub proof fn lemma_category_document_round_trip(category: CategoryView, id: Seq<char>)
    requires
        uuid_parse(id) == Some(category.category_id.0.id),
        !exceeds_max_length(category.name),
    ensures
        category_from_document(id, category_document_of(category)) == Ok::<CategoryView, Seq<Seq<char>>>(
            CategoryView { notification: Seq::empty(), ..category },
        ),
{
}

} // verus!

verus! {

/// A category's document carries each of its values under the field of the
/// same name: its name, description, activity, creation and deletion times;
/// its `type` is `Category`.
pub proof fn lemma_category_document_fields(category: CategoryView)
    ensures
        category_document_of(category).category_name == category.name,
        category_document_of(category).category_description == category.description,
        category_document_of(category).is_active == category.is_active,
        category_document_of(category).created_at == category.created_at,
        category_document_of(category).deleted_at == category.deleted_at,
        category_document_of(category).doc_type == "Category"@,
{
}

/// A category loaded from a document stored under `id` has the UUID that `id`
/// reads as, and the document's name, description, activity, creation and
/// deletion times.
pub proof fn lemma_category_loaded_fields(id: Seq<char>, document: CategoryDocumentView)
    requires
        category_from_document(id, document) is Ok,
    ensures
        category_from_document(id, document) matches Ok(c) && uuid_parse(id) == Some(c.category_id.0.id)
            && c.name == document.category_name && c.description == document.category_description
            && c.is_active == document.is_active && c.created_at == document.created_at && c.deleted_at
            == document.deleted_at,
{
}

} // verus!
