use vstd::prelude::*;

use crate::domain::category::aggregate::{created_category, Category, CategoryCreateCommand, CategoryView};
use crate::domain::category::category_id::CategoryId;
use crate::domain::category::category_repository::ICategoryRepository;
use crate::domain::shared::entity::Entity;
use crate::domain::shared::errors::{EntityValidationError, ErrorMessage};
use crate::domain::shared::query::{
    first_selected, lemma_find_after_insert, lemma_find_after_update, lemma_selected_has_position,
    position_of_id,
};
use crate::domain::shared::text::option_text;
use crate::domain::shared::timestamp::Timestamp;
use crate::domain::shared::validation::checked_length;
use crate::domain::shared::value_object::{uuid_parse, uuid_text, UuidVo};

use crate::application::messages::{invalid_id, invalid_id_prefix};
use crate::domain::shared::value_object::invalid_uuid_message;

verus! {

/// The values a category is created or updated with.
#[derive(Debug, Clone)]
pub struct SaveCategoryInput {
    pub category_id: String,
    pub name: String,
    pub description: Option<String>,
    pub is_active: bool,
    pub created_at: Timestamp,
}

/// The id saved under, and whether the category was new.
#[derive(Debug, Clone)]
pub struct SaveCategoryOutput {
    pub id: String,
    pub created: bool,
}

/// Why a category could not be saved.
#[derive(Debug)]
pub enum SaveCategoryError<E> {
    Validation(EntityValidationError),
    InvalidId(String),
    Repository(E),
}

/// The message of a saving error; a repository error gives its own.
pub open spec fn save_category_error_text<E: ErrorMessage>(error: SaveCategoryError<E>) -> Option<Seq<char>> {
    match error {
        SaveCategoryError::Validation(_) => Some("Entity Validation Error"@),
        SaveCategoryError::InvalidId(m) => Some(invalid_id_prefix("category"@) + m@),
        SaveCategoryError::Repository(e) => Some(e.message_text()),
    }
}

impl<E: ErrorMessage> SaveCategoryError<E> {
    /// The error's message; a repository error gives its own.
    pub fn to_string(&self) -> (message: String)
        ensures
            self is Validation ==> message@ == "Entity Validation Error"@,
            self matches SaveCategoryError::InvalidId(m) ==> message@ == invalid_id_prefix("category"@) + m@,
            save_category_error_text(*self) matches Some(m) ==> message@ == m,
            self matches SaveCategoryError::Repository(e) ==> message@ == e.message_text(),
    {
        match self {
            SaveCategoryError::Validation(e) => e.to_string(),
            SaveCategoryError::InvalidId(m) => invalid_id("category", m.as_str()),
            SaveCategoryError::Repository(e) => e.message(),
        }
    }
}

/// The category an input creates under the UUID `v`.
pub open spec fn category_from_input(v: u128, input: SaveCategoryInput) -> CategoryView {
    created_category(
        CategoryId(UuidVo { id: v }),
        input.name@,
        option_text(input.description),
        input.is_active,
        input.created_at,
    )
}

/// A stored category after an input was applied to it: renamed (and its name
/// checked again), its description, activity and creation time replaced.
pub open spec fn category_with_input(existing: CategoryView, input: SaveCategoryInput) -> CategoryView {
    CategoryView {
        name: input.name@,
        notification: checked_length(existing.notification, "name"@, input.name@),
        description: option_text(input.description),
        is_active: input.is_active,
        created_at: input.created_at,
        ..existing
    }
}

/// What saving `input` does to the repository and returns: an id that is no
/// UUID is refused and nothing changes; otherwise the category found under the
/// id is updated with the input, or a new one is created, and stored unless it
/// has validation errors.
pub open spec fn category_saved<R: ICategoryRepository>(
    before: R,
    after: R,
    input: SaveCategoryInput,
    result: Result<SaveCategoryOutput, SaveCategoryError<R::Error>>,
) -> bool {
    &&& after.reliable() == before.reliable()
    &&& match uuid_parse(input.category_id@) {
        None => {
            &&& result matches Err(SaveCategoryError::InvalidId(m)) && m@ == invalid_uuid_message(input.category_id@)
            &&& after == before
        },
        Some(v) => {
            let existing = first_selected::<Category>(before.stored(), before.hides_deleted(), Some(v), None);
            let saved = match existing {
                Some(c) => category_with_input(c, input),
                None => category_from_input(v, input),
            };
            &&& !(result matches Err(SaveCategoryError::InvalidId(_)))
            &&& result matches Err(SaveCategoryError::Validation(e)) ==> (saved.notification.len() > 0
                && e.notification@ == saved.notification && after == before)
            &&& saved.notification.len() > 0 ==> result is Err
            &&& saved.notification.len() > 0 ==> after == before
            &&& before.reliable() ==> (result is Ok <==> saved.notification.len() == 0)
            &&& result matches Ok(out) ==> {
                &&& out.id@ == uuid_text(v)
                &&& out.created == existing is None
                &&& after.hides_deleted() == before.hides_deleted()
                &&& after.stored() == match existing {
                    Some(c) => before.stored().update(position_of_id::<Category>(before.stored(), v), saved),
                    None => before.stored().push(saved),
                }
            }
        },
    }
}

/// Creates a category, or updates the one stored under the same id.
pub struct SaveCategoryUseCase<R: ICategoryRepository> {
    repo: R,
}

impl<R: ICategoryRepository> SaveCategoryUseCase<R> {
    /// The repository written to.
    pub closed spec fn repository(&self) -> R {
        self.repo
    }

    pub fn new(repo: R) -> (use_case: Self)
        ensures
            use_case.repository() == repo,
    {
        SaveCategoryUseCase { repo }
    }

    /// Saves the input. When a category is found under its id, the input is
    /// applied to it and it is stored again; else a new category is inserted.
    /// An entity with validation errors is refused and nothing is written.
    pub fn execute(&mut self, input: SaveCategoryInput) -> (result: Result<SaveCategoryOutput, SaveCategoryError<R::Error>>)
        ensures
            category_saved(old(self).repository(), final(self).repository(), input, result),
    {
        let category_id = match CategoryId::from(input.category_id.as_str()) {
            Ok(id) => id,
            Err(e) => {
                return Err(SaveCategoryError::InvalidId(e.to_string()));
            },
        };
        let ghost v = category_id.0.id;
        match self.repo.find_by_id(&category_id) {
            Err(e) => Err(SaveCategoryError::Repository(e)),
            Ok(Some(category)) => {
                proof {
                    lemma_selected_has_position::<Category>(
                        self.repo.stored(),
                        self.repo.hides_deleted(),
                        v,
                        None,
                    );
                }
                self.update_category(input, category)
            },
            Ok(None) => self.create_category(input, category_id),
        }
    }

    fn create_category(&mut self, input: SaveCategoryInput, category_id: CategoryId) -> (result: Result<
        SaveCategoryOutput,
        SaveCategoryError<R::Error>,
    >)
        ensures
            ({
                let before = old(self).repository();
                let after = final(self).repository();
                let saved = category_from_input(category_id.0.id, input);
                &&& after.reliable() == before.reliable()
                &&& !(result matches Err(SaveCategoryError::InvalidId(_)))
                &&& result matches Err(SaveCategoryError::Validation(e)) ==> (saved.notification.len() > 0
                    && e.notification@ == saved.notification && after == before)
                &&& saved.notification.len() > 0 ==> result is Err
                &&& saved.notification.len() > 0 ==> after == before
                &&& before.reliable() ==> (result is Ok <==> saved.notification.len() == 0)
                &&& result matches Ok(out) ==> (out.id@ == uuid_text(category_id.0.id) && out.created
                    && after.hides_deleted() == before.hides_deleted() && after.stored()
                    == before.stored().push(saved))
            }),
    {
        let entity = Category::create(
            CategoryCreateCommand {
                category_id,
                name: input.name,
                description: input.description,
                is_active: input.is_active,
                created_at: input.created_at,
            },
        );
        if entity.notification().has_errors() {
            return Err(SaveCategoryError::Validation(EntityValidationError::new(entity.notification().clone())));
        }
        match self.repo.insert(&entity) {
            Err(e) => Err(SaveCategoryError::Repository(e)),
            Ok(()) => Ok(SaveCategoryOutput { id: entity.category_id().to_string(), created: true }),
        }
    }

    fn update_category(&mut self, input: SaveCategoryInput, category: Category) -> (result: Result<
        SaveCategoryOutput,
        SaveCategoryError<R::Error>,
    >)
        requires
            position_of_id::<Category>(old(self).repository().stored(), category@.category_id.0.id) >= 0,
        ensures
            ({
                let before = old(self).repository();
                let after = final(self).repository();
                let id = category@.category_id.0.id;
                let saved = category_with_input(category@, input);
                &&& after.reliable() == before.reliable()
                &&& !(result matches Err(SaveCategoryError::InvalidId(_)))
                &&& result matches Err(SaveCategoryError::Validation(e)) ==> (saved.notification.len() > 0
                    && e.notification@ == saved.notification && after == before)
                &&& saved.notification.len() > 0 ==> result is Err
                &&& saved.notification.len() > 0 ==> after == before
                &&& before.reliable() ==> (result is Ok <==> saved.notification.len() == 0)
                &&& result matches Ok(out) ==> (out.id@ == uuid_text(id) && !out.created
                    && after.hides_deleted() == before.hides_deleted() && after.stored()
                    == before.stored().update(position_of_id::<Category>(before.stored(), id), saved))
            }),
    {
        let mut category = category;
        category.change_name(input.name);
        category.change_description(input.description);
        if input.is_active {
            category.activate();
        } else {
            category.deactivate();
        }
        category.change_created_at(input.created_at);
        if category.notification().has_errors() {
            return Err(SaveCategoryError::Validation(EntityValidationError::new(category.notification().clone())));
        }
        match self.repo.update(&category) {
            Err(e) => Err(SaveCategoryError::Repository(e)),
            Ok(()) => Ok(SaveCategoryOutput { id: category.category_id().to_string(), created: false }),
        }
    }
}

} // verus!

verus! {

/// Once a category is saved, a read of its id finds it, with the values of
/// the input.
pub proof fn lemma_category_found_after_save<R: ICategoryRepository>(
    before: R,
    after: R,
    input: SaveCategoryInput,
    result: Result<SaveCategoryOutput, SaveCategoryError<R::Error>>,
)
    requires
        category_saved(before, after, input, result),
        result is Ok,
    ensures
        uuid_parse(input.category_id@) matches Some(v) && first_selected::<Category>(
            after.stored(),
            after.hides_deleted(),
            Some(v),
            None,
        ) matches Some(c) && c.category_id.0.id == v && c.name == input.name@ && c.description == option_text(
            input.description,
        ) && c.is_active == input.is_active && c.created_at == input.created_at,
{
    let v = uuid_parse(input.category_id@)->0;
    let existing = first_selected::<Category>(before.stored(), before.hides_deleted(), Some(v), None);
    match existing {
        Some(c) => {
            lemma_selected_has_position::<Category>(before.stored(), before.hides_deleted(), v, None);
            lemma_find_after_update::<Category>(before.stored(), before.hides_deleted(), category_with_input(c, input));
        },
        None => {
            lemma_find_after_insert::<Category>(before.stored(), before.hides_deleted(), category_from_input(v, input));
        },
    }
}

} // verus!
