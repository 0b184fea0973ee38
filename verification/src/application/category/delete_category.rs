use vstd::prelude::*;

use crate::domain::category::aggregate::{Category, CategoryView};
use crate::domain::category::category_id::CategoryId;
use crate::domain::category::category_repository::ICategoryRepository;
use crate::domain::shared::errors::{not_found_message, ErrorMessage, NotFoundError};
use crate::domain::shared::nested_map::keys_distinct;
use crate::domain::shared::query::{
    first_selected, lemma_hidden_after_soft_delete, lemma_selected_has_position, position_of_id,
};
use crate::domain::shared::value_object::uuid_parse;

use crate::application::messages::{invalid_id, invalid_id_prefix};
use crate::domain::shared::value_object::invalid_uuid_message;

verus! {

/// The id of the category to delete.
#[derive(Debug, Clone)]
pub struct DeleteCategoryInput {
    pub id: String,
}

/// Why a category could not be deleted.
#[derive(Debug)]
pub enum DeleteCategoryError<E> {
    NotFound(NotFoundError),
    InvalidId(String),
    Repository(E),
}

/// The message of a deletion error; a repository error gives its own.
pub open spec fn delete_category_error_text<E: ErrorMessage>(error: DeleteCategoryError<E>) -> Option<Seq<char>> {
    match error {
        DeleteCategoryError::NotFound(e) => Some(not_found_message(e.id@, e.entity_name@)),
        DeleteCategoryError::InvalidId(m) => Some(invalid_id_prefix("category"@) + m@),
        DeleteCategoryError::Repository(e) => Some(e.message_text()),
    }
}

impl<E: ErrorMessage> DeleteCategoryError<E> {
    /// The error's message; a repository error gives its own.
    pub fn to_string(&self) -> (message: String)
        ensures
            self matches DeleteCategoryError::NotFound(e) ==> message@ == not_found_message(e.id@, e.entity_name@),
            self matches DeleteCategoryError::InvalidId(m) ==> message@ == invalid_id_prefix("category"@) + m@,
            delete_category_error_text(*self) matches Some(m) ==> message@ == m,
            self matches DeleteCategoryError::Repository(e) ==> message@ == e.message_text(),
    {
        match self {
            DeleteCategoryError::NotFound(e) => e.to_string(),
            DeleteCategoryError::InvalidId(m) => invalid_id("category", m.as_str()),
            DeleteCategoryError::Repository(e) => e.message(),
        }
    }
}

/// Soft-deletes a category: it stays stored, marked deleted.
pub struct DeleteCategoryUseCase<R: ICategoryRepository> {
    repo: R,
}

/// The stored categories after the category at `pos` was replaced by `found`
/// marked deleted at some time.
pub open spec fn category_marked_deleted(
    before: Seq<CategoryView>,
    after: Seq<CategoryView>,
    pos: int,
    found: CategoryView,
) -> bool {
    &&& 0 <= pos < before.len()
    &&& after[pos].deleted_at is Some
    &&& after == before.update(pos, CategoryView { deleted_at: after[pos].deleted_at, ..found })
}

/// What deleting by `input` does to the repository and returns: an id that
/// is no UUID is refused and nothing changes; otherwise the category found
/// under the id is marked deleted and stored again.
pub open spec fn category_deleted<R: ICategoryRepository>(
    before: R,
    after: R,
    input: DeleteCategoryInput,
    result: Result<(), DeleteCategoryError<R::Error>>,
) -> bool {
    &&& after.reliable() == before.reliable()
    &&& match uuid_parse(input.id@) {
        None => {
            &&& result matches Err(DeleteCategoryError::InvalidId(m)) && m@ == invalid_uuid_message(input.id@)
            &&& after == before
        },
        Some(v) => {
            let found = first_selected::<Category>(before.stored(), before.hides_deleted(), Some(v), None);
            &&& !(result matches Err(DeleteCategoryError::InvalidId(_)))
            &&& before.reliable() ==> (result is Ok <==> found is Some)
            &&& before.reliable() ==> !(result matches Err(DeleteCategoryError::Repository(_)))
            &&& result matches Err(DeleteCategoryError::NotFound(e)) ==> (found is None && e.id@
                == input.id@ && e.entity_name@ == "Category"@ && after == before)
            &&& result is Ok ==> (found matches Some(c) && category_marked_deleted(
                before.stored(),
                after.stored(),
                position_of_id::<Category>(before.stored(), v),
                c,
            ) && after.hides_deleted() == before.hides_deleted())
        },
    }
}

impl<R: ICategoryRepository> DeleteCategoryUseCase<R> {
    /// The repository written to.
    pub closed spec fn repository(&self) -> R {
        self.repo
    }

    pub fn new(repo: R) -> (use_case: Self)
        ensures
            use_case.repository() == repo,
    {
        DeleteCategoryUseCase { repo }
    }

    /// Marks the category with the id as deleted and stores it again. An id
    /// that is no UUID is refused with `invalid category id: Invalid UUID: <id>`;
    /// when no category has it, the error is `Category Not Found using ID <id>`.
    pub fn execute(&mut self, input: DeleteCategoryInput) -> (result: Result<(), DeleteCategoryError<R::Error>>)
        ensures
            category_deleted(old(self).repository(), final(self).repository(), input, result),
    {
        let category_id = match CategoryId::from(input.id.as_str()) {
            Ok(id) => id,
            Err(e) => {
                return Err(DeleteCategoryError::InvalidId(e.to_string()));
            },
        };
        let ghost v = category_id.0.id;
        let mut category = match self.repo.find_by_id(&category_id) {
            Err(e) => {
                return Err(DeleteCategoryError::Repository(e));
            },
            Ok(None) => {
                return Err(DeleteCategoryError::NotFound(NotFoundError::new(input.id.as_str(), "Category")));
            },
            Ok(Some(category)) => category,
        };
        proof {
            lemma_selected_has_position::<Category>(
                self.repo.stored(),
                self.repo.hides_deleted(),
                v,
                None,
            );
        }
        category.mark_as_deleted();
        match self.repo.update(&category) {
            Err(e) => Err(DeleteCategoryError::Repository(e)),
            Ok(()) => Ok(()),
        }
    }
}

} // verus!

verus! {

/// Once a category is deleted, a read of its id finds nothing when reads hide
/// soft-deleted categories and no two stored categories share an id.
pub proof fn lemma_category_hidden_after_delete<R: ICategoryRepository>(
    before: R,
    after: R,
    input: DeleteCategoryInput,
    result: Result<(), DeleteCategoryError<R::Error>>,
)
    requires
        category_deleted(before, after, input, result),
        result is Ok,
        before.hides_deleted(),
        keys_distinct::<Category>(before.stored()),
    ensures
        uuid_parse(input.id@) matches Some(v) && first_selected::<Category>(
            after.stored(),
            after.hides_deleted(),
            Some(v),
            None,
        ) is None,
{
    let v = uuid_parse(input.id@)->0;
    lemma_selected_has_position::<Category>(before.stored(), before.hides_deleted(), v, None);
    let pos = position_of_id::<Category>(before.stored(), v);
    lemma_hidden_after_soft_delete::<Category>(before.stored(), after.stored()[pos]);
}

} // verus!
