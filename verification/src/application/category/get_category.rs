use vstd::prelude::*;

use crate::domain::category::aggregate::Category;
use crate::domain::category::category_id::CategoryId;
use crate::domain::category::category_repository::ICategoryRepository;
use crate::domain::shared::errors::{not_found_message, ErrorMessage, NotFoundError};
use crate::domain::shared::query::first_selected;
use crate::domain::shared::value_object::uuid_parse;
use crate::application::messages::{invalid_id, invalid_id_prefix};
use crate::domain::shared::value_object::invalid_uuid_message;

use super::category_output::{is_category_output, CategoryOutput, CategoryOutputMapper};

verus! {

/// The id of the category asked for.
#[derive(Debug, Clone)]
pub struct GetCategoryInput {
    pub id: String,
}

/// Why a category could not be returned.
#[derive(Debug)]
pub enum GetCategoryError<E> {
    NotFound(NotFoundError),
    InvalidId(String),
    Repository(E),
}

impl<E: ErrorMessage> GetCategoryError<E> {
    /// The error's message; a repository error gives its own.
    pub fn to_string(&self) -> (message: String)
        ensures
            self matches GetCategoryError::NotFound(e) ==> message@ == not_found_message(e.id@, e.entity_name@),
            self matches GetCategoryError::InvalidId(m) ==> message@ == invalid_id_prefix("category"@) + m@,
            self matches GetCategoryError::Repository(e) ==> message@ == e.message_text(),
    {
        match self {
            GetCategoryError::NotFound(e) => e.to_string(),
            GetCategoryError::InvalidId(m) => invalid_id("category", m.as_str()),
            GetCategoryError::Repository(e) => e.message(),
        }
    }
}

/// Returns an active category by id.
pub struct GetCategoryUseCase<R: ICategoryRepository> {
    repo: R,
}

impl<R: ICategoryRepository> GetCategoryUseCase<R> {
    /// The repository read from.
    pub closed spec fn repository(&self) -> R {
        self.repo
    }

    pub fn new(repo: R) -> (use_case: Self)
        ensures
            use_case.repository() == repo,
    {
        GetCategoryUseCase { repo }
    }

    /// The active category with the id. An id that is no UUID is refused with
    /// `invalid category id: Invalid UUID: <id>`; when no active category has it,
    /// the error is `Category Not Found using ID <id>`.
    pub fn execute(&self, input: GetCategoryInput) -> (result: Result<CategoryOutput, GetCategoryError<R::Error>>)
        ensures
            match uuid_parse(input.id@) {
                None => result matches Err(GetCategoryError::InvalidId(m)) && m@ == invalid_uuid_message(input.id@),
                Some(v) => {
                    let found = first_selected::<Category>(
                        self.repository().stored(),
                        self.repository().hides_deleted(),
                        Some(v),
                        Some(true),
                    );
                    &&& !(result matches Err(GetCategoryError::InvalidId(_)))
                    &&& self.repository().reliable() ==> (result is Ok <==> found is Some)
                    &&& self.repository().reliable() ==> !(result matches Err(GetCategoryError::Repository(_)))
                    &&& result matches Ok(out) ==> (found matches Some(c) && is_category_output(out, c))
                    &&& result matches Err(GetCategoryError::NotFound(e)) ==> (found is None && e.id@
                        == input.id@ && e.entity_name@ == "Category"@)
                },
            },
    {
        let category_id = match CategoryId::from(input.id.as_str()) {
            Ok(id) => id,
            Err(e) => {
                return Err(GetCategoryError::InvalidId(e.to_string()));
            },
        };
        match self.repo.find_one_by(Some(&category_id), Some(true)) {
            Err(e) => Err(GetCategoryError::Repository(e)),
            Ok(None) => Err(GetCategoryError::NotFound(NotFoundError::new(input.id.as_str(), "Category"))),
            Ok(Some(category)) => Ok(CategoryOutputMapper::to_output(&category)),
        }
    }
}

} // verus!
