use vstd::prelude::*;

use crate::domain::category::aggregate::Category;
use crate::domain::category::category_repository::ICategoryRepository;
use crate::domain::shared::errors::ErrorMessage;
use crate::domain::shared::query::{listed, SortKey};
use crate::domain::shared::repository::{SortDirection, SortOrder};

use super::category_output::{are_category_outputs, category_outputs, CategoryOutput};

verus! {

/// A listing failed in the repository.
#[derive(Debug)]
pub enum ListCategoriesError<E> {
    Repository(E),
}

impl<E: ErrorMessage> ListCategoriesError<E> {
    /// The repository error's own message.
    pub fn to_string(&self) -> (message: String)
        ensures
            message@ == match self {
                ListCategoriesError::Repository(e) => e.message_text(),
            },
    {
        match self {
            ListCategoriesError::Repository(e) => e.message(),
        }
    }
}

/// Lists the active categories by name.
pub struct ListAllCategoriesUseCase<R: ICategoryRepository> {
    repo: R,
}

impl<R: ICategoryRepository> ListAllCategoriesUseCase<R> {
    /// The repository read from.
    pub closed spec fn repository(&self) -> R {
        self.repo
    }

    pub fn new(repo: R) -> (use_case: Self)
        ensures
            use_case.repository() == repo,
    {
        ListAllCategoriesUseCase { repo }
    }

    /// The active categories, ordered by name ascending (byte order), those
    /// with equal names in storage order.
    pub fn execute(&self) -> (result: Result<Vec<CategoryOutput>, ListCategoriesError<R::Error>>)
        ensures
            self.repository().reliable() ==> result is Ok,
            result matches Ok(outputs) ==> are_category_outputs(
                outputs@,
                listed::<Category>(
                    self.repository().stored(),
                    self.repository().hides_deleted(),
                    None,
                    Some(true),
                    SortKey::Text,
                    SortDirection::Asc,
                ),
            ),
    {
        let order = SortOrder { field: String::from_str("name"), direction: SortDirection::Asc };
        proof {
            reveal_strlit("name");
        }
        match self.repo.find_by(None, Some(true), Some(&order)) {
            Err(e) => Err(ListCategoriesError::Repository(e)),
            Ok(categories) => Ok(category_outputs(&categories)),
        }
    }
}

} // verus!

verus! {

/// What listing all categories lists: each listed one is a stored, active category
/// that the read shows, each stored active one that the read shows is listed,
/// and they run by name ascending in the byte order of the UTF-8 text.
pub proof fn lemma_all_categories_listed(stored: Seq<crate::domain::category::aggregate::CategoryView>, hides_deleted: bool)
    ensures
        forall|i: int|
            0 <= i < crate::domain::shared::query::listed::<crate::domain::category::aggregate::Category>(stored, hides_deleted, None, Some(true), crate::domain::shared::query::SortKey::Text, crate::domain::shared::repository::SortDirection::Asc).len() ==> (#[trigger] crate::domain::shared::query::listed::<crate::domain::category::aggregate::Category>(stored, hides_deleted, None, Some(true), crate::domain::shared::query::SortKey::Text, crate::domain::shared::repository::SortDirection::Asc)[i]).is_active && (!hides_deleted || crate::domain::shared::query::listed::<crate::domain::category::aggregate::Category>(stored, hides_deleted, None, Some(true), crate::domain::shared::query::SortKey::Text, crate::domain::shared::repository::SortDirection::Asc)[i].deleted_at is None)
                && stored.contains(crate::domain::shared::query::listed::<crate::domain::category::aggregate::Category>(stored, hides_deleted, None, Some(true), crate::domain::shared::query::SortKey::Text, crate::domain::shared::repository::SortDirection::Asc)[i]),
        forall|i: int|
            0 <= i < stored.len() && (#[trigger] stored[i]).is_active && (!hides_deleted || stored[i].deleted_at is None)
                ==> crate::domain::shared::query::listed::<crate::domain::category::aggregate::Category>(stored, hides_deleted, None, Some(true), crate::domain::shared::query::SortKey::Text, crate::domain::shared::repository::SortDirection::Asc).contains(stored[i]),
        crate::domain::category::category_repository::categories_by_name(crate::domain::shared::query::listed::<crate::domain::category::aggregate::Category>(stored, hides_deleted, None, Some(true), crate::domain::shared::query::SortKey::Text, crate::domain::shared::repository::SortDirection::Asc), crate::domain::shared::repository::SortDirection::Asc),
{
    crate::domain::shared::query::lemma_listed_members::<crate::domain::category::aggregate::Category>(
        stored,
        hides_deleted,
        None,
        Some(true),
        crate::domain::shared::query::SortKey::Text,
        crate::domain::shared::repository::SortDirection::Asc,
    );
    crate::domain::shared::query::lemma_listed_by_text::<crate::domain::category::aggregate::Category>(
        stored,
        hides_deleted,
        None,
        Some(true),
        crate::domain::shared::repository::SortDirection::Asc,
    );
}

} // verus!
