use vstd::prelude::*;

use crate::domain::genre::aggregate::Genre;
use crate::domain::genre::genre_repository::IGenreRepository;
use crate::domain::shared::errors::ErrorMessage;
use crate::domain::shared::query::{listed, SortKey};
use crate::domain::shared::repository::{SortDirection, SortOrder};

use super::genre_output::{are_genre_outputs, genre_outputs, GenreOutput};

verus! {

/// A listing failed in the repository.
#[derive(Debug)]
pub enum ListGenresError<E> {
    Repository(E),
}

impl<E: ErrorMessage> ListGenresError<E> {
    /// The repository error's own message.
    pub fn to_string(&self) -> (message: String)
        ensures
            message@ == match self {
                ListGenresError::Repository(e) => e.message_text(),
            },
    {
        match self {
            ListGenresError::Repository(e) => e.message(),
        }
    }
}

/// Lists the active genres by name.
pub struct ListAllGenresUseCase<R: IGenreRepository> {
    repo: R,
}

impl<R: IGenreRepository> ListAllGenresUseCase<R> {
    /// The repository read from.
    pub closed spec fn repository(&self) -> R {
        self.repo
    }

    pub fn new(repo: R) -> (use_case: Self)
        ensures
            use_case.repository() == repo,
    {
        ListAllGenresUseCase { repo }
    }

    /// The active genres, ordered by name ascending (byte order), those
    /// with equal names in storage order.
    pub fn execute(&self) -> (result: Result<Vec<GenreOutput>, ListGenresError<R::Error>>)
        ensures
            self.repository().reliable() ==> result is Ok,
            result matches Ok(outputs) ==> are_genre_outputs(
                outputs@,
                listed::<Genre>(
                    self.repository().stored(),
                    self.repository().hides_deleted(),
                    None,
                    Some(true),
                    SortKey::Text,
                    SortDirection::Asc,
                ),
            ),
    {
        let order = SortOrder { field: String::from_str("name"), direction: SortDirection::Asc };
        proof {
            reveal_strlit("name");
        }
        match self.repo.find_by(None, Some(true), Some(&order)) {
            Err(e) => Err(ListGenresError::Repository(e)),
            Ok(genres) => Ok(genre_outputs(&genres)),
        }
    }
}

} // verus!

verus! {

/// What listing all genres lists: each listed one is a stored, active genre
/// that the read shows, each stored active one that the read shows is listed,
/// and they run by name ascending in the byte order of the UTF-8 text.
pub proof fn lemma_all_genres_listed(stored: Seq<crate::domain::genre::aggregate::GenreView>, hides_deleted: bool)
    ensures
        forall|i: int|
            0 <= i < crate::domain::shared::query::listed::<crate::domain::genre::aggregate::Genre>(stored, hides_deleted, None, Some(true), crate::domain::shared::query::SortKey::Text, crate::domain::shared::repository::SortDirection::Asc).len() ==> (#[trigger] crate::domain::shared::query::listed::<crate::domain::genre::aggregate::Genre>(stored, hides_deleted, None, Some(true), crate::domain::shared::query::SortKey::Text, crate::domain::shared::repository::SortDirection::Asc)[i]).is_active && (!hides_deleted || crate::domain::shared::query::listed::<crate::domain::genre::aggregate::Genre>(stored, hides_deleted, None, Some(true), crate::domain::shared::query::SortKey::Text, crate::domain::shared::repository::SortDirection::Asc)[i].deleted_at is None)
                && stored.contains(crate::domain::shared::query::listed::<crate::domain::genre::aggregate::Genre>(stored, hides_deleted, None, Some(true), crate::domain::shared::query::SortKey::Text, crate::domain::shared::repository::SortDirection::Asc)[i]),
        forall|i: int|
            0 <= i < stored.len() && (#[trigger] stored[i]).is_active && (!hides_deleted || stored[i].deleted_at is None)
                ==> crate::domain::shared::query::listed::<crate::domain::genre::aggregate::Genre>(stored, hides_deleted, None, Some(true), crate::domain::shared::query::SortKey::Text, crate::domain::shared::repository::SortDirection::Asc).contains(stored[i]),
        crate::domain::genre::genre_repository::genres_by_name(crate::domain::shared::query::listed::<crate::domain::genre::aggregate::Genre>(stored, hides_deleted, None, Some(true), crate::domain::shared::query::SortKey::Text, crate::domain::shared::repository::SortDirection::Asc), crate::domain::shared::repository::SortDirection::Asc),
{
    crate::domain::shared::query::lemma_listed_members::<crate::domain::genre::aggregate::Genre>(
        stored,
        hides_deleted,
        None,
        Some(true),
        crate::domain::shared::query::SortKey::Text,
        crate::domain::shared::repository::SortDirection::Asc,
    );
    crate::domain::shared::query::lemma_listed_by_text::<crate::domain::genre::aggregate::Genre>(
        stored,
        hides_deleted,
        None,
        Some(true),
        crate::domain::shared::repository::SortDirection::Asc,
    );
}

} // verus!
