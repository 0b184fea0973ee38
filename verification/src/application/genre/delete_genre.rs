use vstd::prelude::*;

use crate::domain::genre::aggregate::{Genre, GenreView};
use crate::domain::genre::genre_id::GenreId;
use crate::domain::genre::genre_repository::IGenreRepository;
use crate::domain::shared::errors::{not_found_message, ErrorMessage, NotFoundError};
use crate::domain::shared::nested_map::keys_distinct;
use crate::domain::shared::query::{
    first_selected, lemma_hidden_after_soft_delete, lemma_selected_has_position, position_of_id,
};
use crate::domain::shared::value_object::uuid_parse;

use crate::application::messages::{invalid_id, invalid_id_prefix};
use crate::domain::shared::value_object::invalid_uuid_message;

verus! {

/// The id of the genre to delete.
#[derive(Debug, Clone)]
pub struct DeleteGenreInput {
    pub id: String,
}

/// Why a genre could not be deleted.
#[derive(Debug)]
pub enum DeleteGenreError<E> {
    NotFound(NotFoundError),
    InvalidId(String),
    Repository(E),
}

impl<E: ErrorMessage> DeleteGenreError<E> {
    /// The error's message; a repository error gives its own.
    pub fn to_string(&self) -> (message: String)
        ensures
            self matches DeleteGenreError::NotFound(e) ==> message@ == not_found_message(e.id@, e.entity_name@),
            self matches DeleteGenreError::InvalidId(m) ==> message@ == invalid_id_prefix("genre"@) + m@,
            self matches DeleteGenreError::Repository(e) ==> message@ == e.message_text(),
    {
        match self {
            DeleteGenreError::NotFound(e) => e.to_string(),
            DeleteGenreError::InvalidId(m) => invalid_id("genre", m.as_str()),
            DeleteGenreError::Repository(e) => e.message(),
        }
    }
}

/// Soft-deletes a genre: it stays stored, marked deleted.
pub struct DeleteGenreUseCase<R: IGenreRepository> {
    repo: R,
}

/// The stored genres after the genre at `pos` was replaced by `found`
/// marked deleted at some time.
pub open spec fn genre_marked_deleted(
    before: Seq<GenreView>,
    after: Seq<GenreView>,
    pos: int,
    found: GenreView,
) -> bool {
    &&& 0 <= pos < before.len()
    &&& after[pos].deleted_at is Some
    &&& after == before.update(pos, GenreView { deleted_at: after[pos].deleted_at, ..found })
}

/// What deleting by `input` does to the repository and returns: an id that
/// is no UUID is refused and nothing changes; otherwise the genre found
/// under the id is marked deleted and stored again.
pub open spec fn genre_deleted<R: IGenreRepository>(
    before: R,
    after: R,
    input: DeleteGenreInput,
    result: Result<(), DeleteGenreError<R::Error>>,
) -> bool {
    &&& after.reliable() == before.reliable()
    &&& match uuid_parse(input.id@) {
        None => {
            &&& result matches Err(DeleteGenreError::InvalidId(m)) && m@ == invalid_uuid_message(input.id@)
            &&& after == before
        },
        Some(v) => {
            let found = first_selected::<Genre>(before.stored(), before.hides_deleted(), Some(v), None);
            &&& !(result matches Err(DeleteGenreError::InvalidId(_)))
            &&& before.reliable() ==> (result is Ok <==> found is Some)
            &&& before.reliable() ==> !(result matches Err(DeleteGenreError::Repository(_)))
            &&& result matches Err(DeleteGenreError::NotFound(e)) ==> (found is None && e.id@
                == input.id@ && e.entity_name@ == "Genre"@ && after == before)
            &&& result is Ok ==> (found matches Some(c) && genre_marked_deleted(
                before.stored(),
                after.stored(),
                position_of_id::<Genre>(before.stored(), v),
                c,
            ) && after.hides_deleted() == before.hides_deleted())
        },
    }
}

impl<R: IGenreRepository> DeleteGenreUseCase<R> {
    /// The repository written to.
    pub closed spec fn repository(&self) -> R {
        self.repo
    }

    pub fn new(repo: R) -> (use_case: Self)
        ensures
            use_case.repository() == repo,
    {
        DeleteGenreUseCase { repo }
    }

    /// Marks the genre with the id as deleted and stores it again. An id
    /// that is no UUID is refused with `invalid genre id: Invalid UUID: <id>`;
    /// when no genre has it, the error is `Genre Not Found using ID <id>`.
    pub fn execute(&mut self, input: DeleteGenreInput) -> (result: Result<(), DeleteGenreError<R::Error>>)
        ensures
            genre_deleted(old(self).repository(), final(self).repository(), input, result),
    {
        let genre_id = match GenreId::from(input.id.as_str()) {
            Ok(id) => id,
            Err(e) => {
                return Err(DeleteGenreError::InvalidId(e.to_string()));
            },
        };
        let ghost v = genre_id.0.id;
        let mut genre = match self.repo.find_by_id(&genre_id) {
            Err(e) => {
                return Err(DeleteGenreError::Repository(e));
            },
            Ok(None) => {
                return Err(DeleteGenreError::NotFound(NotFoundError::new(input.id.as_str(), "Genre")));
            },
            Ok(Some(genre)) => genre,
        };
        proof {
            lemma_selected_has_position::<Genre>(
                self.repo.stored(),
                self.repo.hides_deleted(),
                v,
                None,
            );
        }
        genre.mark_as_deleted();
        match self.repo.update(&genre) {
            Err(e) => Err(DeleteGenreError::Repository(e)),
            Ok(()) => Ok(()),
        }
    }
}

} // verus!

verus! {

/// Once a genre is deleted, a read of its id finds nothing when reads hide
/// soft-deleted genres and no two stored genres share an id.
pub proof fn lemma_genre_hidden_after_delete<R: IGenreRepository>(
    before: R,
    after: R,
    input: DeleteGenreInput,
    result: Result<(), DeleteGenreError<R::Error>>,
)
    requires
        genre_deleted(before, after, input, result),
        result is Ok,
        before.hides_deleted(),
        keys_distinct::<Genre>(before.stored()),
    ensures
        uuid_parse(input.id@) matches Some(v) && first_selected::<Genre>(
            after.stored(),
            after.hides_deleted(),
            Some(v),
            None,
        ) is None,
{
    let v = uuid_parse(input.id@)->0;
    lemma_selected_has_position::<Genre>(before.stored(), before.hides_deleted(), v, None);
    let pos = position_of_id::<Genre>(before.stored(), v);
    lemma_hidden_after_soft_delete::<Genre>(before.stored(), after.stored()[pos]);
}

} // verus!
