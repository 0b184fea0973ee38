use vstd::prelude::*;

use crate::domain::genre::aggregate::Genre;
use crate::domain::genre::genre_id::GenreId;
use crate::domain::genre::genre_repository::IGenreRepository;
use crate::domain::shared::errors::{not_found_message, ErrorMessage, NotFoundError};
use crate::domain::shared::query::first_selected;
use crate::domain::shared::value_object::uuid_parse;
use crate::application::messages::{invalid_id, invalid_id_prefix};
use crate::domain::shared::value_object::invalid_uuid_message;

use super::genre_output::{is_genre_output, GenreOutput, GenreOutputMapper};

verus! {

/// The id of the genre asked for.
#[derive(Debug, Clone)]
pub struct GetGenreInput {
    pub id: String,
}

/// Why a genre could not be returned.
#[derive(Debug)]
pub enum GetGenreError<E> {
    NotFound(NotFoundError),
    InvalidId(String),
    Repository(E),
}

impl<E: ErrorMessage> GetGenreError<E> {
    /// The error's message; a repository error gives its own.
    pub fn to_string(&self) -> (message: String)
        ensures
            self matches GetGenreError::NotFound(e) ==> message@ == not_found_message(e.id@, e.entity_name@),
            self matches GetGenreError::InvalidId(m) ==> message@ == invalid_id_prefix("genre"@) + m@,
            self matches GetGenreError::Repository(e) ==> message@ == e.message_text(),
    {
        match self {
            GetGenreError::NotFound(e) => e.to_string(),
            GetGenreError::InvalidId(m) => invalid_id("genre", m.as_str()),
            GetGenreError::Repository(e) => e.message(),
        }
    }
}

/// Returns an active genre by id.
pub struct GetGenreUseCase<R: IGenreRepository> {
    repo: R,
}

impl<R: IGenreRepository> GetGenreUseCase<R> {
    /// The repository read from.
    pub closed spec fn repository(&self) -> R {
        self.repo
    }

    pub fn new(repo: R) -> (use_case: Self)
        ensures
            use_case.repository() == repo,
    {
        GetGenreUseCase { repo }
    }

    /// The active genre with the id. An id that is no UUID is refused with
    /// `invalid genre id: Invalid UUID: <id>`; when no active genre has it,
    /// the error is `Genre Not Found using ID <id>`.
    pub fn execute(&self, input: GetGenreInput) -> (result: Result<GenreOutput, GetGenreError<R::Error>>)
        ensures
            match uuid_parse(input.id@) {
                None => result matches Err(GetGenreError::InvalidId(m)) && m@ == invalid_uuid_message(input.id@),
                Some(v) => {
                    let found = first_selected::<Genre>(
                        self.repository().stored(),
                        self.repository().hides_deleted(),
                        Some(v),
                        Some(true),
                    );
                    &&& !(result matches Err(GetGenreError::InvalidId(_)))
                    &&& self.repository().reliable() ==> (result is Ok <==> found is Some)
                    &&& self.repository().reliable() ==> !(result matches Err(GetGenreError::Repository(_)))
                    &&& result matches Ok(out) ==> (found matches Some(c) && is_genre_output(out, c))
                    &&& result matches Err(GetGenreError::NotFound(e)) ==> (found is None && e.id@
                        == input.id@ && e.entity_name@ == "Genre"@)
                },
            },
    {
        let genre_id = match GenreId::from(input.id.as_str()) {
            Ok(id) => id,
            Err(e) => {
                return Err(GetGenreError::InvalidId(e.to_string()));
            },
        };
        match self.repo.find_one_by(Some(&genre_id), Some(true)) {
            Err(e) => Err(GetGenreError::Repository(e)),
            Ok(None) => Err(GetGenreError::NotFound(NotFoundError::new(input.id.as_str(), "Genre"))),
            Ok(Some(genre)) => Ok(GenreOutputMapper::to_output(&genre)),
        }
    }
}

} // verus!
