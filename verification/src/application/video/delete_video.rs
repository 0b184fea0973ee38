use vstd::prelude::*;

use crate::domain::video::aggregate::{Video, VideoView};
use crate::domain::video::video_id::VideoId;
use crate::domain::video::video_repository::IVideoRepository;
use crate::domain::shared::errors::{not_found_message, ErrorMessage, NotFoundError};
use crate::domain::shared::nested_map::keys_distinct;
use crate::domain::shared::query::{
    first_selected, lemma_hidden_after_soft_delete, lemma_selected_has_position, position_of_id,
};
use crate::domain::shared::value_object::uuid_parse;

use crate::application::messages::{invalid_id, invalid_id_prefix};
use crate::domain::shared::value_object::invalid_uuid_message;

verus! {

/// The id of the video to delete.
#[derive(Debug, Clone)]
pub struct DeleteVideoInput {
    pub id: String,
}

/// Why a video could not be deleted.
#[derive(Debug)]
pub enum DeleteVideoError<E> {
    NotFound(NotFoundError),
    InvalidId(String),
    Repository(E),
}

impl<E: ErrorMessage> DeleteVideoError<E> {
    /// The error's message; a repository error gives its own.
    pub fn to_string(&self) -> (message: String)
        ensures
            self matches DeleteVideoError::NotFound(e) ==> message@ == not_found_message(e.id@, e.entity_name@),
            self matches DeleteVideoError::InvalidId(m) ==> message@ == invalid_id_prefix("video"@) + m@,
            self matches DeleteVideoError::Repository(e) ==> message@ == e.message_text(),
    {
        match self {
            DeleteVideoError::NotFound(e) => e.to_string(),
            DeleteVideoError::InvalidId(m) => invalid_id("video", m.as_str()),
            DeleteVideoError::Repository(e) => e.message(),
        }
    }
}

/// Soft-deletes a video: it stays stored, marked deleted.
pub struct DeleteVideoUseCase<R: IVideoRepository> {
    repo: R,
}

/// The stored videos after the video at `pos` was replaced by `found`
/// marked deleted at some time.
pub open spec fn video_marked_deleted(
    before: Seq<VideoView>,
    after: Seq<VideoView>,
    pos: int,
    found: VideoView,
) -> bool {
    &&& 0 <= pos < before.len()
    &&& after[pos].deleted_at is Some
    &&& after == before.update(pos, VideoView { deleted_at: after[pos].deleted_at, ..found })
}

/// What deleting by `input` does to the repository and returns: an id that
/// is no UUID is refused and nothing changes; otherwise the video found
/// under the id is marked deleted and stored again.
pub open spec fn video_deleted<R: IVideoRepository>(
    before: R,
    after: R,
    input: DeleteVideoInput,
    result: Result<(), DeleteVideoError<R::Error>>,
) -> bool {
    &&& after.reliable() == before.reliable()
    &&& match uuid_parse(input.id@) {
        None => {
            &&& result matches Err(DeleteVideoError::InvalidId(m)) && m@ == invalid_uuid_message(input.id@)
            &&& after == before
        },
        Some(v) => {
            let found = first_selected::<Video>(before.stored(), before.hides_deleted(), Some(v), None);
            &&& !(result matches Err(DeleteVideoError::InvalidId(_)))
            &&& before.reliable() ==> (result is Ok <==> found is Some)
            &&& before.reliable() ==> !(result matches Err(DeleteVideoError::Repository(_)))
            &&& result matches Err(DeleteVideoError::NotFound(e)) ==> (found is None && e.id@
                == input.id@ && e.entity_name@ == "Video"@ && after == before)
            &&& result is Ok ==> (found matches Some(c) && video_marked_deleted(
                before.stored(),
                after.stored(),
                position_of_id::<Video>(before.stored(), v),
                c,
            ) && after.hides_deleted() == before.hides_deleted())
        },
    }
}

impl<R: IVideoRepository> DeleteVideoUseCase<R> {
    /// The repository written to.
    pub closed spec fn repository(&self) -> R {
        self.repo
    }

    pub fn new(repo: R) -> (use_case: Self)
        ensures
            use_case.repository() == repo,
    {
        DeleteVideoUseCase { repo }
    }

    /// Marks the video with the id as deleted and stores it again. An id
    /// that is no UUID is refused with `invalid video id: Invalid UUID: <id>`;
    /// when no video has it, the error is `Video Not Found using ID <id>`.
    pub fn execute(&mut self, input: DeleteVideoInput) -> (result: Result<(), DeleteVideoError<R::Error>>)
        ensures
            video_deleted(old(self).repository(), final(self).repository(), input, result),
    {
        let video_id = match VideoId::from(input.id.as_str()) {
            Ok(id) => id,
            Err(e) => {
                return Err(DeleteVideoError::InvalidId(e.to_string()));
            },
        };
        let ghost v = video_id.0.id;
        let mut video = match self.repo.find_by_id(&video_id) {
            Err(e) => {
                return Err(DeleteVideoError::Repository(e));
            },
            Ok(None) => {
                return Err(DeleteVideoError::NotFound(NotFoundError::new(input.id.as_str(), "Video")));
            },
            Ok(Some(video)) => video,
        };
        proof {
            lemma_selected_has_position::<Video>(
                self.repo.stored(),
                self.repo.hides_deleted(),
                v,
                None,
            );
        }
        video.mark_as_deleted();
        match self.repo.update(&video) {
            Err(e) => Err(DeleteVideoError::Repository(e)),
            Ok(()) => Ok(()),
        }
    }
}

} // verus!

verus! {

/// Once a video is deleted, a read of its id finds nothing when reads hide
/// soft-deleted videos and no two stored videos share an id.
pub proof fn lemma_video_hidden_after_delete<R: IVideoRepository>(
    before: R,
    after: R,
    input: DeleteVideoInput,
    result: Result<(), DeleteVideoError<R::Error>>,
)
    requires
        video_deleted(before, after, input, result),
        result is Ok,
        before.hides_deleted(),
        keys_distinct::<Video>(before.stored()),
    ensures
        uuid_parse(input.id@) matches Some(v) && first_selected::<Video>(
            after.stored(),
            after.hides_deleted(),
            Some(v),
            None,
        ) is None,
{
    let v = uuid_parse(input.id@)->0;
    lemma_selected_has_position::<Video>(before.stored(), before.hides_deleted(), v, None);
    let pos = position_of_id::<Video>(before.stored(), v);
    lemma_hidden_after_soft_delete::<Video>(before.stored(), after.stored()[pos]);
}

} // verus!
