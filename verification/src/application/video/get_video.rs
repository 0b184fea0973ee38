use vstd::prelude::*;

use crate::domain::video::aggregate::Video;
use crate::domain::video::video_id::VideoId;
use crate::domain::video::video_repository::IVideoRepository;
use crate::domain::shared::errors::{not_found_message, ErrorMessage, NotFoundError};
use crate::domain::shared::query::first_selected;
use crate::domain::shared::value_object::uuid_parse;
use crate::application::messages::{invalid_id, invalid_id_prefix};
use crate::domain::shared::value_object::invalid_uuid_message;

use super::video_output::{is_video_output, VideoOutput, VideoOutputMapper};

verus! {

/// The id of the video asked for.
#[derive(Debug, Clone)]
pub struct GetVideoInput {
    pub id: String,
}

/// Why a video could not be returned.
#[derive(Debug)]
pub enum GetVideoError<E> {
    NotFound(NotFoundError),
    InvalidId(String),
    Repository(E),
}

impl<E: ErrorMessage> GetVideoError<E> {
    /// The error's message; a repository error gives its own.
    pub fn to_string(&self) -> (message: String)
        ensures
            self matches GetVideoError::NotFound(e) ==> message@ == not_found_message(e.id@, e.entity_name@),
            self matches GetVideoError::InvalidId(m) ==> message@ == invalid_id_prefix("video"@) + m@,
            self matches GetVideoError::Repository(e) ==> message@ == e.message_text(),
    {
        match self {
            GetVideoError::NotFound(e) => e.to_string(),
            GetVideoError::InvalidId(m) => invalid_id("video", m.as_str()),
            GetVideoError::Repository(e) => e.message(),
        }
    }
}

/// Returns a published video by id.
pub struct GetVideoUseCase<R: IVideoRepository> {
    repo: R,
}

impl<R: IVideoRepository> GetVideoUseCase<R> {
    /// The repository read from.
    pub closed spec fn repository(&self) -> R {
        self.repo
    }

    pub fn new(repo: R) -> (use_case: Self)
        ensures
            use_case.repository() == repo,
    {
        GetVideoUseCase { repo }
    }

    /// The published video with the id. An id that is no UUID is refused with
    /// `invalid video id: Invalid UUID: <id>`; when no published video has it,
    /// the error is `Video Not Found using ID <id>`.
    pub fn execute(&self, input: GetVideoInput) -> (result: Result<VideoOutput, GetVideoError<R::Error>>)
        ensures
            match uuid_parse(input.id@) {
                None => result matches Err(GetVideoError::InvalidId(m)) && m@ == invalid_uuid_message(input.id@),
                Some(v) => {
                    let found = first_selected::<Video>(
                        self.repository().stored(),
                        self.repository().hides_deleted(),
                        Some(v),
                        Some(true),
                    );
                    &&& !(result matches Err(GetVideoError::InvalidId(_)))
                    &&& self.repository().reliable() ==> (result is Ok <==> found is Some)
                    &&& self.repository().reliable() ==> !(result matches Err(GetVideoError::Repository(_)))
                    &&& result matches Ok(out) ==> (found matches Some(c) && is_video_output(out, c))
                    &&& result matches Err(GetVideoError::NotFound(e)) ==> (found is None && e.id@
                        == input.id@ && e.entity_name@ == "Video"@)
                },
            },
    {
        let video_id = match VideoId::from(input.id.as_str()) {
            Ok(id) => id,
            Err(e) => {
                return Err(GetVideoError::InvalidId(e.to_string()));
            },
        };
        match self.repo.find_one_by(Some(&video_id), Some(true)) {
            Err(e) => Err(GetVideoError::Repository(e)),
            Ok(None) => Err(GetVideoError::NotFound(NotFoundError::new(input.id.as_str(), "Video"))),
            Ok(Some(video)) => Ok(VideoOutputMapper::to_output(&video)),
        }
    }
}

} // verus!
