use vstd::prelude::*;

use crate::domain::video::aggregate::Video;
use crate::domain::video::video_repository::IVideoRepository;
use crate::domain::shared::errors::ErrorMessage;
use crate::domain::shared::query::{listed, SortKey};
use crate::domain::shared::repository::{SortDirection, SortOrder};

use super::video_output::{are_video_outputs, video_outputs, VideoOutput};

verus! {

/// A listing failed in the repository.
#[derive(Debug)]
pub enum ListVideosError<E> {
    Repository(E),
}

impl<E: ErrorMessage> ListVideosError<E> {
    /// The repository error's own message.
    pub fn to_string(&self) -> (message: String)
        ensures
            message@ == match self {
                ListVideosError::Repository(e) => e.message_text(),
            },
    {
        match self {
            ListVideosError::Repository(e) => e.message(),
        }
    }
}

/// Lists the published videos by title.
pub struct ListAllVideosUseCase<R: IVideoRepository> {
    repo: R,
}

impl<R: IVideoRepository> ListAllVideosUseCase<R> {
    /// The repository read from.
    pub closed spec fn repository(&self) -> R {
        self.repo
    }

    pub fn new(repo: R) -> (use_case: Self)
        ensures
            use_case.repository() == repo,
    {
        ListAllVideosUseCase { repo }
    }

    /// The published videos, ordered by title ascending (byte order), those
    /// with equal titles in storage order.
    pub fn execute(&self) -> (result: Result<Vec<VideoOutput>, ListVideosError<R::Error>>)
        ensures
            self.repository().reliable() ==> result is Ok,
            result matches Ok(outputs) ==> are_video_outputs(
                outputs@,
                listed::<Video>(
                    self.repository().stored(),
                    self.repository().hides_deleted(),
                    None,
                    Some(true),
                    SortKey::Text,
                    SortDirection::Asc,
                ),
            ),
    {
        let order = SortOrder { field: String::from_str("title"), direction: SortDirection::Asc };
        proof {
            reveal_strlit("title");
        }
        match self.repo.find_by(None, Some(true), Some(&order)) {
            Err(e) => Err(ListVideosError::Repository(e)),
            Ok(videos) => Ok(video_outputs(&videos)),
        }
    }
}

} // verus!

verus! {

/// What listing all videos lists: each listed one is a stored, published video
/// that the read shows, each stored published one that the read shows is listed,
/// and they run by title ascending in the byte order of the UTF-8 text.
pub proof fn lemma_all_videos_listed(stored: Seq<crate::domain::video::aggregate::VideoView>, hides_deleted: bool)
    ensures
        forall|i: int|
            0 <= i < crate::domain::shared::query::listed::<crate::domain::video::aggregate::Video>(stored, hides_deleted, None, Some(true), crate::domain::shared::query::SortKey::Text, crate::domain::shared::repository::SortDirection::Asc).len() ==> (#[trigger] crate::domain::shared::query::listed::<crate::domain::video::aggregate::Video>(stored, hides_deleted, None, Some(true), crate::domain::shared::query::SortKey::Text, crate::domain::shared::repository::SortDirection::Asc)[i]).is_published && (!hides_deleted || crate::domain::shared::query::listed::<crate::domain::video::aggregate::Video>(stored, hides_deleted, None, Some(true), crate::domain::shared::query::SortKey::Text, crate::domain::shared::repository::SortDirection::Asc)[i].deleted_at is None)
                && stored.contains(crate::domain::shared::query::listed::<crate::domain::video::aggregate::Video>(stored, hides_deleted, None, Some(true), crate::domain::shared::query::SortKey::Text, crate::domain::shared::repository::SortDirection::Asc)[i]),
        forall|i: int|
            0 <= i < stored.len() && (#[trigger] stored[i]).is_published && (!hides_deleted || stored[i].deleted_at is None)
                ==> crate::domain::shared::query::listed::<crate::domain::video::aggregate::Video>(stored, hides_deleted, None, Some(true), crate::domain::shared::query::SortKey::Text, crate::domain::shared::repository::SortDirection::Asc).contains(stored[i]),
        crate::domain::video::video_repository::videos_by_title(crate::domain::shared::query::listed::<crate::domain::video::aggregate::Video>(stored, hides_deleted, None, Some(true), crate::domain::shared::query::SortKey::Text, crate::domain::shared::repository::SortDirection::Asc), crate::domain::shared::repository::SortDirection::Asc),
{
    crate::domain::shared::query::lemma_listed_members::<crate::domain::video::aggregate::Video>(
        stored,
        hides_deleted,
        None,
        Some(true),
        crate::domain::shared::query::SortKey::Text,
        crate::domain::shared::repository::SortDirection::Asc,
    );
    crate::domain::shared::query::lemma_listed_by_text::<crate::domain::video::aggregate::Video>(
        stored,
        hides_deleted,
        None,
        Some(true),
        crate::domain::shared::repository::SortDirection::Asc,
    );
}

} // verus!
