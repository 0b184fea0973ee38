use vstd::prelude::*;

use crate::domain::cast_member::cast_member_type::CastMemberType;
use crate::domain::cast_member::nested_cast_member::{NestedCastMember, NestedCastMemberView};
use crate::domain::category::nested_category::{NestedCategory, NestedCategoryView};
use crate::domain::genre::nested_genre::{NestedGenre, NestedGenreView};
use crate::domain::shared::named::{copies_by_name, sorted_by_name};
use crate::domain::shared::nested_map::views_of;
use crate::domain::shared::text::{option_text, option_to_owned};
use crate::domain::shared::timestamp::Timestamp;
use crate::domain::shared::value_object::uuid_text;
use crate::domain::video::aggregate::{Video, VideoView};
use crate::domain::video::rating::rating_text;

verus! {

/// A category of a video as the application returns it.
#[derive(Debug, Clone, PartialEq, Eq)]
pub struct NestedCategoryOutput {
    pub id: String,
    pub name: String,
    pub is_active: bool,
    pub deleted_at: Option<Timestamp>,
}

/// A genre of a video as the application returns it.
#[derive(Debug, Clone, PartialEq, Eq)]
pub struct NestedGenreOutput {
    pub id: String,
    pub name: String,
    pub is_active: bool,
    pub deleted_at: Option<Timestamp>,
}

/// A cast member of a video as the application returns it.
#[derive(Debug, Clone, PartialEq, Eq)]
pub struct NestedCastMemberOutput {
    pub id: String,
    pub name: String,
    pub cast_member_type: CastMemberType,
    pub deleted_at: Option<Timestamp>,
}

/// A video as the application returns it.
#[derive(Debug, Clone, PartialEq, Eq)]
pub struct VideoOutput {
    pub id: String,
    pub title: String,
    pub description: String,
    pub year_launched: i32,
    pub duration: i32,
    pub rating: String,
    pub is_opened: bool,
    pub is_published: bool,
    pub banner_url: Option<String>,
    pub thumbnail_url: Option<String>,
    pub thumbnail_half_url: Option<String>,
    pub trailer_url: String,
    pub video_url: String,
    pub categories: Vec<NestedCategoryOutput>,
    pub genres: Vec<NestedGenreOutput>,
    pub cast_members: Vec<NestedCastMemberOutput>,
    pub created_at: Timestamp,
}

/// `output` shows the nested category.
pub open spec fn is_video_category_output(output: NestedCategoryOutput, nested: NestedCategoryView) -> bool {
    &&& output.id@ == uuid_text(nested.category_id.0.id)
    &&& output.name@ == nested.name
    &&& output.is_active == nested.is_active
    &&& output.deleted_at == nested.deleted_at
}

/// `output` shows the nested genre.
pub open spec fn is_video_genre_output(output: NestedGenreOutput, nested: NestedGenreView) -> bool {
    &&& output.id@ == uuid_text(nested.genre_id.0.id)
    &&& output.name@ == nested.name
    &&& output.is_active == nested.is_active
    &&& output.deleted_at == nested.deleted_at
}

/// `output` shows the nested cast member.
pub open spec fn is_video_cast_member_output(output: NestedCastMemberOutput, nested: NestedCastMemberView) -> bool {
    &&& output.id@ == uuid_text(nested.cast_member_id.0.id)
    &&& output.name@ == nested.name
    &&& output.cast_member_type == nested.cast_member_type
    &&& output.deleted_at == nested.deleted_at
}

/// `outputs` show, in order, the nested categories.
pub open spec fn are_video_category_outputs(outputs: Seq<NestedCategoryOutput>, nested: Seq<NestedCategoryView>) -> bool {
    &&& outputs.len() == nested.len()
    &&& forall|i: int| 0 <= i < outputs.len() ==> is_video_category_output(#[trigger] outputs[i], nested[i])
}

/// `outputs` show, in order, the nested genres.
pub open spec fn are_video_genre_outputs(outputs: Seq<NestedGenreOutput>, nested: Seq<NestedGenreView>) -> bool {
    &&& outputs.len() == nested.len()
    &&& forall|i: int| 0 <= i < outputs.len() ==> is_video_genre_output(#[trigger] outputs[i], nested[i])
}

/// `outputs` show, in order, the nested cast members.
pub open spec fn are_video_cast_member_outputs(
    outputs: Seq<NestedCastMemberOutput>,
    nested: Seq<NestedCastMemberView>,
) -> bool {
    &&& outputs.len() == nested.len()
    &&& forall|i: int| 0 <= i < outputs.len() ==> is_video_cast_member_output(#[trigger] outputs[i], nested[i])
}

/// `output` shows the video, its related items each ordered by name.
pub open spec fn is_video_output(output: VideoOutput, video: VideoView) -> bool {
    &&& output.id@ == uuid_text(video.video_id.0.id)
    &&& output.title@ == video.title
    &&& output.description@ == video.description
    &&& output.year_launched == video.year_launched
    &&& output.duration == video.duration
    &&& output.rating@ == rating_text(video.rating)
    &&& output.is_opened == video.is_opened
    &&& output.is_published == video.is_published
    &&& option_text(output.banner_url) == video.banner_url
    &&& option_text(output.thumbnail_url) == video.thumbnail_url
    &&& option_text(output.thumbnail_half_url) == video.thumbnail_half_url
    &&& output.trailer_url@ == video.trailer_url
    &&& output.video_url@ == video.video_url
    &&& are_video_category_outputs(output.categories@, sorted_by_name::<NestedCategory>(video.categories))
    &&& are_video_genre_outputs(output.genres@, sorted_by_name::<NestedGenre>(video.genres))
    &&& are_video_cast_member_outputs(
        output.cast_members@,
        sorted_by_name::<NestedCastMember>(video.cast_members),
    )
    &&& output.created_at == video.created_at
}

/// `outputs` show, in order, the videos.
pub open spec fn are_video_outputs(outputs: Seq<VideoOutput>, videos: Seq<VideoView>) -> bool {
    &&& outputs.len() == videos.len()
    &&& forall|i: int| 0 <= i < outputs.len() ==> is_video_output(#[trigger] outputs[i], videos[i])
}

/// The outputs of a video's categories, ordered by name.
fn category_outputs(nested: &Vec<NestedCategory>) -> (outputs: Vec<NestedCategoryOutput>)
    ensures
        are_video_category_outputs(outputs@, sorted_by_name::<NestedCategory>(views_of(nested@))),
{
    let sorted = copies_by_name(nested);
    let mut outputs: Vec<NestedCategoryOutput> = Vec::new();
    for i in 0..sorted.len()
        invariant
            outputs@.len() == i,
            forall|k: int| 0 <= k < i ==> is_video_category_output(#[trigger] outputs@[k], sorted@[k]@),
    {
        let item = &sorted[i];
        outputs.push(
            NestedCategoryOutput {
                id: item.category_id().to_string(),
                name: String::from_str(item.name()),
                is_active: item.is_active(),
                deleted_at: item.deleted_at(),
            },
        );
    }
    outputs
}

/// The outputs of a video's genres, ordered by name.
fn genre_outputs(nested: &Vec<NestedGenre>) -> (outputs: Vec<NestedGenreOutput>)
    ensures
        are_video_genre_outputs(outputs@, sorted_by_name::<NestedGenre>(views_of(nested@))),
{
    let sorted = copies_by_name(nested);
    let mut outputs: Vec<NestedGenreOutput> = Vec::new();
    for i in 0..sorted.len()
        invariant
            outputs@.len() == i,
            forall|k: int| 0 <= k < i ==> is_video_genre_output(#[trigger] outputs@[k], sorted@[k]@),
    {
        let item = &sorted[i];
        outputs.push(
            NestedGenreOutput {
                id: item.genre_id().to_string(),
                name: String::from_str(item.name()),
                is_active: item.is_active(),
                deleted_at: item.deleted_at(),
            },
        );
    }
    outputs
}

/// The outputs of a video's cast members, ordered by name.
fn cast_member_outputs(nested: &Vec<NestedCastMember>) -> (outputs: Vec<NestedCastMemberOutput>)
    ensures
        are_video_cast_member_outputs(outputs@, sorted_by_name::<NestedCastMember>(views_of(nested@))),
{
    let sorted = copies_by_name(nested);
    let mut outputs: Vec<NestedCastMemberOutput> = Vec::new();
    for i in 0..sorted.len()
        invariant
            outputs@.len() == i,
            forall|k: int| 0 <= k < i ==> is_video_cast_member_output(#[trigger] outputs@[k], sorted@[k]@),
    {
        let item = &sorted[i];
        outputs.push(
            NestedCastMemberOutput {
                id: item.cast_member_id().to_string(),
                name: String::from_str(item.name()),
                cast_member_type: item.cast_member_type(),
                deleted_at: item.deleted_at(),
            },
        );
    }
    outputs
}

/// Turns videos into outputs.
pub struct VideoOutputMapper;

impl VideoOutputMapper {
    pub fn to_output(entity: &Video) -> (output: VideoOutput)
        ensures
            is_video_output(output, entity@),
    {
        VideoOutput {
            id: entity.video_id().to_string(),
            title: String::from_str(entity.title()),
            description: String::from_str(entity.description()),
            year_launched: entity.year_launched(),
            duration: entity.duration(),
            rating: entity.rating().to_string(),
            is_opened: entity.is_opened(),
            is_published: entity.is_published(),
            banner_url: option_to_owned(entity.banner_url()),
            thumbnail_url: option_to_owned(entity.thumbnail_url()),
            thumbnail_half_url: option_to_owned(entity.thumbnail_half_url()),
            trailer_url: String::from_str(entity.trailer_url()),
            video_url: String::from_str(entity.video_url()),
            categories: category_outputs(entity.categories().values()),
            genres: genre_outputs(entity.genres().values()),
            cast_members: cast_member_outputs(entity.cast_members().values()),
            created_at: entity.created_at(),
        }
    }
}

/// The outputs of a list of videos, in order.
pub fn video_outputs(videos: &Vec<Video>) -> (outputs: Vec<VideoOutput>)
    ensures
        are_video_outputs(outputs@, views_of(videos@)),
{
    let mut outputs: Vec<VideoOutput> = Vec::new();
    for i in 0..videos.len()
        invariant
            outputs@.len() == i,
            forall|k: int| 0 <= k < i ==> is_video_output(#[trigger] outputs@[k], videos@[k]@),
    {
        outputs.push(VideoOutputMapper::to_output(&videos[i]));
    }
    outputs
}

} // verus!
