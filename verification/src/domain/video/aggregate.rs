use vstd::prelude::*;

use crate::domain::cast_member::cast_member_id::CastMemberId;
use crate::domain::cast_member::nested_cast_member::{
    create_nested_cast_members, keyed_by_cast_member_id, nested_cast_members_keyed_by_id,
    nested_cast_members_of, NestedCastMember, NestedCastMemberCreateCommand, NestedCastMemberView,
};
use crate::domain::category::category_id::CategoryId;
use crate::domain::category::nested_category::{
    create_nested_categories, keyed_by_category_id, nested_categories_keyed_by_id, nested_categories_of,
    NestedCategory, NestedCategoryCreateCommand, NestedCategoryView,
};
use crate::domain::genre::genre_id::GenreId;
use crate::domain::genre::nested_genre::{
    create_nested_genres, keyed_by_genre_id, nested_genres_keyed_by_id, nested_genres_of, NestedGenre,
    NestedGenreCreateCommand, NestedGenreView,
};
use crate::domain::shared::entity::{AggregateRoot, Entity};
use crate::domain::shared::nested_map::Keyed;
use crate::domain::shared::query::Stored;
use crate::domain::shared::nested_map::{collected, views_of, with_value, without_key, NestedMap};
use crate::domain::shared::notification::{ErrorEntry, Notification};
use crate::domain::shared::text::{clone_option_text, option_as_str, option_str, option_text};
use crate::domain::shared::timestamp::{now, Timestamp};
use crate::domain::shared::validation::{check_length, checked_length};
use crate::domain::shared::value_object::{uuid_text, UuidVo};

use super::rating::Rating;
use super::video_id::VideoId;

verus! {

/// A video, its media and the categories, genres and cast members it relates to.
#[derive(Debug)]
pub struct Video {
    video_id: VideoId,
    title: String,
    description: String,
    year_launched: i32,
    duration: i32,
    rating: Rating,
    is_opened: bool,
    is_published: bool,
    banner_url: Option<String>,
    thumbnail_url: Option<String>,
    thumbnail_half_url: Option<String>,
    trailer_url: String,
    video_url: String,
    categories: NestedMap<NestedCategory>,
    genres: NestedMap<NestedGenre>,
    cast_members: NestedMap<NestedCastMember>,
    created_at: Timestamp,
    deleted_at: Option<Timestamp>,
    notification: Notification,
}

/// The abstract value of a [`Video`]; related items are kept one per key text.
pub struct VideoView {
    pub video_id: VideoId,
    pub title: Seq<char>,
    pub description: Seq<char>,
    pub year_launched: i32,
    pub duration: i32,
    pub rating: Rating,
    pub is_opened: bool,
    pub is_published: bool,
    pub banner_url: Option<Seq<char>>,
    pub thumbnail_url: Option<Seq<char>>,
    pub thumbnail_half_url: Option<Seq<char>>,
    pub trailer_url: Seq<char>,
    pub video_url: Seq<char>,
    pub categories: Seq<NestedCategoryView>,
    pub genres: Seq<NestedGenreView>,
    pub cast_members: Seq<NestedCastMemberView>,
    pub created_at: Timestamp,
    pub deleted_at: Option<Timestamp>,
    pub notification: Seq<ErrorEntry>,
}

/// What a video is created from.
#[derive(Debug, Clone)]
pub struct VideoCreateCommand {
    pub video_id: VideoId,
    pub title: String,
    pub description: String,
    pub year_launched: i32,
    pub duration: i32,
    pub rating: Rating,
    pub is_opened: bool,
    pub is_published: bool,
    pub banner_url: Option<String>,
    pub thumbnail_url: Option<String>,
    pub thumbnail_half_url: Option<String>,
    pub trailer_url: String,
    pub video_url: String,
    pub categories_props: Vec<NestedCategoryCreateCommand>,
    pub genres_props: Vec<NestedGenreCreateCommand>,
    pub cast_members_props: Vec<NestedCastMemberCreateCommand>,
    pub created_at: Timestamp,
}

impl View for Video {
    type V = VideoView;

    closed spec fn view(&self) -> VideoView {
        VideoView {
            video_id: self.video_id,
            title: self.title@,
            description: self.description@,
            year_launched: self.year_launched,
            duration: self.duration,
            rating: self.rating,
            is_opened: self.is_opened,
            is_published: self.is_published,
            banner_url: option_text(self.banner_url),
            thumbnail_url: option_text(self.thumbnail_url),
            thumbnail_half_url: option_text(self.thumbnail_half_url),
            trailer_url: self.trailer_url@,
            video_url: self.video_url@,
            categories: self.categories@,
            genres: self.genres@,
            cast_members: self.cast_members@,
            created_at: self.created_at,
            deleted_at: self.deleted_at,
            notification: self.notification@,
        }
    }
}

/// The video a command creates: not deleted, its related items kept one per id
/// (a later one replacing an earlier), its title checked.
pub open spec fn created_video(command: VideoCreateCommand) -> VideoView {
    VideoView {
        video_id: command.video_id,
        title: command.title@,
        description: command.description@,
        year_launched: command.year_launched,
        duration: command.duration,
        rating: command.rating,
        is_opened: command.is_opened,
        is_published: command.is_published,
        banner_url: option_text(command.banner_url),
        thumbnail_url: option_text(command.thumbnail_url),
        thumbnail_half_url: option_text(command.thumbnail_half_url),
        trailer_url: command.trailer_url@,
        video_url: command.video_url@,
        categories: collected::<NestedCategory>(nested_categories_of(command.categories_props@)),
        genres: collected::<NestedGenre>(nested_genres_of(command.genres_props@)),
        cast_members: collected::<NestedCastMember>(nested_cast_members_of(command.cast_members_props@)),
        created_at: command.created_at,
        deleted_at: None,
        notification: checked_length(Seq::empty(), "title"@, command.title@),
    }
}

impl Video {
    /// A video with the given values and no errors; nothing is checked.
    #[allow(clippy::too_many_arguments)]
    pub fn new(
        video_id: VideoId,
        title: String,
        description: String,
        year_launched: i32,
        duration: i32,
        rating: Rating,
        is_opened: bool,
        is_published: bool,
        banner_url: Option<String>,
        thumbnail_url: Option<String>,
        thumbnail_half_url: Option<String>,
        trailer_url: String,
        video_url: String,
        categories: NestedMap<NestedCategory>,
        genres: NestedMap<NestedGenre>,
        cast_members: NestedMap<NestedCastMember>,
        created_at: Timestamp,
        deleted_at: Option<Timestamp>,
    ) -> (video: Self)
        ensures
            video@ == (VideoView {
                video_id: video_id,
                title: title@,
                description: description@,
                year_launched: year_launched,
                duration: duration,
                rating: rating,
                is_opened: is_opened,
                is_published: is_published,
                banner_url: option_text(banner_url),
                thumbnail_url: option_text(thumbnail_url),
                thumbnail_half_url: option_text(thumbnail_half_url),
                trailer_url: trailer_url@,
                video_url: video_url@,
                categories: categories@,
                genres: genres@,
                cast_members: cast_members@,
                created_at: created_at,
                deleted_at: deleted_at,
                notification: Seq::empty(),
            }),
    {
        Video {
            video_id,
            title,
            description,
            year_launched,
            duration,
            rating,
            is_opened,
            is_published,
            banner_url,
            thumbnail_url,
            thumbnail_half_url,
            trailer_url,
            video_url,
            categories,
            genres,
            cast_members,
            created_at,
            deleted_at,
            notification: Notification::new(),
        }
    }

    /// A new, not deleted video from a command, validated.
    pub fn create(command: VideoCreateCommand) -> (video: Self)
        ensures
            video@ == created_video(command),
    {
        let ghost spec_command = command;
        let categories = NestedMap::from_list(create_nested_categories(command.categories_props));
        let genres = NestedMap::from_list(create_nested_genres(command.genres_props));
        let cast_members = NestedMap::from_list(create_nested_cast_members(command.cast_members_props));
        let mut video = Self::new(
            command.video_id,
            command.title,
            command.description,
            command.year_launched,
            command.duration,
            command.rating,
            command.is_opened,
            command.is_published,
            command.banner_url,
            command.thumbnail_url,
            command.thumbnail_half_url,
            command.trailer_url,
            command.video_url,
            categories,
            genres,
            cast_members,
            command.created_at,
            None,
        );
        video.validate();
        video
    }

    /// Changes the title, then validates again.
    pub fn change_title(&mut self, title: String)
        ensures
            final(self)@ == (VideoView {
                title: title@,
                notification: checked_length(old(self)@.notification, "title"@, title@),
                ..old(self)@
            }),
    {
        self.title = title;
        self.validate();
    }

    pub fn change_description(&mut self, description: String)
        ensures
            final(self)@ == (VideoView { description: description@, ..old(self)@ }),
    {
        self.description = description;
    }

    pub fn change_year_launched(&mut self, year_launched: i32)
        ensures
            final(self)@ == (VideoView { year_launched: year_launched, ..old(self)@ }),
    {
        self.year_launched = year_launched;
    }

    pub fn change_duration(&mut self, duration: i32)
        ensures
            final(self)@ == (VideoView { duration: duration, ..old(self)@ }),
    {
        self.duration = duration;
    }

    pub fn change_rating(&mut self, rating: Rating)
        ensures
            final(self)@ == (VideoView { rating: rating, ..old(self)@ }),
    {
        self.rating = rating;
    }

    pub fn mark_as_opened(&mut self)
        ensures
            final(self)@ == (VideoView { is_opened: true, ..old(self)@ }),
    {
        self.is_opened = true;
    }

    pub fn mark_as_not_opened(&mut self)
        ensures
            final(self)@ == (VideoView { is_opened: false, ..old(self)@ }),
    {
        self.is_opened = false;
    }

    pub fn publish(&mut self)
        ensures
            final(self)@ == (VideoView { is_published: true, ..old(self)@ }),
    {
        self.is_published = true;
    }

    pub fn unpublish(&mut self)
        ensures
            final(self)@ == (VideoView { is_published: false, ..old(self)@ }),
    {
        self.is_published = false;
    }

    pub fn replace_banner_url(&mut self, banner_url: Option<String>)
        ensures
            final(self)@ == (VideoView { banner_url: option_text(banner_url), ..old(self)@ }),
    {
        self.banner_url = banner_url;
    }

    pub fn replace_thumbnail_url(&mut self, thumbnail_url: Option<String>)
        ensures
            final(self)@ == (VideoView { thumbnail_url: option_text(thumbnail_url), ..old(self)@ }),
    {
        self.thumbnail_url = thumbnail_url;
    }

    pub fn replace_thumbnail_half_url(&mut self, thumbnail_half_url: Option<String>)
        ensures
            final(self)@ == (VideoView { thumbnail_half_url: option_text(thumbnail_half_url), ..old(self)@ }),
    {
        self.thumbnail_half_url = thumbnail_half_url;
    }

    pub fn replace_trailer_url(&mut self, trailer_url: String)
        ensures
            final(self)@ == (VideoView { trailer_url: trailer_url@, ..old(self)@ }),
    {
        self.trailer_url = trailer_url;
    }

    pub fn replace_video_url(&mut self, video_url: String)
        ensures
            final(self)@ == (VideoView { video_url: video_url@, ..old(self)@ }),
    {
        self.video_url = video_url;
    }

    /// Adds a nested category under the text of its id, replacing the one kept there.
    pub fn add_nested_category(&mut self, nested: NestedCategory)
        ensures
            final(self)@ == (VideoView {
                categories: with_value::<NestedCategory>(old(self)@.categories, keyed_by_category_id(nested@)),
                ..old(self)@
            }),
    {
        let key = nested.category_id().to_string();
        self.categories.put(nested.with_key(key));
    }

    /// Removes the nested category with the id, if any.
    pub fn remove_nested_category(&mut self, category_id: &CategoryId)
        ensures
            final(self)@ == (VideoView {
                categories: without_key::<NestedCategory>(old(self)@.categories, uuid_text(category_id.0.id)),
                ..old(self)@
            }),
    {
        let key = category_id.to_string();
        self.categories.remove(key.as_str());
    }

    /// Replaces all nested categories with those of the list, each kept under the text of its
    /// id, one per id (a later one replacing an earlier).
    pub fn sync_nested_categories(&mut self, categories: Vec<NestedCategory>)
        ensures
            final(self)@ == (VideoView {
                categories: collected::<NestedCategory>(
                    views_of(categories@).map_values(|n: NestedCategoryView| keyed_by_category_id(n)),
                ),
                ..old(self)@
            }),
    {
        self.categories = NestedMap::from_list(nested_categories_keyed_by_id(&categories));
    }

    /// Adds a nested genre under the text of its id, replacing the one kept there.
    pub fn add_nested_genre(&mut self, nested: NestedGenre)
        ensures
            final(self)@ == (VideoView {
                genres: with_value::<NestedGenre>(old(self)@.genres, keyed_by_genre_id(nested@)),
                ..old(self)@
            }),
    {
        let key = nested.genre_id().to_string();
        self.genres.put(nested.with_key(key));
    }

    /// Removes the nested genre with the id, if any.
    pub fn remove_nested_genre(&mut self, genre_id: &GenreId)
        ensures
            final(self)@ == (VideoView {
                genres: without_key::<NestedGenre>(old(self)@.genres, uuid_text(genre_id.0.id)),
                ..old(self)@
            }),
    {
        let key = genre_id.to_string();
        self.genres.remove(key.as_str());
    }

    /// Replaces all nested genres with those of the list, each kept under the text of its
    /// id, one per id (a later one replacing an earlier).
    pub fn sync_nested_genres(&mut self, genres: Vec<NestedGenre>)
        ensures
            final(self)@ == (VideoView {
                genres: collected::<NestedGenre>(
                    views_of(genres@).map_values(|n: NestedGenreView| keyed_by_genre_id(n)),
                ),
                ..old(self)@
            }),
    {
        self.genres = NestedMap::from_list(nested_genres_keyed_by_id(&genres));
    }

    /// Adds a nested cast member under the text of its id, replacing the one kept there.
    pub fn add_nested_cast_member(&mut self, nested: NestedCastMember)
        ensures
            final(self)@ == (VideoView {
                cast_members: with_value::<NestedCastMember>(old(self)@.cast_members, keyed_by_cast_member_id(nested@)),
                ..old(self)@
            }),
    {
        let key = nested.cast_member_id().to_string();
        self.cast_members.put(nested.with_key(key));
    }

    /// Removes the nested cast member with the id, if any.
    pub fn remove_nested_cast_member(&mut self, cast_member_id: &CastMemberId)
        ensures
            final(self)@ == (VideoView {
                cast_members: without_key::<NestedCastMember>(old(self)@.cast_members, uuid_text(cast_member_id.0.id)),
                ..old(self)@
            }),
    {
        let key = cast_member_id.to_string();
        self.cast_members.remove(key.as_str());
    }

    /// Replaces all nested cast members with those of the list, each kept under the text of its
    /// id, one per id (a later one replacing an earlier).
    pub fn sync_nested_cast_members(&mut self, cast_members: Vec<NestedCastMember>)
        ensures
            final(self)@ == (VideoView {
                cast_members: collected::<NestedCastMember>(
                    views_of(cast_members@).map_values(|n: NestedCastMemberView| keyed_by_cast_member_id(n)),
                ),
                ..old(self)@
            }),
    {
        self.cast_members = NestedMap::from_list(nested_cast_members_keyed_by_id(&cast_members));
    }

    /// Marks as deleted at the current time.
    pub fn mark_as_deleted(&mut self)
        ensures
            final(self)@.deleted_at is Some,
            final(self)@ == (VideoView { deleted_at: final(self)@.deleted_at, ..old(self)@ }),
    {
        self.deleted_at = Some(now());
    }

    pub fn mark_as_not_deleted(&mut self)
        ensures
            final(self)@ == (VideoView { deleted_at: None, ..old(self)@ }),
    {
        self.deleted_at = None;
    }

    pub fn change_created_at(&mut self, created_at: Timestamp)
        ensures
            final(self)@ == (VideoView { created_at: created_at, ..old(self)@ }),
    {
        self.created_at = created_at;
    }

    /// Records an error when the title is longer than 255 bytes.
    pub fn validate(&mut self)
        ensures
            final(self)@ == (VideoView {
                notification: checked_length(old(self)@.notification, "title"@, old(self)@.title),
                ..old(self)@
            }),
    {
        check_length(&mut self.notification, "title", self.title.as_str());
    }

    pub fn video_id(&self) -> (video_id: &VideoId)
        ensures
            *video_id == self@.video_id,
    {
        &self.video_id
    }

    pub fn title(&self) -> (title: &str)
        ensures
            title@ == self@.title,
    {
        self.title.as_str()
    }

    pub fn description(&self) -> (description: &str)
        ensures
            description@ == self@.description,
    {
        self.description.as_str()
    }

    pub fn year_launched(&self) -> (year_launched: i32)
        ensures
            year_launched == self@.year_launched,
    {
        self.year_launched
    }

    pub fn duration(&self) -> (duration: i32)
        ensures
            duration == self@.duration,
    {
        self.duration
    }

    pub fn rating(&self) -> (rating: &Rating)
        ensures
            *rating == self@.rating,
    {
        &self.rating
    }

    pub fn is_opened(&self) -> (is_opened: bool)
        ensures
            is_opened == self@.is_opened,
    {
        self.is_opened
    }

    pub fn is_published(&self) -> (is_published: bool)
        ensures
            is_published == self@.is_published,
    {
        self.is_published
    }

    pub fn banner_url(&self) -> (banner_url: Option<&str>)
        ensures
            option_str(banner_url) == self@.banner_url,
    {
        option_as_str(&self.banner_url)
    }

    pub fn thumbnail_url(&self) -> (thumbnail_url: Option<&str>)
        ensures
            option_str(thumbnail_url) == self@.thumbnail_url,
    {
        option_as_str(&self.thumbnail_url)
    }

    pub fn thumbnail_half_url(&self) -> (thumbnail_half_url: Option<&str>)
        ensures
            option_str(thumbnail_half_url) == self@.thumbnail_half_url,
    {
        option_as_str(&self.thumbnail_half_url)
    }

    pub fn trailer_url(&self) -> (trailer_url: &str)
        ensures
            trailer_url@ == self@.trailer_url,
    {
        self.trailer_url.as_str()
    }

    pub fn video_url(&self) -> (video_url: &str)
        ensures
            video_url@ == self@.video_url,
    {
        self.video_url.as_str()
    }

    pub fn categories(&self) -> (categories: &NestedMap<NestedCategory>)
        ensures
            categories@ == self@.categories,
    {
        &self.categories
    }

    pub fn genres(&self) -> (genres: &NestedMap<NestedGenre>)
        ensures
            genres@ == self@.genres,
    {
        &self.genres
    }

    pub fn cast_members(&self) -> (cast_members: &NestedMap<NestedCastMember>)
        ensures
            cast_members@ == self@.cast_members,
    {
        &self.cast_members
    }

    pub fn created_at(&self) -> (created_at: Timestamp)
        ensures
            created_at == self@.created_at,
    {
        self.created_at
    }

    pub fn deleted_at(&self) -> (deleted_at: Option<Timestamp>)
        ensures
            deleted_at == self@.deleted_at,
    {
        self.deleted_at
    }

}

impl Clone for Video {
    fn clone(&self) -> (copy: Self)
        ensures
            copy@ == self@,
    {
        Video {
            video_id: self.video_id,
            title: self.title.clone(),
            description: self.description.clone(),
            year_launched: self.year_launched,
            duration: self.duration,
            rating: self.rating,
            is_opened: self.is_opened,
            is_published: self.is_published,
            banner_url: clone_option_text(&self.banner_url),
            thumbnail_url: clone_option_text(&self.thumbnail_url),
            thumbnail_half_url: clone_option_text(&self.thumbnail_half_url),
            trailer_url: self.trailer_url.clone(),
            video_url: self.video_url.clone(),
            categories: self.categories.clone(),
            genres: self.genres.clone(),
            cast_members: self.cast_members.clone(),
            created_at: self.created_at,
            deleted_at: self.deleted_at,
            notification: self.notification.clone(),
        }
    }
}

impl Entity for Video {
    fn entity_id(&self) -> (id: &UuidVo)
        ensures
            *id == self@.video_id.0,
    {
        &self.video_id.0
    }

    fn notification(&self) -> (notification: &Notification)
        ensures
            notification@ == self@.notification,
    {
        &self.notification
    }
}

impl AggregateRoot for Video {

}

impl Keyed for Video {
    open spec fn key_of(value: VideoView) -> u128 {
        value.video_id.0.id
    }

    fn key(&self) -> (key: u128) {
        self.video_id.0.id
    }

    fn duplicate(&self) -> (copy: Self) {
        self.clone()
    }
}

impl Stored for Video {
    type Filter = bool;

    open spec fn deleted_of(value: VideoView) -> bool {
        value.deleted_at is Some
    }

    open spec fn text_of(value: VideoView) -> Seq<char> {
        value.title
    }

    open spec fn created_of(value: VideoView) -> Timestamp {
        value.created_at
    }

    open spec fn filter_of(value: VideoView) -> bool {
        value.is_published
    }

    fn is_deleted(&self) -> (deleted: bool) {
        self.deleted_at.is_some()
    }

    fn sort_text(&self) -> (text: &str) {
        self.title.as_str()
    }

    fn created(&self) -> (created: Timestamp) {
        self.created_at
    }

    fn has_filter(&self, filter: bool) -> (has: bool) {
        self.is_published == filter
    }
}

} // verus!
