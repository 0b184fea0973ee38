use vstd::prelude::*;

use crate::application::lookup::{
    first_non_uuid, nested_from_cast_members, nested_from_categories, nested_from_genres, parse_uuids,
    uuid_texts, uuid_texts_of, uuids_of,
};
use crate::application::messages::{invalid_id, invalid_id_prefix};
use crate::domain::shared::value_object::invalid_uuid_message;
use crate::domain::cast_member::aggregate::CastMember;
use crate::domain::cast_member::cast_member_id::CastMemberId;
use crate::domain::cast_member::cast_member_repository::{cast_member_uuids, ICastMemberRepository};
use crate::domain::cast_member::nested_cast_member::{
    create_nested_cast_members, lemma_created_nested_cast_members_keyed_by_id, nested_cast_members_of,
    NestedCastMember, NestedCastMemberCreateCommand,
};
use crate::domain::category::aggregate::Category;
use crate::domain::category::category_id::CategoryId;
use crate::domain::category::category_repository::{category_uuids, uuid_values, ICategoryRepository};
use crate::domain::category::nested_category::{
    create_nested_categories, lemma_created_nested_categories_keyed_by_id, nested_categories_of,
    NestedCategory, NestedCategoryCreateCommand,
};
use crate::domain::genre::aggregate::Genre;
use crate::domain::genre::genre_id::GenreId;
use crate::domain::genre::genre_repository::{genre_uuids, IGenreRepository};
use crate::domain::genre::nested_genre::{
    create_nested_genres, lemma_created_nested_genres_keyed_by_id, nested_genres_of, NestedGenre,
    NestedGenreCreateCommand,
};
use crate::domain::shared::entity::Entity;
use crate::domain::shared::errors::{EntityValidationError, ErrorMessage};
use crate::domain::shared::nested_map::{collected, views_of};
use crate::domain::shared::query::{
    first_selected, found_for_ids, lemma_find_after_insert, lemma_find_after_update,
    lemma_selected_has_position, missing_ids, position_of_id,
};
use crate::domain::shared::text::{debug_strings, debug_strings_text, option_text};
use crate::domain::shared::timestamp::Timestamp;
use crate::domain::shared::validation::checked_length;
use crate::domain::shared::value_object::{uuid_parse, uuid_text, UuidVo};
use crate::domain::video::aggregate::{Video, VideoCreateCommand, VideoView};
use crate::domain::video::rating::{invalid_rating_message, rating_of, Rating};
use crate::domain::video::video_id::VideoId;
use crate::domain::video::video_repository::IVideoRepository;

verus! {

/// The values a video is created or updated with; its rating as text and its
/// categories, genres and cast members by id.
#[derive(Debug, Clone)]
pub struct SaveVideoInput {
    pub video_id: String,
    pub title: String,
    pub description: String,
    pub year_launched: i32,
    pub duration: i32,
    pub rating: String,
    pub is_opened: bool,
    pub is_published: bool,
    pub banner_url: Option<String>,
    pub thumbnail_url: Option<String>,
    pub thumbnail_half_url: Option<String>,
    pub trailer_url: String,
    pub video_url: String,
    pub categories_id: Vec<String>,
    pub genres_id: Vec<String>,
    pub cast_members_id: Vec<String>,
    pub created_at: Timestamp,
}

/// The id saved under, and whether the video was new.
#[derive(Debug, Clone)]
pub struct SaveVideoOutput {
    pub id: String,
    pub created: bool,
}

/// Why a video could not be saved.
#[derive(Debug)]
pub enum SaveVideoError<VE, CE, GE, ME> {
    Validation(EntityValidationError),
    InvalidId(String),
    InvalidRating(String),
    CategoriesNotFound(Vec<String>),
    GenresNotFound(Vec<String>),
    CastMembersNotFound(Vec<String>),
    VideoRepository(VE),
    CategoryRepository(CE),
    GenreRepository(GE),
    CastMemberRepository(ME),
}

/// Why a rating text that names no rating is refused.
pub open spec fn invalid_rating_text(text: Seq<char>) -> Seq<char> {
    invalid_rating_message(text)
}

/// Prefixes a message.
fn prefixed(prefix: &str, message: String) -> (text: String)
    ensures
        text@ == prefix@ + message@,
{
    let mut text = String::from_str(prefix);
    text.append(message.as_str());
    text
}

impl<VE: ErrorMessage, CE: ErrorMessage, GE: ErrorMessage, ME: ErrorMessage> SaveVideoError<VE, CE, GE, ME> {
    /// The error's message; a video repository error gives its own.
    pub fn to_string(&self) -> (message: String)
        ensures
            self is Validation ==> message@ == "Entity Validation Error"@,
            self matches SaveVideoError::InvalidId(m) ==> message@ == invalid_id_prefix("video"@) + m@,
            self matches SaveVideoError::InvalidRating(m) ==> message@ == "invalid rating: "@ + m@,
            self matches SaveVideoError::CategoriesNotFound(ids) ==> message@ == "categories not found: "@
                + debug_strings_text(ids.deep_view()),
            self matches SaveVideoError::GenresNotFound(ids) ==> message@ == "genres not found: "@
                + debug_strings_text(ids.deep_view()),
            self matches SaveVideoError::CastMembersNotFound(ids) ==> message@ == "cast members not found: "@
                + debug_strings_text(ids.deep_view()),
            self matches SaveVideoError::VideoRepository(e) ==> message@ == e.message_text(),
            self matches SaveVideoError::CategoryRepository(e) ==> message@ == "category repository error: "@ + e.message_text(),
            self matches SaveVideoError::GenreRepository(e) ==> message@ == "genre repository error: "@ + e.message_text(),
            self matches SaveVideoError::CastMemberRepository(e) ==> message@ == "cast member repository error: "@ + e.message_text(),
    {
        match self {
            SaveVideoError::Validation(e) => e.to_string(),
            SaveVideoError::InvalidId(m) => invalid_id("video", m.as_str()),
            SaveVideoError::InvalidRating(m) => prefixed("invalid rating: ", m.clone()),
            SaveVideoError::CategoriesNotFound(ids) => prefixed("categories not found: ", debug_strings(ids)),
            SaveVideoError::GenresNotFound(ids) => prefixed("genres not found: ", debug_strings(ids)),
            SaveVideoError::CastMembersNotFound(ids) => prefixed("cast members not found: ", debug_strings(ids)),
            SaveVideoError::VideoRepository(e) => e.message(),
            SaveVideoError::CategoryRepository(e) => prefixed("category repository error: ", e.message()),
            SaveVideoError::GenreRepository(e) => prefixed("genre repository error: ", e.message()),
            SaveVideoError::CastMemberRepository(e) => prefixed("cast member repository error: ", e.message()),
        }
    }
}

/// How far saving an input gets, the checks made in this order: the rating,
/// the category ids, the categories, the genre ids, the genres, the cast
/// member ids, the cast members, then the video's own validation.
#[derive(Debug, Clone, Copy, PartialEq, Eq, Structural)]
pub enum SaveVideoStage {
    InvalidRating,
    InvalidCategoryId,
    CategoriesMissing,
    InvalidGenreId,
    GenresMissing,
    InvalidCastMemberId,
    CastMembersMissing,
    Invalid,
    Saved,
}

/// The related items an input names and the repositories hold.
pub struct RelatedFound {
    pub categories: Seq<crate::domain::category::aggregate::CategoryView>,
    pub genres: Seq<crate::domain::genre::aggregate::GenreView>,
    pub cast_members: Seq<crate::domain::cast_member::aggregate::CastMemberView>,
}

/// The stored items found for the input's ids.
pub open spec fn related_found<CR: ICategoryRepository, GR: IGenreRepository, MR: ICastMemberRepository>(
    input: SaveVideoInput,
    cats: CR,
    genres: GR,
    members: MR,
) -> RelatedFound {
    RelatedFound {
        categories: found_for_ids::<Category>(
            cats.stored(),
            cats.hides_deleted(),
            uuids_of(input.categories_id.deep_view()),
        ),
        genres: found_for_ids::<Genre>(genres.stored(), genres.hides_deleted(), uuids_of(input.genres_id.deep_view())),
        cast_members: found_for_ids::<CastMember>(
            members.stored(),
            members.hides_deleted(),
            uuids_of(input.cast_members_id.deep_view()),
        ),
    }
}

/// The category ids of the input that no stored category has.
pub open spec fn missing_categories<CR: ICategoryRepository>(input: SaveVideoInput, cats: CR) -> Seq<u128> {
    missing_ids::<Category>(cats.stored(), cats.hides_deleted(), uuids_of(input.categories_id.deep_view()))
}

/// The genre ids of the input that no stored genre has.
pub open spec fn missing_genres<GR: IGenreRepository>(input: SaveVideoInput, genres: GR) -> Seq<u128> {
    missing_ids::<Genre>(genres.stored(), genres.hides_deleted(), uuids_of(input.genres_id.deep_view()))
}

/// The cast member ids of the input that no stored cast member has.
pub open spec fn missing_cast_members<MR: ICastMemberRepository>(input: SaveVideoInput, members: MR) -> Seq<u128> {
    missing_ids::<CastMember>(
        members.stored(),
        members.hides_deleted(),
        uuids_of(input.cast_members_id.deep_view()),
    )
}

/// The stage that the checks before validation reach: `Saved` when the rating
/// and every related id are read and every related item is found.
pub open spec fn lookup_stage<CR: ICategoryRepository, GR: IGenreRepository, MR: ICastMemberRepository>(
    input: SaveVideoInput,
    cats: CR,
    genres: GR,
    members: MR,
) -> SaveVideoStage {
    if rating_of(input.rating@) is None {
        SaveVideoStage::InvalidRating
    } else if first_non_uuid(input.categories_id.deep_view()) >= 0 {
        SaveVideoStage::InvalidCategoryId
    } else if missing_categories(input, cats).len() > 0 {
        SaveVideoStage::CategoriesMissing
    } else if first_non_uuid(input.genres_id.deep_view()) >= 0 {
        SaveVideoStage::InvalidGenreId
    } else if missing_genres(input, genres).len() > 0 {
        SaveVideoStage::GenresMissing
    } else if first_non_uuid(input.cast_members_id.deep_view()) >= 0 {
        SaveVideoStage::InvalidCastMemberId
    } else if missing_cast_members(input, members).len() > 0 {
        SaveVideoStage::CastMembersMissing
    } else {
        SaveVideoStage::Saved
    }
}

/// The stage that saving the input reaches; `saved` is the video it would store.
pub open spec fn save_video_stage<CR: ICategoryRepository, GR: IGenreRepository, MR: ICastMemberRepository>(
    input: SaveVideoInput,
    cats: CR,
    genres: GR,
    members: MR,
    saved: VideoView,
) -> SaveVideoStage {
    let reached = lookup_stage(input, cats, genres, members);
    if reached != SaveVideoStage::Saved {
        reached
    } else if saved.notification.len() > 0 {
        SaveVideoStage::Invalid
    } else {
        SaveVideoStage::Saved
    }
}

/// Why the first text that is no UUID is refused.
pub open spec fn first_bad_id_message(texts: Seq<Seq<char>>) -> Seq<char> {
    invalid_uuid_message(texts[first_non_uuid(texts)])
}

/// The rating that the input names (meaningful where it names one).
pub open spec fn input_rating(input: SaveVideoInput) -> Rating {
    match rating_of(input.rating@) {
        Some(r) => r,
        None => Rating::RL,
    }
}

/// The video an input creates under the UUID `v`, with copies of the related items found.
pub open spec fn video_from_input(v: u128, input: SaveVideoInput, found: RelatedFound) -> VideoView {
    VideoView {
        video_id: VideoId(UuidVo { id: v }),
        title: input.title@,
        description: input.description@,
        year_launched: input.year_launched,
        duration: input.duration,
        rating: input_rating(input),
        is_opened: input.is_opened,
        is_published: input.is_published,
        banner_url: option_text(input.banner_url),
        thumbnail_url: option_text(input.thumbnail_url),
        thumbnail_half_url: option_text(input.thumbnail_half_url),
        trailer_url: input.trailer_url@,
        video_url: input.video_url@,
        categories: collected::<NestedCategory>(nested_from_categories(found.categories)),
        genres: collected::<NestedGenre>(nested_from_genres(found.genres)),
        cast_members: collected::<NestedCastMember>(nested_from_cast_members(found.cast_members)),
        created_at: input.created_at,
        deleted_at: None,
        notification: checked_length(Seq::empty(), "title"@, input.title@),
    }
}

/// A stored video after an input was applied: every field the input carries
/// replaced (the title checked again), the related items replaced by copies of
/// those found.
pub open spec fn video_with_input(existing: VideoView, input: SaveVideoInput, found: RelatedFound) -> VideoView {
    VideoView {
        title: input.title@,
        notification: checked_length(existing.notification, "title"@, input.title@),
        description: input.description@,
        year_launched: input.year_launched,
        duration: input.duration,
        rating: input_rating(input),
        is_opened: input.is_opened,
        is_published: input.is_published,
        banner_url: option_text(input.banner_url),
        thumbnail_url: option_text(input.thumbnail_url),
        thumbnail_half_url: option_text(input.thumbnail_half_url),
        trailer_url: input.trailer_url@,
        video_url: input.video_url@,
        categories: collected::<NestedCategory>(nested_from_categories(found.categories)),
        genres: collected::<NestedGenre>(nested_from_genres(found.genres)),
        cast_members: collected::<NestedCastMember>(nested_from_cast_members(found.cast_members)),
        created_at: input.created_at,
        ..existing
    }
}

/// The categories are looked up: the rating reads and every category id is a UUID.
pub open spec fn categories_looked_up(input: SaveVideoInput) -> bool {
    &&& rating_of(input.rating@) is Some
    &&& first_non_uuid(input.categories_id.deep_view()) < 0
}

/// The genres are looked up: every category was found and every genre id is a UUID.
pub open spec fn genres_looked_up<CR: ICategoryRepository>(input: SaveVideoInput, cats: CR) -> bool {
    &&& categories_looked_up(input)
    &&& missing_categories(input, cats).len() == 0
    &&& first_non_uuid(input.genres_id.deep_view()) < 0
}

/// The cast members are looked up: every genre was found and every cast
/// member id is a UUID.
pub open spec fn cast_members_looked_up<CR: ICategoryRepository, GR: IGenreRepository>(
    input: SaveVideoInput,
    cats: CR,
    genres: GR,
) -> bool {
    &&& genres_looked_up(input, cats)
    &&& missing_genres(input, genres).len() == 0
    &&& first_non_uuid(input.cast_members_id.deep_view()) < 0
}

/// What an error of the checks before validation says: each is reported
/// only at its stage, with the message or ids of that stage; a repository
/// error comes only from a repository that is not reliable, and only once the
/// checks before its lookup have passed.
pub open spec fn lookup_error_reported<
    VE,
    CE,
    GE,
    ME,
    CR: ICategoryRepository,
    GR: IGenreRepository,
    MR: ICastMemberRepository,
>(input: SaveVideoInput, cats: CR, genres: GR, members: MR, error: SaveVideoError<VE, CE, GE, ME>) -> bool {
    let stage = lookup_stage(input, cats, genres, members);
    match error {
        SaveVideoError::InvalidRating(m) => stage == SaveVideoStage::InvalidRating && m@ == invalid_rating_text(
            input.rating@,
        ),
        SaveVideoError::InvalidId(m) => {
            ||| stage == SaveVideoStage::InvalidCategoryId && m@ == first_bad_id_message(input.categories_id.deep_view())
            ||| stage == SaveVideoStage::InvalidGenreId && m@ == first_bad_id_message(input.genres_id.deep_view())
            ||| stage == SaveVideoStage::InvalidCastMemberId && m@ == first_bad_id_message(
                input.cast_members_id.deep_view(),
            )
        },
        SaveVideoError::CategoriesNotFound(t) => stage == SaveVideoStage::CategoriesMissing && t.deep_view()
            == uuid_texts_of(missing_categories(input, cats)),
        SaveVideoError::GenresNotFound(t) => stage == SaveVideoStage::GenresMissing && t.deep_view()
            == uuid_texts_of(missing_genres(input, genres)),
        SaveVideoError::CastMembersNotFound(t) => stage == SaveVideoStage::CastMembersMissing && t.deep_view()
            == uuid_texts_of(missing_cast_members(input, members)),
        SaveVideoError::CategoryRepository(_) => !cats.reliable() && categories_looked_up(input),
        SaveVideoError::GenreRepository(_) => !genres.reliable() && genres_looked_up(input, cats),
        SaveVideoError::CastMemberRepository(_) => !members.reliable() && cast_members_looked_up(
            input,
            cats,
            genres,
        ),
        SaveVideoError::Validation(_) => false,
        SaveVideoError::VideoRepository(_) => false,
    }
}

/// What saving reports: an error of the checks before validation as
/// [`lookup_error_reported`] says, a validation error with the saved video's
/// notification at its stage, a video repository error only from a repository
/// that is not reliable; nothing written on any other error; and, every repository
/// reliable, success exactly when the last stage is reached.
pub open spec fn video_save_reported<
    VR: IVideoRepository,
    CR: ICategoryRepository,
    GR: IGenreRepository,
    MR: ICastMemberRepository,
>(
    input: SaveVideoInput,
    before: VR,
    after: VR,
    cats: CR,
    genres: GR,
    members: MR,
    saved: VideoView,
    result: Result<SaveVideoOutput, SaveVideoError<VR::Error, CR::Error, GR::Error, MR::Error>>,
) -> bool {
    let stage = save_video_stage(input, cats, genres, members, saved);
    &&& after.reliable() == before.reliable()
    &&& result matches Err(e) ==> {
        &&& !(e is VideoRepository) ==> after == before
        &&& {
            ||| lookup_error_reported(input, cats, genres, members, e)
            ||| e matches SaveVideoError::Validation(v) && stage == SaveVideoStage::Invalid
                && v.notification@ == saved.notification
            ||| e is VideoRepository && !before.reliable()
        }
    }
    &&& stage != SaveVideoStage::Saved ==> after == before
    &&& result is Ok ==> stage == SaveVideoStage::Saved
    &&& (before.reliable() && cats.reliable() && genres.reliable() && members.reliable()) ==> (result is Ok
        <==> stage == SaveVideoStage::Saved)
}

/// What saving an input does to the video repository, the related items being
/// read from `cats`, `genres` and `members`, and what it reports: an id that is
/// no UUID is refused with nothing written; otherwise as
/// [`video_save_reported`] says, success storing the saved video in place of
/// the one stored under its id, or after the others when there was none.
pub open spec fn video_saved<
    VR: IVideoRepository,
    CR: ICategoryRepository,
    GR: IGenreRepository,
    MR: ICastMemberRepository,
>(
    before: VR,
    after: VR,
    cats: CR,
    genres: GR,
    members: MR,
    input: SaveVideoInput,
    result: Result<SaveVideoOutput, SaveVideoError<VR::Error, CR::Error, GR::Error, MR::Error>>,
) -> bool {
    match uuid_parse(input.video_id@) {
        None => {
            &&& result matches Err(SaveVideoError::InvalidId(m)) && m@ == invalid_uuid_message(input.video_id@)
            &&& after == before
        },
        Some(v) => {
            let found = related_found(input, cats, genres, members);
            let existing = first_selected::<Video>(before.stored(), before.hides_deleted(), Some(v), None);
            let saved = match existing {
                Some(x) => video_with_input(x, input, found),
                None => video_from_input(v, input, found),
            };
            &&& video_save_reported(input, before, after, cats, genres, members, saved, result)
            &&& result matches Ok(out) ==> {
                &&& out.id@ == uuid_text(v)
                &&& out.created == existing is None
                &&& after.hides_deleted() == before.hides_deleted()
                &&& after.stored() == match existing {
                    Some(x) => before.stored().update(position_of_id::<Video>(before.stored(), v), saved),
                    None => before.stored().push(saved),
                }
            }
        },
    }
}

/// Creates a video, or updates the one stored under the same id; its
/// categories, genres and cast members are looked up by id and copied into it.
pub struct SaveVideoUseCase<VR: IVideoRepository, CR: ICategoryRepository, GR: IGenreRepository, MR: ICastMemberRepository> {
    video_repo: VR,
    category_repo: CR,
    genre_repo: GR,
    cast_member_repo: MR,
}

impl<
    VR: IVideoRepository,
    CR: ICategoryRepository,
    GR: IGenreRepository,
    MR: ICastMemberRepository,
> SaveVideoUseCase<VR, CR, GR, MR> {
    /// The repository videos are written to.
    pub closed spec fn video_repository(&self) -> VR {
        self.video_repo
    }

    /// The repository categories are read from.
    pub closed spec fn category_repository(&self) -> CR {
        self.category_repo
    }

    /// The repository genres are read from.
    pub closed spec fn genre_repository(&self) -> GR {
        self.genre_repo
    }

    /// The repository cast members are read from.
    pub closed spec fn cast_member_repository(&self) -> MR {
        self.cast_member_repo
    }

    pub fn new(video_repo: VR, category_repo: CR, genre_repo: GR, cast_member_repo: MR) -> (use_case: Self)
        ensures
            use_case.video_repository() == video_repo,
            use_case.category_repository() == category_repo,
            use_case.genre_repository() == genre_repo,
            use_case.cast_member_repository() == cast_member_repo,
    {
        SaveVideoUseCase { video_repo, category_repo, genre_repo, cast_member_repo }
    }

    /// Saves the input. The video id is read first and the stored video looked
    /// up; then the stages of [`save_video_stage`] follow, the first that fails
    /// giving the error. Nothing is written unless every stage passed.
    pub fn execute(&mut self, input: SaveVideoInput) -> (result: Result<
        SaveVideoOutput,
        SaveVideoError<VR::Error, CR::Error, GR::Error, MR::Error>,
    >)
        ensures
            final(self).video_repository().reliable() == old(self).video_repository().reliable(),
            final(self).category_repository() == old(self).category_repository(),
            final(self).genre_repository() == old(self).genre_repository(),
            final(self).cast_member_repository() == old(self).cast_member_repository(),
            video_saved(
                old(self).video_repository(),
                final(self).video_repository(),
                old(self).category_repository(),
                old(self).genre_repository(),
                old(self).cast_member_repository(),
                input,
                result,
            ),
    {
        let video_id = match VideoId::from(input.video_id.as_str()) {
            Ok(id) => id,
            Err(e) => {
                return Err(SaveVideoError::InvalidId(e.to_string()));
            },
        };
        let ghost v = video_id.0.id;
        match self.video_repo.find_by_id(&video_id) {
            Err(e) => Err(SaveVideoError::VideoRepository(e)),
            Ok(Some(video)) => {
                proof {
                    lemma_selected_has_position::<Video>(
                        self.video_repo.stored(),
                        self.video_repo.hides_deleted(),
                        v,
                        None,
                    );
                }
                self.update_video(input, video)
            },
            Ok(None) => self.create_video(input, video_id),
        }
    }

    /// Reads the rating and looks up the related items, in that order.
    fn related_props(&self, input: &SaveVideoInput) -> (result: Result<
        (Rating, Vec<NestedCategoryCreateCommand>, Vec<NestedGenreCreateCommand>, Vec<NestedCastMemberCreateCommand>),
        SaveVideoError<VR::Error, CR::Error, GR::Error, MR::Error>,
    >)
        ensures
            ({
                let cats = self.category_repository();
                let genres = self.genre_repository();
                let members = self.cast_member_repository();
                let found = related_found(*input, cats, genres, members);
                let stage = lookup_stage(*input, cats, genres, members);
                &&& result matches Ok((r, c, g, m)) ==> {
                    &&& stage == SaveVideoStage::Saved
                    &&& rating_of(input.rating@) == Some(r)
                    &&& nested_categories_of(c@) == nested_from_categories(found.categories)
                    &&& nested_genres_of(g@) == nested_from_genres(found.genres)
                    &&& nested_cast_members_of(m@) == nested_from_cast_members(found.cast_members)
                }
                &&& result matches Err(e) ==> lookup_error_reported(*input, cats, genres, members, e)
                &&& (cats.reliable() && genres.reliable() && members.reliable()) ==> (result is Ok <==> stage
                    == SaveVideoStage::Saved)
            }),
    {
        let rating = match Rating::from_str(input.rating.as_str()) {
            Ok(r) => r,
            Err(e) => {
                return Err(SaveVideoError::InvalidRating(e.to_string()));
            },
        };
        let categories = match self.categories_props(&input.categories_id) {
            Ok(p) => p,
            Err(e) => {
                return Err(e);
            },
        };
        let genres = match self.genres_props(&input.genres_id) {
            Ok(p) => p,
            Err(e) => {
                return Err(e);
            },
        };
        let cast_members = match self.cast_members_props(&input.cast_members_id) {
            Ok(p) => p,
            Err(e) => {
                return Err(e);
            },
        };
        Ok((rating, categories, genres, cast_members))
    }

    fn create_video(&mut self, input: SaveVideoInput, video_id: VideoId) -> (result: Result<
        SaveVideoOutput,
        SaveVideoError<VR::Error, CR::Error, GR::Error, MR::Error>,
    >)
        ensures
            final(self).category_repository() == old(self).category_repository(),
            final(self).genre_repository() == old(self).genre_repository(),
            final(self).cast_member_repository() == old(self).cast_member_repository(),
            ({
                let before = old(self).video_repository();
                let after = final(self).video_repository();
                let cats = old(self).category_repository();
                let genres = old(self).genre_repository();
                let members = old(self).cast_member_repository();
                let saved = video_from_input(video_id.0.id, input, related_found(input, cats, genres, members));
                &&& video_save_reported(input, before, after, cats, genres, members, saved, result)
                &&& result matches Ok(out) ==> (out.id@ == uuid_text(video_id.0.id) && out.created
                    && after.hides_deleted() == before.hides_deleted() && after.stored()
                    == before.stored().push(saved))
            }),
    {
        let (rating, categories_props, genres_props, cast_members_props) = match self.related_props(&input) {
            Ok(props) => props,
            Err(e) => {
                return Err(e);
            },
        };
        let entity = Video::create(
            VideoCreateCommand {
                video_id,
                title: input.title,
                description: input.description,
                year_launched: input.year_launched,
                duration: input.duration,
                rating,
                is_opened: input.is_opened,
                is_published: input.is_published,
                banner_url: input.banner_url,
                thumbnail_url: input.thumbnail_url,
                thumbnail_half_url: input.thumbnail_half_url,
                trailer_url: input.trailer_url,
                video_url: input.video_url,
                categories_props,
                genres_props,
                cast_members_props,
                created_at: input.created_at,
            },
        );
        if entity.notification().has_errors() {
            return Err(SaveVideoError::Validation(EntityValidationError::new(entity.notification().clone())));
        }
        match self.video_repo.insert(&entity) {
            Err(e) => Err(SaveVideoError::VideoRepository(e)),
            Ok(()) => Ok(SaveVideoOutput { id: entity.video_id().to_string(), created: true }),
        }
    }

    fn update_video(&mut self, input: SaveVideoInput, video: Video) -> (result: Result<
        SaveVideoOutput,
        SaveVideoError<VR::Error, CR::Error, GR::Error, MR::Error>,
    >)
        requires
            position_of_id::<Video>(old(self).video_repository().stored(), video@.video_id.0.id) >= 0,
        ensures
            final(self).category_repository() == old(self).category_repository(),
            final(self).genre_repository() == old(self).genre_repository(),
            final(self).cast_member_repository() == old(self).cast_member_repository(),
            ({
                let before = old(self).video_repository();
                let after = final(self).video_repository();
                let cats = old(self).category_repository();
                let genres = old(self).genre_repository();
                let members = old(self).cast_member_repository();
                let id = video@.video_id.0.id;
                let saved = video_with_input(video@, input, related_found(input, cats, genres, members));
                &&& video_save_reported(input, before, after, cats, genres, members, saved, result)
                &&& result matches Ok(out) ==> (out.id@ == uuid_text(id) && !out.created
                    && after.hides_deleted() == before.hides_deleted() && after.stored()
                    == before.stored().update(position_of_id::<Video>(before.stored(), id), saved))
            }),
    {
        let (rating, categories_props, genres_props, cast_members_props) = match self.related_props(&input) {
            Ok(props) => props,
            Err(e) => {
                return Err(e);
            },
        };
        let mut video = video;
        video.change_title(input.title);
        video.change_description(input.description);
        video.change_year_launched(input.year_launched);
        video.change_duration(input.duration);
        video.change_rating(rating);
        if input.is_opened {
            video.mark_as_opened();
        } else {
            video.mark_as_not_opened();
        }
        if input.is_published {
            video.publish();
        } else {
            video.unpublish();
        }
        video.replace_banner_url(input.banner_url);
        video.replace_thumbnail_url(input.thumbnail_url);
        video.replace_thumbnail_half_url(input.thumbnail_half_url);
        video.replace_trailer_url(input.trailer_url);
        video.replace_video_url(input.video_url);
        proof {
            lemma_created_nested_categories_keyed_by_id(categories_props@);
            lemma_created_nested_genres_keyed_by_id(genres_props@);
            lemma_created_nested_cast_members_keyed_by_id(cast_members_props@);
        }
        video.sync_nested_categories(create_nested_categories(categories_props));
        video.sync_nested_genres(create_nested_genres(genres_props));
        video.sync_nested_cast_members(create_nested_cast_members(cast_members_props));
        video.change_created_at(input.created_at);
        if video.notification().has_errors() {
            return Err(SaveVideoError::Validation(EntityValidationError::new(video.notification().clone())));
        }
        match self.video_repo.update(&video) {
            Err(e) => Err(SaveVideoError::VideoRepository(e)),
            Ok(()) => Ok(SaveVideoOutput { id: video.video_id().to_string(), created: false }),
        }
    }

    /// Reads the category ids, looks the categories up and turns those found
    /// into commands for nested categories.
    fn categories_props(&self, texts: &Vec<String>) -> (result: Result<
        Vec<NestedCategoryCreateCommand>,
        SaveVideoError<VR::Error, CR::Error, GR::Error, MR::Error>,
    >)
        ensures
            ({
                let t = texts.deep_view();
                let cats = self.category_repository();
                let bad = first_non_uuid(t);
                let ids = uuids_of(t);
                let missing = missing_ids::<Category>(cats.stored(), cats.hides_deleted(), ids);
                &&& result matches Ok(p) ==> (bad < 0 && missing.len() == 0 && nested_categories_of(p@)
                    == nested_from_categories(found_for_ids::<Category>(cats.stored(), cats.hides_deleted(), ids)))
                &&& result matches Err(e) ==> match e {
                    SaveVideoError::InvalidId(m) => bad >= 0 && m@ == first_bad_id_message(t),
                    SaveVideoError::CategoryRepository(_) => bad < 0 && !cats.reliable(),
                    SaveVideoError::CategoriesNotFound(n) => bad < 0 && missing.len() > 0 && n.deep_view()
                        == uuid_texts_of(missing),
                    _ => false,
                }
                &&& bad >= 0 ==> result is Err
                &&& (bad < 0 && cats.reliable()) ==> (result is Ok <==> missing.len() == 0)
            }),
    {
        let uuids = match parse_uuids(texts) {
            Ok(ids) => ids,
            Err(m) => {
                return Err(SaveVideoError::InvalidId(m));
            },
        };
        let mut ids: Vec<CategoryId> = Vec::new();
        for i in 0..uuids.len()
            invariant
                ids@.len() == i,
                forall|k: int| 0 <= k < i ==> (#[trigger] ids@[k]).0 == uuids@[k],
        {
            ids.push(CategoryId(uuids[i]));
        }
        assert(category_uuids(ids@) =~= uuid_values(uuids@));
        let found = match self.category_repo.find_by_ids(ids.as_slice()) {
            Ok(r) => r,
            Err(e) => {
                return Err(SaveVideoError::CategoryRepository(e));
            },
        };
        if found.not_exists.len() > 0 {
            return Err(SaveVideoError::CategoriesNotFound(uuid_texts(&found.not_exists)));
        }
        let mut props: Vec<NestedCategoryCreateCommand> = Vec::new();
        let exists = &found.exists;
        for i in 0..exists.len()
            invariant
                props@.len() == i,
                forall|k: int|
                    0 <= k < i ==> nested_categories_of(props@)[k] == #[trigger] nested_from_categories(
                        views_of(exists@),
                    )[k],
        {
            let item = &exists[i];
            props.push(
                NestedCategoryCreateCommand {
                    category_id: *item.category_id(),
                    name: String::from_str(item.name()),
                    is_active: item.is_active(),
                    deleted_at: item.deleted_at(),
                },
            );
        }
        assert(nested_categories_of(props@) =~= nested_from_categories(views_of(exists@)));
        Ok(props)
    }

    /// Reads the genre ids, looks the genres up and turns those found into
    /// commands for nested genres.
    fn genres_props(&self, texts: &Vec<String>) -> (result: Result<
        Vec<NestedGenreCreateCommand>,
        SaveVideoError<VR::Error, CR::Error, GR::Error, MR::Error>,
    >)
        ensures
            ({
                let t = texts.deep_view();
                let genres = self.genre_repository();
                let bad = first_non_uuid(t);
                let ids = uuids_of(t);
                let missing = missing_ids::<Genre>(genres.stored(), genres.hides_deleted(), ids);
                &&& result matches Ok(p) ==> (bad < 0 && missing.len() == 0 && nested_genres_of(p@)
                    == nested_from_genres(found_for_ids::<Genre>(genres.stored(), genres.hides_deleted(), ids)))
                &&& result matches Err(e) ==> match e {
                    SaveVideoError::InvalidId(m) => bad >= 0 && m@ == first_bad_id_message(t),
                    SaveVideoError::GenreRepository(_) => bad < 0 && !genres.reliable(),
                    SaveVideoError::GenresNotFound(n) => bad < 0 && missing.len() > 0 && n.deep_view()
                        == uuid_texts_of(missing),
                    _ => false,
                }
                &&& bad >= 0 ==> result is Err
                &&& (bad < 0 && genres.reliable()) ==> (result is Ok <==> missing.len() == 0)
            }),
    {
        let uuids = match parse_uuids(texts) {
            Ok(ids) => ids,
            Err(m) => {
                return Err(SaveVideoError::InvalidId(m));
            },
        };
        let mut ids: Vec<GenreId> = Vec::new();
        for i in 0..uuids.len()
            invariant
                ids@.len() == i,
                forall|k: int| 0 <= k < i ==> (#[trigger] ids@[k]).0 == uuids@[k],
        {
            ids.push(GenreId(uuids[i]));
        }
        assert(genre_uuids(ids@) =~= uuid_values(uuids@));
        let found = match self.genre_repo.find_by_ids(ids.as_slice()) {
            Ok(r) => r,
            Err(e) => {
                return Err(SaveVideoError::GenreRepository(e));
            },
        };
        if found.not_exists.len() > 0 {
            return Err(SaveVideoError::GenresNotFound(uuid_texts(&found.not_exists)));
        }
        let mut props: Vec<NestedGenreCreateCommand> = Vec::new();
        let exists = &found.exists;
        for i in 0..exists.len()
            invariant
                props@.len() == i,
                forall|k: int|
                    0 <= k < i ==> nested_genres_of(props@)[k] == #[trigger] nested_from_genres(views_of(exists@))[k],
        {
            let item = &exists[i];
            props.push(
                NestedGenreCreateCommand {
                    genre_id: *item.genre_id(),
                    name: String::from_str(item.name()),
                    is_active: item.is_active(),
                    deleted_at: item.deleted_at(),
                },
            );
        }
        assert(nested_genres_of(props@) =~= nested_from_genres(views_of(exists@)));
        Ok(props)
    }

    /// Reads the cast member ids, looks the cast members up and turns those
    /// found into commands for nested cast members.
    fn cast_members_props(&self, texts: &Vec<String>) -> (result: Result<
        Vec<NestedCastMemberCreateCommand>,
        SaveVideoError<VR::Error, CR::Error, GR::Error, MR::Error>,
    >)
        ensures
            ({
                let t = texts.deep_view();
                let members = self.cast_member_repository();
                let bad = first_non_uuid(t);
                let ids = uuids_of(t);
                let missing = missing_ids::<CastMember>(members.stored(), members.hides_deleted(), ids);
                &&& result matches Ok(p) ==> (bad < 0 && missing.len() == 0 && nested_cast_members_of(p@)
                    == nested_from_cast_members(
                    found_for_ids::<CastMember>(members.stored(), members.hides_deleted(), ids),
                ))
                &&& result matches Err(e) ==> match e {
                    SaveVideoError::InvalidId(m) => bad >= 0 && m@ == first_bad_id_message(t),
                    SaveVideoError::CastMemberRepository(_) => bad < 0 && !members.reliable(),
                    SaveVideoError::CastMembersNotFound(n) => bad < 0 && missing.len() > 0 && n.deep_view()
                        == uuid_texts_of(missing),
                    _ => false,
                }
                &&& bad >= 0 ==> result is Err
                &&& (bad < 0 && members.reliable()) ==> (result is Ok <==> missing.len() == 0)
            }),
    {
        let uuids = match parse_uuids(texts) {
            Ok(ids) => ids,
            Err(m) => {
                return Err(SaveVideoError::InvalidId(m));
            },
        };
        let mut ids: Vec<CastMemberId> = Vec::new();
        for i in 0..uuids.len()
            invariant
                ids@.len() == i,
                forall|k: int| 0 <= k < i ==> (#[trigger] ids@[k]).0 == uuids@[k],
        {
            ids.push(CastMemberId(uuids[i]));
        }
        assert(cast_member_uuids(ids@) =~= uuid_values(uuids@));
        let found = match self.cast_member_repo.find_by_ids(ids.as_slice()) {
            Ok(r) => r,
            Err(e) => {
                return Err(SaveVideoError::CastMemberRepository(e));
            },
        };
        if found.not_exists.len() > 0 {
            return Err(SaveVideoError::CastMembersNotFound(uuid_texts(&found.not_exists)));
        }
        let mut props: Vec<NestedCastMemberCreateCommand> = Vec::new();
        let exists = &found.exists;
        for i in 0..exists.len()
            invariant
                props@.len() == i,
                forall|k: int|
                    0 <= k < i ==> nested_cast_members_of(props@)[k] == #[trigger] nested_from_cast_members(
                        views_of(exists@),
                    )[k],
        {
            let item = &exists[i];
            props.push(
                NestedCastMemberCreateCommand {
                    cast_member_id: *item.cast_member_id(),
                    name: String::from_str(item.name()),
                    cast_member_type: item.cast_member_type(),
                    deleted_at: item.deleted_at(),
                },
            );
        }
        assert(nested_cast_members_of(props@) =~= nested_from_cast_members(views_of(exists@)));
        Ok(props)
    }
}

} // verus!

verus! {

/// Once a video is saved, a read of its id finds it, with the values of the
/// input and copies of the categories, genres and cast members found for it.
pub proof fn lemma_video_found_after_save<
    VR: IVideoRepository,
    CR: ICategoryRepository,
    GR: IGenreRepository,
    MR: ICastMemberRepository,
>(
    before: VR,
    after: VR,
    cats: CR,
    genres: GR,
    members: MR,
    input: SaveVideoInput,
    result: Result<SaveVideoOutput, SaveVideoError<VR::Error, CR::Error, GR::Error, MR::Error>>,
)
    requires
        video_saved(before, after, cats, genres, members, input, result),
        result is Ok,
    ensures
        uuid_parse(input.video_id@) matches Some(v) && first_selected::<Video>(
            after.stored(),
            after.hides_deleted(),
            Some(v),
            None,
        ) matches Some(x) && x.video_id.0.id == v && x == match first_selected::<Video>(
            before.stored(),
            before.hides_deleted(),
            Some(v),
            None,
        ) {
            Some(old_video) => video_with_input(old_video, input, related_found(input, cats, genres, members)),
            None => video_from_input(v, input, related_found(input, cats, genres, members)),
        } && x.title == input.title@ && x.rating == input_rating(input) && x.created_at == input.created_at,
{
    let v = uuid_parse(input.video_id@)->0;
    let found = related_found(input, cats, genres, members);
    let existing = first_selected::<Video>(before.stored(), before.hides_deleted(), Some(v), None);
    match existing {
        Some(x) => {
            lemma_selected_has_position::<Video>(before.stored(), before.hides_deleted(), v, None);
            lemma_find_after_update::<Video>(before.stored(), before.hides_deleted(), video_with_input(x, input, found));
        },
        None => {
            lemma_find_after_insert::<Video>(before.stored(), before.hides_deleted(), video_from_input(v, input, found));
        },
    }
}

} // verus!
