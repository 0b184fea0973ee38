use video_catalog::domain::cast_member::cast_member_id::CastMemberId;
use video_catalog::domain::cast_member::cast_member_type::CastMemberType;
use video_catalog::domain::cast_member::nested_cast_member::{NestedCastMember, NestedCastMemberCreateCommand};
use video_catalog::domain::category::category_id::CategoryId;
use video_catalog::domain::category::nested_category::{NestedCategory, NestedCategoryCreateCommand};
use video_catalog::domain::genre::genre_id::GenreId;
use video_catalog::domain::genre::nested_genre::{NestedGenre, NestedGenreCreateCommand};
use video_catalog::domain::shared::entity::Entity;
use video_catalog::domain::video::aggregate::{Video, VideoCreateCommand};
use video_catalog::domain::video::rating::Rating;
use video_catalog::domain::video::video_id::VideoId;

/// The current time, in microseconds since the epoch.
fn now() -> i64 {
    chrono::Utc::now().timestamp_micros()
}

fn make_category_props() -> NestedCategoryCreateCommand {
    NestedCategoryCreateCommand { category_id: CategoryId::new(), name: "Movie".to_string(), is_active: true, deleted_at: None }
}

fn make_genre_props() -> NestedGenreCreateCommand {
    NestedGenreCreateCommand { genre_id: GenreId::new(), name: "Action".to_string(), is_active: true, deleted_at: None }
}

fn make_cast_member_props() -> NestedCastMemberCreateCommand {
    NestedCastMemberCreateCommand {
        cast_member_id: CastMemberId::new(),
        name: "John Doe".to_string(),
        cast_member_type: CastMemberType::Actor,
        deleted_at: None,
    }
}

fn make_command() -> VideoCreateCommand {
    VideoCreateCommand {
        video_id: VideoId::new(),
        title: "My Video".to_string(),
        description: "A great video".to_string(),
        year_launched: 2024,
        duration: 120,
        rating: Rating::create_12(),
        is_opened: false,
        is_published: false,
        banner_url: Some("http://banner.jpg".to_string()),
        thumbnail_url: Some("http://thumb.jpg".to_string()),
        thumbnail_half_url: Some("http://thumb_half.jpg".to_string()),
        trailer_url: "http://trailer.mp4".to_string(),
        video_url: "http://video.mp4".to_string(),
        categories_props: vec![make_category_props()],
        genres_props: vec![make_genre_props()],
        cast_members_props: vec![make_cast_member_props()],
        created_at: now(),
    }
}

#[test]
fn aggregate_should_create_video() {
    let video = Video::create(make_command());
    assert_eq!(video.title(), "My Video");
    assert_eq!(video.description(), "A great video");
    assert_eq!(video.year_launched(), 2024);
    assert_eq!(video.duration(), 120);
    assert_eq!(video.rating(), &Rating::R12);
    assert!(!video.is_opened());
    assert!(!video.is_published());
    assert_eq!(video.banner_url(), Some("http://banner.jpg"));
    assert_eq!(video.thumbnail_url(), Some("http://thumb.jpg"));
    assert_eq!(video.thumbnail_half_url(), Some("http://thumb_half.jpg"));
    assert_eq!(video.trailer_url(), "http://trailer.mp4");
    assert_eq!(video.video_url(), "http://video.mp4");
    assert_eq!(video.categories().len(), 1);
    assert_eq!(video.genres().len(), 1);
    assert_eq!(video.cast_members().len(), 1);
    assert!(video.deleted_at().is_none());
    assert!(!video.notification().has_errors());
}

#[test]
fn should_create_video_without_nested() {
    let video = Video::create(VideoCreateCommand {
        categories_props: vec![],
        genres_props: vec![],
        cast_members_props: vec![],
        ..make_command()
    });
    assert!(video.categories().is_empty());
    assert!(video.genres().is_empty());
    assert!(video.cast_members().is_empty());
}

#[test]
fn should_fail_with_title_too_long() {
    let video = Video::create(VideoCreateCommand { title: "a".repeat(256), ..make_command() });
    assert!(video.notification().has_errors());
    assert_eq!(
        video.notification().to_error_messages(),
        vec!["title: title must be shorter than or equal to 255 characters".to_string()]
    );
}

#[test]
fn should_change_title() {
    let mut video = Video::create(make_command());
    video.change_title("New Title".to_string());
    assert_eq!(video.title(), "New Title");
}

#[test]
fn should_change_description() {
    let mut video = Video::create(make_command());
    video.change_description("New description".to_string());
    assert_eq!(video.description(), "New description");
}

#[test]
fn should_change_year_launched() {
    let mut video = Video::create(make_command());
    video.change_year_launched(2025);
    assert_eq!(video.year_launched(), 2025);
}

#[test]
fn should_change_duration() {
    let mut video = Video::create(make_command());
    video.change_duration(90);
    assert_eq!(video.duration(), 90);
}

#[test]
fn should_change_rating() {
    let mut video = Video::create(make_command());
    video.change_rating(Rating::create_18());
    assert_eq!(video.rating(), &Rating::R18);
}

#[test]
fn should_mark_as_opened_and_not_opened() {
    let mut video = Video::create(make_command());
    assert!(!video.is_opened());
    video.mark_as_opened();
    assert!(video.is_opened());
    video.mark_as_not_opened();
    assert!(!video.is_opened());
}

#[test]
fn should_publish_and_unpublish() {
    let mut video = Video::create(make_command());
    assert!(!video.is_published());
    video.publish();
    assert!(video.is_published());
    video.unpublish();
    assert!(!video.is_published());
}

#[test]
fn should_replace_banner_url() {
    let mut video = Video::create(make_command());
    video.replace_banner_url(Some("http://new-banner.jpg".to_string()));
    assert_eq!(video.banner_url(), Some("http://new-banner.jpg"));
    video.replace_banner_url(None);
    assert!(video.banner_url().is_none());
}

#[test]
fn should_replace_thumbnail_url() {
    let mut video = Video::create(make_command());
    video.replace_thumbnail_url(Some("http://new-thumb.jpg".to_string()));
    assert_eq!(video.thumbnail_url(), Some("http://new-thumb.jpg"));
}

#[test]
fn should_replace_thumbnail_half_url() {
    let mut video = Video::create(make_command());
    video.replace_thumbnail_half_url(Some("http://new-thumb-half.jpg".to_string()));
    assert_eq!(video.thumbnail_half_url(), Some("http://new-thumb-half.jpg"));
}

#[test]
fn should_replace_trailer_url() {
    let mut video = Video::create(make_command());
    video.replace_trailer_url("http://new-trailer.mp4".to_string());
    assert_eq!(video.trailer_url(), "http://new-trailer.mp4");
}

#[test]
fn should_replace_video_url() {
    let mut video = Video::create(make_command());
    video.replace_video_url("http://new-video.mp4".to_string());
    assert_eq!(video.video_url(), "http://new-video.mp4");
}

#[test]
fn video_aggregate_should_sync_nested_categories() {
    let mut video = Video::create(make_command());
    assert_eq!(video.categories().len(), 1);
    let new_cat1 = NestedCategory::create(make_category_props());
    let new_cat2 = NestedCategory::create(make_category_props());
    video.sync_nested_categories(vec![new_cat1, new_cat2]);
    assert_eq!(video.categories().len(), 2);
}

#[test]
fn should_sync_nested_genres() {
    let mut video = Video::create(make_command());
    assert_eq!(video.genres().len(), 1);
    let new_genre1 = NestedGenre::create(make_genre_props());
    let new_genre2 = NestedGenre::create(make_genre_props());
    video.sync_nested_genres(vec![new_genre1, new_genre2]);
    assert_eq!(video.genres().len(), 2);
}

#[test]
fn should_sync_nested_cast_members() {
    let mut video = Video::create(make_command());
    assert_eq!(video.cast_members().len(), 1);
    let new_cm1 = NestedCastMember::create(make_cast_member_props());
    let new_cm2 = NestedCastMember::create(make_cast_member_props());
    video.sync_nested_cast_members(vec![new_cm1, new_cm2]);
    assert_eq!(video.cast_members().len(), 2);
}

#[test]
fn should_add_and_remove_nested_category() {
    let mut video = Video::create(VideoCreateCommand { categories_props: vec![], ..make_command() });
    assert!(video.categories().is_empty());
    let props = make_category_props();
    let category_id = props.category_id;
    video.add_nested_category(NestedCategory::create(props));
    assert_eq!(video.categories().len(), 1);
    video.remove_nested_category(&category_id);
    assert!(video.categories().is_empty());
}

#[test]
fn should_add_and_remove_nested_genre() {
    let mut video = Video::create(VideoCreateCommand { genres_props: vec![], ..make_command() });
    assert!(video.genres().is_empty());
    let props = make_genre_props();
    let genre_id = props.genre_id;
    video.add_nested_genre(NestedGenre::create(props));
    assert_eq!(video.genres().len(), 1);
    video.remove_nested_genre(&genre_id);
    assert!(video.genres().is_empty());
}

#[test]
fn should_add_and_remove_nested_cast_member() {
    let mut video = Video::create(VideoCreateCommand { cast_members_props: vec![], ..make_command() });
    assert!(video.cast_members().is_empty());
    let props = make_cast_member_props();
    let cast_member_id = props.cast_member_id;
    video.add_nested_cast_member(NestedCastMember::create(props));
    assert_eq!(video.cast_members().len(), 1);
    video.remove_nested_cast_member(&cast_member_id);
    assert!(video.cast_members().is_empty());
}

#[test]
fn video_aggregate_should_mark_as_deleted() {
    let mut video = Video::create(make_command());
    assert!(video.deleted_at().is_none());
    video.mark_as_deleted();
    assert!(video.deleted_at().is_some());
    video.mark_as_not_deleted();
    assert!(video.deleted_at().is_none());
}

#[test]
fn video_aggregate_should_change_created_at() {
    let mut video = Video::create(make_command());
    let new_date = chrono::DateTime::parse_from_rfc3339("2024-01-01T00:00:00Z")
        .unwrap()
        .with_timezone(&chrono::Utc)
        .timestamp_micros();
    video.change_created_at(new_date);
    assert_eq!(video.created_at(), new_date);
}

#[test]
fn should_create_rl_from_str() {
    let rating = Rating::from_str("L").unwrap();
    assert_eq!(rating, Rating::RL);
    assert_eq!(rating.value(), "L");
}

#[test]
fn should_create_r10_from_str() {
    let rating = Rating::from_str("10").unwrap();
    assert_eq!(rating, Rating::R10);
    assert_eq!(rating.value(), "10");
}

#[test]
fn should_create_r12_from_str() {
    let rating = Rating::from_str("12").unwrap();
    assert_eq!(rating, Rating::R12);
    assert_eq!(rating.value(), "12");
}

#[test]
fn should_create_r14_from_str() {
    let rating = Rating::from_str("14").unwrap();
    assert_eq!(rating, Rating::R14);
    assert_eq!(rating.value(), "14");
}

#[test]
fn should_create_r16_from_str() {
    let rating = Rating::from_str("16").unwrap();
    assert_eq!(rating, Rating::R16);
    assert_eq!(rating.value(), "16");
}

#[test]
fn should_create_r18_from_str() {
    let rating = Rating::from_str("18").unwrap();
    assert_eq!(rating, Rating::R18);
    assert_eq!(rating.value(), "18");
}

#[test]
fn rating_should_fail_with_invalid_rating() {
    let result = Rating::from_str("PG");
    assert!(result.is_err());
}

#[test]
fn invalid_rating_message() {
    let err = Rating::from_str("PG").unwrap_err();
    assert_eq!(err.to_string(), "Invalid rating: PG. Valid values are L, 10, 12, 14, 16, 18");
}

#[test]
fn should_display_rating() {
    assert_eq!(Rating::RL.to_string(), "L");
    assert_eq!(Rating::R10.to_string(), "10");
    assert_eq!(Rating::R12.to_string(), "12");
    assert_eq!(Rating::R14.to_string(), "14");
    assert_eq!(Rating::R16.to_string(), "16");
    assert_eq!(Rating::R18.to_string(), "18");
}

#[test]
fn should_create_with_factory_methods() {
    assert_eq!(Rating::create_rl(), Rating::RL);
    assert_eq!(Rating::create_10(), Rating::R10);
    assert_eq!(Rating::create_12(), Rating::R12);
    assert_eq!(Rating::create_14(), Rating::R14);
    assert_eq!(Rating::create_16(), Rating::R16);
    assert_eq!(Rating::create_18(), Rating::R18);
}

#[test]
fn rating_text_round_trip() {
    for rating in [Rating::RL, Rating::R10, Rating::R12, Rating::R14, Rating::R16, Rating::R18] {
        assert_eq!(Rating::from_str(rating.value()).unwrap(), rating);
    }
}
