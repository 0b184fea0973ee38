use video_catalog::application::cast_member::delete_cast_member::{
    DeleteCastMemberError, DeleteCastMemberInput, DeleteCastMemberUseCase,
};
use video_catalog::application::cast_member::save_cast_member::{SaveCastMemberInput, SaveCastMemberUseCase};
use video_catalog::application::category::save_category::{SaveCategoryInput, SaveCategoryUseCase};
use video_catalog::application::genre::delete_genre::{DeleteGenreError, DeleteGenreInput, DeleteGenreUseCase};
use video_catalog::application::genre::save_genre::{SaveGenreInput, SaveGenreUseCase};
use video_catalog::application::video::delete_video::{DeleteVideoError, DeleteVideoInput, DeleteVideoUseCase};
use video_catalog::application::video::save_video::{SaveVideoInput, SaveVideoUseCase};
use video_catalog::domain::cast_member::aggregate::{CastMember, CastMemberCreateCommand};
use video_catalog::domain::cast_member::cast_member_id::CastMemberId;
use video_catalog::domain::cast_member::cast_member_repository::ICastMemberRepository;
use video_catalog::domain::cast_member::cast_member_type::CastMemberType;
use video_catalog::domain::category::category_id::CategoryId;
use video_catalog::domain::genre::aggregate::{Genre, GenreCreateCommand};
use video_catalog::domain::genre::genre_id::GenreId;
use video_catalog::domain::genre::genre_repository::IGenreRepository;
use video_catalog::domain::shared::criteria::ScopedRepository;
use video_catalog::domain::video::aggregate::{Video, VideoCreateCommand};
use video_catalog::domain::video::rating::Rating;
use video_catalog::domain::video::video_id::VideoId;
use video_catalog::domain::video::video_repository::IVideoRepository;
use video_catalog::infrastructure::in_memory::cast_member_in_memory_repository::CastMemberInMemoryRepository;
use video_catalog::infrastructure::in_memory::category_in_memory_repository::CategoryInMemoryRepository;
use video_catalog::infrastructure::in_memory::genre_in_memory_repository::GenreInMemoryRepository;
use video_catalog::infrastructure::in_memory::video_in_memory_repository::VideoInMemoryRepository;

/// The current time, in microseconds since the epoch.
fn now() -> i64 {
    chrono::Utc::now().timestamp_micros()
}

fn genre_input(id: &GenreId, name: &str) -> SaveGenreInput {
    SaveGenreInput { genre_id: id.to_string(), name: name.to_string(), categories_id: vec![], is_active: true, created_at: now() }
}

fn video_input(id: &VideoId, title: &str) -> SaveVideoInput {
    SaveVideoInput {
        video_id: id.to_string(),
        title: title.to_string(),
        description: "Desc".to_string(),
        year_launched: 2024,
        duration: 120,
        rating: "L".to_string(),
        is_opened: false,
        is_published: true,
        banner_url: None,
        thumbnail_url: None,
        thumbnail_half_url: None,
        trailer_url: "http://trailer.mp4".to_string(),
        video_url: "http://video.mp4".to_string(),
        categories_id: vec![],
        genres_id: vec![],
        cast_members_id: vec![],
        created_at: now(),
    }
}

#[test]
fn category_saved_twice_is_found_the_second_time() {
    let mut use_case = SaveCategoryUseCase::new(CategoryInMemoryRepository::new());
    let id = CategoryId::new().to_string();
    let input = SaveCategoryInput { category_id: id.clone(), name: "Movie".to_string(), description: None, is_active: true, created_at: now() };
    assert!(use_case.execute(input.clone()).expect("first save").created);
    let second = use_case.execute(SaveCategoryInput { name: "Documentary".to_string(), ..input }).expect("second save");
    assert_eq!(second.id, id);
    assert!(!second.created);
}

#[test]
fn genre_saved_twice_is_found_the_second_time() {
    let mut use_case = SaveGenreUseCase::new(GenreInMemoryRepository::new(), CategoryInMemoryRepository::new());
    let id = GenreId::new();
    assert!(use_case.execute(genre_input(&id, "Action")).expect("first save").created);
    let second = use_case.execute(genre_input(&id, "Drama")).expect("second save");
    assert_eq!(second.id, id.to_string());
    assert!(!second.created);
}

#[test]
fn cast_member_saved_twice_is_found_the_second_time() {
    let mut use_case = SaveCastMemberUseCase::new(CastMemberInMemoryRepository::new());
    let id = CastMemberId::new();
    let input = SaveCastMemberInput { cast_member_id: id.to_string(), name: "John Doe".to_string(), cast_member_type: 2, created_at: now() };
    assert!(use_case.execute(input.clone()).expect("first save").created);
    let second = use_case.execute(SaveCastMemberInput { cast_member_type: 1, ..input }).expect("second save");
    assert_eq!(second.id, id.to_string());
    assert!(!second.created);
}

#[test]
fn video_saved_twice_is_found_the_second_time() {
    let mut use_case = SaveVideoUseCase::new(
        VideoInMemoryRepository::new(),
        CategoryInMemoryRepository::new(),
        GenreInMemoryRepository::new(),
        CastMemberInMemoryRepository::new(),
    );
    let id = VideoId::new();
    assert!(use_case.execute(video_input(&id, "First")).expect("first save").created);
    let second = use_case.execute(video_input(&id, "Second")).expect("second save");
    assert_eq!(second.id, id.to_string());
    assert!(!second.created);
}

#[test]
fn deleted_genre_is_hidden_from_a_scoped_repository() {
    let mut repo = GenreInMemoryRepository::new();
    let genre = Genre::create(GenreCreateCommand {
        genre_id: GenreId::new(),
        name: "Action".to_string(),
        categories_props: vec![],
        is_active: true,
        created_at: now(),
    });
    repo.insert(&genre).expect("insert");
    repo.ignore_soft_deleted();
    let mut use_case = DeleteGenreUseCase::new(repo);
    let input = DeleteGenreInput { id: genre.genre_id().to_string() };
    use_case.execute(input.clone()).expect("first delete");
    assert!(matches!(use_case.execute(input), Err(DeleteGenreError::NotFound(_))));
}

#[test]
fn deleted_cast_member_is_hidden_from_a_scoped_repository() {
    let mut repo = CastMemberInMemoryRepository::new();
    let member = CastMember::create(CastMemberCreateCommand {
        cast_member_id: CastMemberId::new(),
        name: "John Doe".to_string(),
        cast_member_type: CastMemberType::Actor,
        created_at: now(),
    });
    repo.insert(&member).expect("insert");
    repo.ignore_soft_deleted();
    let mut use_case = DeleteCastMemberUseCase::new(repo);
    let input = DeleteCastMemberInput { id: member.cast_member_id().to_string() };
    use_case.execute(input.clone()).expect("first delete");
    assert!(matches!(use_case.execute(input), Err(DeleteCastMemberError::NotFound(_))));
}

#[test]
fn deleted_video_is_hidden_from_a_scoped_repository() {
    let mut repo = VideoInMemoryRepository::new();
    let video = Video::create(VideoCreateCommand {
        video_id: VideoId::new(),
        title: "Clip".to_string(),
        description: "Desc".to_string(),
        year_launched: 2024,
        duration: 120,
        rating: Rating::R12,
        is_opened: false,
        is_published: true,
        banner_url: None,
        thumbnail_url: None,
        thumbnail_half_url: None,
        trailer_url: "http://trailer.mp4".to_string(),
        video_url: "http://video.mp4".to_string(),
        categories_props: vec![],
        genres_props: vec![],
        cast_members_props: vec![],
        created_at: now(),
    });
    repo.insert(&video).expect("insert");
    repo.ignore_soft_deleted();
    let mut use_case = DeleteVideoUseCase::new(repo);
    let input = DeleteVideoInput { id: video.video_id().to_string() };
    use_case.execute(input.clone()).expect("first delete");
    assert!(matches!(use_case.execute(input), Err(DeleteVideoError::NotFound(_))));
}
