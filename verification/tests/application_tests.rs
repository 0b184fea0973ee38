use video_catalog::application::cast_member::delete_cast_member::{DeleteCastMemberInput, DeleteCastMemberUseCase};
use video_catalog::application::cast_member::save_cast_member::{SaveCastMemberError, SaveCastMemberInput, SaveCastMemberUseCase};
use video_catalog::application::category::category_output::CategoryOutputMapper;
use video_catalog::application::category::delete_category::{DeleteCategoryError, DeleteCategoryInput, DeleteCategoryUseCase};
use video_catalog::application::category::get_category::{GetCategoryError, GetCategoryInput, GetCategoryUseCase};
use video_catalog::application::category::list_all_categories::ListAllCategoriesUseCase;
use video_catalog::application::category::save_category::{SaveCategoryError, SaveCategoryInput, SaveCategoryUseCase};
use video_catalog::application::genre::delete_genre::{DeleteGenreInput, DeleteGenreUseCase};
use video_catalog::application::genre::genre_output::GenreOutputMapper;
use video_catalog::application::genre::get_genre::{GetGenreInput, GetGenreUseCase};
use video_catalog::application::genre::list_all_genres::ListAllGenresUseCase;
use video_catalog::application::genre::save_genre::{SaveGenreError, SaveGenreInput, SaveGenreUseCase};
use video_catalog::application::video::delete_video::{DeleteVideoInput, DeleteVideoUseCase};
use video_catalog::application::video::get_video::{GetVideoInput, GetVideoUseCase};
use video_catalog::application::video::list_videos::ListAllVideosUseCase;
use video_catalog::application::video::save_video::{SaveVideoError, SaveVideoInput, SaveVideoUseCase};
use video_catalog::application::video::video_output::VideoOutputMapper;
use video_catalog::domain::cast_member::aggregate::{CastMember, CastMemberCreateCommand};
use video_catalog::domain::cast_member::cast_member_id::CastMemberId;
use video_catalog::domain::cast_member::cast_member_repository::ICastMemberRepository;
use video_catalog::domain::cast_member::cast_member_type::CastMemberType;
use video_catalog::domain::cast_member::nested_cast_member::NestedCastMemberCreateCommand;
use video_catalog::domain::category::aggregate::{Category, CategoryCreateCommand};
use video_catalog::domain::category::category_id::CategoryId;
use video_catalog::domain::category::category_repository::ICategoryRepository;
use video_catalog::domain::category::nested_category::NestedCategoryCreateCommand;
use video_catalog::domain::genre::aggregate::{Genre, GenreCreateCommand};
use video_catalog::domain::genre::genre_id::GenreId;
use video_catalog::domain::genre::genre_repository::IGenreRepository;
use video_catalog::domain::genre::nested_genre::NestedGenreCreateCommand;
use video_catalog::domain::video::aggregate::{Video, VideoCreateCommand};
use video_catalog::domain::video::rating::Rating;
use video_catalog::domain::video::video_id::VideoId;
use video_catalog::domain::video::video_repository::IVideoRepository;
use video_catalog::infrastructure::in_memory::cast_member_in_memory_repository::CastMemberInMemoryRepository;
use video_catalog::infrastructure::in_memory::category_in_memory_repository::CategoryInMemoryRepository;
use video_catalog::infrastructure::in_memory::genre_in_memory_repository::GenreInMemoryRepository;
use video_catalog::infrastructure::in_memory::video_in_memory_repository::VideoInMemoryRepository;

/// The current time, in microseconds since the epoch.
fn now() -> i64 {
    chrono::Utc::now().timestamp_micros()
}

fn category(name: &str, description: Option<&str>, is_active: bool) -> Category {
    Category::create(CategoryCreateCommand {
        category_id: CategoryId::new(),
        name: name.to_string(),
        description: description.map(|d| d.to_string()),
        is_active,
        created_at: now(),
    })
}

fn genre(name: &str, is_active: bool, categories: Vec<NestedCategoryCreateCommand>) -> Genre {
    Genre::create(GenreCreateCommand {
        genre_id: GenreId::new(),
        name: name.to_string(),
        categories_props: categories,
        is_active,
        created_at: now(),
    })
}

fn movie_props() -> NestedCategoryCreateCommand {
    NestedCategoryCreateCommand { category_id: CategoryId::new(), name: "Movie".to_string(), is_active: true, deleted_at: None }
}

fn video(title: &str, is_published: bool) -> Video {
    Video::create(VideoCreateCommand {
        video_id: VideoId::new(),
        title: title.to_string(),
        description: "Desc".to_string(),
        year_launched: 2024,
        duration: 120,
        rating: Rating::R12,
        is_opened: false,
        is_published,
        banner_url: None,
        thumbnail_url: None,
        thumbnail_half_url: None,
        trailer_url: "http://trailer.mp4".to_string(),
        video_url: "http://video.mp4".to_string(),
        categories_props: vec![],
        genres_props: vec![],
        cast_members_props: vec![],
        created_at: now(),
    })
}

fn video_input(video_id: String, rating: &str, categories: Vec<String>, genres: Vec<String>, members: Vec<String>) -> SaveVideoInput {
    SaveVideoInput {
        video_id,
        title: "Test Video".to_string(),
        description: "A description".to_string(),
        year_launched: 2024,
        duration: 120,
        rating: rating.to_string(),
        is_opened: false,
        is_published: false,
        banner_url: None,
        thumbnail_url: None,
        thumbnail_half_url: None,
        trailer_url: "http://trailer.mp4".to_string(),
        video_url: "http://video.mp4".to_string(),
        categories_id: categories,
        genres_id: genres,
        cast_members_id: members,
        created_at: now(),
    }
}

// ─── categories ────────────────────────────────────────────────────────────

#[test]
fn should_convert_category_to_output() {
    let category = category("Movie", Some("some description"), true);
    let output = CategoryOutputMapper::to_output(&category);
    assert_eq!(output.id, category.category_id().to_string());
    assert_eq!(output.name, "Movie");
    assert_eq!(output.description, Some("some description".to_string()));
    assert!(output.is_active);
    assert!(output.deleted_at.is_none());
}

#[test]
fn delete_category_should_delete_category() {
    let mut repo = CategoryInMemoryRepository::new();
    let category = category("Movie", None, true);
    repo.insert(&category).expect("insert");
    let mut use_case = DeleteCategoryUseCase::new(repo);
    use_case.execute(DeleteCategoryInput { id: category.category_id().to_string() }).expect("should delete");
}

#[test]
fn delete_category_should_error_when_not_found() {
    let repo = CategoryInMemoryRepository::new();
    let mut use_case = DeleteCategoryUseCase::new(repo);
    let id = CategoryId::new().to_string();
    let result = use_case.execute(DeleteCategoryInput { id: id.clone() });
    assert!(result.is_err());
    match result {
        Err(DeleteCategoryError::NotFound(e)) => assert_eq!(e.to_string(), format!("Category Not Found using ID {id}")),
        _ => panic!("expected not found"),
    }
}

#[test]
fn delete_category_refuses_invalid_id() {
    let mut use_case = DeleteCategoryUseCase::new(CategoryInMemoryRepository::new());
    let result = use_case.execute(DeleteCategoryInput { id: "abc".to_string() });
    match result {
        Err(e @ DeleteCategoryError::InvalidId(_)) => {
            assert_eq!(e.to_string(), "invalid category id: Invalid UUID: abc");
            assert!(matches!(e, DeleteCategoryError::InvalidId(m) if m == "Invalid UUID: abc"));
        },
        _ => panic!("expected invalid id"),
    }
}

#[test]
fn should_return_category() {
    let mut repo = CategoryInMemoryRepository::new();
    let category = category("Movie", Some("desc"), true);
    repo.insert(&category).expect("insert");
    let use_case = GetCategoryUseCase::new(repo);
    let output = use_case.execute(GetCategoryInput { id: category.category_id().to_string() }).expect("should find");
    assert_eq!(output.id, category.category_id().to_string());
    assert_eq!(output.name, "Movie");
}

#[test]
fn get_category_should_error_when_not_found() {
    let repo = CategoryInMemoryRepository::new();
    let use_case = GetCategoryUseCase::new(repo);
    let result = use_case.execute(GetCategoryInput { id: CategoryId::new().to_string() });
    assert!(result.is_err());
}

#[test]
fn get_category_does_not_return_inactive() {
    let mut repo = CategoryInMemoryRepository::new();
    let category = category("Movie", None, false);
    repo.insert(&category).expect("insert");
    let use_case = GetCategoryUseCase::new(repo);
    let result = use_case.execute(GetCategoryInput { id: category.category_id().to_string() });
    assert!(matches!(result, Err(GetCategoryError::NotFound(_))));
}

#[test]
fn should_list_all_categories() {
    let mut repo = CategoryInMemoryRepository::new();
    repo.insert(&category("Movie", None, true)).expect("insert");
    repo.insert(&category("Documentary", None, true)).expect("insert");
    let use_case = ListAllCategoriesUseCase::new(repo);
    let output = use_case.execute().expect("should list");
    assert_eq!(output.len(), 2);
    assert_eq!(output[0].name, "Documentary");
    assert_eq!(output[1].name, "Movie");
}

#[test]
fn save_category_should_create_category() {
    let repo = CategoryInMemoryRepository::new();
    let mut use_case = SaveCategoryUseCase::new(repo);
    let category_id = CategoryId::new();
    let output = use_case
        .execute(SaveCategoryInput {
            category_id: category_id.to_string(),
            name: "Movie".to_string(),
            description: Some("some description".to_string()),
            is_active: true,
            created_at: now(),
        })
        .expect("should create");
    assert_eq!(output.id, category_id.to_string());
    assert!(output.created);
}

#[test]
fn save_category_should_update_category() {
    let mut repo = CategoryInMemoryRepository::new();
    let category = category("Movie", None, true);
    repo.insert(&category).expect("insert");
    let mut use_case = SaveCategoryUseCase::new(repo);
    let output = use_case
        .execute(SaveCategoryInput {
            category_id: category.category_id().to_string(),
            name: "Documentary".to_string(),
            description: Some("updated".to_string()),
            is_active: false,
            created_at: now(),
        })
        .expect("should update");
    assert_eq!(output.id, category.category_id().to_string());
    assert!(!output.created);
}

#[test]
fn save_category_should_fail_with_invalid_name() {
    let repo = CategoryInMemoryRepository::new();
    let mut use_case = SaveCategoryUseCase::new(repo);
    let result = use_case.execute(SaveCategoryInput {
        category_id: CategoryId::new().to_string(),
        name: "a".repeat(256),
        description: None,
        is_active: true,
        created_at: now(),
    });
    assert!(result.is_err());
    match result {
        Err(e @ SaveCategoryError::Validation(_)) => assert_eq!(e.to_string(), "Entity Validation Error"),
        _ => panic!("expected a validation error"),
    }
}

// ─── genres ───────────────────────────────────────────────────────────────

#[test]
fn should_convert_genre_to_output() {
    let cat_id = CategoryId::new();
    let genre = genre(
        "Action",
        true,
        vec![NestedCategoryCreateCommand { category_id: cat_id, name: "Movie".to_string(), is_active: true, deleted_at: None }],
    );
    let output = GenreOutputMapper::to_output(&genre);
    assert_eq!(output.id, genre.genre_id().to_string());
    assert_eq!(output.name, "Action");
    assert!(output.is_active);
    assert_eq!(output.categories.len(), 1);
    assert_eq!(output.categories[0].id, cat_id.to_string());
    assert_eq!(output.categories[0].name, "Movie");
    assert!(output.categories[0].is_active);
    assert!(output.categories[0].deleted_at.is_none());
}

#[test]
fn should_convert_genre_without_categories() {
    let genre = genre("Drama", false, vec![]);
    let output = GenreOutputMapper::to_output(&genre);
    assert_eq!(output.name, "Drama");
    assert!(!output.is_active);
    assert!(output.categories.is_empty());
}

#[test]
fn genre_output_orders_categories_by_name() {
    let z = NestedCategoryCreateCommand { name: "Zeta".to_string(), ..movie_props() };
    let a = NestedCategoryCreateCommand { name: "Alpha".to_string(), ..movie_props() };
    let m = NestedCategoryCreateCommand { name: "Mid".to_string(), ..movie_props() };
    let genre = genre("Action", true, vec![z, a, m]);
    let output = GenreOutputMapper::to_output(&genre);
    let names: Vec<String> = output.categories.iter().map(|c| c.name.clone()).collect();
    assert_eq!(names, vec!["Alpha".to_string(), "Mid".to_string(), "Zeta".to_string()]);
}

#[test]
fn delete_genre_should_delete_genre() {
    let mut repo = GenreInMemoryRepository::new();
    let genre = genre("Action", true, vec![movie_props()]);
    repo.insert(&genre).expect("insert");
    let mut use_case = DeleteGenreUseCase::new(repo);
    use_case.execute(DeleteGenreInput { id: genre.genre_id().to_string() }).expect("should delete");
}

#[test]
fn delete_genre_should_error_when_not_found() {
    let mut use_case = DeleteGenreUseCase::new(GenreInMemoryRepository::new());
    let result = use_case.execute(DeleteGenreInput { id: GenreId::new().to_string() });
    assert!(result.is_err());
}

#[test]
fn should_return_genre() {
    let mut repo = GenreInMemoryRepository::new();
    let genre = genre("Action", true, vec![movie_props()]);
    repo.insert(&genre).expect("insert");
    let use_case = GetGenreUseCase::new(repo);
    let output = use_case.execute(GetGenreInput { id: genre.genre_id().to_string() }).expect("should find");
    assert_eq!(output.id, genre.genre_id().to_string());
    assert_eq!(output.name, "Action");
    assert_eq!(output.categories.len(), 1);
}

#[test]
fn get_genre_should_error_when_not_found() {
    let use_case = GetGenreUseCase::new(GenreInMemoryRepository::new());
    let result = use_case.execute(GetGenreInput { id: GenreId::new().to_string() });
    assert!(result.is_err());
}

#[test]
fn should_error_when_inactive() {
    let mut repo = GenreInMemoryRepository::new();
    let genre = genre("Action", false, vec![]);
    repo.insert(&genre).expect("insert");
    let use_case = GetGenreUseCase::new(repo);
    let result = use_case.execute(GetGenreInput { id: genre.genre_id().to_string() });
    assert!(result.is_err());
}

#[test]
fn should_list_all_active_genres() {
    let mut repo = GenreInMemoryRepository::new();
    repo.insert(&genre("Drama", true, vec![movie_props()])).expect("insert");
    repo.insert(&genre("Action", true, vec![])).expect("insert");
    let use_case = ListAllGenresUseCase::new(repo);
    let output = use_case.execute().expect("should list");
    assert_eq!(output.len(), 2);
    assert_eq!(output[0].name, "Action");
    assert_eq!(output[1].name, "Drama");
}

#[test]
fn should_exclude_inactive_genres() {
    let mut repo = GenreInMemoryRepository::new();
    repo.insert(&genre("Action", true, vec![])).expect("insert");
    repo.insert(&genre("Drama", false, vec![])).expect("insert");
    let use_case = ListAllGenresUseCase::new(repo);
    let output = use_case.execute().expect("should list");
    assert_eq!(output.len(), 1);
    assert_eq!(output[0].name, "Action");
}

#[test]
fn should_return_empty_when_no_genres() {
    let use_case = ListAllGenresUseCase::new(GenreInMemoryRepository::new());
    let output = use_case.execute().expect("should list");
    assert!(output.is_empty());
}

#[test]
fn save_genre_should_create_genre() {
    let mut category_repo = CategoryInMemoryRepository::new();
    let category = category("Movie", Some("some description"), true);
    category_repo.insert(&category).expect("insert category");
    let mut use_case = SaveGenreUseCase::new(GenreInMemoryRepository::new(), category_repo);
    let genre_id = GenreId::new();
    let output = use_case
        .execute(SaveGenreInput {
            genre_id: genre_id.to_string(),
            name: "Action".to_string(),
            categories_id: vec![category.category_id().to_string()],
            is_active: true,
            created_at: now(),
        })
        .expect("should create");
    assert_eq!(output.id, genre_id.to_string());
    assert!(output.created);
}

#[test]
fn save_genre_should_update_genre() {
    let mut category_repo = CategoryInMemoryRepository::new();
    let category = category("Movie", None, true);
    category_repo.insert(&category).expect("insert category");
    let mut genre_repo = GenreInMemoryRepository::new();
    let genre = genre(
        "Action",
        true,
        vec![NestedCategoryCreateCommand { category_id: *category.category_id(), name: "Movie".to_string(), is_active: true, deleted_at: None }],
    );
    genre_repo.insert(&genre).expect("insert genre");
    let mut use_case = SaveGenreUseCase::new(genre_repo, category_repo);
    let output = use_case
        .execute(SaveGenreInput {
            genre_id: genre.genre_id().to_string(),
            name: "Drama".to_string(),
            categories_id: vec![category.category_id().to_string()],
            is_active: false,
            created_at: now(),
        })
        .expect("should update");
    assert_eq!(output.id, genre.genre_id().to_string());
    assert!(!output.created);
}

#[test]
fn save_genre_should_fail_with_invalid_name() {
    let mut category_repo = CategoryInMemoryRepository::new();
    let category = category("Movie", None, true);
    category_repo.insert(&category).expect("insert category");
    let mut use_case = SaveGenreUseCase::new(GenreInMemoryRepository::new(), category_repo);
    let result = use_case.execute(SaveGenreInput {
        genre_id: GenreId::new().to_string(),
        name: "a".repeat(256),
        categories_id: vec![category.category_id().to_string()],
        is_active: true,
        created_at: now(),
    });
    assert!(result.is_err());
}

#[test]
fn save_genre_should_fail_when_categories_not_found() {
    let mut use_case = SaveGenreUseCase::new(GenreInMemoryRepository::new(), CategoryInMemoryRepository::new());
    let missing = CategoryId::new();
    let result = use_case.execute(SaveGenreInput {
        genre_id: GenreId::new().to_string(),
        name: "Action".to_string(),
        categories_id: vec![missing.to_string()],
        is_active: true,
        created_at: now(),
    });
    assert!(matches!(result, Err(SaveGenreError::CategoriesNotFound(_))));
    match result {
        Err(e @ SaveGenreError::CategoriesNotFound(_)) => {
            assert_eq!(e.to_string(), format!("categories not found: [\"{}\"]", missing.to_string()));
        },
        _ => panic!("expected categories not found"),
    }
}

#[test]
fn save_genre_refuses_invalid_category_id() {
    let mut use_case = SaveGenreUseCase::new(GenreInMemoryRepository::new(), CategoryInMemoryRepository::new());
    let result = use_case.execute(SaveGenreInput {
        genre_id: GenreId::new().to_string(),
        name: "Action".to_string(),
        categories_id: vec!["nope".to_string()],
        is_active: true,
        created_at: now(),
    });
    match result {
        Err(e @ SaveGenreError::InvalidId(_)) => {
            assert_eq!(e.to_string(), "invalid genre id: Invalid UUID: nope");
            assert!(matches!(e, SaveGenreError::InvalidId(m) if m == "Invalid UUID: nope"));
        },
        _ => panic!("expected invalid id"),
    }
}

// ─── cast members ─────────────────────────────────────────────────────────

#[test]
fn delete_cast_member_should_delete_cast_member() {
    let mut repo = CastMemberInMemoryRepository::new();
    let member = CastMember::create(CastMemberCreateCommand {
        cast_member_id: CastMemberId::new(),
        name: "John Doe".to_string(),
        cast_member_type: CastMemberType::Actor,
        created_at: now(),
    });
    repo.insert(&member).expect("insert");
    let mut use_case = DeleteCastMemberUseCase::new(repo);
    use_case.execute(DeleteCastMemberInput { id: member.cast_member_id().to_string() }).expect("should delete");
}

#[test]
fn delete_cast_member_should_error_when_not_found() {
    let mut use_case = DeleteCastMemberUseCase::new(CastMemberInMemoryRepository::new());
    let result = use_case.execute(DeleteCastMemberInput { id: CastMemberId::new().to_string() });
    assert!(result.is_err());
}

#[test]
fn save_cast_member_should_create_cast_member() {
    let mut use_case = SaveCastMemberUseCase::new(CastMemberInMemoryRepository::new());
    let id = CastMemberId::new();
    let output = use_case
        .execute(SaveCastMemberInput { cast_member_id: id.to_string(), name: "John Doe".to_string(), cast_member_type: 2, created_at: now() })
        .expect("should create");
    assert_eq!(output.id, id.to_string());
    assert!(output.created);
}

#[test]
fn save_cast_member_should_update_cast_member() {
    let mut repo = CastMemberInMemoryRepository::new();
    let member = CastMember::create(CastMemberCreateCommand {
        cast_member_id: CastMemberId::new(),
        name: "John Doe".to_string(),
        cast_member_type: CastMemberType::Actor,
        created_at: now(),
    });
    repo.insert(&member).expect("insert");
    let mut use_case = SaveCastMemberUseCase::new(repo);
    let output = use_case
        .execute(SaveCastMemberInput {
            cast_member_id: member.cast_member_id().to_string(),
            name: "Jane Doe".to_string(),
            cast_member_type: 1,
            created_at: now(),
        })
        .expect("should update");
    assert_eq!(output.id, member.cast_member_id().to_string());
    assert!(!output.created);
}

#[test]
fn save_cast_member_should_fail_with_invalid_name() {
    let mut use_case = SaveCastMemberUseCase::new(CastMemberInMemoryRepository::new());
    let result = use_case.execute(SaveCastMemberInput {
        cast_member_id: CastMemberId::new().to_string(),
        name: "a".repeat(256),
        cast_member_type: 2,
        created_at: now(),
    });
    assert!(result.is_err());
}

#[test]
fn save_cast_member_refuses_invalid_type() {
    let mut use_case = SaveCastMemberUseCase::new(CastMemberInMemoryRepository::new());
    let result = use_case.execute(SaveCastMemberInput {
        cast_member_id: CastMemberId::new().to_string(),
        name: "John".to_string(),
        cast_member_type: 9,
        created_at: now(),
    });
    match result {
        Err(SaveCastMemberError::InvalidType(m)) => assert_eq!(
            m,
            "invalid cast member type: Invalid cast member type: 9. Valid values are 1 (Director) or 2 (Actor)"
        ),
        _ => panic!("expected invalid type"),
    }
}

// ─── videos ───────────────────────────────────────────────────────────────

fn setup_repos() -> (VideoInMemoryRepository, CategoryInMemoryRepository, GenreInMemoryRepository, CastMemberInMemoryRepository, CategoryId, GenreId, CastMemberId) {
    let mut category_repo = CategoryInMemoryRepository::new();
    let mut genre_repo = GenreInMemoryRepository::new();
    let mut cast_member_repo = CastMemberInMemoryRepository::new();
    let category = category("Movie", None, true);
    category_repo.insert(&category).expect("insert category");
    let genre = genre("Action", true, vec![]);
    genre_repo.insert(&genre).expect("insert genre");
    let member = CastMember::create(CastMemberCreateCommand {
        cast_member_id: CastMemberId::new(),
        name: "John Doe".to_string(),
        cast_member_type: CastMemberType::Actor,
        created_at: now(),
    });
    cast_member_repo.insert(&member).expect("insert cast member");
    (
        VideoInMemoryRepository::new(),
        category_repo,
        genre_repo,
        cast_member_repo,
        *category.category_id(),
        *genre.genre_id(),
        *member.cast_member_id(),
    )
}

#[test]
fn should_convert_video_to_output() {
    let cat_id = CategoryId::new();
    let genre_id = GenreId::new();
    let cast_member_id = CastMemberId::new();
    let video = Video::create(VideoCreateCommand {
        video_id: VideoId::new(),
        title: "Test Video".to_string(),
        description: "A test description".to_string(),
        year_launched: 2024,
        duration: 120,
        rating: Rating::R12,
        is_opened: false,
        is_published: true,
        banner_url: Some("http://banner.jpg".to_string()),
        thumbnail_url: None,
        thumbnail_half_url: None,
        trailer_url: "http://trailer.mp4".to_string(),
        video_url: "http://video.mp4".to_string(),
        categories_props: vec![NestedCategoryCreateCommand { category_id: cat_id, name: "Movie".to_string(), is_active: true, deleted_at: None }],
        genres_props: vec![NestedGenreCreateCommand { genre_id, name: "Action".to_string(), is_active: true, deleted_at: None }],
        cast_members_props: vec![NestedCastMemberCreateCommand {
            cast_member_id,
            name: "John Doe".to_string(),
            cast_member_type: CastMemberType::Actor,
            deleted_at: None,
        }],
        created_at: now(),
    });
    let output = VideoOutputMapper::to_output(&video);
    assert_eq!(output.id, video.video_id().to_string());
    assert_eq!(output.title, "Test Video");
    assert_eq!(output.description, "A test description");
    assert_eq!(output.year_launched, 2024);
    assert_eq!(output.duration, 120);
    assert_eq!(output.rating, "12");
    assert!(!output.is_opened);
    assert!(output.is_published);
    assert_eq!(output.banner_url, Some("http://banner.jpg".to_string()));
    assert!(output.thumbnail_url.is_none());
    assert_eq!(output.trailer_url, "http://trailer.mp4");
    assert_eq!(output.video_url, "http://video.mp4");
    assert_eq!(output.categories.len(), 1);
    assert_eq!(output.categories[0].id, cat_id.to_string());
    assert_eq!(output.categories[0].name, "Movie");
    assert_eq!(output.genres.len(), 1);
    assert_eq!(output.genres[0].id, genre_id.to_string());
    assert_eq!(output.genres[0].name, "Action");
    assert_eq!(output.cast_members.len(), 1);
    assert_eq!(output.cast_members[0].id, cast_member_id.to_string());
    assert_eq!(output.cast_members[0].name, "John Doe");
    assert_eq!(output.cast_members[0].cast_member_type, CastMemberType::Actor);
}

#[test]
fn should_convert_video_without_relations() {
    let video = Video::create(VideoCreateCommand {
        title: "Minimal Video".to_string(),
        description: "Minimal".to_string(),
        year_launched: 2020,
        duration: 60,
        rating: Rating::RL,
        is_opened: true,
        is_published: false,
        ..video_command()
    });
    let output = VideoOutputMapper::to_output(&video);
    assert_eq!(output.title, "Minimal Video");
    assert_eq!(output.rating, "L");
    assert!(output.is_opened);
    assert!(!output.is_published);
    assert!(output.categories.is_empty());
    assert!(output.genres.is_empty());
    assert!(output.cast_members.is_empty());
}

fn video_command() -> VideoCreateCommand {
    VideoCreateCommand {
        video_id: VideoId::new(),
        title: "Title".to_string(),
        description: "Desc".to_string(),
        year_launched: 2024,
        duration: 120,
        rating: Rating::R12,
        is_opened: false,
        is_published: true,
        banner_url: None,
        thumbnail_url: None,
        thumbnail_half_url: None,
        trailer_url: "http://trailer.mp4".to_string(),
        video_url: "http://video.mp4".to_string(),
        categories_props: vec![],
        genres_props: vec![],
        cast_members_props: vec![],
        created_at: now(),
    }
}

#[test]
fn delete_video_should_delete_video() {
    let mut repo = VideoInMemoryRepository::new();
    let video = video("Test", true);
    repo.insert(&video).expect("insert");
    let mut use_case = DeleteVideoUseCase::new(repo);
    use_case.execute(DeleteVideoInput { id: video.video_id().to_string() }).expect("should delete");
}

#[test]
fn delete_video_should_error_when_not_found() {
    let mut use_case = DeleteVideoUseCase::new(VideoInMemoryRepository::new());
    let result = use_case.execute(DeleteVideoInput { id: VideoId::new().to_string() });
    assert!(result.is_err());
}

#[test]
fn should_return_video() {
    let mut repo = VideoInMemoryRepository::new();
    let video = video("Test Video", true);
    repo.insert(&video).expect("insert");
    let use_case = GetVideoUseCase::new(repo);
    let output = use_case.execute(GetVideoInput { id: video.video_id().to_string() }).expect("should find");
    assert_eq!(output.id, video.video_id().to_string());
    assert_eq!(output.title, "Test Video");
}

#[test]
fn get_video_should_error_when_not_found() {
    let use_case = GetVideoUseCase::new(VideoInMemoryRepository::new());
    let result = use_case.execute(GetVideoInput { id: VideoId::new().to_string() });
    assert!(result.is_err());
}

#[test]
fn should_error_when_not_published() {
    let mut repo = VideoInMemoryRepository::new();
    let video = video("Unpublished", false);
    repo.insert(&video).expect("insert");
    let use_case = GetVideoUseCase::new(repo);
    let result = use_case.execute(GetVideoInput { id: video.video_id().to_string() });
    assert!(result.is_err());
}

#[test]
fn should_list_all_published_videos() {
    let mut repo = VideoInMemoryRepository::new();
    repo.insert(&video("Zebra Movie", true)).expect("insert");
    repo.insert(&video("Alpha Movie", true)).expect("insert");
    let use_case = ListAllVideosUseCase::new(repo);
    let output = use_case.execute().expect("should list");
    assert_eq!(output.len(), 2);
    assert_eq!(output[0].title, "Alpha Movie");
    assert_eq!(output[1].title, "Zebra Movie");
}

#[test]
fn should_exclude_unpublished_videos() {
    let mut repo = VideoInMemoryRepository::new();
    repo.insert(&video("Published", true)).expect("insert");
    repo.insert(&video("Unpublished", false)).expect("insert");
    let use_case = ListAllVideosUseCase::new(repo);
    let output = use_case.execute().expect("should list");
    assert_eq!(output.len(), 1);
    assert_eq!(output[0].title, "Published");
}

#[test]
fn should_return_empty_when_no_videos() {
    let use_case = ListAllVideosUseCase::new(VideoInMemoryRepository::new());
    let output = use_case.execute().expect("should list");
    assert!(output.is_empty());
}

#[test]
fn save_video_should_create_video() {
    let (video_repo, category_repo, genre_repo, cast_member_repo, cat_id, genre_id, member_id) = setup_repos();
    let mut use_case = SaveVideoUseCase::new(video_repo, category_repo, genre_repo, cast_member_repo);
    let video_id = VideoId::new();
    let output = use_case
        .execute(video_input(video_id.to_string(), "12", vec![cat_id.to_string()], vec![genre_id.to_string()], vec![member_id.to_string()]))
        .expect("should create");
    assert_eq!(output.id, video_id.to_string());
    assert!(output.created);
}

#[test]
fn save_video_should_update_video() {
    let (mut video_repo, category_repo, genre_repo, cast_member_repo, cat_id, genre_id, member_id) = setup_repos();
    let video = Video::create(VideoCreateCommand {
        title: "Original".to_string(),
        rating: Rating::R10,
        categories_props: vec![NestedCategoryCreateCommand { category_id: cat_id, name: "Movie".to_string(), is_active: true, deleted_at: None }],
        genres_props: vec![NestedGenreCreateCommand { genre_id, name: "Action".to_string(), is_active: true, deleted_at: None }],
        cast_members_props: vec![NestedCastMemberCreateCommand {
            cast_member_id: member_id,
            name: "John Doe".to_string(),
            cast_member_type: CastMemberType::Actor,
            deleted_at: None,
        }],
        ..video_command()
    });
    video_repo.insert(&video).expect("insert video");
    let mut use_case = SaveVideoUseCase::new(video_repo, category_repo, genre_repo, cast_member_repo);
    let input = SaveVideoInput {
        title: "Updated".to_string(),
        year_launched: 2025,
        duration: 150,
        is_opened: true,
        is_published: true,
        banner_url: Some("http://banner.jpg".to_string()),
        ..video_input(video.video_id().to_string(), "14", vec![cat_id.to_string()], vec![genre_id.to_string()], vec![member_id.to_string()])
    };
    let output = use_case.execute(input).expect("should update");
    assert_eq!(output.id, video.video_id().to_string());
    assert!(!output.created);
}

#[test]
fn save_video_should_fail_when_categories_not_found() {
    let (video_repo, category_repo, genre_repo, cast_member_repo, _, genre_id, member_id) = setup_repos();
    let mut use_case = SaveVideoUseCase::new(video_repo, category_repo, genre_repo, cast_member_repo);
    let result = use_case.execute(video_input(VideoId::new().to_string(), "L", vec![CategoryId::new().to_string()], vec![genre_id.to_string()], vec![member_id.to_string()]));
    assert!(matches!(result, Err(SaveVideoError::CategoriesNotFound(_))));
}

#[test]
fn should_fail_when_genres_not_found() {
    let (video_repo, category_repo, genre_repo, cast_member_repo, cat_id, _, member_id) = setup_repos();
    let mut use_case = SaveVideoUseCase::new(video_repo, category_repo, genre_repo, cast_member_repo);
    let result = use_case.execute(video_input(VideoId::new().to_string(), "L", vec![cat_id.to_string()], vec![GenreId::new().to_string()], vec![member_id.to_string()]));
    assert!(matches!(result, Err(SaveVideoError::GenresNotFound(_))));
}

#[test]
fn should_fail_when_cast_members_not_found() {
    let (video_repo, category_repo, genre_repo, cast_member_repo, cat_id, genre_id, _) = setup_repos();
    let mut use_case = SaveVideoUseCase::new(video_repo, category_repo, genre_repo, cast_member_repo);
    let result = use_case.execute(video_input(VideoId::new().to_string(), "L", vec![cat_id.to_string()], vec![genre_id.to_string()], vec![CastMemberId::new().to_string()]));
    assert!(matches!(result, Err(SaveVideoError::CastMembersNotFound(_))));
}

#[test]
fn save_video_should_fail_with_invalid_rating() {
    let (video_repo, category_repo, genre_repo, cast_member_repo, cat_id, genre_id, member_id) = setup_repos();
    let mut use_case = SaveVideoUseCase::new(video_repo, category_repo, genre_repo, cast_member_repo);
    let result = use_case.execute(video_input(VideoId::new().to_string(), "PG", vec![cat_id.to_string()], vec![genre_id.to_string()], vec![member_id.to_string()]));
    assert!(matches!(result, Err(SaveVideoError::InvalidRating(_))));
    match result {
        Err(e @ SaveVideoError::InvalidRating(_)) => {
            assert_eq!(e.to_string(), "invalid rating: Invalid rating: PG. Valid values are L, 10, 12, 14, 16, 18");
            assert!(matches!(e, SaveVideoError::InvalidRating(m) if m == "Invalid rating: PG. Valid values are L, 10, 12, 14, 16, 18"));
        },
        _ => panic!("expected invalid rating"),
    }
}

#[test]
fn save_video_checks_rating_before_categories() {
    let (video_repo, category_repo, genre_repo, cast_member_repo, _, _, _) = setup_repos();
    let mut use_case = SaveVideoUseCase::new(video_repo, category_repo, genre_repo, cast_member_repo);
    let result = use_case.execute(video_input(VideoId::new().to_string(), "PG", vec!["bad".to_string()], vec![], vec![]));
    assert!(matches!(result, Err(SaveVideoError::InvalidRating(_))));
    let result = use_case.execute(video_input(VideoId::new().to_string(), "L", vec!["bad".to_string()], vec![], vec![]));
    match result {
        Err(e @ SaveVideoError::InvalidId(_)) => {
            assert_eq!(e.to_string(), "invalid video id: Invalid UUID: bad");
            assert!(matches!(e, SaveVideoError::InvalidId(m) if m == "Invalid UUID: bad"));
        },
        _ => panic!("expected invalid id"),
    }
}

#[test]
fn video_output_orders_relations_by_name() {
    let mut videos = VideoInMemoryRepository::new();
    let movie = CategoryId::new();
    let documentary = CategoryId::new();
    let video = Video::create(VideoCreateCommand {
        categories_props: vec![
            NestedCategoryCreateCommand { category_id: movie, name: "Movie".to_string(), is_active: true, deleted_at: None },
            NestedCategoryCreateCommand { category_id: documentary, name: "Documentary".to_string(), is_active: true, deleted_at: None },
        ],
        ..video_command()
    });
    videos.insert(&video).expect("insert");
    let output = GetVideoUseCase::new(videos).execute(GetVideoInput { id: video.video_id().to_string() }).expect("found");
    let ids: Vec<String> = output.categories.iter().map(|c| c.id.clone()).collect();
    assert_eq!(ids, vec![documentary.to_string(), movie.to_string()]);
}
