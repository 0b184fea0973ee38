use video_catalog::domain::cast_member::aggregate::{CastMember, CastMemberCreateCommand};
use video_catalog::domain::cast_member::cast_member_id::CastMemberId;
use video_catalog::domain::cast_member::cast_member_repository::ICastMemberRepository;
use video_catalog::domain::cast_member::cast_member_type::CastMemberType;
use video_catalog::domain::category::aggregate::{Category, CategoryCreateCommand};
use video_catalog::domain::category::category_id::CategoryId;
use video_catalog::domain::category::category_repository::ICategoryRepository;
use video_catalog::domain::category::nested_category::NestedCategoryCreateCommand;
use video_catalog::domain::genre::aggregate::{Genre, GenreCreateCommand};
use video_catalog::domain::genre::genre_id::GenreId;
use video_catalog::domain::genre::genre_repository::IGenreRepository;
use video_catalog::domain::shared::criteria::{Criteria, ScopedRepository};
use video_catalog::domain::shared::repository::{SortDirection, SortOrder};
use video_catalog::domain::video::aggregate::{Video, VideoCreateCommand};
use video_catalog::domain::video::rating::Rating;
use video_catalog::domain::video::video_id::VideoId;
use video_catalog::domain::video::video_repository::IVideoRepository;
use video_catalog::infrastructure::in_memory::cast_member_in_memory_repository::CastMemberInMemoryRepository;
use video_catalog::infrastructure::in_memory::category_in_memory_repository::CategoryInMemoryRepository;
use video_catalog::infrastructure::in_memory::genre_in_memory_repository::GenreInMemoryRepository;
use video_catalog::infrastructure::in_memory::soft_delete_criteria::SoftDeleteInMemoryCriteria;
use video_catalog::infrastructure::in_memory::video_in_memory_repository::VideoInMemoryRepository;

/// The current time, in microseconds since the epoch.
fn now() -> i64 {
    chrono::Utc::now().timestamp_micros()
}

fn make_category() -> Category {
    Category::create(CategoryCreateCommand {
        category_id: CategoryId::new(),
        name: "Movie".to_string(),
        description: Some("some description".to_string()),
        is_active: true,
        created_at: now(),
    })
}

fn make_named_category(name: &str, created_at: i64) -> Category {
    Category::create(CategoryCreateCommand {
        category_id: CategoryId::new(),
        name: name.to_string(),
        description: None,
        is_active: true,
        created_at,
    })
}

fn make_genre() -> Genre {
    Genre::create(GenreCreateCommand {
        genre_id: GenreId::new(),
        name: "Action".to_string(),
        categories_props: vec![NestedCategoryCreateCommand {
            category_id: CategoryId::new(),
            name: "Movie".to_string(),
            is_active: true,
            deleted_at: None,
        }],
        is_active: true,
        created_at: now(),
    })
}

fn make_cast_member() -> CastMember {
    CastMember::create(CastMemberCreateCommand {
        cast_member_id: CastMemberId::new(),
        name: "John Doe".to_string(),
        cast_member_type: CastMemberType::Actor,
        created_at: now(),
    })
}

fn make_video() -> Video {
    Video::create(VideoCreateCommand {
        video_id: VideoId::new(),
        title: "Test Video".to_string(),
        description: "A test description".to_string(),
        year_launched: 2024,
        duration: 120,
        rating: Rating::R12,
        is_opened: false,
        is_published: true,
        banner_url: None,
        thumbnail_url: None,
        thumbnail_half_url: None,
        trailer_url: "http://trailer.mp4".to_string(),
        video_url: "http://video.mp4".to_string(),
        categories_props: vec![],
        genres_props: vec![],
        cast_members_props: vec![],
        created_at: now(),
    })
}

#[test]
fn category_in_memory_repository_should_insert_and_find_by_id() {
    let mut repo = CategoryInMemoryRepository::new();
    let category = make_category();
    repo.insert(&category).unwrap();
    let found = repo.find_by_id(category.category_id()).unwrap();
    assert!(found.is_some());
    assert_eq!(found.unwrap().name(), "Movie");
}

#[test]
fn category_in_memory_repository_should_return_none_when_not_found() {
    let repo = CategoryInMemoryRepository::new();
    let found = repo.find_by_id(&CategoryId::new()).unwrap();
    assert!(found.is_none());
}

#[test]
fn category_in_memory_repository_should_update_category() {
    let mut repo = CategoryInMemoryRepository::new();
    let mut category = make_category();
    repo.insert(&category).unwrap();
    category.change_name("Documentary".to_string());
    repo.update(&category).unwrap();
    let found = repo.find_by_id(category.category_id()).unwrap().unwrap();
    assert_eq!(found.name(), "Documentary");
}

#[test]
fn category_in_memory_repository_should_delete_category() {
    let mut repo = CategoryInMemoryRepository::new();
    let category = make_category();
    repo.insert(&category).unwrap();
    repo.delete(category.category_id()).unwrap();
    let found = repo.find_by_id(category.category_id()).unwrap();
    assert!(found.is_none());
}

#[test]
fn should_find_by_filter() {
    let mut repo = CategoryInMemoryRepository::new();
    let category = make_category();
    repo.insert(&category).unwrap();
    let found = repo.find_one_by(Some(category.category_id()), Some(true)).unwrap();
    assert!(found.is_some());
    let not_found = repo.find_one_by(Some(category.category_id()), Some(false)).unwrap();
    assert!(not_found.is_none());
}

#[test]
fn category_in_memory_repository_should_error_on_update_not_found() {
    let mut repo = CategoryInMemoryRepository::new();
    let category = make_category();
    let result = repo.update(&category);
    assert!(result.is_err());
}

#[test]
fn category_in_memory_repository_should_error_on_delete_not_found() {
    let mut repo = CategoryInMemoryRepository::new();
    let result = repo.delete(&CategoryId::new());
    assert!(result.is_err());
}

#[test]
fn category_find_by_orders_by_name_and_keeps_ties_in_storage_order() {
    let mut repo = CategoryInMemoryRepository::new();
    let b = make_named_category("b", 3);
    let a1 = make_named_category("a", 2);
    let a2 = make_named_category("a", 1);
    repo.insert(&b).unwrap();
    repo.insert(&a1).unwrap();
    repo.insert(&a2).unwrap();
    let order = SortOrder { field: "name".to_string(), direction: SortDirection::Asc };
    let found = repo.find_by(None, None, Some(&order)).unwrap();
    let ids: Vec<CategoryId> = found.iter().map(|c| *c.category_id()).collect();
    assert_eq!(ids, vec![*a1.category_id(), *a2.category_id(), *b.category_id()]);
    let order = SortOrder { field: "created_at".to_string(), direction: SortDirection::Desc };
    let found = repo.find_by(None, None, Some(&order)).unwrap();
    let names: Vec<i64> = found.iter().map(|c| c.created_at()).collect();
    assert_eq!(names, vec![3, 2, 1]);
    let order = SortOrder { field: "unknown".to_string(), direction: SortDirection::Desc };
    let found = repo.find_by(None, None, Some(&order)).unwrap();
    let ids: Vec<CategoryId> = found.iter().map(|c| *c.category_id()).collect();
    assert_eq!(ids, vec![*b.category_id(), *a1.category_id(), *a2.category_id()]);
}

#[test]
fn category_find_by_ids_and_exists_by_id() {
    let mut repo = CategoryInMemoryRepository::new();
    let a = make_category();
    let b = make_category();
    repo.bulk_insert(&[a.clone(), b.clone()]).unwrap();
    let missing = CategoryId::new();
    let result = repo.find_by_ids(&[*b.category_id(), missing]).unwrap();
    assert_eq!(result.exists.len(), 1);
    assert_eq!(result.exists[0].category_id(), b.category_id());
    assert_eq!(result.not_exists, vec![missing.0]);
    let result = repo.exists_by_id(&[missing, *a.category_id()]).unwrap();
    assert_eq!(result.exists, vec![a.category_id().0]);
    assert_eq!(result.not_exists, vec![missing.0]);
    assert_eq!(repo.find_all().unwrap().len(), 2);
}

#[test]
fn category_sortable_fields() {
    let repo = CategoryInMemoryRepository::new();
    assert_eq!(repo.sortable_fields(), vec!["name", "created_at"]);
}

#[test]
fn should_filter_deleted_categories() {
    let mut cat1 = make_named_category("Active", now());
    let cat2 = make_named_category("Not deleted", now());
    cat1.mark_as_deleted();
    let criteria = SoftDeleteInMemoryCriteria;
    let result = criteria.apply(vec![cat1, cat2]);
    assert_eq!(result.len(), 1);
    assert_eq!(result[0].name(), "Not deleted");
}

#[test]
fn genre_in_memory_repository_should_insert_and_find_by_id() {
    let mut repo = GenreInMemoryRepository::new();
    let genre = make_genre();
    repo.insert(&genre).unwrap();
    let found = repo.find_by_id(genre.genre_id()).unwrap();
    assert!(found.is_some());
    assert_eq!(found.unwrap().name(), "Action");
}

#[test]
fn genre_in_memory_repository_should_return_none_when_not_found() {
    let repo = GenreInMemoryRepository::new();
    let found = repo.find_by_id(&GenreId::new()).unwrap();
    assert!(found.is_none());
}

#[test]
fn should_filter_by_is_active() {
    let mut repo = GenreInMemoryRepository::new();
    let genre = make_genre();
    repo.insert(&genre).unwrap();
    let found = repo.find_one_by(Some(genre.genre_id()), Some(true)).unwrap();
    assert!(found.is_some());
    let not_found = repo.find_one_by(Some(genre.genre_id()), Some(false)).unwrap();
    assert!(not_found.is_none());
}

#[test]
fn genre_in_memory_repository_should_update_genre() {
    let mut repo = GenreInMemoryRepository::new();
    let mut genre = make_genre();
    repo.insert(&genre).unwrap();
    genre.change_name("Drama".to_string());
    repo.update(&genre).unwrap();
    let found = repo.find_by_id(genre.genre_id()).unwrap().unwrap();
    assert_eq!(found.name(), "Drama");
}

#[test]
fn genre_in_memory_repository_should_delete_genre() {
    let mut repo = GenreInMemoryRepository::new();
    let genre = make_genre();
    repo.insert(&genre).unwrap();
    repo.delete(genre.genre_id()).unwrap();
    let found = repo.find_by_id(genre.genre_id()).unwrap();
    assert!(found.is_none());
}

#[test]
fn genre_in_memory_repository_should_error_on_update_not_found() {
    let mut repo = GenreInMemoryRepository::new();
    let genre = make_genre();
    let result = repo.update(&genre);
    assert!(result.is_err());
}

#[test]
fn genre_scope_hides_soft_deleted() {
    let mut repo = GenreInMemoryRepository::new();
    let mut genre = make_genre();
    repo.insert(&genre).unwrap();
    genre.mark_as_deleted();
    repo.update(&genre).unwrap();
    assert!(repo.find_by_id(genre.genre_id()).unwrap().is_some());
    repo.ignore_soft_deleted();
    assert!(repo.find_by_id(genre.genre_id()).unwrap().is_none());
    assert!(repo.find_all().unwrap().is_empty());
    repo.clear_scopes();
    assert_eq!(repo.find_all().unwrap().len(), 1);
}

#[test]
fn genre_find_by_defaults_to_newest_first() {
    let mut repo = GenreInMemoryRepository::new();
    let older = Genre::create(GenreCreateCommand { created_at: 1, ..GenreCreateCommand {
        genre_id: GenreId::new(), name: "Older".to_string(), categories_props: vec![], is_active: true, created_at: 0 } });
    let newer = Genre::create(GenreCreateCommand { genre_id: GenreId::new(), name: "Newer".to_string(), categories_props: vec![], is_active: true, created_at: 2 });
    repo.insert(&older).unwrap();
    repo.insert(&newer).unwrap();
    let found = repo.find_by(None, None, None).unwrap();
    assert_eq!(found[0].name(), "Newer");
    assert_eq!(found[1].name(), "Older");
}

#[test]
fn cast_member_in_memory_repository_should_insert_and_find_by_id() {
    let mut repo = CastMemberInMemoryRepository::new();
    let cast_member = make_cast_member();
    repo.insert(&cast_member).unwrap();
    let found = repo.find_by_id(cast_member.cast_member_id()).unwrap();
    assert!(found.is_some());
    assert_eq!(found.unwrap().name(), "John Doe");
}

#[test]
fn should_filter_by_type() {
    let mut repo = CastMemberInMemoryRepository::new();
    let actor = make_cast_member();
    let director = CastMember::create(CastMemberCreateCommand {
        cast_member_id: CastMemberId::new(),
        name: "Jane Director".to_string(),
        cast_member_type: CastMemberType::Director,
        created_at: now(),
    });
    repo.insert(&actor).unwrap();
    repo.insert(&director).unwrap();
    let found = repo.find_one_by(None, Some(CastMemberType::Director)).unwrap();
    assert!(found.is_some());
    assert_eq!(found.unwrap().name(), "Jane Director");
}

#[test]
fn cast_member_in_memory_repository_should_update_cast_member() {
    let mut repo = CastMemberInMemoryRepository::new();
    let mut cast_member = make_cast_member();
    repo.insert(&cast_member).unwrap();
    cast_member.change_name("Updated Name".to_string());
    repo.update(&cast_member).unwrap();
    let found = repo.find_by_id(cast_member.cast_member_id()).unwrap().unwrap();
    assert_eq!(found.name(), "Updated Name");
}

#[test]
fn cast_member_in_memory_repository_should_delete_cast_member() {
    let mut repo = CastMemberInMemoryRepository::new();
    let cast_member = make_cast_member();
    repo.insert(&cast_member).unwrap();
    repo.delete(cast_member.cast_member_id()).unwrap();
    let found = repo.find_by_id(cast_member.cast_member_id()).unwrap();
    assert!(found.is_none());
}

#[test]
fn video_in_memory_repository_should_insert_and_find_by_id() {
    let mut repo = VideoInMemoryRepository::new();
    let video = make_video();
    repo.insert(&video).unwrap();
    let found = repo.find_by_id(video.video_id()).unwrap();
    assert!(found.is_some());
    assert_eq!(found.unwrap().title(), "Test Video");
}

#[test]
fn video_in_memory_repository_should_return_none_when_not_found() {
    let repo = VideoInMemoryRepository::new();
    let found = repo.find_by_id(&VideoId::new()).unwrap();
    assert!(found.is_none());
}

#[test]
fn should_filter_by_is_published() {
    let mut repo = VideoInMemoryRepository::new();
    let video = make_video();
    repo.insert(&video).unwrap();
    let found = repo.find_one_by(Some(video.video_id()), Some(true)).unwrap();
    assert!(found.is_some());
    let not_found = repo.find_one_by(Some(video.video_id()), Some(false)).unwrap();
    assert!(not_found.is_none());
}

#[test]
fn video_in_memory_repository_should_update_video() {
    let mut repo = VideoInMemoryRepository::new();
    let mut video = make_video();
    repo.insert(&video).unwrap();
    video.change_title("Updated Title".to_string());
    repo.update(&video).unwrap();
    let found = repo.find_by_id(video.video_id()).unwrap().unwrap();
    assert_eq!(found.title(), "Updated Title");
}

#[test]
fn video_in_memory_repository_should_delete_video() {
    let mut repo = VideoInMemoryRepository::new();
    let video = make_video();
    repo.insert(&video).unwrap();
    repo.delete(video.video_id()).unwrap();
    let found = repo.find_by_id(video.video_id()).unwrap();
    assert!(found.is_none());
}

#[test]
fn video_in_memory_repository_should_error_on_update_not_found() {
    let mut repo = VideoInMemoryRepository::new();
    let video = make_video();
    let result = repo.update(&video);
    assert!(result.is_err());
}
