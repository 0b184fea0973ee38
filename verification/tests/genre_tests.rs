use video_catalog::domain::category::category_id::CategoryId;
use video_catalog::domain::category::nested_category::{NestedCategory, NestedCategoryCreateCommand};
use video_catalog::domain::genre::aggregate::{Genre, GenreCreateCommand};
use video_catalog::domain::genre::genre_id::GenreId;
use video_catalog::domain::shared::entity::Entity;

/// The current time, in microseconds since the epoch.
fn now() -> i64 {
    chrono::Utc::now().timestamp_micros()
}

fn make_category_props() -> NestedCategoryCreateCommand {
    NestedCategoryCreateCommand {
        category_id: CategoryId::new(),
        name: "Movie".to_string(),
        is_active: true,
        deleted_at: None,
    }
}

fn make_command() -> GenreCreateCommand {
    GenreCreateCommand {
        genre_id: GenreId::new(),
        name: "Action".to_string(),
        categories_props: vec![make_category_props()],
        is_active: true,
        created_at: now(),
    }
}

#[test]
fn aggregate_should_create_genre() {
    let genre = Genre::create(make_command());
    assert_eq!(genre.name(), "Action");
    assert!(genre.is_active());
    assert!(genre.deleted_at().is_none());
    assert_eq!(genre.categories().len(), 1);
    assert!(!genre.notification().has_errors());
}

#[test]
fn should_create_genre_without_categories() {
    let command = GenreCreateCommand { categories_props: vec![], ..make_command() };
    let genre = Genre::create(command);
    assert_eq!(genre.name(), "Action");
    assert!(genre.categories().is_empty());
}

#[test]
fn genre_created_with_repeated_category_keeps_the_later() {
    let props = make_category_props();
    let again = NestedCategoryCreateCommand { name: "Film".to_string(), ..props.clone() };
    let id = props.category_id;
    let genre = Genre::create(GenreCreateCommand { categories_props: vec![props, again], ..make_command() });
    assert_eq!(genre.categories().len(), 1);
    assert_eq!(genre.categories().get(&id.to_string()).unwrap().name(), "Film");
}

#[test]
fn genre_aggregate_should_fail_with_name_too_long() {
    let command = GenreCreateCommand { name: "a".repeat(256), ..make_command() };
    let genre = Genre::create(command);
    assert!(genre.notification().has_errors());
}

#[test]
fn genre_aggregate_should_change_name() {
    let mut genre = Genre::create(make_command());
    genre.change_name("Drama".to_string());
    assert_eq!(genre.name(), "Drama");
}

#[test]
fn should_add_nested_category() {
    let mut genre = Genre::create(GenreCreateCommand { categories_props: vec![], ..make_command() });
    assert!(genre.categories().is_empty());
    let nested = NestedCategory::create(make_category_props());
    genre.add_nested_category(nested);
    assert_eq!(genre.categories().len(), 1);
}

#[test]
fn should_remove_nested_category() {
    let props = make_category_props();
    let category_id = props.category_id;
    let mut genre = Genre::create(GenreCreateCommand { categories_props: vec![props], ..make_command() });
    assert_eq!(genre.categories().len(), 1);
    genre.remove_nested_category(&category_id);
    assert!(genre.categories().is_empty());
}

#[test]
fn should_activate_nested_category() {
    let props = NestedCategoryCreateCommand { is_active: false, ..make_category_props() };
    let category_id = props.category_id;
    let mut genre = Genre::create(GenreCreateCommand { categories_props: vec![props], ..make_command() });
    let nested = genre.categories().get(&category_id.to_string()).unwrap();
    assert!(!nested.is_active());
    genre.activate_nested_category(&category_id);
    let nested = genre.categories().get(&category_id.to_string()).unwrap();
    assert!(nested.is_active());
}

#[test]
fn should_deactivate_nested_category() {
    let props = make_category_props();
    let category_id = props.category_id;
    let mut genre = Genre::create(GenreCreateCommand { categories_props: vec![props], ..make_command() });
    genre.deactivate_nested_category(&category_id);
    let nested = genre.categories().get(&category_id.to_string()).unwrap();
    assert!(!nested.is_active());
}

#[test]
fn should_change_nested_category_name() {
    let props = make_category_props();
    let category_id = props.category_id;
    let mut genre = Genre::create(GenreCreateCommand { categories_props: vec![props], ..make_command() });
    genre.change_nested_category_name(&category_id, "Documentary".to_string());
    let nested = genre.categories().get(&category_id.to_string()).unwrap();
    assert_eq!(nested.name(), "Documentary");
}

#[test]
fn genre_aggregate_should_sync_nested_categories() {
    let mut genre = Genre::create(make_command());
    assert_eq!(genre.categories().len(), 1);
    let new_cat1 = NestedCategory::create(make_category_props());
    let new_cat2 = NestedCategory::create(make_category_props());
    genre.sync_nested_categories(vec![new_cat1, new_cat2]);
    assert_eq!(genre.categories().len(), 2);
}

#[test]
fn genre_aggregate_should_activate_deactivate() {
    let mut genre = Genre::create(make_command());
    genre.deactivate();
    assert!(!genre.is_active());
    genre.activate();
    assert!(genre.is_active());
}

#[test]
fn genre_aggregate_should_mark_as_deleted() {
    let mut genre = Genre::create(make_command());
    assert!(genre.deleted_at().is_none());
    genre.mark_as_deleted();
    assert!(genre.deleted_at().is_some());
    genre.mark_as_undeleted();
    assert!(genre.deleted_at().is_none());
}

#[test]
fn genre_aggregate_should_change_created_at() {
    let mut genre = Genre::create(make_command());
    let new_date = chrono::DateTime::parse_from_rfc3339("2024-01-01T00:00:00Z")
        .unwrap()
        .with_timezone(&chrono::Utc)
        .timestamp_micros();
    genre.change_created_at(new_date);
    assert_eq!(genre.created_at(), new_date);
}
