use video_catalog::domain::category::aggregate::{Category, CategoryCreateCommand};
use video_catalog::domain::category::category_id::CategoryId;
use video_catalog::domain::category::nested_category::{NestedCategory, NestedCategoryCreateCommand};
use video_catalog::domain::shared::entity::Entity;

/// The current time, in microseconds since the epoch.
fn now() -> i64 {
    chrono::Utc::now().timestamp_micros()
}

fn make_command() -> CategoryCreateCommand {
    CategoryCreateCommand {
        category_id: CategoryId::new(),
        name: "Movie".to_string(),
        description: Some("some description".to_string()),
        is_active: true,
        created_at: now(),
    }
}

fn make_nested_command() -> NestedCategoryCreateCommand {
    NestedCategoryCreateCommand {
        category_id: CategoryId::new(),
        name: "Movie".to_string(),
        is_active: true,
        deleted_at: None,
    }
}

#[test]
fn aggregate_should_create_category() {
    let category = Category::create(make_command());
    assert_eq!(category.name(), "Movie");
    assert_eq!(category.description(), Some("some description"));
    assert!(category.is_active());
    assert!(category.deleted_at().is_none());
    assert!(!category.notification().has_errors());
}

#[test]
fn category_aggregate_should_fail_with_name_too_long() {
    let command = CategoryCreateCommand { name: "a".repeat(256), ..make_command() };
    let category = Category::create(command);
    assert!(category.notification().has_errors());
}

#[test]
fn category_name_of_255_bytes_is_valid() {
    let command = CategoryCreateCommand { name: "a".repeat(255), ..make_command() };
    let category = Category::create(command);
    assert!(!category.notification().has_errors());
}

#[test]
fn category_name_too_long_message() {
    let command = CategoryCreateCommand { name: "é".repeat(128), ..make_command() };
    let category = Category::create(command);
    assert!(category.notification().has_errors());
    assert_eq!(
        category.notification().to_error_messages(),
        vec!["name: name must be shorter than or equal to 255 characters".to_string()]
    );
}

#[test]
fn category_aggregate_should_change_name() {
    let mut category = Category::create(make_command());
    category.change_name("Documentary".to_string());
    assert_eq!(category.name(), "Documentary");
}

#[test]
fn category_aggregate_should_activate_deactivate() {
    let mut category = Category::create(make_command());
    category.deactivate();
    assert!(!category.is_active());
    category.activate();
    assert!(category.is_active());
}

#[test]
fn category_aggregate_should_mark_as_deleted() {
    let mut category = Category::create(make_command());
    assert!(category.deleted_at().is_none());
    category.mark_as_deleted();
    assert!(category.deleted_at().is_some());
    category.mark_as_not_deleted();
    assert!(category.deleted_at().is_none());
}

#[test]
fn category_aggregate_should_convert_to_json() {
    let category = Category::create(make_command());
    let json = category.to_json();
    assert_eq!(json.name, "Movie");
    assert!(json.deleted_at.is_none());
    assert_eq!(json.category_id, category.category_id().to_string());
}

#[test]
fn should_create_nested_category() {
    let nested = NestedCategory::create(make_nested_command());
    assert_eq!(nested.name(), "Movie");
    assert!(nested.is_active());
    assert!(nested.deleted_at().is_none());
    assert!(!nested.notification().has_errors());
}

#[test]
fn nested_category_should_fail_with_name_too_long() {
    let command = NestedCategoryCreateCommand { name: "a".repeat(256), ..make_nested_command() };
    let nested = NestedCategory::create(command);
    assert!(nested.notification().has_errors());
}

#[test]
fn nested_category_should_change_name() {
    let mut nested = NestedCategory::create(make_nested_command());
    nested.change_name("Documentary".to_string());
    assert_eq!(nested.name(), "Documentary");
}

#[test]
fn nested_category_should_activate_deactivate() {
    let mut nested = NestedCategory::create(make_nested_command());
    nested.deactivate();
    assert!(!nested.is_active());
    nested.activate();
    assert!(nested.is_active());
}

#[test]
fn nested_category_should_mark_as_deleted() {
    let mut nested = NestedCategory::create(make_nested_command());
    assert!(nested.deleted_at().is_none());
    nested.mark_as_deleted();
    assert!(nested.deleted_at().is_some());
    nested.mark_as_not_deleted();
    assert!(nested.deleted_at().is_none());
}
