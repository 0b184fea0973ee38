use video_catalog::application::category::list_all_categories::ListCategoriesError;
use video_catalog::application::genre::list_all_genres::ListGenresError;
use video_catalog::application::video::list_videos::ListVideosError;
use video_catalog::infrastructure::elasticsearch::genre_es_repository::GenreEsRepositoryError;
use video_catalog::infrastructure::in_memory::category_in_memory_repository::InMemoryError;
use video_catalog::config::{parse_port, Config};
use video_catalog::domain::shared::notification::Notification;
use video_catalog::domain::shared::repository::{SearchParams, SearchResult, SortDirection};
use video_catalog::domain::shared::text::decimal_text;
use video_catalog::domain::shared::value_object::UuidVo;

#[test]
fn should_create_empty_notification() {
    let notification = Notification::new();
    assert!(!notification.has_errors());
}

#[test]
fn should_add_error_with_field() {
    let mut notification = Notification::new();
    notification.add_error("name is required", Some("name"));
    assert!(notification.has_errors());
    assert_eq!(notification.errors().get("name").unwrap(), &vec!["name is required".to_string()]);
}

#[test]
fn should_add_global_error() {
    let mut notification = Notification::new();
    notification.add_error("something went wrong", None);
    assert!(notification.has_errors());
    assert!(notification.errors().contains_key("_global"));
}

#[test]
fn should_copy_errors_from_another_notification() {
    let mut n1 = Notification::new();
    n1.add_error("error1", Some("field1"));
    let mut n2 = Notification::new();
    n2.add_error("error2", Some("field2"));
    n1.copy_errors(&n2);
    assert!(n1.errors().contains_key("field1"));
    assert!(n1.errors().contains_key("field2"));
}

#[test]
fn notification_appends_messages_of_a_field() {
    let mut notification = Notification::new();
    notification.add_error("first", Some("name"));
    notification.add_error("second", Some("name"));
    assert_eq!(notification.errors().len(), 1);
    assert_eq!(
        notification.errors().get("name").unwrap(),
        &vec!["first".to_string(), "second".to_string()]
    );
}

#[test]
fn notification_set_error_replaces_messages() {
    let mut notification = Notification::new();
    notification.add_error("first", Some("name"));
    notification.set_error(vec!["only".to_string()], Some("name"));
    assert_eq!(notification.errors().get("name").unwrap(), &vec!["only".to_string()]);
}

#[test]
fn notification_copy_merges_same_field() {
    let mut n1 = Notification::new();
    n1.add_error("a", Some("name"));
    let mut n2 = Notification::new();
    n2.add_error("b", Some("name"));
    n2.add_error("c", None);
    n1.copy_errors(&n2);
    assert_eq!(n1.errors().get("name").unwrap(), &vec!["a".to_string(), "b".to_string()]);
    assert_eq!(n1.errors().get("_global").unwrap(), &vec!["c".to_string()]);
    assert_eq!(n1.to_error_messages(), vec!["name: a".to_string(), "name: b".to_string(), "_global: c".to_string()]);
}

#[test]
fn search_params_defaults() {
    let params = SearchParams::<String>::default();
    assert_eq!(params.page, 1);
    assert_eq!(params.per_page, 15);
    assert!(params.sort.is_none());
    assert!(params.filter.is_none());
}

#[test]
fn search_result_last_page() {
    let result: SearchResult<()> = SearchResult { items: vec![], total: 97, current_page: 1, per_page: 15 };
    assert_eq!(result.last_page(), 7);
}

#[test]
fn search_result_last_page_empty() {
    let result: SearchResult<()> = SearchResult { items: vec![], total: 0, current_page: 1, per_page: 15 };
    assert_eq!(result.last_page(), 1);
}

#[test]
fn search_result_last_page_exact() {
    let result: SearchResult<()> = SearchResult { items: vec![], total: 30, current_page: 1, per_page: 15 };
    assert_eq!(result.last_page(), 2);
    let result: SearchResult<()> = SearchResult { items: vec![], total: 31, current_page: 1, per_page: 15 };
    assert_eq!(result.last_page(), 3);
}

#[test]
fn sort_direction_text() {
    assert_eq!(SortDirection::Asc.as_str(), "asc");
    assert_eq!(SortDirection::Desc.as_str(), "desc");
}

#[test]
fn should_create_new_uuid() {
    let uuid = UuidVo::new();
    assert!(!uuid.to_string().is_empty());
}

#[test]
fn should_create_uuid_from_valid_string() {
    let id = "4e9e2e4e-0d1a-4a4b-8c0a-5b0e4e4e4e4e";
    let uuid = UuidVo::from(id).unwrap();
    assert_eq!(uuid.to_string(), id);
}

#[test]
fn should_fail_with_invalid_uuid_string() {
    let result = UuidVo::from("invalid");
    assert!(result.is_err());
    assert_eq!(result.unwrap_err().to_string(), "Invalid UUID: invalid");
}

#[test]
fn should_compare_equal_uuids() {
    let id = "4e9e2e4e-0d1a-4a4b-8c0a-5b0e4e4e4e4e";
    let uuid1 = UuidVo::from(id).unwrap();
    let uuid2 = UuidVo::from(id).unwrap();
    assert_eq!(uuid1, uuid2);
}

#[test]
fn should_compare_different_uuids() {
    let uuid1 = UuidVo::new();
    let uuid2 = UuidVo::new();
    assert_ne!(uuid1, uuid2);
}

#[test]
fn uuid_text_is_lowercase_hyphenated() {
    let uuid = UuidVo::from("4E9E2E4E0D1A4A4B8C0A5B0E4E4E4E4E").unwrap();
    assert_eq!(uuid.to_string(), "4e9e2e4e-0d1a-4a4b-8c0a-5b0e4e4e4e4e");
    assert_eq!(uuid.id(), 0x4e9e2e4e_0d1a_4a4b_8c0a_5b0e4e4e4e4e_u128);
}

#[test]
fn decimal_text_values() {
    assert_eq!(decimal_text(0), "0");
    assert_eq!(decimal_text(7), "7");
    assert_eq!(decimal_text(1024), "1024");
    assert_eq!(decimal_text(u64::MAX), "18446744073709551615");
}

#[test]
fn port_parsing() {
    assert_eq!(parse_port("3000"), Some(3000));
    assert_eq!(parse_port("+8080"), Some(8080));
    assert_eq!(parse_port("65535"), Some(65535));
    assert_eq!(parse_port("65536"), None);
    assert_eq!(parse_port("999999999999"), None);
    assert_eq!(parse_port(""), None);
    assert_eq!(parse_port("+"), None);
    assert_eq!(parse_port("-1"), None);
    assert_eq!(parse_port("80a"), None);
    assert_eq!(parse_port(" 80"), None);
    assert_eq!(parse_port("0"), Some(0));
}

#[test]
fn config_defaults() {
    let config = Config::from_values(None, None, None);
    assert_eq!(config.elastic_search_host, "http://localhost:9200");
    assert_eq!(config.elastic_search_index, "catalog");
    assert_eq!(config.port, 3000);
    let config = Config::from_values(Some("http://es:9200".to_string()), Some("videos".to_string()), Some("bad".to_string()));
    assert_eq!(config.elastic_search_host, "http://es:9200");
    assert_eq!(config.elastic_search_index, "videos");
    assert_eq!(config.port, 3000);
    let config = Config::from_values(None, None, Some("8080".to_string()));
    assert_eq!(config.port, 8080);
}

#[test]
fn new_ids_are_version_4_uuids() {
    let texts = vec![
        UuidVo::new().to_string(),
        video_catalog::domain::category::category_id::CategoryId::new().to_string(),
        video_catalog::domain::genre::genre_id::GenreId::new().to_string(),
        video_catalog::domain::video::video_id::VideoId::new().to_string(),
        video_catalog::domain::cast_member::cast_member_id::CastMemberId::new().to_string(),
    ];
    for text in texts {
        let chars: Vec<char> = text.chars().collect();
        assert_eq!(chars[14], '4');
        assert!("89ab".contains(chars[19]));
    }
}

#[test]
fn listing_errors_give_the_repository_message() {
    assert_eq!(ListCategoriesError::Repository(InMemoryError::LockPoisoned).to_string(), "lock poisoned");
    assert_eq!(
        ListGenresError::Repository(GenreEsRepositoryError::Mapping("bad".to_string())).to_string(),
        "mapping error: bad"
    );
    assert_eq!(ListVideosError::Repository(InMemoryError::LockPoisoned).to_string(), "lock poisoned");
}
