use video_catalog::domain::category::aggregate::{Category, CategoryCreateCommand};
use video_catalog::domain::category::category_id::CategoryId;
use video_catalog::domain::category::category_repository::ICategoryRepository;
use video_catalog::infrastructure::in_memory::category_in_memory_repository::CategoryInMemoryRepository;
use video_catalog::kafka::category_consumer::{CategoryCdcData as ConsumedRow, CategoryConsumer, CategoryConsumerError};
use video_catalog::kafka::category_handler::{CategoryCdcData, CategoryCdcHandler, MysqlBool};
use video_catalog::kafka::cdc::{CdcOperation, CdcPayload};
use video_catalog::kafka::consumer::{classify_error, ConsumerError};
use video_catalog::kafka::retry::{dlq_topic, ErrorKind, RetryAction, RetryConfig, RetryState};

/// The current time, in microseconds since the epoch.
fn now() -> i64 {
    chrono::Utc::now().timestamp_micros()
}

#[test]
fn should_create_deserialization_error() {
    let err = ConsumerError::deserialization("bad json");
    assert!(err.is_deserialization());
    assert!(!err.is_tombstone());
    assert!(!err.is_handler());
    assert!(err.to_string().contains("bad json"));
}

#[test]
fn should_create_handler_error() {
    let err = ConsumerError::handler("use case failed");
    assert!(err.is_handler());
    assert!(err.to_string().contains("use case failed"));
}

#[test]
fn should_create_tombstone_error() {
    let err = ConsumerError::tombstone("categories");
    assert!(err.is_tombstone());
    assert!(err.to_string().contains("categories"));
}

#[test]
fn should_create_missing_after_error() {
    let err = ConsumerError::missing_after("categories", "c");
    assert!(err.to_string().contains("missing 'after' field"));
    assert!(err.to_string().contains("op=c"));
}

#[test]
fn should_create_missing_before_error() {
    let err = ConsumerError::missing_before("categories", "d");
    assert!(err.to_string().contains("missing 'before' field"));
    assert!(err.to_string().contains("op=d"));
}

#[test]
fn consumer_error_messages() {
    assert_eq!(ConsumerError::deserialization("x").to_string(), "deserialization error: x");
    assert_eq!(ConsumerError::handler("y").to_string(), "handler error: y");
    assert_eq!(ConsumerError::tombstone("t").to_string(), "tombstone message on topic t (skipped)");
    assert_eq!(ConsumerError::missing_after("t", "u").to_string(), "missing 'after' field for op=u on topic t");
    assert_eq!(ConsumerError::missing_before("t", "d").to_string(), "missing 'before' field for op=d on topic t");
}

#[test]
fn operation_codes() {
    assert_eq!(CdcOperation::Read.to_string(), "r");
    assert_eq!(CdcOperation::Create.to_string(), "c");
    assert_eq!(CdcOperation::Update.to_string(), "u");
    assert_eq!(CdcOperation::Delete.to_string(), "d");
}

#[test]
fn mysql_bool_from_number() {
    assert!(MysqlBool::from(1u8).as_bool());
    assert!(MysqlBool::from(7u8).as_bool());
    assert!(!MysqlBool::from(0u8).as_bool());
    assert!(MysqlBool::from_number(1).as_bool());
}

fn row(id: &str, name: &str, active: u8) -> CategoryCdcData {
    CategoryCdcData {
        category_id: id.to_string(),
        name: name.to_string(),
        description: Some("A movie category".to_string()),
        is_active: MysqlBool::from(active),
        created_at: now(),
    }
}

#[derive(Clone)]
struct SharedFree;

#[test]
fn should_handle_create_event() {
    let mut handler = CategoryCdcHandler::new(CategoryInMemoryRepository::new());
    let category_id = CategoryId::new().to_string();
    let payload = CdcPayload { op: CdcOperation::Create, before: None, after: Some(row(&category_id, "Movie", 1)) };
    let result = handler.handle(Ok(payload), "categories");
    assert!(result.is_ok());
    let _ = SharedFree;
}

#[test]
fn should_handle_update_event() {
    let mut repo = CategoryInMemoryRepository::new();
    let category = Category::create(CategoryCreateCommand {
        category_id: CategoryId::new(),
        name: "Movie".to_string(),
        description: None,
        is_active: true,
        created_at: now(),
    });
    repo.insert(&category).expect("insert");
    let mut handler = CategoryCdcHandler::new(repo);
    let id = category.category_id().to_string();
    let payload = CdcPayload { op: CdcOperation::Update, before: Some(row(&id, "Movie", 1)), after: Some(row(&id, "Documentary", 0)) };
    let result = handler.handle(Ok(payload), "categories");
    assert!(result.is_ok());
}

#[test]
fn should_handle_delete_event() {
    let mut repo = CategoryInMemoryRepository::new();
    let category = Category::create(CategoryCreateCommand {
        category_id: CategoryId::new(),
        name: "Movie".to_string(),
        description: None,
        is_active: true,
        created_at: now(),
    });
    repo.insert(&category).expect("insert");
    let mut handler = CategoryCdcHandler::new(repo);
    let id = category.category_id().to_string();
    let payload = CdcPayload { op: CdcOperation::Delete, before: Some(row(&id, "Movie", 1)), after: None };
    let result = handler.handle(Ok(payload), "categories");
    assert!(result.is_ok());
}

#[test]
fn should_fail_with_invalid_json() {
    let mut handler = CategoryCdcHandler::new(CategoryInMemoryRepository::new());
    let result = handler.handle(Err("expected value at line 1 column 1".to_string()), "categories");
    assert!(result.is_err());
    let err = result.unwrap_err();
    assert!(err.is_deserialization());
}

#[test]
fn should_fail_when_after_is_missing_on_create() {
    let mut handler = CategoryCdcHandler::new(CategoryInMemoryRepository::new());
    let payload = CdcPayload { op: CdcOperation::Create, before: None, after: None };
    let result = handler.handle(Ok(payload), "categories");
    assert!(result.is_err());
    assert!(result.unwrap_err().to_string().contains("missing 'after'"));
}

#[test]
fn should_fail_when_before_is_missing_on_delete() {
    let mut handler = CategoryCdcHandler::new(CategoryInMemoryRepository::new());
    let payload = CdcPayload { op: CdcOperation::Delete, before: None, after: None };
    let result = handler.handle(Ok(payload), "categories");
    assert!(result.is_err());
    assert!(result.unwrap_err().to_string().contains("missing 'before'"));
}

#[test]
fn handler_reports_use_case_failure() {
    let mut handler = CategoryCdcHandler::new(CategoryInMemoryRepository::new());
    let payload = CdcPayload { op: CdcOperation::Create, before: None, after: Some(row("not-a-uuid", "Movie", 1)) };
    let err = handler.handle(Ok(payload), "categories").unwrap_err();
    assert!(err.is_handler());
    assert_eq!(err.to_string(), "handler error: invalid category id: Invalid UUID: not-a-uuid");
}

fn make_consumer() -> CategoryConsumer<CategoryInMemoryRepository, CategoryInMemoryRepository> {
    CategoryConsumer::new(CategoryInMemoryRepository::new(), CategoryInMemoryRepository::new())
}

fn consumed_row(created_at: &str) -> ConsumedRow {
    ConsumedRow {
        category_id: "4e9e2e4e-0d1a-4a4b-8c0a-5b0e4e4e4e4e".to_string(),
        name: "Movie".to_string(),
        description: Some("Movie category".to_string()),
        is_active: 1,
        created_at: created_at.to_string(),
    }
}

#[test]
fn should_discard_tombstone_event() {
    let mut consumer = make_consumer();
    let result = consumer.handle(None);
    assert!(result.is_ok());
}

#[test]
fn should_discard_read_operation() {
    let mut consumer = make_consumer();
    let payload = CdcPayload { op: CdcOperation::Read, before: None, after: None };
    let result = consumer.handle(Some(Ok(payload)));
    assert!(result.is_ok());
}

#[test]
fn should_create_category_on_create_event() {
    let mut consumer = make_consumer();
    let payload = CdcPayload { op: CdcOperation::Create, before: None, after: Some(consumed_row("2024-01-01T00:00:00Z")) };
    let result = consumer.handle(Some(Ok(payload)));
    assert!(result.is_ok());
}

#[test]
fn should_return_error_on_invalid_json() {
    let mut consumer = make_consumer();
    let result = consumer.handle(Some(Err("expected value at line 1 column 1".to_string())));
    assert!(matches!(result, Err(CategoryConsumerError::Deserialization(_))));
}

#[test]
fn consumer_refuses_bad_date() {
    let mut consumer = make_consumer();
    let payload = CdcPayload { op: CdcOperation::Update, before: None, after: Some(consumed_row("yesterday")) };
    let result = consumer.handle(Some(Ok(payload)));
    assert!(matches!(result, Err(CategoryConsumerError::InvalidDate(_))));
}

#[test]
fn consumer_reports_missing_rows() {
    let mut consumer = make_consumer();
    let result = consumer.handle(Some(Ok(CdcPayload { op: CdcOperation::Create, before: None, after: None })));
    assert_eq!(result, Err(CategoryConsumerError::MissingField));
    let result = consumer.handle(Some(Ok(CdcPayload { op: CdcOperation::Delete, before: None, after: None })));
    assert_eq!(result, Err(CategoryConsumerError::MissingField));
    assert_eq!(CategoryConsumerError::MissingField.to_string(), "missing payload field");
}

#[test]
fn consumer_delete_of_unknown_category_fails_the_use_case() {
    let mut consumer = make_consumer();
    let payload = CdcPayload { op: CdcOperation::Delete, before: Some(consumed_row("2024-01-01T00:00:00Z")), after: None };
    let result = consumer.handle(Some(Ok(payload)));
    match result {
        Err(e @ CategoryConsumerError::UseCase(_)) => assert_eq!(
            e.to_string(),
            "use case error: Category Not Found using ID 4e9e2e4e-0d1a-4a4b-8c0a-5b0e4e4e4e4e"
        ),
        other => panic!("unexpected {other:?}"),
    }
}

#[test]
fn consumer_errors_are_classified() {
    assert_eq!(classify_error(&CategoryConsumerError::UseCase("down".to_string())), ErrorKind::Retriable);
    assert_eq!(classify_error(&CategoryConsumerError::MissingField), ErrorKind::NonRetriable);
    assert_eq!(classify_error(&CategoryConsumerError::InvalidDate("x".to_string())), ErrorKind::NonRetriable);
    assert_eq!(classify_error(&CategoryConsumerError::Deserialization("x".to_string())), ErrorKind::NonRetriable);
}

#[test]
fn retry_config_defaults() {
    let config = RetryConfig::default();
    assert_eq!(config.retry_delays, vec![1, 3, 9]);
    assert_eq!(config.max_retries(), 3);
    assert_eq!(dlq_topic("categories"), "categories-dlq");
}

#[test]
fn retries_then_dead_letters_with_first_error() {
    let config = RetryConfig::default();
    let mut state = RetryState::new();
    let failure = |m: &str| Err((ErrorKind::Retriable, m.to_string()));
    assert_eq!(state.after_attempt(&config, failure("first")), RetryAction::RetryAfter(1));
    assert_eq!(state.after_attempt(&config, failure("second")), RetryAction::RetryAfter(3));
    assert_eq!(state.after_attempt(&config, failure("third")), RetryAction::RetryAfter(9));
    assert_eq!(state.after_attempt(&config, failure("fourth")), RetryAction::SendToDlq("first".to_string()));
}

#[test]
fn non_retriable_error_goes_to_dlq_at_once() {
    let config = RetryConfig::default();
    let mut state = RetryState::new();
    assert_eq!(
        state.after_attempt(&config, Err((ErrorKind::NonRetriable, "bad".to_string()))),
        RetryAction::SendToDlq("bad".to_string())
    );
    let mut state = RetryState::new();
    assert_eq!(state.after_attempt(&config, Err((ErrorKind::Retriable, "down".to_string()))), RetryAction::RetryAfter(1));
    assert_eq!(
        state.after_attempt(&config, Err((ErrorKind::NonRetriable, "bad".to_string()))),
        RetryAction::SendToDlq("bad".to_string())
    );
}

#[test]
fn success_after_retry_is_done() {
    let config = RetryConfig::default();
    let mut state = RetryState::new();
    assert_eq!(state.after_attempt(&config, Err((ErrorKind::Retriable, "down".to_string()))), RetryAction::RetryAfter(1));
    assert_eq!(state.after_attempt(&config, Ok(())), RetryAction::Done);
}

#[test]
fn no_delays_means_dead_letter_on_first_failure() {
    let config = RetryConfig { retry_delays: vec![] };
    let mut state = RetryState::new();
    assert_eq!(
        state.after_attempt(&config, Err((ErrorKind::Retriable, "down".to_string()))),
        RetryAction::SendToDlq("down".to_string())
    );
}
