use video_catalog::domain::cast_member::aggregate::{CastMember, CastMemberCreateCommand};
use video_catalog::domain::cast_member::cast_member_id::CastMemberId;
use video_catalog::domain::cast_member::cast_member_type::CastMemberType;
use video_catalog::domain::cast_member::nested_cast_member::{NestedCastMember, NestedCastMemberCreateCommand};
use video_catalog::domain::shared::entity::Entity;

/// The current time, in microseconds since the epoch.
fn now() -> i64 {
    chrono::Utc::now().timestamp_micros()
}

fn make_command() -> CastMemberCreateCommand {
    CastMemberCreateCommand {
        cast_member_id: CastMemberId::new(),
        name: "John Doe".to_string(),
        cast_member_type: CastMemberType::Actor,
        created_at: now(),
    }
}

fn make_nested_command() -> NestedCastMemberCreateCommand {
    NestedCastMemberCreateCommand {
        cast_member_id: CastMemberId::new(),
        name: "John Doe".to_string(),
        cast_member_type: CastMemberType::Actor,
        deleted_at: None,
    }
}

#[test]
fn aggregate_should_create_cast_member() {
    let cast_member = CastMember::create(make_command());
    assert_eq!(cast_member.name(), "John Doe");
    assert_eq!(cast_member.cast_member_type(), CastMemberType::Actor);
    assert!(cast_member.deleted_at().is_none());
    assert!(!cast_member.notification().has_errors());
}

#[test]
fn cast_member_aggregate_should_fail_with_name_too_long() {
    let command = CastMemberCreateCommand { name: "a".repeat(256), ..make_command() };
    let cast_member = CastMember::create(command);
    assert!(cast_member.notification().has_errors());
}

#[test]
fn cast_member_aggregate_should_change_name() {
    let mut cast_member = CastMember::create(make_command());
    cast_member.change_name("Jane Doe".to_string());
    assert_eq!(cast_member.name(), "Jane Doe");
}

#[test]
fn aggregate_should_change_type() {
    let mut cast_member = CastMember::create(make_command());
    cast_member.change_type(CastMemberType::Director);
    assert_eq!(cast_member.cast_member_type(), CastMemberType::Director);
}

#[test]
fn cast_member_aggregate_should_mark_as_deleted() {
    let mut cast_member = CastMember::create(make_command());
    assert!(cast_member.deleted_at().is_none());
    cast_member.mark_as_deleted();
    assert!(cast_member.deleted_at().is_some());
    cast_member.mark_as_not_deleted();
    assert!(cast_member.deleted_at().is_none());
}

#[test]
fn cast_member_aggregate_should_convert_to_json() {
    let cast_member = CastMember::create(make_command());
    let json = cast_member.to_json();
    assert_eq!(json.name, "John Doe");
    assert_eq!(json.cast_member_type, CastMemberType::Actor);
    assert!(json.deleted_at.is_none());
}

#[test]
fn should_create_new_cast_member_id() {
    let id = CastMemberId::new();
    assert!(!id.to_string().is_empty());
}

#[test]
fn should_create_from_valid_string() {
    let id_str = "4e9e2e4e-0d1a-4a4b-8c0a-5b0e4e4e4e4e";
    let id = CastMemberId::from(id_str).unwrap();
    assert_eq!(id.to_string(), id_str);
}

#[test]
fn should_compare_equal_ids() {
    let id_str = "4e9e2e4e-0d1a-4a4b-8c0a-5b0e4e4e4e4e";
    let id1 = CastMemberId::from(id_str).unwrap();
    let id2 = CastMemberId::from(id_str).unwrap();
    assert_eq!(id1, id2);
}

#[test]
fn should_create_director_from_u8() {
    let cast_member_type = CastMemberType::from_u8(1).unwrap();
    assert_eq!(cast_member_type, CastMemberType::Director);
}

#[test]
fn should_create_actor_from_u8() {
    let cast_member_type = CastMemberType::from_u8(2).unwrap();
    assert_eq!(cast_member_type, CastMemberType::Actor);
}

#[test]
fn should_fail_with_invalid_value() {
    let result = CastMemberType::from_u8(0);
    assert!(result.is_err());

    let result = CastMemberType::from_u8(3);
    assert!(result.is_err());
}

#[test]
fn should_display_director() {
    assert_eq!(CastMemberType::Director.to_string(), "Director");
}

#[test]
fn should_display_actor() {
    assert_eq!(CastMemberType::Actor.to_string(), "Actor");
}

#[test]
fn cast_member_type_number_round_trip() {
    assert_eq!(CastMemberType::Director.value(), 1);
    assert_eq!(CastMemberType::Actor.value(), 2);
    assert_eq!(CastMemberType::from_u8(CastMemberType::Actor.value()).unwrap(), CastMemberType::Actor);
    assert_eq!(CastMemberType::from_u8(CastMemberType::Director.value()).unwrap(), CastMemberType::Director);
}

#[test]
fn invalid_cast_member_type_message() {
    let err = CastMemberType::from_u8(7).unwrap_err();
    assert_eq!(err.to_string(), "Invalid cast member type: 7. Valid values are 1 (Director) or 2 (Actor)");
}

#[test]
fn should_create_nested_cast_member() {
    let nested = NestedCastMember::create(make_nested_command());
    assert_eq!(nested.name(), "John Doe");
    assert_eq!(nested.cast_member_type(), CastMemberType::Actor);
    assert!(nested.deleted_at().is_none());
    assert!(!nested.notification().has_errors());
}

#[test]
fn nested_cast_member_should_fail_with_name_too_long() {
    let command = NestedCastMemberCreateCommand { name: "a".repeat(256), ..make_nested_command() };
    let nested = NestedCastMember::create(command);
    assert!(nested.notification().has_errors());
}

#[test]
fn nested_cast_member_should_change_name() {
    let mut nested = NestedCastMember::create(make_nested_command());
    nested.change_name("Jane Doe".to_string());
    assert_eq!(nested.name(), "Jane Doe");
}

#[test]
fn nested_cast_member_should_change_type() {
    let mut nested = NestedCastMember::create(make_nested_command());
    nested.change_type(CastMemberType::Director);
    assert_eq!(nested.cast_member_type(), CastMemberType::Director);
}

#[test]
fn nested_cast_member_should_mark_as_deleted() {
    let mut nested = NestedCastMember::create(make_nested_command());
    assert!(nested.deleted_at().is_none());
    nested.mark_as_deleted();
    assert!(nested.deleted_at().is_some());
    nested.mark_as_not_deleted();
    assert!(nested.deleted_at().is_none());
}
