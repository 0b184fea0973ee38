pub mod aggregate;
pub mod cast_member_id;
pub mod cast_member_repository;
pub mod cast_member_type;
pub mod nested_cast_member;
