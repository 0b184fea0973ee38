pub mod delete_cast_member;
pub mod save_cast_member;
