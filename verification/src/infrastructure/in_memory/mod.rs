pub mod cast_member_in_memory_repository;
pub mod category_in_memory_repository;
pub mod genre_in_memory_repository;
pub mod soft_delete_criteria;
pub mod store;
pub mod video_in_memory_repository;
