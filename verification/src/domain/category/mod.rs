pub mod aggregate;
pub mod category_id;
pub mod category_repository;
pub mod nested_category;
